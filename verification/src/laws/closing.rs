//! Exporting and destroying pools.
use vstd::prelude::*;
use crate::cli::{props_of, DsPropsView};
use crate::ds_pool::ZfsPool;
use crate::error::{Error, ErrorView};
use crate::flow::pool_remove::{
    containers, foreign_of, is_foreign, next_open, PoolDestroy, PoolExport, PoolExportAll,
};
use crate::flow::volume::VolList;
use crate::laws::commands::runs_zfs;
use crate::laws::reported::tells_own;
use crate::operation::{Effect, Reply, Step};
use crate::text::chars::texts;
use crate::zvol_replica::{vol_views, VolQueryArgs, VolView, ZfsVol};

verus! {

/// The query is for all the replicas of the dataset.
pub open spec fn all_within(query: VolQueryArgs, dataset: Seq<char>) -> bool {
    &&& query.dataset is Some && query.dataset->0@ == dataset
    &&& query.vol.uuid is None
    &&& query.vol.name is None
    &&& query.pool.uuid is None
    &&& query.pool.name is None
}

/// Exporting a pool, and listing its replicas, look at the replicas of that pool and of no other.
pub proof fn law_pool_replicas(
    pool: ZfsPool,
    dataset: String,
    a: Step<PoolExport, ()>,
    b: Step<PoolExport, ()>,
    c: Step<VolList, Vec<ZfsVol>>,
)
    requires
        call_ensures(ZfsPool::export, (&pool,), a),
        call_ensures(PoolExport::start, (dataset,), b),
        call_ensures(ZfsPool::list_vols, (&pool,), c),
    ensures
        a is Do,
        a->Do_0 is ListVols,
        all_within(a->Do_0->ListVols_0, pool@.dataset),
        a->Do_1 is Listing,
        a->Do_1->Listing_dataset@ == pool@.dataset,
        b is Do,
        b->Do_0 is ListVols,
        all_within(b->Do_0->ListVols_0, dataset@),
        b->Do_1 == (PoolExport::Listing { dataset }),
        c is Do,
        c->Do_0 is Run,
        c->Do_0->Run_0@.argv.last() == pool@.dataset,
        c->Do_1 is Fetching,
        all_within(c->Do_1->Fetching_query, pool@.dataset),
{
}

proof fn lemma_next_open(vols: Seq<VolView>, at: int, open: int)
    requires
        0 <= at <= open <= vols.len(),
        forall|i: int| at <= i < open ==> (#[trigger] vols[i]).bdev is None,
        open < vols.len() ==> vols[open].bdev is Some,
    ensures
        next_open(vols, at) == open,
    decreases open - at,
{
    if at < open {
        assert(vols[at].bdev is None);
        lemma_next_open(vols, at + 1, open);
    }
}

/// Where a pool is being exported from: its dataset, its replicas and the position of the first of
/// them which was not looked at yet.
pub open spec fn exported_from(m: PoolExport, reply: Reply) -> Option<(String, Vec<ZfsVol>, int)> {
    match (m, reply) {
        (PoolExport::Listing { dataset }, Reply::Vols(Ok(vols))) => Some((dataset, vols, 0int)),
        (PoolExport::Closing { dataset, vols, at }, Reply::Finished(Ok(_))) => Some(
            (dataset, vols, at as int),
        ),
        _ => None,
    }
}

/// Exporting a pool closes the bdevs of its replicas, one after the other. Only when none is left
/// open is the ownership of the pool dropped.
pub proof fn law_pool_export(
    m: PoolExport,
    reply: Reply,
    dataset: String,
    vols: Vec<ZfsVol>,
    at: int,
    open: int,
    next: Step<PoolExport, ()>,
)
    requires
        exported_from(m, reply) == Some((dataset, vols, at)),
        m.resumed(reply, next),
        0 <= at <= open <= vols@.len(),
        forall|i: int| at <= i < open ==> (#[trigger] vols@[i])@.bdev is None,
        open < vols@.len() ==> vols@[open]@.bdev is Some,
    ensures
        open < vols@.len() ==> {
            &&& next is Do
            &&& next->Do_0 is CloseBdev
            &&& next->Do_0->CloseBdev_0@ == vols@[open]@.bdev->0.open_uri
            &&& next->Do_1 is Closing
            &&& next->Do_1->Closing_dataset == dataset
            &&& next->Do_1->Closing_vols == vols
            &&& next->Do_1->Closing_at == open + 1
        },
        open == vols@.len() ==> runs_zfs(next, seq!["inherit"@, "io.mayastor:pool"@, dataset@])
            && next->Do_1 is Inheriting,
{
    let views = vol_views(vols@);
    assert forall|i: int| at <= i < open implies (#[trigger] views[i]).bdev is None by {
        assert(views[i] == vols@[i]@);
    }
    lemma_next_open(views, at, open);
}

/// An export ends with the first failure, or with the ownership dropped.
pub proof fn law_pool_export_ends(
    m: PoolExport,
    error: Error,
    output: String,
    next: Step<PoolExport, ()>,
)
    ensures
        m is Listing && m.resumed(Reply::Vols(Err(error)), next) ==> next == Step::<
            PoolExport,
            (),
        >::Failed(error),
        m is Closing && m.resumed(Reply::Finished(Err(error)), next) ==> next == Step::<
            PoolExport,
            (),
        >::Failed(error),
        m is Inheriting && m.resumed(Reply::Output(Err(error)), next) ==> next == Step::<
            PoolExport,
            (),
        >::Failed(error),
        m is Inheriting && m.resumed(Reply::Output(Ok(output)), next) ==> next == Step::<
            PoolExport,
            (),
        >::Done(()),
{
}

/// Exporting all pools starts with whatever pools there are, exports them in the order in which
/// they are listed, and goes on whatever comes of each.
pub proof fn law_export_all(
    first: Step<PoolExportAll, ()>,
    pools: Vec<ZfsPool>,
    error: Error,
    rest: Vec<String>,
    ended: Result<(), Error>,
    next: Step<PoolExportAll, ()>,
)
    requires
        call_ensures(ZfsPool::export_all, (), first),
    ensures
        first is Do,
        first->Do_0 is ListPools,
        first->Do_0->ListPools_0.name is None,
        first->Do_0->ListPools_0.uuid is None,
        first->Do_1 is Listing,
        PoolExportAll::Listing.resumed(Reply::Pools(Ok(pools)), next) && pools@.len() > 0 ==> {
            &&& next is Do
            &&& next->Do_0 is ExportPool
            &&& next->Do_0->ExportPool_0@ == pools@[0]@.dataset
            &&& next->Do_1 is Exporting
            &&& next->Do_1->Exporting_rest@.len() == pools@.len() - 1
            &&& forall|i: int|
                0 <= i < pools@.len() - 1 ==> (#[trigger] next->Do_1->Exporting_rest@[i])@
                    == pools@[pools@.len() - 1 - i]@.dataset
        },
        PoolExportAll::Listing.resumed(Reply::Pools(Ok(pools)), next) && pools@.len() == 0
            ==> next is Done,
        PoolExportAll::Listing.resumed(Reply::Pools(Err(error)), next) ==> next is Done,
        (PoolExportAll::Exporting { rest }).resumed(Reply::Finished(ended), next) && rest@.len() > 0
            ==> {
            &&& next is Do
            &&& next->Do_0 is ExportPool
            &&& next->Do_0->ExportPool_0@ == rest@.last()@
            &&& next->Do_1 is Exporting
            &&& next->Do_1->Exporting_rest@.len() == rest@.len() - 1
            &&& forall|i: int|
                0 <= i < rest@.len() - 1 ==> (#[trigger] next->Do_1->Exporting_rest@[i])@
                    == rest@[i]@
        },
        (PoolExportAll::Exporting { rest }).resumed(Reply::Finished(ended), next) && rest@.len()
            == 0 ==> next is Done,
{
    let all = containers(pools@).reverse();
    if PoolExportAll::Listing.resumed(Reply::Pools(Ok(pools)), next) && pools@.len() > 0 {
        let left = next->Do_1->Exporting_rest@;
        assert(texts(left).len() == left.len());
        assert forall|i: int| 0 <= i < pools@.len() - 1 implies (#[trigger] left[i])@
            == pools@[pools@.len() - 1 - i]@.dataset by {
            assert(texts(left)[i] == left[i]@);
            assert(all.drop_last()[i] == all[i]);
        }
    }
    if (PoolExportAll::Exporting { rest }).resumed(Reply::Finished(ended), next) && rest@.len() > 0 {
        let left = next->Do_1->Exporting_rest@;
        assert(texts(left).len() == left.len());
        assert forall|i: int| 0 <= i < rest@.len() - 1 implies (#[trigger] left[i])@ == rest@[i]@ by {
            assert(texts(left)[i] == left[i]@);
            assert(texts(rest@).drop_last()[i] == texts(rest@)[i]);
        }
    }
}

/// A child dataset is foreign if it is not the container itself and has no uuid of its own. The
/// foreign datasets are told in the order of the children, none of them left out.
pub proof fn law_foreign_told(
    a: Seq<DsPropsView>,
    b: Seq<DsPropsView>,
    child: DsPropsView,
    container: Seq<char>,
)
    ensures
        foreign_of(a + b, container) == foreign_of(a, container) + foreign_of(b, container),
        child.name != container && (forall|v: Seq<char>|
            !#[trigger] tells_own(child, "io.mayastor:uuid"@, v)) ==> foreign_of(
            seq![child],
            container,
        ) == seq![child.name],
        child.name == container ==> foreign_of(seq![child], container) == Seq::<
            Seq<char>,
        >::empty(),
        (exists|v: Seq<char>| #[trigger] tells_own(child, "io.mayastor:uuid"@, v)) ==> foreign_of(
            seq![child],
            container,
        ) == Seq::<Seq<char>>::empty(),
        foreign_of(Seq::empty(), container) == Seq::<Seq<char>>::empty(),
    decreases b.len(),
{
    if b.len() == 0 {
        assert(a + b =~= a);
        assert(foreign_of(a, container) + foreign_of(b, container) =~= foreign_of(a, container));
    } else {
        law_foreign_told(a, b.drop_last(), child, container);
        assert((a + b).drop_last() =~= a + b.drop_last());
        assert((a + b).last() == b.last());
        assert(foreign_of(a + b, container) =~= foreign_of(a, container) + foreign_of(b, container));
    }
    reveal_with_fuel(foreign_of, 2);
    assert(seq![child].drop_last() =~= Seq::empty());
    if let Some(v) = child.local("io.mayastor:uuid"@) {
        assert(tells_own(child, "io.mayastor:uuid"@, v));
    }
    assert(is_foreign(child, container) ==> foreign_of(seq![child], container) =~= seq![child.name]);
}

/// Destroying a pool looks at all that its dataset contains first. It is refused if any of that is
/// foreign; otherwise the pool is exported, then destroyed with all that it contains, and what was
/// persisted of its reservations goes last.
pub proof fn law_pool_destroy(
    pool: ZfsPool,
    first: Step<PoolDestroy, ()>,
    output: String,
    children: Seq<DsPropsView>,
    m: PoolDestroy,
    error: Error,
    next: Step<PoolDestroy, ()>,
)
    requires
        call_ensures(ZfsPool::destroy, (pool,), first),
    ensures
        runs_zfs(
            first,
            seq![
                "get"@,
                "-Hp"@,
                "-r"@,
                "-t"@,
                "filesystem,volume"@,
                "-o"@,
                "name,property,value,source"@,
                "io.mayastor:uuid"@,
                pool@.dataset,
            ],
        ),
        first->Do_1 == (PoolDestroy::Inspecting { pool }),
        (PoolDestroy::Inspecting { pool }).resumed(Reply::Output(Ok(output)), next) && props_of(
            "zfs"@,
            output@,
        ) == Ok::<Seq<DsPropsView>, ErrorView>(children) ==> {
            let foreign = foreign_of(children, pool@.dataset);
            &&& foreign.len() > 0 ==> next is Failed && next->Failed_0 is ForeignDatasets && texts(
                next->Failed_0->ForeignDatasets_datasets@,
            ) == foreign
            &&& foreign.len() == 0 ==> next is Do && next->Do_0 is ExportPool
                && next->Do_0->ExportPool_0@ == pool@.dataset && next->Do_1
                == (PoolDestroy::Exporting { pool })
        },
        (PoolDestroy::Exporting { pool }).resumed(Reply::Finished(Ok(())), next) ==> {
            &&& runs_zfs(next, seq!["destroy"@, "-r"@, pool@.dataset])
            &&& next->Do_1 is Destroying
            &&& next->Do_1->Destroying_ptpl.pool_name() == pool@.name
        },
        m is Destroying && m.resumed(Reply::Output(Ok(output)), next) ==> next == Step::<
            PoolDestroy,
            (),
        >::Do(Effect::RemovePoolPtpl(m->Destroying_ptpl), PoolDestroy::Removing),
        m is Removing && m.resumed(Reply::Noted, next) ==> next == Step::<PoolDestroy, ()>::Done(()),
        (m is Inspecting || m is Destroying) && m.resumed(Reply::Output(Err(error)), next) ==> next
            == Step::<PoolDestroy, ()>::Failed(error),
        m is Exporting && m.resumed(Reply::Finished(Err(error)), next) ==> next == Step::<
            PoolDestroy,
            (),
        >::Failed(error),
{
}

} // verus!
