//! Which replicas and snapshots meet a query, and how queries are put together.
use vstd::prelude::*;
use crate::cli::{props_of, DsPropsView, ZfsQueryArgs};
use crate::ds_pool::ZfsPool;
use crate::error::{Error, ErrorView};
use crate::flow::pool_list::PoolLookup;
use crate::flow::snapshot::{snaps_of, SnapList, SnapLookup};
use crate::flow::volume::{vols_of, VolList, VolLookup};
use crate::laws::devices::is_device;
use crate::laws::inventory::lemma_last_component;
use crate::laws::reported::ends_path;
use crate::laws::requests::asks_for;
use crate::operation::{Reply, Step};
use crate::snapshot::{snap_views, SnapQueryArgs, SnapQueryView, SnapView, ZfsSnapshot};
use crate::text::chars::text_opt;
use crate::zvol_replica::{vol_views, VolQueryArgs, VolQueryView, VolView, ZfsVol};

verus! {

/// The value is the one asked for, if one is.
pub open spec fn suits(asked: Option<Seq<char>>, value: Seq<char>) -> bool {
    asked is Some ==> asked->0 == value
}

/// A replica meets a query if each of its name, its uuid and the name and uuid of its pool is the one
/// asked for, where one is; a replica without a name has the empty one.
pub proof fn law_replica_meets(vol: ZfsVol, query: VolQueryArgs, res: bool)
    requires
        call_ensures(ZfsVol::matches, (&vol, &query), res),
    ensures
        res <==> {
            &&& suits(text_opt(query.vol.uuid), vol@.uuid)
            &&& vol@.name is Some ==> suits(text_opt(query.vol.name), vol@.name->0)
            &&& vol@.name is None ==> suits(text_opt(query.vol.name), Seq::empty())
            &&& suits(text_opt(query.pool.name), vol@.pool_name)
            &&& suits(text_opt(query.pool.uuid), vol@.pool_uuid)
        },
{
}

/// A snapshot meets a query if its uuid and the name and uuid of its pool are those asked for, where
/// they are, and it is of the replica that is asked for, if one is: by what it persists, or by the
/// zvol that it lies on.
pub proof fn law_snapshot_meets(snap: ZfsSnapshot, query: SnapQueryArgs, zvol: Seq<char>, res: bool)
    requires
        call_ensures(ZfsSnapshot::matches, (&snap, &query), res),
        ends_path(snap@.dataset, zvol),
    ensures
        res <==> {
            &&& suits(text_opt(query.uuid), snap@.uuid)
            &&& suits(text_opt(query.pool.name), snap@.pool_name)
            &&& suits(text_opt(query.pool.uuid), snap@.pool_uuid)
            &&& query.source_uuid is Some ==> snap@.params.parent_id == Some(
                query.source_uuid->0@,
            ) || zvol == query.source_uuid->0@
        },
{
    lemma_last_component(snap@.dataset, zvol);
}

/// Replicas are listed one by one, in order: each dataset which is a replica that meets the query
/// gives it, and no other gives any.
pub proof fn law_replicas_told(
    a: Seq<DsPropsView>,
    b: Seq<DsPropsView>,
    props: DsPropsView,
    vol: VolView,
    query: VolQueryView,
)
    ensures
        vols_of(a + b, query) == vols_of(a, query) + vols_of(b, query),
        VolView::of_props(props) == Some(vol) && vol.meets(query) ==> vols_of(seq![props], query)
            == seq![vol],
        VolView::of_props(props) == Some(vol) && !vol.meets(query) ==> vols_of(
            seq![props],
            query,
        ).len() == 0,
        VolView::of_props(props) is None ==> vols_of(seq![props], query).len() == 0,
    decreases b.len(),
{
    if b.len() == 0 {
        assert(a + b =~= a);
        assert(vols_of(a, query) + vols_of(b, query) =~= vols_of(a, query));
    } else {
        law_replicas_told(a, b.drop_last(), props, vol, query);
        assert((a + b).drop_last() =~= a + b.drop_last());
        assert((a + b).last() == b.last());
        assert(vols_of(a + b, query) =~= vols_of(a, query) + vols_of(b, query));
    }
    reveal_with_fuel(vols_of, 2);
    assert(seq![props].drop_last() =~= Seq::empty());
}

/// Snapshots are listed one by one, in order: each which meets the query is given, and nothing else.
pub proof fn law_snapshots_told(
    a: Seq<DsPropsView>,
    b: Seq<DsPropsView>,
    props: DsPropsView,
    snap: SnapView,
    query: SnapQueryView,
)
    ensures
        snaps_of(a + b, query) == snaps_of(a, query) + snaps_of(b, query),
        SnapView::of_props(props) == Some(snap) && snap.meets(query) ==> snaps_of(
            seq![props],
            query,
        ) == seq![snap],
        SnapView::of_props(props) == Some(snap) && !snap.meets(query) ==> snaps_of(
            seq![props],
            query,
        ).len() == 0,
        SnapView::of_props(props) is None ==> snaps_of(seq![props], query).len() == 0,
    decreases b.len(),
{
    if b.len() == 0 {
        assert(a + b =~= a);
        assert(snaps_of(a, query) + snaps_of(b, query) =~= snaps_of(a, query));
    } else {
        law_snapshots_told(a, b.drop_last(), props, snap, query);
        assert((a + b).drop_last() =~= a + b.drop_last());
        assert((a + b).last() == b.last());
        assert(snaps_of(a + b, query) =~= snaps_of(a, query) + snaps_of(b, query));
    }
    reveal_with_fuel(snaps_of, 2);
    assert(seq![props].drop_last() =~= Seq::empty());
}

/// What is fetched is what is listed: the snapshots at once, the replicas once each of them is open,
/// starting with the first. What cannot be read fails the listing, and so does a command that fails.
pub proof fn law_fetched_listed(
    vols: VolQueryArgs,
    snaps: SnapQueryArgs,
    output: String,
    list: Seq<DsPropsView>,
    error: Error,
    a: Step<VolList, Vec<ZfsVol>>,
    b: Step<SnapList, Vec<ZfsSnapshot>>,
)
    ensures
        (VolList::Fetching { query: vols }).resumed(Reply::Output(Ok(output)), a) && props_of(
            "zfs"@,
            output@,
        ) == Ok::<Seq<DsPropsView>, ErrorView>(list) ==> {
            let all = vols_of(list, vols@);
            &&& all.len() == 0 ==> a is Done && a->Done_0@.len() == 0
            &&& all.len() > 0 ==> a is Do && a->Do_0 is OpenVol && is_device(
                a->Do_0->OpenVol_0,
                all[0],
            ) && a->Do_1 is Opening && vol_views(a->Do_1->Opening_vols@) == all
                && a->Do_1->Opening_at == 0 && a->Do_1->Opening_error is None
        },
        (SnapList { query: snaps }).resumed(Reply::Output(Ok(output)), b) && props_of(
            "zfs"@,
            output@,
        ) == Ok::<Seq<DsPropsView>, ErrorView>(list) ==> b is Done && snap_views(b->Done_0@)
            == snaps_of(list, snaps@),
        (VolList::Fetching { query: vols }).resumed(Reply::Output(Err(error)), a) ==> a == Step::<
            VolList,
            Vec<ZfsVol>,
        >::Failed(error),
        (SnapList { query: snaps }).resumed(Reply::Output(Err(error)), b) ==> b == Step::<
            SnapList,
            Vec<ZfsSnapshot>,
        >::Failed(error),
        (VolList::Fetching { query: vols }).resumed(Reply::Output(Ok(output)), a) && props_of(
            "zfs"@,
            output@,
        ) is Err ==> a is Failed && a->Failed_0@ == props_of("zfs"@, output@)->Err_0,
        (SnapList { query: snaps }).resumed(Reply::Output(Ok(output)), b) && props_of(
            "zfs"@,
            output@,
        ) is Err ==> b is Failed && b->Failed_0@ == props_of("zfs"@, output@)->Err_0,
{
    if a is Done {
        assert(vol_views(a->Done_0@).len() == a->Done_0@.len());
    }
}

/// A lookup passes the failure of the listing on.
pub proof fn law_lookup_failures(
    vol: VolLookup,
    snap: SnapLookup,
    pool: PoolLookup,
    error: Error,
    a: Step<VolLookup, ZfsVol>,
    b: Step<SnapLookup, ZfsSnapshot>,
    c: Step<PoolLookup, ZfsPool>,
)
    requires
        vol.resumed(Reply::Vols(Err(error)), a),
        snap.resumed(Reply::Snaps(Err(error)), b),
        pool.resumed(Reply::Pools(Err(error)), c),
    ensures
        a == Step::<VolLookup, ZfsVol>::Failed(error),
        b == Step::<SnapLookup, ZfsSnapshot>::Failed(error),
        c == Step::<PoolLookup, ZfsPool>::Failed(error),
{
}

/// Where nothing is found, the failure names what was asked for.
pub proof fn law_not_found_named(
    vol: VolLookup,
    snap: SnapLookup,
    pool: PoolLookup,
    vols: Vec<ZfsVol>,
    snaps: Vec<ZfsSnapshot>,
    pools: Vec<ZfsPool>,
    a: Step<VolLookup, ZfsVol>,
    b: Step<SnapLookup, ZfsSnapshot>,
    c: Step<PoolLookup, ZfsPool>,
    vol_text: String,
    snap_text: String,
    pool_text: String,
)
    requires
        vols@.len() == 0,
        snaps@.len() == 0,
        pools@.len() == 0,
        vol.resumed(Reply::Vols(Ok(vols)), a),
        snap.resumed(Reply::Snaps(Ok(snaps)), b),
        pool.resumed(Reply::Pools(Ok(pools)), c),
        call_ensures(VolQueryArgs::query, (&vol.query,), vol_text),
        call_ensures(SnapQueryArgs::query, (&snap.query,), snap_text),
        call_ensures(ZfsQueryArgs::query, (&pool.query,), pool_text),
    ensures
        a is Failed && a->Failed_0 is VolNotFound && a->Failed_0->VolNotFound_query@ == vol_text@,
        b is Failed && b->Failed_0 is SnapNotFound && b->Failed_0->SnapNotFound_query@
            == snap_text@,
        c is Failed && c->Failed_0 is NotFound && c->Failed_0->NotFound_query@ == pool_text@,
{
}

/// A query starts out asking for nothing in particular, and each part of it is asked for without
/// losing the others.
pub proof fn law_query_parts(
    query: ZfsQueryArgs,
    text: &str,
    opt: Option<String>,
    any: ZfsQueryArgs,
    named: ZfsQueryArgs,
    known: ZfsQueryArgs,
    named_opt: ZfsQueryArgs,
    known_opt: ZfsQueryArgs,
    copy: ZfsQueryArgs,
)
    requires
        call_ensures(ZfsQueryArgs::any, (), any),
        call_ensures(ZfsQueryArgs::named, (query, text), named),
        call_ensures(ZfsQueryArgs::uuid, (query, text), known),
        call_ensures(ZfsQueryArgs::named_opt, (query, &opt), named_opt),
        call_ensures(ZfsQueryArgs::uuid_opt, (query, &opt), known_opt),
        call_ensures(ZfsQueryArgs::copy, (&query,), copy),
    ensures
        asks_for(any, None, None),
        asks_for(named, Some(text@), text_opt(query.uuid)),
        asks_for(known, text_opt(query.name), Some(text@)),
        opt matches Some(s) ==> asks_for(named_opt, Some(s@), text_opt(query.uuid)) && asks_for(
            known_opt,
            text_opt(query.name),
            Some(s@),
        ),
        opt is None ==> asks_for(named_opt, text_opt(query.name), text_opt(query.uuid))
            && asks_for(known_opt, text_opt(query.name), text_opt(query.uuid)),
        copy == query,
{
}

/// An entry meets the options if its name and its uuid are those asked for, where they are.
pub proof fn law_entry_admitted(query: ZfsQueryArgs, name: &str, uuid: &str, res: bool)
    requires
        call_ensures(ZfsQueryArgs::admits_entry, (&query, name, uuid), res),
    ensures
        res <==> suits(text_opt(query.name), name@) && suits(text_opt(query.uuid), uuid@),
{
}

/// A query for replicas starts out asking for nothing in particular, and each part of it is asked
/// for without losing the others.
pub proof fn law_replica_query_parts(
    query: VolQueryArgs,
    part: ZfsQueryArgs,
    dataset: &str,
    new: VolQueryArgs,
    a: VolQueryArgs,
    b: VolQueryArgs,
    c: VolQueryArgs,
    copy: VolQueryArgs,
)
    requires
        call_ensures(VolQueryArgs::new, (), new),
        call_ensures(VolQueryArgs::with_pool, (query, part), a),
        call_ensures(VolQueryArgs::with_vol, (query, part), b),
        call_ensures(VolQueryArgs::scoped, (query, dataset), c),
        call_ensures(VolQueryArgs::copy, (&query,), copy),
    ensures
        asks_for(new.vol, None, None) && asks_for(new.pool, None, None) && new.dataset is None,
        a@ == (VolQueryView { pool: part@, ..query@ }),
        b@ == (VolQueryView { vol: part@, ..query@ }),
        c@.vol == query@.vol && c@.pool == query@.pool && c.dataset is Some && c.dataset->0@
            == dataset@,
        copy == query,
{
}

/// A query for snapshots starts out asking for nothing in particular, and each part of it is asked
/// for without losing the others.
pub proof fn law_snapshot_query_parts(
    query: SnapQueryArgs,
    part: ZfsQueryArgs,
    text: &str,
    opt: Option<String>,
    new: SnapQueryArgs,
    a: SnapQueryArgs,
    b: SnapQueryArgs,
    c: SnapQueryArgs,
    d: SnapQueryArgs,
    e: SnapQueryArgs,
    copy: SnapQueryArgs,
)
    requires
        call_ensures(SnapQueryArgs::new, (), new),
        call_ensures(SnapQueryArgs::uuid, (query, text), a),
        call_ensures(SnapQueryArgs::uuid_opt, (query, &opt), b),
        call_ensures(SnapQueryArgs::source_opt, (query, &opt), c),
        call_ensures(SnapQueryArgs::with_pool, (query, part), d),
        call_ensures(SnapQueryArgs::scoped, (query, text), e),
        call_ensures(SnapQueryArgs::copy, (&query,), copy),
    ensures
        new.uuid is None && new.source_uuid is None && new.dataset is None && asks_for(
            new.pool,
            None,
            None,
        ),
        a@ == (SnapQueryView { uuid: Some(text@), ..query@ }),
        opt matches Some(s) ==> b@ == (SnapQueryView { uuid: Some(s@), ..query@ }) && c@ == (
        SnapQueryView { source_uuid: Some(s@), ..query@ }),
        opt is None ==> b@ == query@ && c@ == query@,
        d@ == (SnapQueryView { pool: part@, ..query@ }),
        e@ == (SnapQueryView { dataset: Some(text@), ..query@ }),
        copy == query,
{
}

} // verus!
