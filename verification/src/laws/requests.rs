//! What the engine asks of the factories.
use vstd::prelude::*;
use crate::cli::ZfsQueryArgs;
use crate::ds_pool::ZfsPool;
use crate::engine::{
    FindPoolArgs, FindReplicaArgs, FindSnapshotArgs, ListCloneArgs, ListPoolArgs, ListReplicaArgs,
    ListSnapshotArgs, PoolBackend,
};
use crate::error::Error;
use crate::flow::factory::{
    clones_of, is_clone_of, CloneListing, PoolFind, PoolListing, PoolZfsFactory, ReplZfsFactory, SnapFind,
    SnapListing, VolFind, VolListing,
};
use crate::operation::{Reply, Step};
use crate::snapshot::{SnapshotDescriptor, ZfsSnapshot};
use crate::text::chars::text_opt;
use crate::zvol_replica::ZfsVol;

verus! {

/// The options ask for this name and for this uuid, as far as these are given, and for nothing else.
pub open spec fn asks_for(
    query: ZfsQueryArgs,
    name: Option<Seq<char>>,
    uuid: Option<Seq<char>>,
) -> bool {
    text_opt(query.name) == name && text_opt(query.uuid) == uuid
}

/// Where the backend is not enabled there is nothing: nothing is run, and nothing is found.
pub proof fn law_disabled(
    pools: PoolZfsFactory,
    vols: ReplZfsFactory,
    find_pool: FindPoolArgs,
    list_pools: ListPoolArgs,
    find_vol: FindReplicaArgs,
    find_snap: FindSnapshotArgs,
    list_vols: ListReplicaArgs,
    list_snaps: ListSnapshotArgs,
    list_clones: ListCloneArgs,
    a: Step<PoolFind, Option<ZfsPool>>,
    b: Step<PoolListing, Vec<ZfsPool>>,
    c: Step<VolFind, Option<ZfsVol>>,
    d: Step<SnapFind, Option<ZfsSnapshot>>,
    e: Step<VolListing, Vec<ZfsVol>>,
    f: Step<SnapListing, Vec<SnapshotDescriptor>>,
    g: Step<CloneListing, Vec<ZfsVol>>,
)
    requires
        call_ensures(PoolZfsFactory::find, (&pools, false, &find_pool), a),
        call_ensures(PoolZfsFactory::list, (&pools, false, &list_pools), b),
        call_ensures(ReplZfsFactory::find, (&vols, false, &find_vol), c),
        call_ensures(ReplZfsFactory::find_snap, (&vols, false, &find_snap), d),
        call_ensures(ReplZfsFactory::list, (&vols, false, &list_vols), e),
        call_ensures(ReplZfsFactory::list_snaps, (&vols, false, &list_snaps), f),
        call_ensures(ReplZfsFactory::list_clones, (&vols, false, &list_clones), g),
    ensures
        a is Done && a->Done_0 is None,
        b is Done && b->Done_0@.len() == 0,
        c is Done && c->Done_0 is None,
        d is Done && d->Done_0 is None,
        e is Done && e->Done_0@.len() == 0,
        f is Done && f->Done_0@.len() == 0,
        g is Done && g->Done_0@.len() == 0,
{
}

/// A pool is looked for by what is told of it. What may be a uuid or a name is taken for a uuid
/// first, and for a name only where there is no such pool. No pool is found where there is none, and
/// any other failure is told.
pub proof fn law_pool_found(
    factory: PoolZfsFactory,
    args: FindPoolArgs,
    step: Step<PoolFind, Option<ZfsPool>>,
    m: PoolFind,
    pool: ZfsPool,
    query: String,
    error: Error,
    next: Step<PoolFind, Option<ZfsPool>>,
)
    requires
        call_ensures(PoolZfsFactory::find, (&factory, true, &args), step),
    ensures
        step is Do && step->Do_0 is LookupPool,
        args matches FindPoolArgs::Uuid(uuid) ==> asks_for(
            step->Do_0->LookupPool_0,
            None,
            Some(uuid@),
        ) && step->Do_1 is Looking,
        args matches FindPoolArgs::UuidOrName(id) ==> asks_for(
            step->Do_0->LookupPool_0,
            None,
            Some(id@),
        ) && step->Do_1 == (PoolFind::ByUuid { id }),
        args matches FindPoolArgs::NameUuid { name, uuid } ==> asks_for(
            step->Do_0->LookupPool_0,
            Some(name@),
            text_opt(uuid),
        ) && step->Do_1 is Looking,
        m.resumed(Reply::Pool(Ok(pool)), next) ==> next == Step::<
            PoolFind,
            Option<ZfsPool>,
        >::Done(Some(pool)),
        m is ByUuid && m.resumed(Reply::Pool(Err(Error::NotFound { query })), next) ==> next is Do
            && next->Do_0 is LookupPool && asks_for(
            next->Do_0->LookupPool_0,
            Some(m->ByUuid_id@),
            None,
        ) && next->Do_1 is Looking,
        m is Looking && m.resumed(Reply::Pool(Err(Error::NotFound { query })), next) ==> next
            == Step::<PoolFind, Option<ZfsPool>>::Done(None),
        !(error is NotFound) && m.resumed(Reply::Pool(Err(error)), next) ==> next == Step::<
            PoolFind,
            Option<ZfsPool>,
        >::Failed(error),
{
}

/// Pools are listed by what is told of them. Asking for pools of another kind gives none.
pub proof fn law_pools_listed(
    factory: PoolZfsFactory,
    args: ListPoolArgs,
    step: Step<PoolListing, Vec<ZfsPool>>,
    listed: Result<Vec<ZfsPool>, Error>,
    next: Step<PoolListing, Vec<ZfsPool>>,
    kind: PoolBackend,
)
    requires
        call_ensures(PoolZfsFactory::list, (&factory, true, &args), step),
        call_ensures(PoolListing::resume, (PoolListing, Reply::Pools(listed)), next),
        call_ensures(PoolZfsFactory::backend, (&factory,), kind),
    ensures
        kind == PoolBackend::Zfs,
        args.backend is Some && args.backend != Some(PoolBackend::Zfs) ==> step is Done
            && step->Done_0@.len() == 0,
        args.backend is None || args.backend == Some(PoolBackend::Zfs) ==> step is Do
            && step->Do_0 is ListPools && asks_for(
            step->Do_0->ListPools_0,
            text_opt(args.name),
            text_opt(args.uuid),
        ),
        listed matches Ok(pools) ==> next == Step::<PoolListing, Vec<ZfsPool>>::Done(pools),
        listed matches Err(error) ==> next == Step::<PoolListing, Vec<ZfsPool>>::Failed(error),
{
}

/// A replica is looked for by its uuid, wherever it is; a snapshot by its own. Neither is found where
/// there is none, and any other failure is told.
pub proof fn law_replica_and_snapshot_found(
    factory: ReplZfsFactory,
    find_vol: FindReplicaArgs,
    find_snap: FindSnapshotArgs,
    a: Step<VolFind, Option<ZfsVol>>,
    b: Step<SnapFind, Option<ZfsSnapshot>>,
    vol: Result<ZfsVol, Error>,
    snap: Result<ZfsSnapshot, Error>,
    c: Step<VolFind, Option<ZfsVol>>,
    d: Step<SnapFind, Option<ZfsSnapshot>>,
)
    requires
        call_ensures(ReplZfsFactory::find, (&factory, true, &find_vol), a),
        call_ensures(ReplZfsFactory::find_snap, (&factory, true, &find_snap), b),
        call_ensures(VolFind::resume, (VolFind, Reply::Vol(vol)), c),
        call_ensures(SnapFind::resume, (SnapFind, Reply::Snap(snap)), d),
    ensures
        a is Do && a->Do_0 is LookupVol,
        asks_for(a->Do_0->LookupVol_0.vol, None, Some(find_vol.uuid@)),
        asks_for(a->Do_0->LookupVol_0.pool, None, None),
        a->Do_0->LookupVol_0.dataset is None,
        b is Do && b->Do_0 is LookupSnap,
        b->Do_0->LookupSnap_0.uuid is Some,
        b->Do_0->LookupSnap_0.uuid->0@ == find_snap.uuid@,
        b->Do_0->LookupSnap_0.source_uuid is None,
        asks_for(b->Do_0->LookupSnap_0.pool, None, None),
        b->Do_0->LookupSnap_0.dataset is None,
        vol matches Ok(vol) ==> c == Step::<VolFind, Option<ZfsVol>>::Done(Some(vol)),
        vol matches Err(error) ==> if error is VolNotFound || error is NotFound {
            c == Step::<VolFind, Option<ZfsVol>>::Done(None)
        } else {
            c == Step::<VolFind, Option<ZfsVol>>::Failed(error)
        },
        snap matches Ok(snap) ==> d == Step::<SnapFind, Option<ZfsSnapshot>>::Done(Some(snap)),
        snap matches Err(error) ==> if error is SnapNotFound || error is NotFound {
            d == Step::<SnapFind, Option<ZfsSnapshot>>::Done(None)
        } else {
            d == Step::<SnapFind, Option<ZfsSnapshot>>::Failed(error)
        },
{
}

/// Replicas are listed by what is told of them and of their pools.
pub proof fn law_replicas_listed(
    factory: ReplZfsFactory,
    args: ListReplicaArgs,
    step: Step<VolListing, Vec<ZfsVol>>,
    listed: Result<Vec<ZfsVol>, Error>,
    next: Step<VolListing, Vec<ZfsVol>>,
    kind: PoolBackend,
)
    requires
        call_ensures(ReplZfsFactory::list, (&factory, true, &args), step),
        call_ensures(VolListing::resume, (VolListing, Reply::Vols(listed)), next),
        call_ensures(ReplZfsFactory::backend, (&factory,), kind),
    ensures
        kind == PoolBackend::Zfs,
        step is Do && step->Do_0 is ListVols,
        asks_for(step->Do_0->ListVols_0.vol, text_opt(args.name), text_opt(args.uuid)),
        asks_for(step->Do_0->ListVols_0.pool, text_opt(args.pool_name), text_opt(args.pool_uuid)),
        step->Do_0->ListVols_0.dataset is None,
        listed matches Ok(vols) ==> next == Step::<VolListing, Vec<ZfsVol>>::Done(vols),
        listed matches Err(error) ==> next == Step::<VolListing, Vec<ZfsVol>>::Failed(error),
{
}

/// Snapshots are listed by what is told of them and of the replica that they are of; each of those
/// listed is described, in order.
pub proof fn law_snapshots_listed(
    factory: ReplZfsFactory,
    args: ListSnapshotArgs,
    step: Step<SnapListing, Vec<SnapshotDescriptor>>,
    snaps: Vec<ZfsSnapshot>,
    error: Error,
    next: Step<SnapListing, Vec<SnapshotDescriptor>>,
)
    requires
        call_ensures(ReplZfsFactory::list_snaps, (&factory, true, &args), step),
    ensures
        step is Do && step->Do_0 is ListSnaps,
        text_opt(step->Do_0->ListSnaps_0.uuid) == text_opt(args.uuid),
        text_opt(step->Do_0->ListSnaps_0.source_uuid) == text_opt(args.source_uuid),
        asks_for(step->Do_0->ListSnaps_0.pool, None, None),
        step->Do_0->ListSnaps_0.dataset is None,
        SnapListing.resumed(Reply::Snaps(Ok(snaps)), next) ==> next is Done
            && next->Done_0@.len() == snaps@.len() && forall|i: int|
            0 <= i < snaps@.len() ==> (#[trigger] next->Done_0@[i]).describes(snaps@[i]@),
        SnapListing.resumed(Reply::Snaps(Err(error)), next) ==> next == Step::<
            SnapListing,
            Vec<SnapshotDescriptor>,
        >::Failed(error),
{
}

/// Clones are listed among all replicas: those which tell of the snapshot that is asked for, or of
/// any where none is.
pub proof fn law_clones_listed(
    factory: ReplZfsFactory,
    args: ListCloneArgs,
    step: Step<CloneListing, Vec<ZfsVol>>,
    vols: Vec<ZfsVol>,
    error: Error,
    next: Step<CloneListing, Vec<ZfsVol>>,
)
    requires
        call_ensures(ReplZfsFactory::list_clones, (&factory, true, &args), step),
    ensures
        step is Do && step->Do_0 is ListVols,
        asks_for(step->Do_0->ListVols_0.vol, None, None),
        asks_for(step->Do_0->ListVols_0.pool, None, None),
        step->Do_0->ListVols_0.dataset is None,
        step->Do_1.snapshot_uuid == args.snapshot_uuid,
        (CloneListing { snapshot_uuid: args.snapshot_uuid }).resumed(Reply::Vols(Ok(vols)), next)
            ==> next is Done && next->Done_0@ == clones_of(vols@, text_opt(args.snapshot_uuid)),
        (CloneListing { snapshot_uuid: args.snapshot_uuid }).resumed(
            Reply::Vols(Err(error)),
            next,
        ) ==> next == Step::<CloneListing, Vec<ZfsVol>>::Failed(error),
{
}

/// Clones are told one by one, in order: a replica is one of a snapshot if it tells of it.
pub proof fn law_clones_told(
    a: Seq<ZfsVol>,
    b: Seq<ZfsVol>,
    vol: ZfsVol,
    snapshot: Option<Seq<char>>,
)
    ensures
        clones_of(a + b, snapshot) == clones_of(a, snapshot) + clones_of(b, snapshot),
        vol@.snapshot_uuid is Some && (snapshot is None || snapshot == vol@.snapshot_uuid)
            ==> clones_of(seq![vol], snapshot) == seq![vol],
        vol@.snapshot_uuid is None || (snapshot is Some && snapshot != vol@.snapshot_uuid)
            ==> clones_of(seq![vol], snapshot).len() == 0,
{
    let keep = |vol: ZfsVol| is_clone_of(vol@, snapshot);
    Seq::filter_distributes_over_add(a, b, keep);
    reveal(Seq::filter);
    assert(seq![vol].drop_last() =~= Seq::empty());
    assert(seq![vol].drop_last().filter(keep) =~= Seq::empty());
    assert(keep(vol) ==> clones_of(seq![vol], snapshot) =~= seq![vol]);
}

} // verus!
