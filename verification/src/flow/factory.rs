//! The factories through which the engine finds and lists pools, replicas and snapshots.
use vstd::prelude::*;
use crate::cli::{QueryView, ZfsQueryArgs};
use crate::ds_pool::ZfsPool;
use crate::engine::{
    BdevInfo, FindPoolArgs, FindReplicaArgs, FindSnapshotArgs, ListCloneArgs, ListPoolArgs,
    ListReplicaArgs, ListSnapshotArgs, PoolArgs, PoolBackend,
};
use crate::error::Error;
use crate::flow::pool_create::{PoolCreate, PoolImport};
use crate::operation::{Effect, Reply, Step};
use crate::snapshot::{SnapQueryArgs, SnapQueryView, SnapshotDescriptor, ZfsSnapshot};
use crate::text::chars::{clone_opt, str_eq, text_opt};
use crate::zvol_replica::{VolQueryArgs, VolQueryView, VolView, ZfsVol};

verus! {

/// The query for the given name and uuid, as far as they are given.
pub open spec fn named_query(name: Option<String>, uuid: Option<String>) -> QueryView {
    QueryView { name: text_opt(name), uuid: text_opt(uuid) }
}

/// Finding a pool.
#[derive(Debug)]
pub enum PoolFind {
    /// The pool is looked up by what may be its uuid or its name, by now as its uuid.
    ByUuid { id: String },
    /// The pool is looked up.
    Looking,
}

impl PoolFind {
    /// How the search starts, where the backend is enabled or not.
    pub open spec fn started(
        enabled: bool,
        args: FindPoolArgs,
        next: Step<PoolFind, Option<ZfsPool>>,
    ) -> bool {
        if !enabled {
            next == Step::<PoolFind, Option<ZfsPool>>::Done(None)
        } else {
            match args {
                FindPoolArgs::Uuid(uuid) => next matches Step::Do(
                    Effect::LookupPool(query),
                    PoolFind::Looking,
                ) && query@ == (QueryView { name: None, uuid: Some(uuid@) }),
                FindPoolArgs::UuidOrName(id) => next matches Step::Do(
                    Effect::LookupPool(query),
                    PoolFind::ByUuid { id: i },
                ) && query@ == (QueryView { name: None, uuid: Some(id@) }) && i == id,
                FindPoolArgs::NameUuid { name, uuid } => next matches Step::Do(
                    Effect::LookupPool(query),
                    PoolFind::Looking,
                ) && query@ == named_query(Some(name), uuid),
            }
        }
    }

    /// How the search goes on: first by uuid, then by name.
    pub open spec fn resumed(self, reply: Reply, next: Step<PoolFind, Option<ZfsPool>>) -> bool {
        match (self, reply) {
            (_, Reply::Pool(Ok(pool))) => next == Step::<PoolFind, Option<ZfsPool>>::Done(
                Some(pool),
            ),
            (PoolFind::ByUuid { id }, Reply::Pool(Err(Error::NotFound { .. }))) => {
                next matches Step::Do(Effect::LookupPool(query), PoolFind::Looking) && query@ == (
                QueryView { name: Some(id@), uuid: None })
            },
            (PoolFind::Looking, Reply::Pool(Err(Error::NotFound { .. }))) => next == Step::<
                PoolFind,
                Option<ZfsPool>,
            >::Done(None),
            (_, Reply::Pool(Err(error))) => next == Step::<PoolFind, Option<ZfsPool>>::Failed(
                error,
            ),
            _ => true,
        }
    }

    /// Go on with the reply.
    pub fn resume(self, reply: Reply) -> (res: Step<PoolFind, Option<ZfsPool>>)
        requires
            reply is Pool,
        ensures
            self.resumed(reply, res),
    {
        match reply {
            Reply::Pool(looked) => match looked {
                Ok(pool) => Step::Done(Some(pool)),
                Err(Error::NotFound { .. }) => match self {
                    PoolFind::ByUuid { id } => Step::Do(
                        Effect::LookupPool(ZfsQueryArgs::any().named(id.as_str())),
                        PoolFind::Looking,
                    ),
                    PoolFind::Looking => Step::Done(None),
                },
                Err(error) => Step::Failed(error),
            },
            _ => unreached(),
        }
    }
}

/// Listing pools for the engine.
#[derive(Debug)]
pub struct PoolListing;

impl PoolListing {
    /// Go on with the reply.
    pub fn resume(self, reply: Reply) -> (res: Step<PoolListing, Vec<ZfsPool>>)
        requires
            reply is Pools,
        ensures
            res == (match reply->Pools_0 {
                Ok(pools) => Step::<PoolListing, Vec<ZfsPool>>::Done(pools),
                Err(error) => Step::<PoolListing, Vec<ZfsPool>>::Failed(error),
            }),
    {
        match reply {
            Reply::Pools(listed) => match listed {
                Ok(pools) => Step::Done(pools),
                Err(error) => Step::Failed(error),
            },
            _ => unreached(),
        }
    }
}

/// A factory instance which implements the ZFS specific pool factory.
#[derive(Debug, Default)]
pub struct PoolZfsFactory {}

/// Whether pools of another kind are asked for.
fn other_backend(backend: &Option<PoolBackend>) -> (res: bool)
    ensures
        res == (backend matches Some(kind) && kind != PoolBackend::Zfs),
{
    match backend {
        Some(PoolBackend::Zfs) => false,
        Some(_) => true,
        None => false,
    }
}

impl PoolZfsFactory {
    /// Create a pool.
    pub fn create(&self, args: PoolArgs) -> (res: Step<PoolCreate, ZfsPool>)
        ensures
            PoolCreate::started(args, res),
    {
        ZfsPool::create(args)
    }

    /// Import a pool.
    pub fn import(&self, args: PoolArgs) -> (res: Step<PoolImport, ZfsPool>)
        ensures
            PoolImport::started(args, res),
    {
        ZfsPool::import(args)
    }

    /// Find a pool. There is none where the backend is not enabled.
    pub fn find(&self, enabled: bool, args: &FindPoolArgs) -> (res: Step<
        PoolFind,
        Option<ZfsPool>,
    >)
        ensures
            PoolFind::started(enabled, *args, res),
    {
        if !enabled {
            return Step::Done(None);
        }
        match args {
            FindPoolArgs::Uuid(uuid) => Step::Do(
                Effect::LookupPool(ZfsQueryArgs::any().uuid(uuid.as_str())),
                PoolFind::Looking,
            ),
            // First try to match by uuid, then fallback to the name.
            FindPoolArgs::UuidOrName(id) => Step::Do(
                Effect::LookupPool(ZfsQueryArgs::any().uuid(id.as_str())),
                PoolFind::ByUuid { id: id.clone() },
            ),
            FindPoolArgs::NameUuid { name, uuid } => Step::Do(
                Effect::LookupPool(ZfsQueryArgs::any().named(name.as_str()).uuid_opt(uuid)),
                PoolFind::Looking,
            ),
        }
    }

    /// List pools. There are none where the backend is not enabled, or where pools of another kind
    /// are asked for.
    pub fn list(&self, enabled: bool, args: &ListPoolArgs) -> (res: Step<
        PoolListing,
        Vec<ZfsPool>,
    >)
        ensures
            if !enabled || (args.backend matches Some(kind) && kind != PoolBackend::Zfs) {
                res matches Step::Done(pools) && pools@.len() == 0
            } else {
                res matches Step::Do(Effect::ListPools(query), PoolListing) && query@
                    == named_query(args.name, args.uuid)
            },
    {
        if !enabled || other_backend(&args.backend) {
            return Step::Done(Vec::new());
        }
        let query = ZfsQueryArgs::any().named_opt(&args.name).uuid_opt(&args.uuid);
        Step::Do(Effect::ListPools(query), PoolListing)
    }

    /// The kind of the pools.
    pub fn backend(&self) -> (res: PoolBackend)
        ensures
            res == PoolBackend::Zfs,
    {
        PoolBackend::Zfs
    }
}

/// Finding a replica.
#[derive(Debug)]
pub struct VolFind;

impl VolFind {
    /// Go on with the reply.
    pub fn resume(self, reply: Reply) -> (res: Step<VolFind, Option<ZfsVol>>)
        requires
            reply is Vol,
        ensures
            res == (match reply->Vol_0 {
                Ok(vol) => Step::<VolFind, Option<ZfsVol>>::Done(Some(vol)),
                Err(Error::VolNotFound { .. } | Error::NotFound { .. }) => Step::<
                    VolFind,
                    Option<ZfsVol>,
                >::Done(None),
                Err(error) => Step::<VolFind, Option<ZfsVol>>::Failed(error),
            }),
    {
        match reply {
            Reply::Vol(looked) => match looked {
                Ok(vol) => Step::Done(Some(vol)),
                Err(Error::VolNotFound { .. }) => Step::Done(None),
                Err(Error::NotFound { .. }) => Step::Done(None),
                Err(error) => Step::Failed(error),
            },
            _ => unreached(),
        }
    }
}

/// Finding a snapshot.
#[derive(Debug)]
pub struct SnapFind;

impl SnapFind {
    /// Go on with the reply.
    pub fn resume(self, reply: Reply) -> (res: Step<SnapFind, Option<ZfsSnapshot>>)
        requires
            reply is Snap,
        ensures
            res == (match reply->Snap_0 {
                Ok(snap) => Step::<SnapFind, Option<ZfsSnapshot>>::Done(Some(snap)),
                Err(Error::SnapNotFound { .. } | Error::NotFound { .. }) => Step::<
                    SnapFind,
                    Option<ZfsSnapshot>,
                >::Done(None),
                Err(error) => Step::<SnapFind, Option<ZfsSnapshot>>::Failed(error),
            }),
    {
        match reply {
            Reply::Snap(looked) => match looked {
                Ok(snap) => Step::Done(Some(snap)),
                Err(Error::SnapNotFound { .. }) => Step::Done(None),
                Err(Error::NotFound { .. }) => Step::Done(None),
                Err(error) => Step::Failed(error),
            },
            _ => unreached(),
        }
    }
}

/// Listing replicas for the engine.
#[derive(Debug)]
pub struct VolListing;

impl VolListing {
    /// Go on with the reply.
    pub fn resume(self, reply: Reply) -> (res: Step<VolListing, Vec<ZfsVol>>)
        requires
            reply is Vols,
        ensures
            res == (match reply->Vols_0 {
                Ok(vols) => Step::<VolListing, Vec<ZfsVol>>::Done(vols),
                Err(error) => Step::<VolListing, Vec<ZfsVol>>::Failed(error),
            }),
    {
        match reply {
            Reply::Vols(listed) => match listed {
                Ok(vols) => Step::Done(vols),
                Err(error) => Step::Failed(error),
            },
            _ => unreached(),
        }
    }
}

/// Each of the descriptors describes the snapshot at its position.
pub open spec fn describe_all(descriptors: Seq<SnapshotDescriptor>, snaps: Seq<ZfsSnapshot>) -> bool {
    &&& descriptors.len() == snaps.len()
    &&& forall|i: int|
        0 <= i < snaps.len() ==> (#[trigger] descriptors[i]).describes(snaps[i]@)
}

/// Listing snapshots for the engine.
#[derive(Debug)]
pub struct SnapListing;

impl SnapListing {
    /// How the listing goes on.
    pub open spec fn resumed(
        self,
        reply: Reply,
        next: Step<SnapListing, Vec<SnapshotDescriptor>>,
    ) -> bool {
        match reply {
            Reply::Snaps(Ok(snaps)) => next matches Step::Done(descriptors) && describe_all(
                descriptors@,
                snaps@,
            ),
            Reply::Snaps(Err(error)) => next == Step::<
                SnapListing,
                Vec<SnapshotDescriptor>,
            >::Failed(error),
            _ => true,
        }
    }

    /// Go on with the reply.
    pub fn resume(self, reply: Reply) -> (res: Step<SnapListing, Vec<SnapshotDescriptor>>)
        requires
            reply is Snaps,
        ensures
            self.resumed(reply, res),
    {
        match reply {
            Reply::Snaps(listed) => match listed {
                Ok(snaps) => {
                    let mut descriptors: Vec<SnapshotDescriptor> = Vec::new();
                    for i in 0..snaps.len()
                        invariant
                            descriptors@.len() == i,
                            forall|j: int|
                                0 <= j < i ==> (#[trigger] descriptors@[j]).describes(snaps@[j]@),
                    {
                        descriptors.push(snaps[i].descriptor());
                    }
                    Step::Done(descriptors)
                },
                Err(error) => Step::Failed(error),
            },
            _ => unreached(),
        }
    }
}

/// The replica is a clone, of the given snapshot if one is given.
pub open spec fn is_clone_of(vol: VolView, snapshot: Option<Seq<char>>) -> bool {
    match snapshot {
        Some(uuid) => vol.snapshot_uuid == Some(uuid),
        None => vol.snapshot_uuid is Some,
    }
}

/// The clones among replicas.
pub open spec fn clones_of(vols: Seq<ZfsVol>, snapshot: Option<Seq<char>>) -> Seq<ZfsVol> {
    vols.filter(|vol: ZfsVol| is_clone_of(vol@, snapshot))
}

/// Listing clones for the engine.
#[derive(Debug)]
pub struct CloneListing {
    pub snapshot_uuid: Option<String>,
}

impl CloneListing {
    /// How the listing goes on.
    pub open spec fn resumed(self, reply: Reply, next: Step<CloneListing, Vec<ZfsVol>>) -> bool {
        match reply {
            Reply::Vols(Ok(vols)) => next matches Step::Done(clones) && clones@ == clones_of(
                vols@,
                text_opt(self.snapshot_uuid),
            ),
            Reply::Vols(Err(error)) => next == Step::<CloneListing, Vec<ZfsVol>>::Failed(error),
            _ => true,
        }
    }

    /// Whether the replica is a clone, of the given snapshot if one is given.
    fn wanted(vol: &ZfsVol, snapshot: &Option<String>) -> (res: bool)
        ensures
            res == is_clone_of(vol@, text_opt(*snapshot)),
    {
        match (vol.snapshot_uuid_prop(), snapshot) {
            (Some(uuid), Some(wanted)) => str_eq(uuid.as_str(), wanted.as_str()),
            (Some(_), None) => true,
            (None, _) => false,
        }
    }

    /// Go on with the reply.
    pub fn resume(self, reply: Reply) -> (res: Step<CloneListing, Vec<ZfsVol>>)
        requires
            reply is Vols,
        ensures
            self.resumed(reply, res),
    {
        match reply {
            Reply::Vols(listed) => match listed {
                Ok(vols) => {
                    let ghost all = vols@;
                    let ghost keep = |vol: ZfsVol| is_clone_of(vol@, text_opt(self.snapshot_uuid));
                    let mut clones: Vec<ZfsVol> = Vec::new();
                    proof {
                        reveal(Seq::filter);
                        assert(clones@ =~= all.take(0).filter(keep));
                    }
                    for vol in it: vols.into_iter()
                        invariant
                            it.seq() == all,
                            keep == (|vol: ZfsVol|
                                is_clone_of(vol@, text_opt(self.snapshot_uuid))),
                            clones@ == all.take(it.index() as int).filter(keep),
                    {
                        proof {
                            reveal(Seq::filter);
                            let i = it.index() as int;
                            assert(all.take(i + 1).drop_last() =~= all.take(i));
                        }
                        if CloneListing::wanted(&vol, &self.snapshot_uuid) {
                            clones.push(vol);
                        }
                    }
                    assert(all.take(all.len() as int) =~= all);
                    Step::Done(clones)
                },
                Err(error) => Step::Failed(error),
            },
            _ => unreached(),
        }
    }
}

/// A factory instance which implements the ZFS specific replica factory.
#[derive(Debug, Default)]
pub struct ReplZfsFactory {}

impl ReplZfsFactory {
    /// The replica a bdev belongs to, which is not told from the bdev.
    pub fn bdev_as_replica(&self, _bdev: BdevInfo) -> (res: Option<ZfsVol>)
        ensures
            res is None,
    {
        None
    }

    /// Find a replica. There is none where the backend is not enabled.
    pub fn find(&self, enabled: bool, args: &FindReplicaArgs) -> (res: Step<
        VolFind,
        Option<ZfsVol>,
    >)
        ensures
            if !enabled {
                res == Step::<VolFind, Option<ZfsVol>>::Done(None)
            } else {
                res matches Step::Do(Effect::LookupVol(query), VolFind) && query@ == (VolQueryView {
                    vol: QueryView { name: None, uuid: Some(args.uuid@) },
                    ..VolQueryView::any()
                })
            },
    {
        if !enabled {
            return Step::Done(None);
        }
        let query = VolQueryArgs::new().with_vol(ZfsQueryArgs::any().uuid(args.uuid.as_str()));
        Step::Do(Effect::LookupVol(query), VolFind)
    }

    /// Find a snapshot. There is none where the backend is not enabled.
    pub fn find_snap(&self, enabled: bool, args: &FindSnapshotArgs) -> (res: Step<
        SnapFind,
        Option<ZfsSnapshot>,
    >)
        ensures
            if !enabled {
                res == Step::<SnapFind, Option<ZfsSnapshot>>::Done(None)
            } else {
                res matches Step::Do(Effect::LookupSnap(query), SnapFind) && query@ == (
                SnapQueryView { uuid: Some(args.uuid@), ..SnapQueryView::any() })
            },
    {
        if !enabled {
            return Step::Done(None);
        }
        let query = SnapQueryArgs::new().uuid(args.uuid.as_str());
        Step::Do(Effect::LookupSnap(query), SnapFind)
    }

    /// List replicas. There are none where the backend is not enabled.
    pub fn list(&self, enabled: bool, args: &ListReplicaArgs) -> (res: Step<
        VolListing,
        Vec<ZfsVol>,
    >)
        ensures
            if !enabled {
                res matches Step::Done(vols) && vols@.len() == 0
            } else {
                res matches Step::Do(Effect::ListVols(query), VolListing) && query@ == (
                VolQueryView {
                    vol: named_query(args.name, args.uuid),
                    pool: named_query(args.pool_name, args.pool_uuid),
                    dataset: None,
                })
            },
    {
        if !enabled {
            return Step::Done(Vec::new());
        }
        let vol = ZfsQueryArgs::any().named_opt(&args.name).uuid_opt(&args.uuid);
        let pool = ZfsQueryArgs::any().named_opt(&args.pool_name).uuid_opt(&args.pool_uuid);
        let query = VolQueryArgs::new().with_vol(vol).with_pool(pool);
        Step::Do(Effect::ListVols(query), VolListing)
    }

    /// List snapshots. There are none where the backend is not enabled.
    pub fn list_snaps(&self, enabled: bool, args: &ListSnapshotArgs) -> (res: Step<
        SnapListing,
        Vec<SnapshotDescriptor>,
    >)
        ensures
            if !enabled {
                res matches Step::Done(snaps) && snaps@.len() == 0
            } else {
                res matches Step::Do(Effect::ListSnaps(query), SnapListing) && query@ == (
                SnapQueryView {
                    uuid: text_opt(args.uuid),
                    source_uuid: text_opt(args.source_uuid),
                    ..SnapQueryView::any()
                })
            },
    {
        if !enabled {
            return Step::Done(Vec::new());
        }
        let query = SnapQueryArgs::new().uuid_opt(&args.uuid).source_opt(&args.source_uuid);
        Step::Do(Effect::ListSnaps(query), SnapListing)
    }

    /// List clones, of all snapshots or of the given one. There are none where the backend is not
    /// enabled.
    pub fn list_clones(&self, enabled: bool, args: &ListCloneArgs) -> (res: Step<
        CloneListing,
        Vec<ZfsVol>,
    >)
        ensures
            if !enabled {
                res matches Step::Done(vols) && vols@.len() == 0
            } else {
                res matches Step::Do(Effect::ListVols(query), CloneListing { snapshot_uuid })
                    && query@ == VolQueryView::any() && snapshot_uuid == args.snapshot_uuid
            },
    {
        if !enabled {
            return Step::Done(Vec::new());
        }
        let snapshot_uuid = clone_opt(&args.snapshot_uuid);
        Step::Do(Effect::ListVols(VolQueryArgs::new()), CloneListing { snapshot_uuid })
    }

    /// The kind of the pools of the replicas.
    pub fn backend(&self) -> (res: PoolBackend)
        ensures
            res == PoolBackend::Zfs,
    {
        PoolBackend::Zfs
    }
}

} // verus!
