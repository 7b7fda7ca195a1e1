//! Operations within operations: the work that is an operation of the backend itself is taken up
//! by starting that operation.
use vstd::prelude::*;
use crate::ds_pool::ZfsPool;
use crate::flow::device::{wait_for_zvol_device, BdevClose, BdevOpen, DeviceWait};
use crate::flow::pool_create::{pool_vols_query, PoolAdopt};
use crate::flow::pool_list::{discover_cmd, PoolList, PoolLookup};
use crate::flow::pool_remove::PoolExport;
use crate::flow::snapshot::{snaps_cmd, SnapList, SnapLookup};
use crate::flow::volume::{fetch_cmd, VolList, VolLookup};
use crate::operation::{runs, Effect, Step};
use crate::snapshot::ZfsSnapshot;
use crate::zvol_replica::{BdevOpts, ZfsVol};

verus! {

/// How some work is taken up.
#[derive(Debug)]
pub enum Nested {
    /// Work that is done elsewhere.
    Work(Effect),
    /// Waiting for a zvol device.
    AwaitDevice(Step<DeviceWait, ()>),
    /// Opening a zvol as a bdev.
    OpenVol(Step<BdevOpen, BdevOpts>),
    /// Closing a bdev.
    CloseBdev(Step<BdevClose, ()>),
    /// Listing replicas.
    ListVols(Step<VolList, Vec<ZfsVol>>),
    /// Looking a replica up.
    LookupVol(Step<VolLookup, ZfsVol>),
    /// Listing snapshots.
    ListSnaps(Step<SnapList, Vec<ZfsSnapshot>>),
    /// Looking a snapshot up.
    LookupSnap(Step<SnapLookup, ZfsSnapshot>),
    /// Listing pools.
    ListPools(Step<PoolList, Vec<ZfsPool>>),
    /// Looking a pool up.
    LookupPool(Step<PoolLookup, ZfsPool>),
    /// Asserting ownership of a pool.
    AdoptPool(Step<PoolAdopt, ZfsPool>),
    /// Exporting a pool.
    ExportPool(Step<PoolExport, ()>),
}

impl Nested {
    /// The work is taken up by the operation which it is, from its start.
    pub open spec fn takes_up(self, effect: Effect) -> bool {
        match effect {
            Effect::AwaitDevice(path) => self == Nested::AwaitDevice(
                Step::Do(Effect::Probe { path, delay_ms: 0 }, DeviceWait { path }),
            ),
            Effect::OpenVol(device) => self == Nested::OpenVol(
                Step::Do(Effect::PunchHole(device.path), BdevOpen::Probing { device }),
            ),
            Effect::CloseBdev(uri) => self == Nested::CloseBdev(
                Step::Do(Effect::ReadBdev(uri), BdevClose::Reading { uri }),
            ),
            Effect::ListVols(query) => self matches Nested::ListVols(step) && runs(
                step,
                fetch_cmd(query@.dataset),
                VolList::Fetching { query },
            ),
            Effect::LookupVol(query) => self == Nested::LookupVol(
                Step::Do(Effect::ListVols(query), VolLookup { query }),
            ),
            Effect::ListSnaps(query) => self matches Nested::ListSnaps(step) && runs(
                step,
                snaps_cmd(query@.dataset),
                SnapList { query },
            ),
            Effect::LookupSnap(query) => self == Nested::LookupSnap(
                Step::Do(Effect::ListSnaps(query), SnapLookup { query }),
            ),
            Effect::ListPools(query) => self matches Nested::ListPools(step) && runs(
                step,
                discover_cmd(),
                PoolList::Discovering { query },
            ),
            Effect::LookupPool(query) => self == Nested::LookupPool(
                Step::Do(Effect::ListPools(query), PoolLookup { query }),
            ),
            Effect::AdoptPool { args, opts } => self matches Nested::AdoptPool(step)
                && PoolAdopt::started(args, opts, step),
            Effect::ExportPool(dataset) => self matches Nested::ExportPool(
                Step::Do(Effect::ListVols(query), PoolExport::Listing { dataset: d }),
            ) && query@ == pool_vols_query(dataset@) && d == dataset,
            _ => self == Nested::Work(effect),
        }
    }
}

impl Effect {
    /// Take the work up.
    pub fn take_up(self) -> (res: Nested)
        ensures
            res.takes_up(self),
    {
        match self {
            Effect::AwaitDevice(path) => Nested::AwaitDevice(wait_for_zvol_device(path)),
            Effect::OpenVol(device) => Nested::OpenVol(BdevOpen::start(device)),
            Effect::CloseBdev(uri) => Nested::CloseBdev(BdevClose::start(uri)),
            Effect::ListVols(query) => Nested::ListVols(ZfsVol::list(query)),
            Effect::LookupVol(query) => Nested::LookupVol(ZfsVol::lookup(query)),
            Effect::ListSnaps(query) => Nested::ListSnaps(ZfsSnapshot::list(query)),
            Effect::LookupSnap(query) => Nested::LookupSnap(ZfsSnapshot::lookup(query)),
            Effect::ListPools(query) => Nested::ListPools(ZfsPool::list(query)),
            Effect::LookupPool(query) => Nested::LookupPool(ZfsPool::lookup(query)),
            Effect::AdoptPool { args, opts } => Nested::AdoptPool(
                ZfsPool::import_inner(args, opts),
            ),
            Effect::ExportPool(dataset) => Nested::ExportPool(PoolExport::start(dataset)),
            effect => Nested::Work(effect),
        }
    }
}

} // verus!
