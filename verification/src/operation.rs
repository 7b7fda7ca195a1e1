//! Operations as state machines. An operation of the backend alternates between decisions and work
//! that is done elsewhere: running a command, asking the engine, or another operation of the
//! backend. Each decision is a `Step`: some work to do and the state in which the reply to it is
//! awaited, or the outcome of the operation.
use vstd::prelude::*;
use crate::cli::{CmdView, ZfsCmd, ZfsQueryArgs};
use crate::ds_pool::ZfsPool;
use crate::engine::{BdevInfo, NvmfShareProps, PoolArgs, UpdateProps};
use crate::error::{Error, ErrorView};
use crate::options::ZfsPoolOpts;
use crate::ptpl::{ZfsPoolPtpl, ZvolPtpl};
use crate::snapshot::{SnapQueryArgs, ZfsSnapshot};
use crate::zvol_replica::{BdevOpts, VolDevice, VolQueryArgs, ZfsVol};

verus! {

/// Work which an operation asks for.
#[derive(Debug)]
pub enum Effect {
    /// Run the command. Answered by its output.
    Run(ZfsCmd),
    /// Wait for the given number of milliseconds, and then see if there is a device at the path.
    Probe { path: String, delay_ms: u64 },
    /// See if the device at the path supports fallocate punch-hole. Answered by a flag.
    PunchHole(String),
    /// See if there is a bdev with the given URI. Answered by a flag.
    FindBdev(String),
    /// Create the bdev with the given URI. Answered by an acknowledgement.
    CreateBdev(String),
    /// Read the state of the bdev with the given URI. Answered by the bdev, if there is one.
    ReadBdev(String),
    /// Create the persist through power loss file. Answered by its path.
    CreatePtpl(ZvolPtpl),
    /// Share the bdev. Answered by the URI it is shared under, and its state.
    ShareBdev { uri: String, share: Option<NvmfShareProps> },
    /// Update the bdev. Answered by its state.
    UpdateBdev { uri: String, update: Option<UpdateProps> },
    /// Stop sharing the bdev. Answered by its state.
    UnshareBdev(String),
    /// Destroy the bdev with the given URI.
    DestroyBdev(String),
    /// Tell the bdev that it has another number of blocks.
    NotifyBlocks { uri: String, blocks: u64 },
    /// Remove the persist through power loss file of a replica.
    RemovePtpl(ZvolPtpl),
    /// Remove the persist through power loss files of a pool.
    RemovePoolPtpl(ZfsPoolPtpl),
    /// Wait for a zvol device to appear, see `wait_for_zvol_device`.
    AwaitDevice(String),
    /// Open a zvol as a bdev, see `BdevOpen`. Answered by the parameters of the bdev.
    OpenVol(VolDevice),
    /// Close a bdev, see `BdevClose`.
    CloseBdev(String),
    /// List replicas, see `ZfsVol::list`.
    ListVols(VolQueryArgs),
    /// Look a replica up, see `ZfsVol::lookup`.
    LookupVol(VolQueryArgs),
    /// List snapshots, see `ZfsSnapshot::list`.
    ListSnaps(SnapQueryArgs),
    /// Look a snapshot up, see `ZfsSnapshot::lookup`.
    LookupSnap(SnapQueryArgs),
    /// List pools, see `ZfsPool::list`.
    ListPools(ZfsQueryArgs),
    /// Look a pool up, see `ZfsPool::lookup`.
    LookupPool(ZfsQueryArgs),
    /// Assert ownership of a pool, see `ZfsPool::import_inner`.
    AdoptPool { args: PoolArgs, opts: ZfsPoolOpts },
    /// Export the pool with the given container dataset, see `PoolExport`.
    ExportPool(String),
}

/// What came of destroying a bdev.
#[derive(Debug)]
pub enum BdevGone {
    /// The bdev is gone.
    Destroyed,
    /// There was no such bdev.
    NotFound,
    /// The bdev could not be destroyed; with the text of the failure.
    Failed(String),
}

/// What came of some work. Failures of the engine are carried as the text that describes them.
#[derive(Debug)]
pub enum Reply {
    /// The output of a command.
    Output(Result<String, Error>),
    /// Whether the device is there, and the milliseconds since it was first looked for.
    Probed { exists: bool, elapsed_ms: u64 },
    /// A flag.
    Flag(bool),
    /// An acknowledgement of the engine.
    Engine(Result<(), String>),
    /// A bdev, if there is one.
    Bdev(Option<BdevInfo>),
    /// The path of a persist through power loss file, if such files are kept.
    Ptpl(Result<Option<String>, String>),
    /// The URI a bdev is shared under, and its state.
    Shared(Result<(String, BdevInfo), String>),
    /// The state of a bdev after a change.
    Changed(Result<BdevInfo, String>),
    /// What came of destroying a bdev.
    Gone(BdevGone),
    /// What the bdev made of its new number of blocks, and its size by now.
    Notified { rc: i32, size: u64 },
    /// The engine could not be reached to do the work.
    Lost(Error),
    /// The work is done as far as it could be.
    Noted,
    /// The outcome of an operation which yields nothing.
    Finished(Result<(), Error>),
    /// The parameters of an opened bdev.
    Opened(Result<BdevOpts, Error>),
    /// Replicas.
    Vols(Result<Vec<ZfsVol>, Error>),
    /// A replica.
    Vol(Result<ZfsVol, Error>),
    /// Snapshots.
    Snaps(Result<Vec<ZfsSnapshot>, Error>),
    /// A snapshot.
    Snap(Result<ZfsSnapshot, Error>),
    /// Pools.
    Pools(Result<Vec<ZfsPool>, Error>),
    /// A pool.
    Pool(Result<ZfsPool, Error>),
}

impl Effect {
    /// The reply is of the kind that answers the work.
    pub open spec fn answered(self, reply: Reply) -> bool {
        match self {
            Effect::Run(_) => reply is Output,
            Effect::Probe { .. } => reply is Probed,
            Effect::PunchHole(_) => reply is Flag,
            Effect::FindBdev(_) => reply is Flag || reply is Lost,
            Effect::CreateBdev(_) => reply is Engine || reply is Lost,
            Effect::ReadBdev(_) => reply is Bdev || reply is Lost,
            Effect::CreatePtpl(_) => reply is Ptpl,
            Effect::ShareBdev { .. } => reply is Shared || reply is Lost,
            Effect::UpdateBdev { .. } | Effect::UnshareBdev(_) => reply is Changed || reply is Lost,
            Effect::DestroyBdev(_) => reply is Gone || reply is Lost,
            Effect::NotifyBlocks { .. } => reply is Notified || reply is Lost,
            Effect::RemovePtpl(_) | Effect::RemovePoolPtpl(_) => reply is Noted,
            Effect::AwaitDevice(_) | Effect::CloseBdev(_) | Effect::ExportPool(_) => reply is
                Finished,
            Effect::OpenVol(_) => reply is Opened,
            Effect::ListVols(_) => reply is Vols,
            Effect::LookupVol(_) => reply is Vol,
            Effect::ListSnaps(_) => reply is Snaps,
            Effect::LookupSnap(_) => reply is Snap,
            Effect::ListPools(_) => reply is Pools,
            Effect::LookupPool(_) | Effect::AdoptPool { .. } => reply is Pool,
        }
    }
}

/// How an operation goes on.
#[derive(Debug)]
pub enum Step<S, T> {
    /// Do the work and resume the operation in the given state with the reply.
    Do(Effect, S),
    /// The operation is done.
    Done(T),
    /// The operation failed.
    Failed(Error),
}

/// The operation goes on by running the command, in the given state.
pub open spec fn runs<S, T>(step: Step<S, T>, cmd: CmdView, next: S) -> bool {
    step matches Step::Do(Effect::Run(run), state) && run@ == cmd && state == next
}

/// The operation fails with the error.
pub open spec fn fails<S, T>(step: Step<S, T>, error: ErrorView) -> bool {
    step matches Step::Failed(e) && e@ == error
}

} // verus!
