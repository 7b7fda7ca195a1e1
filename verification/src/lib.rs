//! A storage pool backend on top of ZFS, which is driven via the zfs(8) command line: what to run,
//! how its output is decoded, and what is decided by it. Running the commands, and whatever the
//! storage engine does to block devices, is left to the caller, see `operation`.
//!
//!  - Pool: a pool named P created on the disks entry "tank/data" is the container filesystem
//!    dataset "tank/data/P". Commands used
//!       - zfs create -o io.mayastor:pool=<uuid> ... tank/data/P
//!       - zfs get/list -Hp ... -> discovery and detail queries
//!       - zfs inherit io.mayastor:pool -> export (drops ownership)
//!       - zfs destroy -r -> destroy
//!  - Replica: a ZFS volume (zvol) "tank/data/P/<replica-uuid>", exposed to the engine through its
//!    /dev/zvol block device via an aio bdev. Commands used
//!       - zfs create [-s] -V <size> -b <volblocksize> -o ... -> create
//!       - zfs set volsize=<size> -> resize (expand only)
//!       - zfs set/inherit io.mayastor:* -> property updates
//!       - zfs destroy [-r] -> destroy
//!  - Snapshot/Clone: native ZFS snapshots and clones. Commands used
//!       - zfs snapshot -o io.mayastor:* ds@<snapshot-uuid> -> atomic create
//!       - zfs clone -o io.mayastor:* ds@snap tank/data/P/<clone-uuid>
//!       - zfs destroy [-d] ds@snap -> destroy (deferred when clones exist)
//!       - zfs promote <clone> -> re-home snapshots on replica destroy
//!
//! Ownership and metadata are persisted as ZFS user properties in the "io.mayastor:" namespace. ZFS
//! user properties are inherited by child datasets and snapshots, therefore every ownership check
//! requires the property source to be "local".
#![allow(unused_imports)]

/// Builds the zfs commands and decodes their -Hp tab-separated output.
pub mod cli;
/// Names of datasets.
pub mod dataset;
/// ZFS pools (the container filesystem datasets).
pub mod ds_pool;
/// The vocabulary shared with the storage engine.
pub mod engine;
/// The errors of the backend.
pub mod error;
/// The operations of the backend.
pub mod flow;
/// What holds of the backend as a whole.
pub mod laws;
/// Operations as state machines.
pub mod operation;
/// Pool and replica creation options parsing.
pub mod options;
/// What the backend takes from elsewhere.
pub mod outside;
/// User properties.
pub mod property;
/// Persist through power loss files.
pub mod ptpl;
/// Native ZFS snapshots.
pub mod snapshot;
/// Texts as sequences of characters.
pub mod text;
/// ZFS volume (zvol) replicas.
pub mod zvol_replica;

pub use crate::cli::ZfsQueryArgs;
pub use crate::ds_pool::ZfsPool;
pub use crate::error::Error;
pub use crate::flow::factory::{PoolZfsFactory, ReplZfsFactory};
pub use crate::snapshot::{SnapQueryArgs, ZfsSnapshot};
pub use crate::zvol_replica::{VolQueryArgs, ZfsVol};
