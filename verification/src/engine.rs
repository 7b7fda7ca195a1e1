//! The vocabulary shared with the storage engine that hosts the backend.
use vstd::prelude::*;
use crate::text::chars::{clone_opt, text_opt, texts};

verus! {

/// The protocol a block device is shared with.
#[derive(Debug, Clone, Copy, PartialEq, Eq, Structural)]
pub enum Protocol {
    /// Not shared.
    Off,
    /// Shared over NVMe-oF.
    Nvmf,
}

impl Default for Protocol {
    fn default() -> (res: Self)
        ensures
            res == Protocol::Off,
    {
        Protocol::Off
    }
}

/// The kinds of pool backends.
#[derive(Debug, Clone, Copy, PartialEq, Eq, Structural)]
pub enum PoolBackend {
    /// A blobstore.
    Lvs,
    /// A volume group.
    Lvm,
    /// A ZFS dataset.
    Zfs,
}

/// The system error numbers the backend reports.
#[derive(Debug, Clone, Copy, PartialEq, Eq, Structural)]
pub enum Errno {
    EIO,
    EINVAL,
    ENOENT,
    EBUSY,
    ETIMEDOUT,
    EXFULL,
    EPIPE,
    EFAULT,
    ENODEV,
    ENOSPC,
    EEXIST,
    ENOTSUP,
    ENOSYS,
}

/// The codes of a failed remote call.
#[derive(Debug, Clone, Copy, PartialEq, Eq, Structural)]
pub enum StatusCode {
    InvalidArgument,
    NotFound,
    ResourceExhausted,
    AlreadyExists,
    FailedPrecondition,
    Internal,
}

/// The outcome of a failed remote call.
#[derive(Debug, Clone, PartialEq, Eq)]
pub struct Status {
    pub code: StatusCode,
    pub message: String,
}

/// Failures of the engine's core that the backend raises itself.
#[derive(Debug, Clone, Copy, PartialEq, Eq, Structural)]
pub enum CoreError {
    NotSupported { source: Errno },
}

/// The parameters of a create or import pool request.
#[derive(Debug, Clone)]
pub struct PoolArgs {
    /// The name of the pool.
    pub name: String,
    /// The disks entries.
    pub disks: Vec<String>,
    /// The uuid of the pool.
    pub uuid: Option<String>,
    /// The size of the units the pool allocates.
    pub cluster_size: Option<u32>,
    /// The key to encrypt the pool with.
    pub enc_key: Option<String>,
}

/// The parameters of a create replica request.
#[derive(Debug, Clone)]
pub struct ReplicaArgs {
    /// The name of the replica.
    pub name: String,
    /// The uuid of the replica.
    pub uuid: String,
    /// The size of the replica in bytes.
    pub size: u64,
    /// Whether the replica is thin provisioned.
    pub thin: bool,
    /// The entity which owns the replica.
    pub entity_id: Option<String>,
    /// Backend specific properties of the replica.
    pub properties: Vec<(String, String)>,
}

/// The parameters a snapshot is created with.
#[derive(Debug, Clone)]
pub struct SnapshotParams {
    pub entity_id: Option<String>,
    pub parent_id: Option<String>,
    pub txn_id: Option<String>,
    pub name: Option<String>,
    pub snapshot_uuid: Option<String>,
    pub create_time: Option<String>,
    pub discarded_snapshot: bool,
}

/// The mathematical view of the parameters of a snapshot.
#[verifier::ext_equal]
pub struct SnapshotParamsView {
    pub entity_id: Option<Seq<char>>,
    pub parent_id: Option<Seq<char>>,
    pub txn_id: Option<Seq<char>>,
    pub name: Option<Seq<char>>,
    pub snapshot_uuid: Option<Seq<char>>,
    pub create_time: Option<Seq<char>>,
    pub discarded_snapshot: bool,
}

impl View for SnapshotParams {
    type V = SnapshotParamsView;

    open spec fn view(&self) -> SnapshotParamsView {
        SnapshotParamsView {
            entity_id: text_opt(self.entity_id),
            parent_id: text_opt(self.parent_id),
            txn_id: text_opt(self.txn_id),
            name: text_opt(self.name),
            snapshot_uuid: text_opt(self.snapshot_uuid),
            create_time: text_opt(self.create_time),
            discarded_snapshot: self.discarded_snapshot,
        }
    }
}

impl SnapshotParams {
    /// A copy of the parameters.
    pub fn copy(&self) -> (res: Self)
        ensures
            res == *self,
    {
        SnapshotParams {
            entity_id: clone_opt(&self.entity_id),
            parent_id: clone_opt(&self.parent_id),
            txn_id: clone_opt(&self.txn_id),
            name: clone_opt(&self.name),
            snapshot_uuid: clone_opt(&self.snapshot_uuid),
            create_time: clone_opt(&self.create_time),
            discarded_snapshot: self.discarded_snapshot,
        }
    }
}

/// The parameters a clone is created with.
#[derive(Debug, Clone)]
pub struct CloneParams {
    pub clone_name: Option<String>,
    pub clone_uuid: Option<String>,
}

/// Which pool to find.
#[derive(Debug, Clone)]
pub enum FindPoolArgs {
    /// The pool with the given uuid.
    Uuid(String),
    /// The pool with the given uuid, or else with the given name.
    UuidOrName(String),
    /// The pool with the given name, and the given uuid if there is one.
    NameUuid { name: String, uuid: Option<String> },
}

/// Which pools to list.
#[derive(Debug, Clone)]
pub struct ListPoolArgs {
    pub name: Option<String>,
    pub uuid: Option<String>,
    pub backend: Option<PoolBackend>,
}

/// Which replica to find.
#[derive(Debug, Clone)]
pub struct FindReplicaArgs {
    pub uuid: String,
}

/// Which replicas to list.
#[derive(Debug, Clone)]
pub struct ListReplicaArgs {
    pub name: Option<String>,
    pub uuid: Option<String>,
    pub pool_name: Option<String>,
    pub pool_uuid: Option<String>,
}

/// Which snapshot to find.
#[derive(Debug, Clone)]
pub struct FindSnapshotArgs {
    pub uuid: String,
}

/// Which snapshots to list.
#[derive(Debug, Clone)]
pub struct ListSnapshotArgs {
    pub uuid: Option<String>,
    pub source_uuid: Option<String>,
}

/// Which clones to list.
#[derive(Debug, Clone)]
pub struct ListCloneArgs {
    pub snapshot_uuid: Option<String>,
}

/// How a replica is shared over NVMe-oF.
#[derive(Debug, Clone)]
pub struct NvmfShareProps {
    /// The hosts which may connect.
    pub allowed_hosts: Vec<String>,
    /// The path of the persist through power loss file.
    pub ptpl: Option<String>,
}

/// What may be changed of a shared replica.
#[derive(Debug, Clone)]
pub struct UpdateProps {
    /// The hosts which may connect.
    pub allowed_hosts: Vec<String>,
}

/// What the engine reports of a block device it holds open.
#[derive(Debug, Clone)]
pub struct BdevInfo {
    /// The name of the device.
    pub name: String,
    /// The URI the device is shared under.
    pub share_uri: Option<String>,
    /// The URI the device was created from.
    pub open_uri: Option<String>,
    /// The hosts which may connect to the shared device.
    pub allowed_hosts: Vec<String>,
    /// The protocol the device is shared with.
    pub shared: Option<Protocol>,
    /// The size of the device in bytes.
    pub size: u64,
    /// The size of a block in bytes.
    pub block_len: u32,
}

impl BdevInfo {
    /// The device is shared over NVMe-oF.
    pub open spec fn nvmf(self) -> bool {
        self.shared == Some(Protocol::Nvmf)
    }

    /// Whether the device is shared over NVMe-oF.
    pub fn is_nvmf(&self) -> (res: bool)
        ensures
            res == self.nvmf(),
    {
        match self.shared {
            Some(Protocol::Nvmf) => true,
            _ => false,
        }
    }
}

/// The space usage of a logical volume.
#[derive(Debug, Clone, Copy, PartialEq, Eq)]
pub struct LvolSpaceUsage {
    pub capacity_bytes: u64,
    pub allocated_bytes: u64,
    pub cluster_size: u64,
    pub num_clusters: u64,
    pub num_allocated_clusters: u64,
    pub allocated_bytes_snapshots: u64,
    pub num_allocated_clusters_snapshots: u64,
    pub allocated_bytes_snapshot_from_clone: Option<u64>,
}

/// What a logical volume reports of itself.
#[verifier::ext_equal]
pub struct LvolView {
    pub name: Seq<char>,
    pub uuid: Seq<char>,
    pub pool_name: Seq<char>,
    pub pool_uuid: Seq<char>,
    pub entity_id: Option<Seq<char>>,
    pub thin: bool,
    pub read_only: bool,
    pub size: u64,
    pub committed: u64,
    pub allocated: u64,
    pub cluster_size: u64,
    pub allocated_snapshots: u64,
    pub snapshot: bool,
    pub clone: bool,
    pub snapshot_uuid: Option<Seq<char>>,
    pub share: Protocol,
    pub share_uri: Option<Seq<char>>,
    pub allowed_hosts: Seq<Seq<char>>,
    pub encrypted: bool,
}

/// The number of clusters that the given number of bytes occupies.
pub open spec fn clusters_of(bytes: u64, cluster_size: u64) -> u64
    recommends
        cluster_size > 0,
{
    if bytes % cluster_size == 0 {
        bytes / cluster_size
    } else {
        (bytes / cluster_size + 1) as u64
    }
}

impl LvolView {
    /// The space usage of the volume.
    pub open spec fn usage(self) -> LvolSpaceUsage {
        LvolSpaceUsage {
            capacity_bytes: self.size,
            allocated_bytes: self.allocated,
            cluster_size: self.cluster_size,
            num_clusters: self.size / self.cluster_size,
            num_allocated_clusters: clusters_of(self.allocated, self.cluster_size),
            allocated_bytes_snapshots: self.allocated_snapshots,
            num_allocated_clusters_snapshots: clusters_of(
                self.allocated_snapshots,
                self.cluster_size,
            ),
            allocated_bytes_snapshot_from_clone: None,
        }
    }
}

/// The number of clusters that the given number of bytes occupies.
pub fn cluster_count(bytes: u64, cluster_size: u64) -> (res: u64)
    requires
        cluster_size > 0,
    ensures
        res == clusters_of(bytes, cluster_size),
{
    let whole = bytes / cluster_size;
    if bytes % cluster_size == 0 {
        whole
    } else {
        proof {
            if cluster_size == 1 {
                assert(bytes as int % 1 == 0);
            } else {
                assert(bytes as int / cluster_size as int <= bytes as int / 2)
                    by (nonlinear_arith)
                    requires
                        cluster_size >= 2,
                ;
            }
        }
        whole + 1
    }
}

/// A volume which the engine can report on: a replica or a snapshot.
pub trait LogicalVolume {
    /// What the volume reports of itself.
    spec fn lvol(&self) -> LvolView;

    /// The name of the volume.
    fn name(&self) -> (res: String)
        ensures
            res@ == self.lvol().name,
    ;

    /// The uuid of the volume.
    fn uuid(&self) -> (res: String)
        ensures
            res@ == self.lvol().uuid,
    ;

    /// The name of the pool of the volume.
    fn pool_name(&self) -> (res: String)
        ensures
            res@ == self.lvol().pool_name,
    ;

    /// The uuid of the pool of the volume.
    fn pool_uuid(&self) -> (res: String)
        ensures
            res@ == self.lvol().pool_uuid,
    ;

    /// The entity which owns the volume.
    fn entity_id(&self) -> (res: Option<String>)
        ensures
            text_opt(res) == self.lvol().entity_id,
    ;

    /// Whether the volume is thin provisioned.
    fn is_thin(&self) -> (res: bool)
        ensures
            res == self.lvol().thin,
    ;

    /// Whether the volume is read only.
    fn is_read_only(&self) -> (res: bool)
        ensures
            res == self.lvol().read_only,
    ;

    /// The size of the volume.
    fn size(&self) -> (res: u64)
        ensures
            res == self.lvol().size,
    ;

    /// The space the volume may come to occupy.
    fn committed(&self) -> (res: u64)
        ensures
            res == self.lvol().committed,
    ;

    /// The space the volume occupies.
    fn allocated(&self) -> (res: u64)
        ensures
            res == self.lvol().allocated,
    ;

    /// The space usage of the volume.
    fn usage(&self) -> (res: LvolSpaceUsage)
        requires
            self.lvol().cluster_size > 0,
        ensures
            res == self.lvol().usage(),
    ;

    /// Whether the volume is a snapshot.
    fn is_snapshot(&self) -> (res: bool)
        ensures
            res == self.lvol().snapshot,
    ;

    /// Whether the volume is a clone.
    fn is_clone(&self) -> (res: bool)
        ensures
            res == self.lvol().clone,
    ;

    /// The kind of backend which holds the volume.
    fn backend(&self) -> (res: PoolBackend)
        ensures
            res == PoolBackend::Zfs,
    ;

    /// The snapshot the volume is a clone of.
    fn snapshot_uuid(&self) -> (res: Option<String>)
        ensures
            text_opt(res) == self.lvol().snapshot_uuid,
    ;

    /// The persisted share protocol of the volume.
    fn share_protocol(&self) -> (res: Protocol)
        ensures
            res == self.lvol().share,
    ;

    /// The URI the volume is shared under.
    fn bdev_share_uri(&self) -> (res: Option<String>)
        ensures
            text_opt(res) == self.lvol().share_uri,
    ;

    /// The hosts which may connect to the shared volume.
    fn nvmf_allowed_hosts(&self) -> (res: Vec<String>)
        ensures
            texts(res@) == self.lvol().allowed_hosts,
    ;

    /// Whether the volume is encrypted.
    fn encrypted(&self) -> (res: bool)
        ensures
            res == self.lvol().encrypted,
    ;
}

} // verus!
