//! Native ZFS snapshots.
use vstd::prelude::*;
use crate::cli::{admits, admitted, DsProps, DsPropsView, QueryView, ZfsQueryArgs};
use crate::engine::{
    cluster_count, LogicalVolume, LvolSpaceUsage, LvolView, PoolBackend, Protocol, SnapshotParams,
    SnapshotParamsView,
};
use crate::property::{is_true, truth, PropertyType};
use crate::text::chars::{clone_opt, clone_texts, str_eq, text_opt, texts};
use crate::text::split::{
    last_piece, last_piece_text, rsplit_once, rsplit_once_text, split_once, split_once_text,
};
use crate::zvol_replica::{block_size, block_size_of, csv, csv_texts, or_empty};

verus! {

/// Different list options for a zvol snapshot.
#[derive(Debug, Clone)]
pub struct SnapQueryArgs {
    /// Find the snapshot with the given snapshot uuid.
    pub uuid: Option<String>,
    /// Find the snapshots of the given source replica uuid.
    pub source_uuid: Option<String>,
    /// Pertaining the pool container.
    pub pool: ZfsQueryArgs,
    /// Scope the query to the snapshots of the given zvol dataset.
    pub dataset: Option<String>,
}

/// The mathematical view of the list options.
#[verifier::ext_equal]
pub struct SnapQueryView {
    pub uuid: Option<Seq<char>>,
    pub source_uuid: Option<Seq<char>>,
    pub pool: QueryView,
    pub dataset: Option<Seq<char>>,
}

impl View for SnapQueryArgs {
    type V = SnapQueryView;

    open spec fn view(&self) -> SnapQueryView {
        SnapQueryView {
            uuid: text_opt(self.uuid),
            source_uuid: text_opt(self.source_uuid),
            pool: self.pool@,
            dataset: text_opt(self.dataset),
        }
    }
}

impl SnapQueryView {
    /// The options which any snapshot meets.
    pub open spec fn any() -> SnapQueryView {
        SnapQueryView { uuid: None, source_uuid: None, pool: QueryView::any(), dataset: None }
    }

    /// The display of the options.
    pub open spec fn display(self) -> Seq<char> {
        "uuid="@ + or_empty(self.uuid) + ",source="@ + or_empty(self.source_uuid)
    }
}

impl Default for SnapQueryArgs {
    fn default() -> (res: Self)
        ensures
            res@ == SnapQueryView::any(),
    {
        SnapQueryArgs::new()
    }
}

impl SnapQueryArgs {
    /// Builder-like creating a default `Self`.
    pub fn new() -> (res: Self)
        ensures
            res@ == SnapQueryView::any(),
    {
        SnapQueryArgs { uuid: None, source_uuid: None, pool: ZfsQueryArgs::any(), dataset: None }
    }

    /// Find the snapshot with the given snapshot uuid.
    pub fn uuid(self, uuid: &str) -> (res: Self)
        ensures
            res@ == (SnapQueryView { uuid: Some(uuid@), ..self@ }),
    {
        SnapQueryArgs { uuid: Some(uuid.to_owned()), ..self }
    }

    /// Find the snapshot with the given snapshot uuid.
    pub fn uuid_opt(self, uuid: &Option<String>) -> (res: Self)
        ensures
            res@ == (match *uuid {
                Some(uuid) => SnapQueryView { uuid: Some(uuid@), ..self@ },
                None => self@,
            }),
    {
        match uuid {
            Some(uuid) => self.uuid(uuid.as_str()),
            None => self,
        }
    }

    /// Find the snapshots of the given source replica uuid.
    pub fn source_opt(self, source_uuid: &Option<String>) -> (res: Self)
        ensures
            res@ == (match *source_uuid {
                Some(uuid) => SnapQueryView { source_uuid: Some(uuid@), ..self@ },
                None => self@,
            }),
    {
        match source_uuid {
            Some(uuid) => SnapQueryArgs { source_uuid: Some(uuid.clone()), ..self },
            None => self,
        }
    }

    /// Add the pool query args.
    pub fn with_pool(self, pool: ZfsQueryArgs) -> (res: Self)
        ensures
            res@ == (SnapQueryView { pool: pool@, ..self@ }),
    {
        SnapQueryArgs { pool, ..self }
    }

    /// Scope the query to the snapshots of the given zvol dataset.
    pub fn scoped(self, dataset: &str) -> (res: Self)
        ensures
            res@ == (SnapQueryView { dataset: Some(dataset@), ..self@ }),
    {
        SnapQueryArgs { dataset: Some(dataset.to_owned()), ..self }
    }

    /// A copy of the options.
    pub fn copy(&self) -> (res: Self)
        ensures
            res == *self,
    {
        SnapQueryArgs {
            uuid: clone_opt(&self.uuid),
            source_uuid: clone_opt(&self.source_uuid),
            pool: self.pool.copy(),
            dataset: clone_opt(&self.dataset),
        }
    }

    /// Get a display string of the query, for error messages.
    pub fn query(&self) -> (res: String)
        ensures
            res@ == self@.display(),
    {
        let uuid = match &self.uuid {
            Some(uuid) => uuid.clone(),
            None => String::new(),
        };
        let source = match &self.source_uuid {
            Some(uuid) => uuid.clone(),
            None => String::new(),
        };
        "uuid=".to_owned().concat(uuid.as_str()).concat(",source=").concat(source.as_str())
    }
}

/// A snapshot which is a native ZFS snapshot of the replica zvol:
/// <container>/<replica-uuid>@<snapshot-uuid>.
///
/// The `SnapshotParams` are persisted atomically as user properties of the snapshot itself (zfs
/// snapshot -o). A deleted snapshot which still has clones is kept as "discarded"
/// (io.mayastor:discarded=true + zfs deferred destroy) until its last clone goes away.
#[derive(Debug, Clone)]
pub struct ZfsSnapshot {
    /// The full snapshot path: <dataset>@<snapshot-uuid>.
    path: String,
    /// The parent zvol dataset path.
    dataset: String,
    /// The pool container dataset path.
    container: String,
    /// The pool name (last path component of the container).
    pool_name: String,
    /// The pool uuid, inherited from the io.mayastor:pool user property.
    pool_uuid: String,
    /// The snapshot uuid, from the local io.mayastor:snapshot_uuid property.
    uuid: String,
    /// The snapshot creation parameters, reconstructed from the user properties.
    params: SnapshotParams,
    /// Space uniquely allocated by this snapshot.
    used: u64,
    /// Space referenced by this snapshot.
    referenced: u64,
    /// The volsize of the snapshotted zvol.
    volsize: u64,
    /// The volblocksize of the snapshotted zvol.
    volblocksize: u64,
    /// The clones created from this snapshot (full dataset paths).
    clones: Vec<String>,
    /// Whether the snapshot has been discarded (deleted whilst still having clones).
    discarded: bool,
}

/// The mathematical view of a snapshot.
#[verifier::ext_equal]
pub struct SnapView {
    pub path: Seq<char>,
    pub dataset: Seq<char>,
    pub container: Seq<char>,
    pub pool_name: Seq<char>,
    pub pool_uuid: Seq<char>,
    pub uuid: Seq<char>,
    pub params: SnapshotParamsView,
    pub used: u64,
    pub referenced: u64,
    pub volsize: u64,
    pub volblocksize: u64,
    pub clones: Seq<Seq<char>>,
    pub discarded: bool,
}

impl View for ZfsSnapshot {
    type V = SnapView;

    closed spec fn view(&self) -> SnapView {
        SnapView {
            path: self.path@,
            dataset: self.dataset@,
            container: self.container@,
            pool_name: self.pool_name@,
            pool_uuid: self.pool_uuid@,
            uuid: self.uuid@,
            params: self.params@,
            used: self.used,
            referenced: self.referenced,
            volsize: self.volsize,
            volblocksize: self.volblocksize,
            clones: texts(self.clones@),
            discarded: self.discarded,
        }
    }
}

/// The views of snapshots.
pub open spec fn snap_views(snaps: Seq<ZfsSnapshot>) -> Seq<SnapView> {
    snaps.map_values(|s: ZfsSnapshot| s@)
}

impl SnapView {
    /// The snapshot parameters that user properties stand for.
    pub open spec fn params_of(props: DsPropsView, uuid: Seq<char>) -> SnapshotParamsView {
        SnapshotParamsView {
            entity_id: props.local(PropertyType::EntityId.key()),
            parent_id: props.local(PropertyType::ParentId.key()),
            txn_id: props.local(PropertyType::TxnId.key()),
            name: props.local(PropertyType::Name.key()),
            snapshot_uuid: Some(uuid),
            create_time: props.local(PropertyType::CreateTime.key()),
            discarded_snapshot: match props.local(PropertyType::Discarded.key()) {
                Some(value) => is_true(value),
                None => false,
            },
        }
    }

    /// The snapshot that properties stand for; none where it is not owned by us: it must be of a
    /// zvol in a container, its uuid must be set on the snapshot itself, and the uuid of its pool
    /// must be visible.
    pub open spec fn of_props(props: DsPropsView) -> Option<SnapView> {
        match split_once(props.name, '@') {
            None => None,
            Some((dataset, _)) => match (
                rsplit_once(dataset, '/'),
                props.local(PropertyType::SnapshotUuid.key()),
                props.value(PropertyType::PoolUuid.key()),
            ) {
                (Some((container, _)), Some(uuid), Some(pool_uuid)) => {
                    let params = SnapView::params_of(props, uuid);
                    Some(
                        SnapView {
                            path: props.name,
                            dataset,
                            container,
                            pool_name: last_piece(container, '/'),
                            pool_uuid,
                            uuid,
                            params,
                            used: props.number_or_zero("used"@),
                            referenced: props.number_or_zero("referenced"@),
                            volsize: props.number_or_zero("volsize"@),
                            volblocksize: block_size_of(props),
                            clones: csv(props.value("clones"@)),
                            discarded: params.discarded_snapshot || props.value("defer_destroy"@)
                                == Some("on"@),
                        },
                    )
                },
                _ => None,
            },
        }
    }

    /// The snapshot meets the list options.
    pub open spec fn meets(self, query: SnapQueryView) -> bool {
        &&& admits(query.uuid, self.uuid)
        &&& match query.source_uuid {
            Some(source) => self.params.parent_id == Some(source) || last_piece(self.dataset, '/')
                == source,
            None => true,
        }
        &&& query.pool.matches(self.pool_name, self.pool_uuid)
    }

    /// The uuid of the replica the snapshot was created from.
    pub open spec fn source_uuid(self) -> Seq<char> {
        match self.params.parent_id {
            Some(id) => id,
            None => last_piece(self.dataset, '/'),
        }
    }

    /// What the snapshot reports of itself.
    pub open spec fn lvol(self) -> LvolView {
        LvolView {
            name: match self.params.name {
                Some(name) => name,
                None => self.uuid,
            },
            uuid: self.uuid,
            pool_name: self.pool_name,
            pool_uuid: self.pool_uuid,
            entity_id: self.params.entity_id,
            thin: true,
            read_only: true,
            size: self.volsize,
            committed: self.volsize,
            allocated: self.referenced,
            cluster_size: self.volblocksize,
            allocated_snapshots: self.used,
            snapshot: true,
            clone: false,
            snapshot_uuid: None,
            share: Protocol::Off,
            share_uri: None,
            allowed_hosts: Seq::empty(),
            encrypted: false,
        }
    }
}

/// The information on a snapshot.
#[derive(Debug, Clone)]
pub struct SnapshotInfo {
    /// The uuid of the replica the snapshot was created from.
    pub source_uuid: String,
    /// The space the snapshot references.
    pub snapshot_size: u64,
    /// The parameters of the snapshot.
    pub snapshot_params: SnapshotParams,
    /// The number of clones of the snapshot.
    pub num_clones: u64,
    /// Whether all the parameters of the snapshot are known.
    pub valid_snapshot: bool,
}

/// A snapshot along with the information on it.
#[derive(Debug, Clone)]
pub struct SnapshotDescriptor {
    pub snapshot: ZfsSnapshot,
    pub info: SnapshotInfo,
}

impl SnapshotDescriptor {
    /// The descriptor describes the snapshot.
    pub open spec fn describes(self, snap: SnapView) -> bool {
        &&& self.snapshot@ == snap
        &&& self.info.source_uuid@ == snap.source_uuid()
        &&& self.info.snapshot_size == snap.referenced
        &&& self.info.snapshot_params@ == snap.params
        &&& self.info.num_clones == snap.clones.len()
        &&& self.info.valid_snapshot == (snap.params.name is Some && snap.params.parent_id is Some
            && snap.params.entity_id is Some && snap.params.txn_id is Some
            && snap.params.create_time is Some)
    }
}

impl ZfsSnapshot {
    /// Build a `ZfsSnapshot` from its bulk query properties, yielding nothing if the snapshot is
    /// not owned by us.
    pub fn from_props(props: &DsProps) -> (res: Option<ZfsSnapshot>)
        ensures
            match res {
                Some(snap) => SnapView::of_props(props@) == Some(snap@),
                None => SnapView::of_props(props@) is None,
            },
    {
        let path = props.name().to_owned();
        let dataset = match split_once_text(path.as_str(), '@') {
            Some((dataset, _)) => dataset,
            None => {
                return None;
            },
        };
        let container = match rsplit_once_text(dataset.as_str(), '/') {
            Some((container, _)) => container,
            None => {
                return None;
            },
        };
        // The snapshot uuid property must be local; a snapshot taken out-of-band would only
        // inherit it from its dataset.
        let uuid = match props.local_text(PropertyType::SnapshotUuid.value()) {
            Some(uuid) => uuid,
            None => {
                return None;
            },
        };
        let pool_uuid = match props.value_text(PropertyType::PoolUuid.value()) {
            Some(uuid) => uuid,
            None => {
                return None;
            },
        };
        let pool_name = last_piece_text(container.as_str(), '/');
        let discarded_prop = match props.local(PropertyType::Discarded.value()) {
            Some(value) => truth(value),
            None => false,
        };
        let params = SnapshotParams {
            entity_id: props.local_text(PropertyType::EntityId.value()),
            parent_id: props.local_text(PropertyType::ParentId.value()),
            txn_id: props.local_text(PropertyType::TxnId.value()),
            name: props.local_text(PropertyType::Name.value()),
            snapshot_uuid: Some(uuid.clone()),
            create_time: props.local_text(PropertyType::CreateTime.value()),
            discarded_snapshot: discarded_prop,
        };
        Some(
            ZfsSnapshot {
                dataset,
                container,
                pool_name,
                pool_uuid,
                uuid,
                params,
                used: props.u64_or_zero("used"),
                referenced: props.u64_or_zero("referenced"),
                volsize: props.u64_or_zero("volsize"),
                volblocksize: block_size(props),
                clones: csv_texts(props.value("clones")),
                discarded: discarded_prop || props.bool_on("defer_destroy"),
                path,
            },
        )
    }

    /// Check if the snapshot matches the list options.
    pub fn matches(&self, opts: &SnapQueryArgs) -> (res: bool)
        ensures
            res == self@.meets(opts@),
    {
        let of_source = match &opts.source_uuid {
            Some(source) => {
                let parent = match &self.params.parent_id {
                    Some(id) => str_eq(id.as_str(), source.as_str()),
                    None => false,
                };
                parent || str_eq(
                    last_piece_text(self.dataset.as_str(), '/').as_str(),
                    source.as_str(),
                )
            },
            None => true,
        };
        admitted(&opts.uuid, self.uuid.as_str()) && of_source && admitted(
            &opts.pool.name,
            self.pool_name.as_str(),
        ) && admitted(&opts.pool.uuid, self.pool_uuid.as_str())
    }

    /// A copy of the snapshot.
    pub fn copy(&self) -> (res: Self)
        ensures
            res@ == self@,
    {
        ZfsSnapshot {
            path: self.path.clone(),
            dataset: self.dataset.clone(),
            container: self.container.clone(),
            pool_name: self.pool_name.clone(),
            pool_uuid: self.pool_uuid.clone(),
            uuid: self.uuid.clone(),
            params: self.params.copy(),
            used: self.used,
            referenced: self.referenced,
            volsize: self.volsize,
            volblocksize: self.volblocksize,
            clones: clone_texts(&self.clones),
            discarded: self.discarded,
        }
    }

    /// Gets the `SnapshotDescriptor` which contains all snapshot related information.
    pub fn descriptor(&self) -> (res: SnapshotDescriptor)
        ensures
            res.describes(self@),
    {
        let valid = self.params.name.is_some() && self.params.parent_id.is_some()
            && self.params.entity_id.is_some() && self.params.txn_id.is_some()
            && self.params.create_time.is_some();
        assert(texts(self.clones@).len() == self.clones@.len());
        let info = SnapshotInfo {
            source_uuid: self.source_uuid(),
            snapshot_size: self.referenced,
            snapshot_params: self.params.copy(),
            num_clones: self.clones.len() as u64,
            valid_snapshot: valid,
        };
        SnapshotDescriptor { snapshot: self.copy(), info }
    }

    /// The uuid of the replica this snapshot was created from.
    pub fn source_uuid(&self) -> (res: String)
        ensures
            res@ == self@.source_uuid(),
    {
        match &self.params.parent_id {
            Some(id) => id.clone(),
            None => last_piece_text(self.dataset.as_str(), '/'),
        }
    }

    /// The snapshot uuid.
    pub fn uuid(&self) -> (res: &str)
        ensures
            res@ == self@.uuid,
    {
        self.uuid.as_str()
    }

    /// The full snapshot path: <dataset>@<snapshot-uuid>.
    pub fn path(&self) -> (res: &str)
        ensures
            res@ == self@.path,
    {
        self.path.as_str()
    }

    /// The pool container dataset path.
    pub fn container(&self) -> (res: &str)
        ensures
            res@ == self@.container,
    {
        self.container.as_str()
    }

    /// The clones created from this snapshot (full dataset paths).
    pub fn clones(&self) -> (res: &Vec<String>)
        ensures
            texts(res@) == self@.clones,
    {
        &self.clones
    }

    /// Check if the snapshot has been discarded: either explicitly via our user property or via
    /// the zfs deferred destroy flag.
    pub fn discarded(&self) -> (res: bool)
        ensures
            res == self@.discarded,
    {
        self.discarded
    }
}

impl LogicalVolume for ZfsSnapshot {
    open spec fn lvol(&self) -> LvolView {
        self@.lvol()
    }

    fn name(&self) -> String {
        match &self.params.name {
            Some(name) => name.clone(),
            None => self.uuid.clone(),
        }
    }

    fn uuid(&self) -> String {
        self.uuid.clone()
    }

    fn pool_name(&self) -> String {
        self.pool_name.clone()
    }

    fn pool_uuid(&self) -> String {
        self.pool_uuid.clone()
    }

    fn entity_id(&self) -> Option<String> {
        clone_opt(&self.params.entity_id)
    }

    fn is_thin(&self) -> bool {
        true
    }

    fn is_read_only(&self) -> bool {
        true
    }

    fn size(&self) -> u64 {
        self.volsize
    }

    fn committed(&self) -> u64 {
        self.volsize
    }

    fn allocated(&self) -> u64 {
        self.referenced
    }

    fn usage(&self) -> LvolSpaceUsage {
        let cluster_size = self.volblocksize;
        LvolSpaceUsage {
            capacity_bytes: self.volsize,
            allocated_bytes: self.referenced,
            cluster_size,
            num_clusters: self.volsize / cluster_size,
            num_allocated_clusters: cluster_count(self.referenced, cluster_size),
            allocated_bytes_snapshots: self.used,
            num_allocated_clusters_snapshots: cluster_count(self.used, cluster_size),
            allocated_bytes_snapshot_from_clone: None,
        }
    }

    fn is_snapshot(&self) -> bool {
        true
    }

    fn is_clone(&self) -> bool {
        false
    }

    fn backend(&self) -> PoolBackend {
        PoolBackend::Zfs
    }

    fn snapshot_uuid(&self) -> Option<String> {
        None
    }

    fn share_protocol(&self) -> Protocol {
        Protocol::Off
    }

    fn bdev_share_uri(&self) -> Option<String> {
        None
    }

    fn nvmf_allowed_hosts(&self) -> Vec<String> {
        let res: Vec<String> = Vec::new();
        assert(texts(res@) =~= Seq::empty());
        res
    }

    fn encrypted(&self) -> bool {
        false
    }
}

} // verus!
