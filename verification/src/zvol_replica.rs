//! ZFS volume (zvol) replicas.
use vstd::prelude::*;
use crate::cli::{admitted, DsProps, DsPropsView, QueryView, ZfsQueryArgs};
use crate::engine::{
    cluster_count, BdevInfo, CoreError, Errno, LogicalVolume, LvolSpaceUsage, LvolView,
    PoolBackend, Protocol,
};
use crate::error::Error;
use crate::options::DEFAULT_VOLBLOCKSIZE;
use crate::property::{protocol_from, protocol_of, PropertyType};
use crate::ptpl::ZvolPtpl;
use crate::text::chars::{clone_opt, clone_texts, str_opt, text_opt, texts};
use crate::text::split::{
    last_piece, last_piece_text, nonempty, rsplit_once, rsplit_once_text, split, split_nonempty,
};

verus! {

/// Different list options for a zvol replica.
#[derive(Debug, Clone)]
pub struct VolQueryArgs {
    /// Pertaining the pool container parent.
    pub pool: ZfsQueryArgs,
    /// Pertaining the zvol itself.
    pub vol: ZfsQueryArgs,
    /// Scope the query to the given container dataset, saving a system-wide walk when the pool is
    /// known.
    pub dataset: Option<String>,
}

/// The mathematical view of the list options.
#[verifier::ext_equal]
pub struct VolQueryView {
    pub pool: QueryView,
    pub vol: QueryView,
    pub dataset: Option<Seq<char>>,
}

impl View for VolQueryArgs {
    type V = VolQueryView;

    open spec fn view(&self) -> VolQueryView {
        VolQueryView { pool: self.pool@, vol: self.vol@, dataset: text_opt(self.dataset) }
    }
}

impl VolQueryView {
    /// The options which any replica meets.
    pub open spec fn any() -> VolQueryView {
        VolQueryView { pool: QueryView::any(), vol: QueryView::any(), dataset: None }
    }

    /// The display of the options.
    pub open spec fn display(self) -> Seq<char> {
        "vol("@ + self.vol.display() + "),pool("@ + self.pool.display() + ")"@
    }
}

impl Default for VolQueryArgs {
    fn default() -> (res: Self)
        ensures
            res@ == VolQueryView::any(),
    {
        VolQueryArgs::new()
    }
}

impl VolQueryArgs {
    /// Builder-like creating a default `Self`.
    pub fn new() -> (res: Self)
        ensures
            res@ == VolQueryView::any(),
    {
        VolQueryArgs { pool: ZfsQueryArgs::any(), vol: ZfsQueryArgs::any(), dataset: None }
    }

    /// Add the pool query args.
    pub fn with_pool(self, pool: ZfsQueryArgs) -> (res: Self)
        ensures
            res@ == (VolQueryView { pool: pool@, ..self@ }),
    {
        VolQueryArgs { pool, ..self }
    }

    /// Add the zvol query args.
    pub fn with_vol(self, vol: ZfsQueryArgs) -> (res: Self)
        ensures
            res@ == (VolQueryView { vol: vol@, ..self@ }),
    {
        VolQueryArgs { vol, ..self }
    }

    /// Scope the query to the given container dataset.
    pub fn scoped(self, dataset: &str) -> (res: Self)
        ensures
            res@ == (VolQueryView { dataset: Some(dataset@), ..self@ }),
    {
        VolQueryArgs { dataset: Some(dataset.to_owned()), ..self }
    }

    /// A copy of the options.
    pub fn copy(&self) -> (res: Self)
        ensures
            res == *self,
    {
        VolQueryArgs {
            pool: self.pool.copy(),
            vol: self.vol.copy(),
            dataset: clone_opt(&self.dataset),
        }
    }

    /// Get a display string of the query, for error messages.
    pub fn query(&self) -> (res: String)
        ensures
            res@ == self@.display(),
    {
        "vol(".to_owned().concat(self.vol.query().as_str()).concat("),pool(").concat(
            self.pool.query().as_str(),
        ).concat(")")
    }
}

/// Bdev parameters for the zvol's aio bdev.
#[derive(Debug, Clone)]
pub struct BdevOpts {
    /// The share URI of the bdev which is created against the zvol device path.
    share_uri: Option<String>,
    /// The URI of the bdev which is created against the zvol device path.
    open_uri: String,
    allowed_hosts: Vec<String>,
    share: Protocol,
    size: u64,
}

/// The mathematical view of bdev parameters.
#[verifier::ext_equal]
pub struct BdevOptsView {
    pub share_uri: Option<Seq<char>>,
    pub open_uri: Seq<char>,
    pub allowed_hosts: Seq<Seq<char>>,
    pub share: Protocol,
    pub size: u64,
}

impl View for BdevOpts {
    type V = BdevOptsView;

    closed spec fn view(&self) -> BdevOptsView {
        BdevOptsView {
            share_uri: text_opt(self.share_uri),
            open_uri: self.open_uri@,
            allowed_hosts: texts(self.allowed_hosts@),
            share: self.share,
            size: self.size,
        }
    }
}

impl BdevOptsView {
    /// The parameters of a bdev that the engine reports.
    pub open spec fn of(info: BdevInfo) -> BdevOptsView {
        BdevOptsView {
            share_uri: text_opt(info.share_uri),
            open_uri: match info.open_uri {
                Some(uri) => uri@,
                None => Seq::empty(),
            },
            allowed_hosts: texts(info.allowed_hosts@),
            share: match info.shared {
                Some(protocol) => protocol,
                None => Protocol::Off,
            },
            size: info.size,
        }
    }

    /// The parameters after the sharing of the bdev changed.
    pub open spec fn updated(self, to: BdevOptsView) -> BdevOptsView {
        BdevOptsView {
            share_uri: to.share_uri,
            allowed_hosts: to.allowed_hosts,
            share: to.share,
            ..self
        }
    }
}

impl BdevOpts {
    /// The parameters of a bdev that the engine reports.
    pub fn from(bdev: BdevInfo) -> (res: Self)
        ensures
            res@ == BdevOptsView::of(bdev),
    {
        let open_uri = match bdev.open_uri {
            Some(uri) => uri,
            None => String::new(),
        };
        let share = match bdev.shared {
            Some(protocol) => protocol,
            None => Protocol::Off,
        };
        BdevOpts {
            share_uri: bdev.share_uri,
            open_uri,
            allowed_hosts: bdev.allowed_hosts,
            share,
            size: bdev.size,
        }
    }

    /// Take over what concerns the sharing of the bdev.
    pub fn update_from(&mut self, to: Self)
        ensures
            final(self)@ == old(self)@.updated(to@),
    {
        self.share_uri = to.share_uri;
        self.allowed_hosts = to.allowed_hosts;
        self.share = to.share;
    }

    /// Take note that the bdev is no longer shared.
    pub fn set_unshared(&mut self, share_uri: Option<String>)
        ensures
            final(self)@ == (BdevOptsView {
                share_uri: text_opt(share_uri),
                share: Protocol::Off,
                ..old(self)@
            }),
    {
        self.share_uri = share_uri;
        self.share = Protocol::Off;
    }

    /// Set the size of the bdev.
    pub fn set_size(&mut self, size: u64)
        ensures
            final(self)@ == (BdevOptsView { size, ..old(self)@ }),
    {
        self.size = size;
    }

    /// Get a reference to the original bdev uri.
    pub fn uri(&self) -> (res: &str)
        ensures
            res@ == self@.open_uri,
    {
        self.open_uri.as_str()
    }

    /// Get the share protocol of the bdev.
    pub fn share(&self) -> (res: Protocol)
        ensures
            res == self@.share,
    {
        self.share
    }

    /// Get the allowed hosts of the bdev.
    pub fn allowed_hosts(&self) -> (res: &Vec<String>)
        ensures
            texts(res@) == self@.allowed_hosts,
    {
        &self.allowed_hosts
    }

    /// Get the size of the bdev.
    pub fn size(&self) -> (res: u64)
        ensures
            res == self@.size,
    {
        self.size
    }
}

/// Runtime settings for the `ZfsVol`.
#[derive(Debug, Clone)]
pub struct RunZfsVol {
    /// Bdev parameters which are needed by the ZFS backend.
    bdev: Option<BdevOpts>,
}

/// A replica which is a ZFS volume (zvol), a child of the pool container dataset, named after the
/// replica uuid, and exposed to the engine via its /dev/zvol block device using an aio bdev.
///
/// Ownership is persisted as the local user property "io.mayastor:uuid"; inherited copies of the
/// user properties do not count.
#[derive(Debug, Clone)]
pub struct ZfsVol {
    /// The full zvol dataset path: <container>/<replica-uuid>.
    dataset: String,
    /// The pool container dataset path.
    pool_dataset: String,
    /// The pool name (last path component of the container).
    pool_name: String,
    /// The pool uuid, inherited from the io.mayastor:pool user property.
    pool_uuid: String,
    /// The replica uuid, from the local io.mayastor:uuid user property.
    uuid: String,
    /// The replica name, from the local io.mayastor:name user property.
    name: Option<String>,
    /// The entity id which owns this resource, eg: the parent volume.
    entity_id: Option<String>,
    /// The source snapshot uuid, set on clones only.
    snapshot_uuid: Option<String>,
    /// The zvol volsize in bytes.
    size: u64,
    /// The zvol volblocksize in bytes (immutable after creation).
    volblocksize: u64,
    /// Total space charged to this zvol (its own data, its snapshots and any refreservation). Kept
    /// for diagnostics; space usage is reported from `referenced` and `usedbysnapshots`.
    used: u64,
    /// Space referenced by the live zvol (its own data only, <= volsize).
    referenced: u64,
    /// Space allocated by the snapshots of this zvol.
    usedbysnapshots: u64,
    /// Thin provisioning: a sparse zvol has no refreservation.
    thin: bool,
    /// The origin snapshot dataset, set on clones only.
    origin: Option<String>,
    /// Whether the zvol is encrypted (usually inherited from the pool).
    encrypted: bool,
    /// The persisted share protocol of the replica.
    share: Protocol,
    /// The persisted nvmf allowed hosts of the replica.
    allowed_hosts: Vec<String>,
    /// Bdev runtime state.
    runtime: RunZfsVol,
}

/// The mathematical view of a replica.
#[verifier::ext_equal]
pub struct VolView {
    pub dataset: Seq<char>,
    pub pool_dataset: Seq<char>,
    pub pool_name: Seq<char>,
    pub pool_uuid: Seq<char>,
    pub uuid: Seq<char>,
    pub name: Option<Seq<char>>,
    pub entity_id: Option<Seq<char>>,
    pub snapshot_uuid: Option<Seq<char>>,
    pub size: u64,
    pub volblocksize: u64,
    pub used: u64,
    pub referenced: u64,
    pub usedbysnapshots: u64,
    pub thin: bool,
    pub origin: Option<Seq<char>>,
    pub encrypted: bool,
    pub share: Protocol,
    pub allowed_hosts: Seq<Seq<char>>,
    pub bdev: Option<BdevOptsView>,
}

/// The view of optional bdev parameters.
pub open spec fn bdev_view(bdev: Option<BdevOpts>) -> Option<BdevOptsView> {
    match bdev {
        Some(bdev) => Some(bdev@),
        None => None,
    }
}

impl View for ZfsVol {
    type V = VolView;

    closed spec fn view(&self) -> VolView {
        VolView {
            dataset: self.dataset@,
            pool_dataset: self.pool_dataset@,
            pool_name: self.pool_name@,
            pool_uuid: self.pool_uuid@,
            uuid: self.uuid@,
            name: text_opt(self.name),
            entity_id: text_opt(self.entity_id),
            snapshot_uuid: text_opt(self.snapshot_uuid),
            size: self.size,
            volblocksize: self.volblocksize,
            used: self.used,
            referenced: self.referenced,
            usedbysnapshots: self.usedbysnapshots,
            thin: self.thin,
            origin: text_opt(self.origin),
            encrypted: self.encrypted,
            share: self.share,
            allowed_hosts: texts(self.allowed_hosts@),
            bdev: bdev_view(self.runtime.bdev),
        }
    }
}

/// The views of replicas.
pub open spec fn vol_views(vols: Seq<ZfsVol>) -> Seq<VolView> {
    vols.map_values(|v: ZfsVol| v@)
}

/// The text of an option, empty where there is none.
pub open spec fn or_empty(text: Option<Seq<char>>) -> Seq<char> {
    match text {
        Some(text) => text,
        None => Seq::empty(),
    }
}

/// The entries of a comma separated list.
pub open spec fn csv(text: Option<Seq<char>>) -> Seq<Seq<char>> {
    match text {
        Some(text) => nonempty(split(text, ',')),
        None => Seq::empty(),
    }
}

/// The entries of a comma separated list.
pub fn csv_texts(text: Option<&str>) -> (res: Vec<String>)
    ensures
        texts(res@) == csv(str_opt(text)),
{
    match text {
        Some(text) => split_nonempty(text, ','),
        None => {
            let res: Vec<String> = Vec::new();
            assert(texts(res@) =~= Seq::empty());
            res
        },
    }
}

/// The block size that the properties of a zvol report.
pub open spec fn block_size_of(props: DsPropsView) -> u64 {
    match props.number("volblocksize"@) {
        Some(size) => size,
        None => DEFAULT_VOLBLOCKSIZE,
    }
}

/// The block size that the properties of a zvol report.
pub fn block_size(props: &DsProps) -> (res: u64)
    ensures
        res == block_size_of(props@),
{
    match props.u64("volblocksize") {
        Some(size) => size,
        None => DEFAULT_VOLBLOCKSIZE,
    }
}

impl VolView {
    /// The replica that the properties of a zvol stand for; none where the zvol is not owned by
    /// us: it must lie in a container, its uuid must be set on the zvol itself, the uuid of its
    /// pool must be visible and its size known.
    pub open spec fn of_props(props: DsPropsView) -> Option<VolView> {
        match (
            rsplit_once(props.name, '/'),
            props.local(PropertyType::VolUuid.key()),
            props.value(PropertyType::PoolUuid.key()),
            props.number("volsize"@),
        ) {
            (Some((container, _)), Some(uuid), Some(pool_uuid), Some(size)) => Some(
                VolView {
                    dataset: props.name,
                    pool_dataset: container,
                    pool_name: last_piece(container, '/'),
                    pool_uuid,
                    uuid,
                    name: props.local(PropertyType::Name.key()),
                    entity_id: props.local(PropertyType::EntityId.key()),
                    snapshot_uuid: props.local(PropertyType::SnapshotUuid.key()),
                    size,
                    volblocksize: block_size_of(props),
                    used: props.number_or_zero("used"@),
                    referenced: props.number_or_zero("referenced"@),
                    usedbysnapshots: props.number_or_zero("usedbysnapshots"@),
                    thin: props.number_or_zero("refreservation"@) == 0,
                    origin: props.value("origin"@),
                    encrypted: props.encrypted(),
                    share: match props.local(PropertyType::Share.key()) {
                        Some(value) => protocol_of(value),
                        None => Protocol::Off,
                    },
                    allowed_hosts: csv(props.local(PropertyType::AllowedHosts.key())),
                    bdev: None,
                },
            ),
            _ => None,
        }
    }

    /// The replica meets the list options.
    pub open spec fn meets(self, query: VolQueryView) -> bool {
        query.vol.matches(or_empty(self.name), self.uuid) && query.pool.matches(
            self.pool_name,
            self.pool_uuid,
        )
    }

    /// The path of the block device of the zvol.
    pub open spec fn device_path(self) -> Seq<char> {
        device_path_of(self.dataset)
    }

    /// The share protocol of a replica whose bdev is set up.
    pub open spec fn share_proto(self) -> Option<Protocol> {
        if self.bdev is Some {
            Some(self.share)
        } else {
            None
        }
    }

    /// What the replica reports of itself.
    pub open spec fn lvol(self) -> LvolView {
        LvolView {
            name: or_empty(self.name),
            uuid: self.uuid,
            pool_name: self.pool_name,
            pool_uuid: self.pool_uuid,
            entity_id: self.entity_id,
            thin: self.thin,
            read_only: false,
            size: self.size,
            committed: self.size,
            allocated: self.referenced,
            cluster_size: self.volblocksize,
            allocated_snapshots: self.usedbysnapshots,
            snapshot: false,
            clone: self.snapshot_uuid is Some || self.origin is Some,
            snapshot_uuid: self.snapshot_uuid,
            share: self.share,
            share_uri: match self.bdev {
                Some(bdev) => bdev.share_uri,
                None => None,
            },
            allowed_hosts: match self.bdev {
                Some(bdev) => bdev.allowed_hosts,
                None => Seq::empty(),
            },
            encrypted: self.encrypted,
        }
    }
}

/// The path of the block device of a zvol.
pub open spec fn device_path_of(dataset: Seq<char>) -> Seq<char> {
    "/dev/zvol/"@ + dataset
}

/// The aio bdev URI for a zvol device.
pub open spec fn disk_uri_of(path: Seq<char>, uuid: Seq<char>, punch_hole: bool) -> Seq<char> {
    let uri = "aio://"@ + path + "?uuid="@ + uuid;
    if punch_hole {
        uri + "&fallocate=true"@
    } else {
        uri
    }
}

/// The path of the block device of a zvol.
pub fn zvol_device(dataset: &str) -> (res: String)
    ensures
        res@ == device_path_of(dataset@),
{
    "/dev/zvol/".to_owned().concat(dataset)
}

/// What opening the zvol as a bdev needs to know of the replica.
#[derive(Debug, Clone)]
pub struct VolDevice {
    /// The path of the block device.
    pub path: String,
    /// The uuid of the replica.
    pub uuid: String,
    /// The persisted share protocol.
    pub share: Protocol,
    /// The persisted allowed hosts.
    pub allowed_hosts: Vec<String>,
    /// The persist through power loss file of the replica.
    pub ptpl: ZvolPtpl,
}

impl VolDevice {
    /// The device of the given replica.
    pub open spec fn device_of(self, vol: VolView) -> bool {
        &&& self.path@ == vol.device_path()
        &&& self.uuid@ == vol.uuid
        &&& self.share == vol.share
        &&& texts(self.allowed_hosts@) == vol.allowed_hosts
        &&& self.ptpl.pool_name() == vol.pool_name
        &&& self.ptpl.replica() == vol.uuid
    }

    /// The aio bdev URI for the device. The fallocate option is appended only when the device
    /// supports fallocate punch-hole, which makes trim/unmap passthrough work.
    pub fn disk_uri(&self, punch_hole: bool) -> (res: String)
        ensures
            res@ == disk_uri_of(self.path@, self.uuid@, punch_hole),
    {
        let uri = "aio://".to_owned().concat(self.path.as_str()).concat("?uuid=").concat(
            self.uuid.as_str(),
        );
        if punch_hole {
            uri.concat("&fallocate=true")
        } else {
            uri
        }
    }
}

impl ZfsVol {
    /// Build a `ZfsVol` from its bulk query properties, yielding nothing if the zvol is not owned
    /// by us.
    pub fn from_props(props: &DsProps) -> (res: Option<ZfsVol>)
        ensures
            match res {
                Some(vol) => VolView::of_props(props@) == Some(vol@),
                None => VolView::of_props(props@) is None,
            },
    {
        let dataset = props.name().to_owned();
        let pool_dataset = match rsplit_once_text(dataset.as_str(), '/') {
            Some((container, _)) => container,
            None => {
                return None;
            },
        };
        // The replica uuid property must be local, and the pool uuid must be visible (inherited
        // from an owned container).
        let uuid = match props.local_text(PropertyType::VolUuid.value()) {
            Some(uuid) => uuid,
            None => {
                return None;
            },
        };
        let pool_uuid = match props.value_text(PropertyType::PoolUuid.value()) {
            Some(uuid) => uuid,
            None => {
                return None;
            },
        };
        let size = match props.u64("volsize") {
            Some(size) => size,
            None => {
                return None;
            },
        };
        let pool_name = last_piece_text(pool_dataset.as_str(), '/');
        let share = match props.local(PropertyType::Share.value()) {
            Some(value) => protocol_from(value),
            None => Protocol::Off,
        };
        let allowed_hosts = csv_texts(props.local(PropertyType::AllowedHosts.value()));
        Some(
            ZfsVol {
                pool_dataset,
                pool_name,
                pool_uuid,
                uuid,
                name: props.local_text(PropertyType::Name.value()),
                entity_id: props.local_text(PropertyType::EntityId.value()),
                snapshot_uuid: props.local_text(PropertyType::SnapshotUuid.value()),
                size,
                volblocksize: block_size(props),
                used: props.u64_or_zero("used"),
                referenced: props.u64_or_zero("referenced"),
                usedbysnapshots: props.u64_or_zero("usedbysnapshots"),
                thin: props.u64_or_zero("refreservation") == 0,
                origin: props.value_text("origin"),
                encrypted: props.encrypted(),
                share,
                allowed_hosts,
                runtime: RunZfsVol { bdev: None },
                dataset,
            },
        )
    }

    /// Check if the zvol matches the list options.
    pub fn matches(&self, opts: &VolQueryArgs) -> (res: bool)
        ensures
            res == self@.meets(opts@),
    {
        let name = match &self.name {
            Some(name) => name.clone(),
            None => String::new(),
        };
        admitted(&opts.vol.name, name.as_str()) && admitted(&opts.vol.uuid, self.uuid.as_str())
            && admitted(&opts.pool.name, self.pool_name.as_str()) && admitted(
            &opts.pool.uuid,
            self.pool_uuid.as_str(),
        )
    }

    /// Retrieve the block device path of the zvol.
    pub fn device_path(&self) -> (res: String)
        ensures
            res@ == self@.device_path(),
    {
        zvol_device(self.dataset.as_str())
    }

    /// The aio bdev URI for the zvol device, given whether the device supports fallocate
    /// punch-hole.
    pub fn disk_uri(&self, punch_hole: bool) -> (res: String)
        ensures
            res@ == disk_uri_of(self@.device_path(), self@.uuid, punch_hole),
    {
        self.device().disk_uri(punch_hole)
    }

    /// What opening the zvol as a bdev needs to know of the replica.
    pub fn device(&self) -> (res: VolDevice)
        ensures
            res.device_of(self@),
    {
        VolDevice {
            path: self.device_path(),
            uuid: self.uuid.clone(),
            share: self.share,
            allowed_hosts: clone_texts(&self.allowed_hosts),
            ptpl: self.ptpl(),
        }
    }

    /// Get the persist through power loss file of the replica.
    pub fn ptpl(&self) -> (res: ZvolPtpl)
        ensures
            res.pool_name() == self@.pool_name,
            res.replica() == self@.uuid,
    {
        ZvolPtpl::new(self.pool_name.as_str(), self.uuid.as_str())
    }

    /// The bdev that the engine holds under a URI, which must be there.
    pub fn bdev(found: Option<BdevInfo>) -> (res: Result<BdevInfo, Error>)
        ensures
            res == (match found {
                Some(bdev) => Ok::<BdevInfo, Error>(bdev),
                None => Err::<BdevInfo, Error>(Error::BdevMissing),
            }),
    {
        match found {
            Some(bdev) => Ok(bdev),
            None => Err(Error::BdevMissing),
        }
    }

    /// Get the bdev parameters, if the bdev was set up.
    pub fn bdev_opts(&self) -> (res: Result<&BdevOpts, Error>)
        ensures
            match res {
                Ok(bdev) => self@.bdev == Some(bdev@),
                Err(error) => self@.bdev is None && error == Error::BdevMissing,
            },
    {
        match &self.runtime.bdev {
            Some(bdev) => Ok(bdev),
            None => Err(Error::BdevMissing),
        }
    }

    /// Get the bdev parameters to change them, if the bdev was set up.
    pub fn bdev_mut(&mut self) -> (res: Result<&mut BdevOpts, Error>)
        ensures
            match res {
                Ok(bdev) => old(self)@.bdev == Some(bdev@) && final(self)@ == (VolView {
                    bdev: Some(final(bdev)@),
                    ..old(self)@
                }),
                Err(error) => old(self)@.bdev is None && error == Error::BdevMissing
                    && *final(self) == *old(self),
            },
    {
        match &mut self.runtime.bdev {
            Some(bdev) => Ok(bdev),
            None => Err(Error::BdevMissing),
        }
    }

    /// Get the bdev parameters to change them, along with the URI of the bdev.
    pub fn bdev_mut_uri(&mut self) -> (res: Result<(&mut BdevOpts, String), Error>)
        ensures
            match res {
                Ok((bdev, uri)) => old(self)@.bdev == Some(bdev@) && uri@ == bdev@.open_uri
                    && final(self)@ == (VolView { bdev: Some(final(bdev)@), ..old(self)@ }),
                Err(error) => old(self)@.bdev is None && error == Error::BdevMissing
                    && *final(self) == *old(self),
            },
    {
        match self.bdev_mut() {
            Ok(bdev) => {
                let uri = bdev.open_uri.clone();
                Ok((bdev, uri))
            },
            Err(error) => Err(error),
        }
    }

    /// Get the URI of the bdev, if the bdev was set up.
    pub fn open_uri(&self) -> (res: Result<String, Error>)
        ensures
            match res {
                Ok(uri) => self@.bdev is Some && uri@ == self@.bdev->0.open_uri,
                Err(error) => self@.bdev is None && error == Error::BdevMissing,
            },
    {
        match self.bdev_opts() {
            Ok(bdev) => Ok(bdev.uri().to_owned()),
            Err(error) => Err(error),
        }
    }

    /// Set or clear the bdev parameters.
    pub fn set_bdev(&mut self, bdev: Option<BdevOpts>)
        ensures
            final(self)@ == (VolView { bdev: bdev_view(bdev), ..old(self)@ }),
    {
        self.runtime.bdev = bdev;
    }

    /// Set the size of the zvol.
    pub fn set_size(&mut self, size: u64)
        ensures
            final(self)@ == (VolView { size, ..old(self)@ }),
    {
        self.size = size;
    }

    /// Set the owner of the zvol.
    pub fn set_owner(&mut self, id: String)
        ensures
            final(self)@ == (VolView { entity_id: Some(id@), ..old(self)@ }),
    {
        self.entity_id = Some(id);
    }

    /// Set the persisted share protocol.
    pub fn set_share(&mut self, share: Protocol)
        ensures
            final(self)@ == (VolView { share, ..old(self)@ }),
    {
        self.share = share;
    }

    /// Set the persisted allowed hosts.
    pub fn set_allowed_hosts(&mut self, hosts: Vec<String>)
        ensures
            final(self)@ == (VolView { allowed_hosts: texts(hosts@), ..old(self)@ }),
    {
        self.allowed_hosts = hosts;
    }

    /// Get the full zvol dataset path.
    pub fn dataset(&self) -> (res: &str)
        ensures
            res@ == self@.dataset,
    {
        self.dataset.as_str()
    }

    /// Get the pool container dataset path.
    pub fn pool_dataset(&self) -> (res: &str)
        ensures
            res@ == self@.pool_dataset,
    {
        self.pool_dataset.as_str()
    }

    /// Get the name of the pool where this zvol resides.
    pub fn pool_name(&self) -> (res: &str)
        ensures
            res@ == self@.pool_name,
    {
        self.pool_name.as_str()
    }

    /// Get the uuid of the pool where this zvol resides.
    pub fn pool_uuid(&self) -> (res: &str)
        ensures
            res@ == self@.pool_uuid,
    {
        self.pool_uuid.as_str()
    }

    /// The size of the zvol (volsize).
    pub fn size(&self) -> (res: u64)
        ensures
            res == self@.size,
    {
        self.size
    }

    /// The volblocksize of the zvol.
    pub fn volblocksize(&self) -> (res: u64)
        ensures
            res == self@.volblocksize,
    {
        self.volblocksize
    }

    /// Check if the zvol is thin provisioned (sparse).
    pub fn thin(&self) -> (res: bool)
        ensures
            res == self@.thin,
    {
        self.thin
    }

    /// Get the replica uuid.
    pub fn uuid(&self) -> (res: &str)
        ensures
            res@ == self@.uuid,
    {
        self.uuid.as_str()
    }

    /// Get the replica name.
    pub fn name(&self) -> (res: &Option<String>)
        ensures
            text_opt(*res) == self@.name,
    {
        &self.name
    }

    /// Get the entity id of the resource which owns this zvol.
    pub fn entity_id(&self) -> (res: Option<&String>)
        ensures
            match res {
                Some(id) => self@.entity_id == Some(id@),
                None => self@.entity_id is None,
            },
    {
        self.entity_id.as_ref()
    }

    /// Get the source snapshot uuid, set on clones only.
    pub fn snapshot_uuid_prop(&self) -> (res: Option<&String>)
        ensures
            match res {
                Some(uuid) => self@.snapshot_uuid == Some(uuid@),
                None => self@.snapshot_uuid is None,
            },
    {
        self.snapshot_uuid.as_ref()
    }

    /// Get the URI the bdev which is layered on top of the zvol is shared under.
    pub fn uri(&self) -> (res: Option<&String>)
        ensures
            match res {
                Some(uri) => self@.lvol().share_uri == Some(uri@),
                None => self@.lvol().share_uri is None,
            },
    {
        match &self.runtime.bdev {
            Some(bdev) => bdev.share_uri.as_ref(),
            None => None,
        }
    }

    /// Get the bdev allowed hosts.
    pub fn bdev_allowed_hosts(&self) -> (res: Option<&Vec<String>>)
        ensures
            match res {
                Some(hosts) => self@.bdev is Some && texts(hosts@) == self@.bdev->0.allowed_hosts,
                None => self@.bdev is None,
            },
    {
        match &self.runtime.bdev {
            Some(bdev) => Some(&bdev.allowed_hosts),
            None => None,
        }
    }

    /// Get the shared protocol, if any setup.
    pub fn share_proto(&self) -> (res: Option<Protocol>)
        ensures
            res == self@.share_proto(),
    {
        match &self.runtime.bdev {
            Some(_) => Some(self.share),
            None => None,
        }
    }

    /// Get the shared protocol, if any setup.
    pub fn shared(&self) -> (res: Option<Protocol>)
        ensures
            res == self@.share_proto(),
    {
        self.share_proto()
    }

    /// Get the URI the bdev is shared under.
    pub fn share_uri(&self) -> (res: Option<String>)
        ensures
            text_opt(res) == self@.lvol().share_uri,
    {
        match self.uri() {
            Some(uri) => Some(uri.clone()),
            None => None,
        }
    }

    /// Get the hosts which may connect to the shared bdev.
    pub fn allowed_hosts(&self) -> (res: Vec<String>)
        ensures
            texts(res@) == self@.lvol().allowed_hosts,
    {
        match self.bdev_allowed_hosts() {
            Some(hosts) => clone_texts(hosts),
            None => {
                let res: Vec<String> = Vec::new();
                assert(texts(res@) =~= Seq::empty());
                res
            },
        }
    }

    /// What came of creating the persist through power loss file: its path, if the engine keeps
    /// such files.
    pub fn create_ptpl(created: Result<Option<String>, String>) -> (res: Result<
        Option<String>,
        Error,
    >)
        ensures
            res == (match created {
                Ok(path) => Ok::<Option<String>, Error>(path),
                Err(reason) => Err::<Option<String>, Error>(Error::BdevShare { source: reason }),
            }),
    {
        match created {
            Ok(path) => Ok(path),
            Err(reason) => Err(Error::BdevShare { source: reason }),
        }
    }

    /// The statistics of the bdev, which are not supported.
    pub fn stats(&self) -> (res: Result<(), CoreError>)
        ensures
            res == Err::<(), CoreError>(CoreError::NotSupported { source: Errno::ENOSYS }),
    {
        Err(CoreError::NotSupported { source: Errno::ENOSYS })
    }

    /// Reset the statistics of the bdev, which is not supported.
    pub fn reset_stats(&self) -> (res: Result<(), CoreError>)
        ensures
            res == Err::<(), CoreError>(CoreError::NotSupported { source: Errno::ENOSYS }),
    {
        Err(CoreError::NotSupported { source: Errno::ENOSYS })
    }
}

impl LogicalVolume for ZfsVol {
    open spec fn lvol(&self) -> LvolView {
        self@.lvol()
    }

    fn name(&self) -> String {
        match &self.name {
            Some(name) => name.clone(),
            None => String::new(),
        }
    }

    fn uuid(&self) -> String {
        self.uuid.clone()
    }

    fn pool_name(&self) -> String {
        self.pool_name.clone()
    }

    fn pool_uuid(&self) -> String {
        self.pool_uuid.clone()
    }

    fn entity_id(&self) -> Option<String> {
        clone_opt(&self.entity_id)
    }

    fn is_thin(&self) -> bool {
        self.thin
    }

    fn is_read_only(&self) -> bool {
        false
    }

    fn size(&self) -> u64 {
        self.size
    }

    fn committed(&self) -> u64 {
        self.size
    }

    fn allocated(&self) -> u64 {
        // `referenced` (not `used`) is the space occupied by the live zvol's own data: it excludes
        // the refreservation of a thick zvol (so it stays <= volsize) and the snapshot-exclusive
        // space that is reported separately as `allocated_bytes_snapshots`. Using `used` here
        // would let allocated exceed capacity and double-count snapshot space.
        self.referenced
    }

    fn usage(&self) -> LvolSpaceUsage {
        let cluster_size = self.volblocksize;
        LvolSpaceUsage {
            capacity_bytes: self.size,
            allocated_bytes: self.referenced,
            cluster_size,
            num_clusters: self.size / cluster_size,
            num_allocated_clusters: cluster_count(self.referenced, cluster_size),
            allocated_bytes_snapshots: self.usedbysnapshots,
            num_allocated_clusters_snapshots: cluster_count(self.usedbysnapshots, cluster_size),
            allocated_bytes_snapshot_from_clone: None,
        }
    }

    fn is_snapshot(&self) -> bool {
        false
    }

    fn is_clone(&self) -> bool {
        self.snapshot_uuid.is_some() || self.origin.is_some()
    }

    fn backend(&self) -> PoolBackend {
        PoolBackend::Zfs
    }

    fn snapshot_uuid(&self) -> Option<String> {
        clone_opt(&self.snapshot_uuid)
    }

    fn share_protocol(&self) -> Protocol {
        self.share
    }

    fn bdev_share_uri(&self) -> Option<String> {
        self.share_uri()
    }

    fn nvmf_allowed_hosts(&self) -> Vec<String> {
        self.allowed_hosts()
    }

    fn encrypted(&self) -> bool {
        self.encrypted
    }
}

} // verus!
