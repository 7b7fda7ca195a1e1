//! What pools, replicas and snapshots tell of themselves.
use vstd::prelude::*;
use crate::cli::DsProps;
use crate::ds_pool::ZfsPool;
use crate::engine::{BdevInfo, CoreError, Errno, LogicalVolume, LvolSpaceUsage, PoolBackend, Protocol};
use crate::error::Error;
use crate::laws::reported::{
    counts, ends_path, law_pool_reported, law_replica_reported, law_snapshot_reported, lies_in,
    tells, tells_own,
};
use crate::snapshot::ZfsSnapshot;
use crate::text::chars::{text_opt, texts};
use crate::text::decimal::decimal;
use crate::zvol_replica::{BdevOpts, VolDevice, ZfsVol};

verus! {

/// A replica tells where it lies, and which replica of which pool it is, as its zvol reports it.
pub proof fn law_replica_names(
    props: DsProps,
    vol: ZfsVol,
    dataset: &str,
    pool_dataset: &str,
    pool_name: &str,
    pool_uuid: &str,
    uuid: &str,
    name: &Option<String>,
    owner: Option<&String>,
    snapshot: Option<&String>,
    v: Seq<char>,
)
    requires
        call_ensures(ZfsVol::from_props, (&props,), Some(vol)),
        call_ensures(ZfsVol::dataset, (&vol,), dataset),
        call_ensures(ZfsVol::pool_dataset, (&vol,), pool_dataset),
        call_ensures(ZfsVol::pool_name, (&vol,), pool_name),
        call_ensures(ZfsVol::pool_uuid, (&vol,), pool_uuid),
        call_ensures(ZfsVol::uuid, (&vol,), uuid),
        call_ensures(ZfsVol::name, (&vol,), name),
        call_ensures(ZfsVol::entity_id, (&vol,), owner),
        call_ensures(ZfsVol::snapshot_uuid_prop, (&vol,), snapshot),
    ensures
        dataset@ == props@.name,
        lies_in(dataset@, pool_dataset@),
        ends_path(pool_dataset@, pool_name@),
        tells(props@, "io.mayastor:pool"@, pool_uuid@),
        tells_own(props@, "io.mayastor:uuid"@, uuid@),
        tells_own(props@, "io.mayastor:name"@, v) <==> text_opt(*name) == Some(v),
        tells_own(props@, "io.mayastor:entity_id"@, v) <==> owner is Some && owner->0@ == v,
        tells_own(props@, "io.mayastor:snapshot_uuid"@, v) <==> snapshot is Some && snapshot->0@
            == v,
{
    law_replica_reported(props@, vol@);
}

/// A replica tells its size, its block size and whether it is thin as its zvol reports them.
pub proof fn law_replica_sizes(
    props: DsProps,
    vol: ZfsVol,
    size: u64,
    block: u64,
    thin: bool,
    n: u64,
)
    requires
        call_ensures(ZfsVol::from_props, (&props,), Some(vol)),
        call_ensures(ZfsVol::size, (&vol,), size),
        call_ensures(ZfsVol::volblocksize, (&vol,), block),
        call_ensures(ZfsVol::thin, (&vol,), thin),
    ensures
        counts(props@, "volsize"@, n) ==> size == n,
        counts(props@, "volblocksize"@, n) ==> block == n,
        counts(props@, "refreservation"@, n) ==> (thin <==> n == 0),
{
    law_replica_reported(props@, vol@);
}

/// A replica which is not open is told to be shared neither with a protocol nor under a URI. One
/// which is open tells the URI and the hosts of its bdev, and the protocol that it persists.
pub proof fn law_replica_sharing_told(
    vol: ZfsVol,
    uri: Option<&String>,
    hosts: Option<&Vec<String>>,
    proto: Option<Protocol>,
    shared: Option<Protocol>,
    share_uri: Option<String>,
    allowed: Vec<String>,
    open_uri: Result<String, Error>,
    opts: Result<&BdevOpts, Error>,
)
    requires
        call_ensures(ZfsVol::uri, (&vol,), uri),
        call_ensures(ZfsVol::bdev_allowed_hosts, (&vol,), hosts),
        call_ensures(ZfsVol::share_proto, (&vol,), proto),
        call_ensures(ZfsVol::shared, (&vol,), shared),
        call_ensures(ZfsVol::share_uri, (&vol,), share_uri),
        call_ensures(ZfsVol::allowed_hosts, (&vol,), allowed),
        call_ensures(ZfsVol::open_uri, (&vol,), open_uri),
        call_ensures(ZfsVol::bdev_opts, (&vol,), opts),
    ensures
        vol@.bdev is None ==> {
            &&& uri is None
            &&& hosts is None
            &&& proto is None
            &&& shared is None
            &&& share_uri is None
            &&& allowed@.len() == 0
            &&& open_uri is Err && open_uri->Err_0 is BdevMissing
            &&& opts is Err && opts->Err_0 is BdevMissing
        },
        vol@.bdev matches Some(bdev) ==> {
            &&& uri is Some <==> bdev.share_uri is Some
            &&& uri is Some ==> Some(uri->0@) == bdev.share_uri
            &&& text_opt(share_uri) == bdev.share_uri
            &&& hosts is Some && texts(hosts->0@) == bdev.allowed_hosts
            &&& texts(allowed@) == bdev.allowed_hosts
            &&& proto == Some(vol@.share)
            &&& shared == Some(vol@.share)
            &&& open_uri is Ok && open_uri->Ok_0@ == bdev.open_uri
            &&& opts is Ok && opts->Ok_0@ == bdev
        },
{
    assert(texts(allowed@).len() == allowed@.len());
}

/// The device of a replica is named after its zvol, and the bdev after the device and the replica.
pub proof fn law_replica_device(
    vol: ZfsVol,
    path: String,
    punch_hole: bool,
    uri: String,
    device: VolDevice,
    named: String,
)
    requires
        call_ensures(ZfsVol::device_path, (&vol,), path),
        call_ensures(ZfsVol::disk_uri, (&vol, punch_hole), uri),
        call_ensures(ZfsVol::device, (&vol,), device),
        call_ensures(VolDevice::disk_uri, (&device, punch_hole), named),
    ensures
        path@ == "/dev/zvol/"@ + vol@.dataset,
        device.path@ == path@,
        device.uuid@ == vol@.uuid,
        device.share == vol@.share,
        texts(device.allowed_hosts@) == vol@.allowed_hosts,
        device.ptpl.pool_name() == vol@.pool_name,
        device.ptpl.replica() == vol@.uuid,
        punch_hole ==> uri@ == "aio://"@ + path@ + "?uuid="@ + vol@.uuid + "&fallocate=true"@,
        !punch_hole ==> uri@ == "aio://"@ + path@ + "?uuid="@ + vol@.uuid,
        named@ == uri@,
{
}

/// A bdev which is not there is told as missing, and a file which could not be created as a failure
/// to share.
pub proof fn law_engine_answers(
    found: Option<BdevInfo>,
    bdev: Result<BdevInfo, Error>,
    created: Result<Option<String>, String>,
    ptpl: Result<Option<String>, Error>,
    vol: ZfsVol,
    a: Result<(), CoreError>,
    b: Result<(), CoreError>,
)
    requires
        call_ensures(ZfsVol::bdev, (found,), bdev),
        call_ensures(ZfsVol::create_ptpl, (created,), ptpl),
        call_ensures(ZfsVol::stats, (&vol,), a),
        call_ensures(ZfsVol::reset_stats, (&vol,), b),
    ensures
        found matches Some(info) ==> bdev == Ok::<BdevInfo, Error>(info),
        found is None ==> bdev == Err::<BdevInfo, Error>(Error::BdevMissing),
        created matches Ok(path) ==> ptpl == Ok::<Option<String>, Error>(path),
        created matches Err(source) ==> ptpl == Err::<Option<String>, Error>(
            Error::BdevShare { source },
        ),
        a == Err::<(), CoreError>(CoreError::NotSupported { source: Errno::ENOSYS }),
        b == Err::<(), CoreError>(CoreError::NotSupported { source: Errno::ENOSYS }),
{
}

/// The parameters of a bdev are told as they are.
pub proof fn law_bdev_told(
    opts: BdevOpts,
    uri: &str,
    share: Protocol,
    hosts: &Vec<String>,
    size: u64,
)
    requires
        call_ensures(BdevOpts::uri, (&opts,), uri),
        call_ensures(BdevOpts::share, (&opts,), share),
        call_ensures(BdevOpts::allowed_hosts, (&opts,), hosts),
        call_ensures(BdevOpts::size, (&opts,), size),
    ensures
        uri@ == opts@.open_uri,
        share == opts@.share,
        texts(hosts@) == opts@.allowed_hosts,
        size == opts@.size,
{
}

/// A snapshot tells its uuid, its path, the container of its zvol, its clones and whether it is
/// discarded as it is reported.
pub proof fn law_snapshot_names(
    props: DsProps,
    snap: ZfsSnapshot,
    uuid: &str,
    path: &str,
    container: &str,
    clones: &Vec<String>,
    discarded: bool,
    copy: ZfsSnapshot,
)
    requires
        call_ensures(ZfsSnapshot::from_props, (&props,), Some(snap)),
        call_ensures(ZfsSnapshot::uuid, (&snap,), uuid),
        call_ensures(ZfsSnapshot::path, (&snap,), path),
        call_ensures(ZfsSnapshot::container, (&snap,), container),
        call_ensures(ZfsSnapshot::clones, (&snap,), clones),
        call_ensures(ZfsSnapshot::discarded, (&snap,), discarded),
        call_ensures(ZfsSnapshot::copy, (&snap,), copy),
    ensures
        tells_own(props@, "io.mayastor:snapshot_uuid"@, uuid@),
        path@ == props@.name,
        lies_in(snap@.dataset, container@),
        texts(clones@) == snap@.clones,
        discarded <==> tells_own(props@, "io.mayastor:discarded"@, "true"@) || tells_own(
            props@,
            "io.mayastor:discarded"@,
            "on"@,
        ) || tells(props@, "defer_destroy"@, "on"@),
        copy@ == snap@,
{
    law_snapshot_reported(props@, snap@);
}

/// A pool tells where it lies and what it is as its dataset reports it.
pub proof fn law_pool_names(
    at: String,
    owner: String,
    props: DsProps,
    committed: u64,
    zpool_size: u64,
    pool: ZfsPool,
    name: &str,
    uuid: &str,
    dataset: &str,
    parent: &str,
    disks: String,
    list: Vec<String>,
    v: Seq<char>,
)
    requires
        call_ensures(ZfsPool::from_props, (at, owner, &props, committed, zpool_size), pool),
        call_ensures(ZfsPool::name, (&pool,), name),
        call_ensures(ZfsPool::uuid, (&pool,), uuid),
        call_ensures(ZfsPool::dataset, (&pool,), dataset),
        call_ensures(ZfsPool::parent, (&pool,), parent),
        call_ensures(ZfsPool::disks, (&pool,), disks),
        call_ensures(ZfsPool::disk_list, (&pool,), list),
    ensures
        dataset@ == at@,
        uuid@ == owner@,
        ends_path(at@, name@),
        at@.contains('/') ==> at@ == parent@ + seq!['/'] + name@,
        tells_own(props@, "io.mayastor:disks"@, v) ==> disks@ == v,
        list@.len() == 1,
        list@[0]@ == disks@,
{
    law_pool_reported(at@, owner@, props@, committed, zpool_size);
    assert(texts(list@).len() == list@.len());
    assert(texts(list@)[0] == list@[0]@);
}

/// A pool tells its space as its dataset reports it: its capacity is what is used and what is
/// available, and the capacity of its disks is that of the zpool.
pub proof fn law_pool_space(
    at: String,
    owner: String,
    props: DsProps,
    committed: u64,
    zpool_size: u64,
    pool: ZfsPool,
    used: u64,
    available: u64,
    capacity: u64,
    told: u64,
    size: u64,
    disk: u64,
    block: u64,
    cluster: u32,
    encrypted: bool,
    n: u64,
    m: u64,
)
    requires
        call_ensures(ZfsPool::from_props, (at, owner, &props, committed, zpool_size), pool),
        call_ensures(ZfsPool::used, (&pool,), used),
        call_ensures(ZfsPool::available, (&pool,), available),
        call_ensures(ZfsPool::capacity, (&pool,), capacity),
        call_ensures(ZfsPool::committed, (&pool,), told),
        call_ensures(ZfsPool::zpool_size, (&pool,), size),
        call_ensures(ZfsPool::disk_capacity, (&pool,), disk),
        call_ensures(ZfsPool::volblocksize, (&pool,), block),
        call_ensures(ZfsPool::cluster_size, (&pool,), cluster),
        call_ensures(ZfsPool::encrypted, (&pool,), encrypted),
    ensures
        counts(props@, "used"@, n) ==> used == n,
        counts(props@, "available"@, n) ==> available == n,
        counts(props@, "used"@, n) && counts(props@, "available"@, m) ==> capacity == n + m,
        told == committed,
        size == zpool_size,
        disk == zpool_size,
        tells_own(props@, "io.mayastor:volblocksize"@, decimal(n as nat)) ==> block == n,
        block <= u32::MAX ==> cluster == block,
        encrypted <==> pool@.encrypted,
{
    law_pool_reported(at@, owner@, props@, committed, zpool_size);
    if counts(props@, "used"@, n) && counts(props@, "available"@, m) {
        assert(pool@.used == n);
        assert(pool@.available == m);
    }
}

/// What pools do not do.
pub proof fn law_pool_limits(
    pool: ZfsPool,
    kind: PoolBackend,
    page: Option<u32>,
    most: Option<u64>,
    grown: Result<(), Error>,
    reset: Result<(), Error>,
    a: Result<(), CoreError>,
    b: Result<(), CoreError>,
)
    requires
        call_ensures(ZfsPool::pool_type, (&pool,), kind),
        call_ensures(ZfsPool::page_size, (&pool,), page),
        call_ensures(ZfsPool::max_expandable_size, (&pool,), most),
        call_ensures(ZfsPool::grow, (&pool,), grown),
        call_ensures(ZfsPool::reset_errors, (&pool,), reset),
        call_ensures(ZfsPool::stats, (&pool,), a),
        call_ensures(ZfsPool::reset_stats, (&pool,), b),
    ensures
        kind == PoolBackend::Zfs,
        page is None,
        most is None,
        grown == Err::<(), Error>(Error::GrowNotSup),
        reset == Err::<(), Error>(Error::GrowNotSup),
        a == Err::<(), CoreError>(CoreError::NotSupported { source: Errno::ENOSYS }),
        b == Err::<(), CoreError>(CoreError::NotSupported { source: Errno::ENOSYS }),
{
}

/// A replica reports to the engine what is known of it.
pub proof fn law_replica_volume(
    vol: ZfsVol,
    name: String,
    size: u64,
    committed: u64,
    allocated: u64,
    thin: bool,
    read_only: bool,
    snapshot: bool,
    clone: bool,
    of: Option<String>,
    share: Protocol,
    uri: Option<String>,
    hosts: Vec<String>,
    encrypted: bool,
    owner: Option<String>,
    usage: LvolSpaceUsage,
)
    requires
        call_ensures(<ZfsVol as LogicalVolume>::name, (&vol,), name),
        call_ensures(<ZfsVol as LogicalVolume>::size, (&vol,), size),
        call_ensures(<ZfsVol as LogicalVolume>::committed, (&vol,), committed),
        call_ensures(<ZfsVol as LogicalVolume>::allocated, (&vol,), allocated),
        call_ensures(<ZfsVol as LogicalVolume>::is_thin, (&vol,), thin),
        call_ensures(<ZfsVol as LogicalVolume>::is_read_only, (&vol,), read_only),
        call_ensures(<ZfsVol as LogicalVolume>::is_snapshot, (&vol,), snapshot),
        call_ensures(<ZfsVol as LogicalVolume>::is_clone, (&vol,), clone),
        call_ensures(<ZfsVol as LogicalVolume>::snapshot_uuid, (&vol,), of),
        call_ensures(<ZfsVol as LogicalVolume>::share_protocol, (&vol,), share),
        call_ensures(<ZfsVol as LogicalVolume>::bdev_share_uri, (&vol,), uri),
        call_ensures(<ZfsVol as LogicalVolume>::nvmf_allowed_hosts, (&vol,), hosts),
        call_ensures(<ZfsVol as LogicalVolume>::encrypted, (&vol,), encrypted),
        call_ensures(<ZfsVol as LogicalVolume>::entity_id, (&vol,), owner),
        vol@.volblocksize > 0,
        call_ensures(<ZfsVol as LogicalVolume>::usage, (&vol,), usage),
    ensures
        vol@.name matches Some(n) ==> name@ == n,
        vol@.name is None ==> name@.len() == 0,
        size == vol@.size,
        committed == vol@.size,
        allocated == vol@.referenced,
        thin == vol@.thin,
        !read_only,
        !snapshot,
        clone <==> vol@.snapshot_uuid is Some || vol@.origin is Some,
        text_opt(of) == vol@.snapshot_uuid,
        share == vol@.share,
        vol@.bdev is None ==> uri is None && hosts@.len() == 0,
        vol@.bdev matches Some(bdev) ==> text_opt(uri) == bdev.share_uri && texts(hosts@)
            == bdev.allowed_hosts,
        encrypted == vol@.encrypted,
        text_opt(owner) == vol@.entity_id,
        usage.capacity_bytes == vol@.size,
        usage.allocated_bytes == vol@.referenced,
        usage.cluster_size == vol@.volblocksize,
        usage.num_clusters == vol@.size / vol@.volblocksize,
        usage.allocated_bytes_snapshots == vol@.usedbysnapshots,
{
    assert(texts(hosts@).len() == hosts@.len());
}

/// A snapshot reports to the engine what is known of it: it is thin, read only and not shared.
pub proof fn law_snapshot_volume(
    snap: ZfsSnapshot,
    name: String,
    size: u64,
    committed: u64,
    allocated: u64,
    thin: bool,
    read_only: bool,
    snapshot: bool,
    clone: bool,
    of: Option<String>,
    share: Protocol,
    uri: Option<String>,
    hosts: Vec<String>,
    owner: Option<String>,
    usage: LvolSpaceUsage,
)
    requires
        call_ensures(<ZfsSnapshot as LogicalVolume>::name, (&snap,), name),
        call_ensures(<ZfsSnapshot as LogicalVolume>::size, (&snap,), size),
        call_ensures(<ZfsSnapshot as LogicalVolume>::committed, (&snap,), committed),
        call_ensures(<ZfsSnapshot as LogicalVolume>::allocated, (&snap,), allocated),
        call_ensures(<ZfsSnapshot as LogicalVolume>::is_thin, (&snap,), thin),
        call_ensures(<ZfsSnapshot as LogicalVolume>::is_read_only, (&snap,), read_only),
        call_ensures(<ZfsSnapshot as LogicalVolume>::is_snapshot, (&snap,), snapshot),
        call_ensures(<ZfsSnapshot as LogicalVolume>::is_clone, (&snap,), clone),
        call_ensures(<ZfsSnapshot as LogicalVolume>::snapshot_uuid, (&snap,), of),
        call_ensures(<ZfsSnapshot as LogicalVolume>::share_protocol, (&snap,), share),
        call_ensures(<ZfsSnapshot as LogicalVolume>::bdev_share_uri, (&snap,), uri),
        call_ensures(<ZfsSnapshot as LogicalVolume>::nvmf_allowed_hosts, (&snap,), hosts),
        call_ensures(<ZfsSnapshot as LogicalVolume>::entity_id, (&snap,), owner),
        snap@.volblocksize > 0,
        call_ensures(<ZfsSnapshot as LogicalVolume>::usage, (&snap,), usage),
    ensures
        snap@.params.name matches Some(n) ==> name@ == n,
        snap@.params.name is None ==> name@ == snap@.uuid,
        size == snap@.volsize,
        committed == snap@.volsize,
        allocated == snap@.referenced,
        thin,
        read_only,
        snapshot,
        !clone,
        of is None,
        share == Protocol::Off,
        uri is None,
        hosts@.len() == 0,
        text_opt(owner) == snap@.params.entity_id,
        usage.capacity_bytes == snap@.volsize,
        usage.allocated_bytes == snap@.referenced,
        usage.cluster_size == snap@.volblocksize,
        usage.num_clusters == snap@.volsize / snap@.volblocksize,
        usage.allocated_bytes_snapshots == snap@.used,
{
    assert(texts(hosts@).len() == hosts@.len());
}

} // verus!
