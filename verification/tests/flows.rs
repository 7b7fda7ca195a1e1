use zfs_backend::cli::{parse_props, ZfsCmd};
use zfs_backend::engine::{
    BdevInfo, CloneParams, CoreError, Errno, FindPoolArgs, FindReplicaArgs, FindSnapshotArgs,
    ListCloneArgs, ListPoolArgs, ListReplicaArgs, ListSnapshotArgs, LogicalVolume, NvmfShareProps,
    PoolArgs, PoolBackend, Protocol, ReplicaArgs, SnapshotParams, UpdateProps,
};
use zfs_backend::flow::device::{wait_for_zvol_device, BdevClose, BdevOpen};
use zfs_backend::flow::factory::{PoolZfsFactory, ReplZfsFactory};
use zfs_backend::flow::nested::Nested;
use zfs_backend::flow::pool_create::{PoolAdopt, PoolCreate};
use zfs_backend::flow::pool_list::PoolList;
use zfs_backend::flow::volume::VolCreate;
use zfs_backend::operation::{BdevGone, Effect, Reply, Step};
use zfs_backend::options::ZfsPoolOpts;
use zfs_backend::snapshot::{SnapQueryArgs, ZfsSnapshot};
use zfs_backend::zvol_replica::{BdevOpts, VolQueryArgs, ZfsVol};
use zfs_backend::{Error, ZfsPool, ZfsQueryArgs};

fn s(text: &str) -> String {
    text.to_string()
}

fn argv(cmd: &ZfsCmd) -> String {
    assert!(cmd.deferred.is_none());
    cmd.argv().join(" ")
}

/// The command that is to be run, and the state in which its output is awaited.
fn run<S: std::fmt::Debug, T: std::fmt::Debug>(step: Step<S, T>) -> (String, S) {
    match step {
        Step::Do(Effect::Run(cmd), state) => (argv(&cmd), state),
        other => panic!("{other:?}"),
    }
}

fn work<S: std::fmt::Debug, T: std::fmt::Debug>(step: Step<S, T>) -> (Effect, S) {
    match step {
        Step::Do(effect, state) => (effect, state),
        other => panic!("{other:?}"),
    }
}

fn done<S: std::fmt::Debug, T: std::fmt::Debug>(step: Step<S, T>) -> T {
    match step {
        Step::Done(value) => value,
        other => panic!("{other:?}"),
    }
}

fn failed<S: std::fmt::Debug, T: std::fmt::Debug>(step: Step<S, T>) -> Error {
    match step {
        Step::Failed(error) => error,
        other => panic!("{other:?}"),
    }
}

fn output(text: &str) -> Reply {
    Reply::Output(Ok(s(text)))
}

fn boom() -> Error {
    Error::Internal { error: s("boom") }
}

const VOL: &str = "tank/data/p1/r1\tvolsize\t1073741824\tlocal\n\
    tank/data/p1/r1\tvolblocksize\t16384\tdefault\n\
    tank/data/p1/r1\tused\t4096\t-\n\
    tank/data/p1/r1\treferenced\t16385\t-\n\
    tank/data/p1/r1\trefreservation\t0\tdefault\n\
    tank/data/p1/r1\tusedbysnapshots\t1\t-\n\
    tank/data/p1/r1\torigin\t-\t-\n\
    tank/data/p1/r1\tencryption\toff\tdefault\n\
    tank/data/p1/r1\tio.mayastor:pool\tpool-uuid\tinherited from tank/data/p1\n\
    tank/data/p1/r1\tio.mayastor:uuid\tr1\tlocal\n\
    tank/data/p1/r1\tio.mayastor:name\treplica-1\tlocal\n\
    tank/data/p1/r1\tio.mayastor:share\tnvmf\tlocal\n\
    tank/data/p1/r1\tio.mayastor:allowed_hosts\tnqn-1,,nqn-2\tlocal\n";

fn vol_from(text: &str) -> ZfsVol {
    ZfsVol::from_props(&parse_props("zfs", text).unwrap()[0]).unwrap()
}

fn vol() -> ZfsVol {
    vol_from(VOL)
}

fn info(shared: Option<Protocol>) -> BdevInfo {
    BdevInfo {
        name: s("bdev-1"),
        share_uri: shared.map(|_| s("nvmf://host/nqn")),
        open_uri: Some(s("aio:///dev/zvol/tank/data/p1/r1?uuid=r1")),
        allowed_hosts: vec![s("nqn-1")],
        shared,
        size: 1073741824,
        block_len: 512,
    }
}

fn open_vol() -> ZfsVol {
    let mut vol = vol();
    vol.set_bdev(Some(BdevOpts::from(info(Some(Protocol::Nvmf)))));
    vol
}

const POOL: &str = "tank/data/p1\tused\t100\t-\n\
    tank/data/p1\tavailable\t900\t-\n\
    tank/data/p1\tencryption\taes-256-gcm\t-\n\
    tank/data/p1\tio.mayastor:pool\tpool-uuid\tlocal\n\
    tank/data/p1\tio.mayastor:disks\ttank/data?sync=always\tlocal\n\
    tank/data/p1\tio.mayastor:volblocksize\t8192\tlocal\n";

fn pool() -> ZfsPool {
    let props = parse_props("zfs", POOL).unwrap();
    ZfsPool::from_props(s("tank/data/p1"), s("pool-uuid"), &props[0], 7, 5000)
}

const SNAP: &str = "tank/data/p1/r1@s1\tused\t16385\t-\n\
    tank/data/p1/r1@s1\treferenced\t32768\t-\n\
    tank/data/p1/r1@s1\tvolsize\t1073741824\t-\n\
    tank/data/p1/r1@s1\tclones\t\t-\n\
    tank/data/p1/r1@s1\tdefer_destroy\toff\t-\n\
    tank/data/p1/r1@s1\tio.mayastor:pool\tpool-uuid\tinherited from tank/data/p1\n\
    tank/data/p1/r1@s1\tio.mayastor:snapshot_uuid\ts1\tlocal\n\
    tank/data/p1/r1@s1\tio.mayastor:name\tsnap-1\tlocal\n\
    tank/data/p1/r1@s1\tio.mayastor:parent_id\tr1\tlocal\n\
    tank/data/p1/r1@s1\tio.mayastor:create_time\tnow\tlocal\n";

fn snap_with(more: &str) -> ZfsSnapshot {
    let text = format!("{SNAP}{more}");
    ZfsSnapshot::from_props(&parse_props("zfs", &text).unwrap()[0]).unwrap()
}

fn cloned_snap() -> ZfsSnapshot {
    snap_with("tank/data/p1/r1@s1\tclones\ttank/data/p1/c1,tank/data/p1/c2\t-\n")
}

fn discarded_snap() -> ZfsSnapshot {
    snap_with("tank/data/p1/r1@s1\tio.mayastor:discarded\ttrue\tlocal\n")
}

fn pool_args() -> PoolArgs {
    PoolArgs {
        name: s("p1"),
        disks: vec![s("tank/data?quota=1G&sync=always")],
        uuid: Some(s("pool-uuid")),
        cluster_size: None,
        enc_key: None,
    }
}

fn replica_args() -> ReplicaArgs {
    ReplicaArgs {
        name: s("replica-1"),
        uuid: s("r1"),
        size: 1000,
        thin: true,
        entity_id: Some(s("volume-1")),
        properties: vec![(s("compression"), s("lz4"))],
    }
}

#[test]
fn device_wait() {
    let (effect, state) = work(wait_for_zvol_device(s("/dev/zvol/x")));
    assert!(matches!(effect, Effect::Probe { path, delay_ms: 0 } if path == "/dev/zvol/x"));
    let (effect, state) = work(state.resume(Reply::Probed { exists: false, elapsed_ms: 9_999 }));
    assert!(matches!(effect, Effect::Probe { delay_ms: 100, .. }));
    let error = failed(state.resume(Reply::Probed { exists: false, elapsed_ms: 10_000 }));
    assert_eq!(error, Error::DeviceWait { path: s("/dev/zvol/x") });
    let (_, state) = work(wait_for_zvol_device(s("/dev/zvol/x")));
    done(state.resume(Reply::Probed { exists: true, elapsed_ms: 20_000 }));
}

#[test]
fn replica_from_properties() {
    let vol = vol();
    assert_eq!(vol.dataset(), "tank/data/p1/r1");
    assert_eq!(vol.pool_dataset(), "tank/data/p1");
    assert_eq!(vol.pool_name(), "p1");
    assert_eq!(vol.pool_uuid(), "pool-uuid");
    assert_eq!(vol.uuid(), "r1");
    assert_eq!(vol.name(), &Some(s("replica-1")));
    assert_eq!(vol.entity_id(), None);
    assert_eq!(vol.size(), 1073741824);
    assert_eq!(vol.volblocksize(), 16384);
    assert!(vol.thin());
    assert_eq!(vol.device_path(), "/dev/zvol/tank/data/p1/r1");
    assert_eq!(
        vol.disk_uri(true),
        "aio:///dev/zvol/tank/data/p1/r1?uuid=r1&fallocate=true"
    );
    assert_eq!(vol.disk_uri(false), "aio:///dev/zvol/tank/data/p1/r1?uuid=r1");
    assert_eq!(vol.share_proto(), None);
    assert_eq!(vol.bdev_opts().unwrap_err(), Error::BdevMissing);
    assert_eq!(vol.ptpl().subpath(), "pool/zfs/p1/vol/r1.json");
    assert_eq!(vol.device().allowed_hosts, vec!["nqn-1", "nqn-2"]);
    assert_eq!(
        vol.stats(),
        Err(CoreError::NotSupported { source: Errno::ENOSYS })
    );
    assert_eq!(
        vol.reset_stats(),
        Err(CoreError::NotSupported { source: Errno::ENOSYS })
    );

    // Inherited copies of the uuid do not make a zvol ours, nor does one without a pool or a size.
    let none = |text: &str| {
        ZfsVol::from_props(&parse_props("zfs", text).unwrap()[0]).is_none()
    };
    assert!(none(&VOL.replace("uuid\tr1\tlocal", "uuid\tr1\tinherited from tank")));
    assert!(none(&VOL.replace("\tpool-uuid\t", "\t-\t")));
    assert!(none(&VOL.replace("volsize\t1073741824", "volsize\tx")));
    assert!(none(&VOL.replace("tank/data/p1/r1", "tank")));
    // A refreservation makes it thick, an origin a clone.
    let vol = vol_from(&VOL.replace("refreservation\t0", "refreservation\t1"));
    assert!(!vol.thin());
    assert!(!LogicalVolume::is_clone(&vol));
    let vol = vol_from(&VOL.replace("origin\t-", "origin\ta@b"));
    assert!(LogicalVolume::is_clone(&vol));
}

#[test]
fn replica_reports() {
    let vol = open_vol();
    assert_eq!(LogicalVolume::name(&vol), "replica-1");
    assert_eq!(LogicalVolume::uuid(&vol), "r1");
    assert_eq!(LogicalVolume::pool_name(&vol), "p1");
    assert_eq!(LogicalVolume::pool_uuid(&vol), "pool-uuid");
    assert_eq!(LogicalVolume::entity_id(&vol), None);
    assert!(vol.is_thin() && !vol.is_read_only() && !vol.is_snapshot());
    assert_eq!(LogicalVolume::size(&vol), 1073741824);
    assert_eq!(vol.committed(), 1073741824);
    assert_eq!(vol.allocated(), 16385);
    assert_eq!(vol.backend(), PoolBackend::Zfs);
    assert_eq!(vol.snapshot_uuid(), None);
    assert_eq!(vol.share_protocol(), Protocol::Nvmf);
    assert_eq!(vol.bdev_share_uri(), Some(s("nvmf://host/nqn")));
    assert_eq!(vol.share_uri(), Some(s("nvmf://host/nqn")));
    assert_eq!(vol.nvmf_allowed_hosts(), vec!["nqn-1"]);
    assert!(!LogicalVolume::encrypted(&vol));
    assert_eq!(vol.shared(), Some(Protocol::Nvmf));
    let usage = vol.usage();
    assert_eq!(usage.capacity_bytes, 1073741824);
    assert_eq!(usage.allocated_bytes, 16385);
    assert_eq!(usage.cluster_size, 16384);
    assert_eq!(usage.num_clusters, 65536);
    assert_eq!(usage.num_allocated_clusters, 2);
    assert_eq!(usage.allocated_bytes_snapshots, 1);
    assert_eq!(usage.num_allocated_clusters_snapshots, 1);
    assert_eq!(usage.allocated_bytes_snapshot_from_clone, None);
}

#[test]
fn replica_queries() {
    let vol = vol();
    let any = VolQueryArgs::new();
    assert_eq!(any.query(), "vol(),pool()");
    assert!(vol.matches(&any));
    let query = VolQueryArgs::new()
        .with_vol(ZfsQueryArgs::any().named("replica-1").uuid("r1"))
        .with_pool(ZfsQueryArgs::any().named("p1").uuid("pool-uuid"))
        .scoped("elsewhere");
    assert_eq!(
        query.query(),
        "vol(name=replica-1,uuid=r1),pool(name=p1,uuid=pool-uuid)"
    );
    assert!(vol.matches(&query));
    for other in [
        VolQueryArgs::new().with_vol(ZfsQueryArgs::any().named("x")),
        VolQueryArgs::new().with_vol(ZfsQueryArgs::any().uuid("x")),
        VolQueryArgs::new().with_pool(ZfsQueryArgs::any().named("x")),
        VolQueryArgs::new().with_pool(ZfsQueryArgs::any().uuid("x")),
    ] {
        assert!(!vol.matches(&other));
    }
    // A replica without a name is found under the empty name.
    let unnamed = vol_from(&VOL.replace("name\treplica-1", "name\t-"));
    assert!(unnamed.matches(&VolQueryArgs::new().with_vol(ZfsQueryArgs::any().named(""))));
}

#[test]
fn replica_listing() {
    let (cmd, _) = run(ZfsVol::list(VolQueryArgs::new()));
    assert_eq!(
        cmd,
        "zfs get -Hp -t volume -o name,property,value,source volsize,volblocksize,used,referenced,\
         refreservation,usedbysnapshots,origin,encryption,io.mayastor:pool,io.mayastor:uuid,\
         io.mayastor:name,io.mayastor:entity_id,io.mayastor:share,io.mayastor:allowed_hosts,\
         io.mayastor:snapshot_uuid"
    );
    let (cmd, state) = run(pool().list_vols());
    assert!(cmd.ends_with(" -d 1 tank/data/p1"));
    let two = format!("{VOL}{}", VOL.replace("p1/r1", "p1/r2").replace("uuid\tr1", "uuid\tr2"));
    let (effect, state) = work(state.resume(output(&two)));
    assert!(matches!(effect, Effect::OpenVol(device) if device.uuid == "r1"));
    // One which cannot be opened does not keep the others from being opened.
    let (effect, state) = work(state.resume(Reply::Opened(Err(boom()))));
    assert!(matches!(effect, Effect::OpenVol(device) if device.uuid == "r2"));
    let opened = BdevOpts::from(info(None));
    assert_eq!(failed(state.resume(Reply::Opened(Ok(opened)))), boom());

    let (_, state) = run(ZfsVol::list(VolQueryArgs::new()));
    let (_, state) = work(state.resume(output(VOL)));
    let vols = done(state.resume(Reply::Opened(Ok(BdevOpts::from(info(None))))));
    assert_eq!(vols.len(), 1);
    assert_eq!(
        vols[0].open_uri().unwrap(),
        "aio:///dev/zvol/tank/data/p1/r1?uuid=r1"
    );
    assert_eq!(vols[0].uri(), None);

    let (_, state) = run(ZfsVol::list(VolQueryArgs::new()));
    assert!(done(state.resume(output(""))).is_empty());
    let (_, state) = run(ZfsVol::list(VolQueryArgs::new()));
    assert!(matches!(failed(state.resume(output("x\n"))), Error::OutputParsing { .. }));
}

#[test]
fn replica_lookup() {
    let query = || VolQueryArgs::new().with_vol(ZfsQueryArgs::any().uuid("r1"));
    let (effect, state) = work(ZfsVol::lookup(query()));
    assert!(matches!(effect, Effect::ListVols(_)));
    assert_eq!(
        failed(state.resume(Reply::Vols(Ok(vec![])))),
        Error::VolNotFound { query: s("vol(uuid=r1),pool()") }
    );
    let (_, state) = work(ZfsVol::lookup(query()));
    let other = vol_from(&VOL.replace("uuid\tr1", "uuid\tr2"));
    assert_eq!(done(state.resume(Reply::Vols(Ok(vec![vol(), other])))).uuid(), "r1");
    let (_, state) = work(ZfsVol::lookup(query()));
    assert_eq!(failed(state.resume(Reply::Vols(Err(boom())))), boom());
}

#[test]
fn bdev_opening() {
    let (effect, state) = work(BdevOpen::start(vol().device()));
    assert!(matches!(effect, Effect::PunchHole(path) if path == "/dev/zvol/tank/data/p1/r1"));
    let uri = "aio:///dev/zvol/tank/data/p1/r1?uuid=r1&fallocate=true";
    let (effect, state) = work(state.resume(Reply::Flag(true)));
    assert!(matches!(effect, Effect::FindBdev(found) if found == uri));
    let (effect, state) = work(state.resume(Reply::Flag(false)));
    assert!(matches!(effect, Effect::CreateBdev(created) if created == uri));
    let (effect, state) = work(state.resume(Reply::Engine(Ok(()))));
    assert!(matches!(effect, Effect::ReadBdev(read) if read == uri));
    let (effect, state) = work(state.resume(Reply::Bdev(Some(info(None)))));
    assert!(
        matches!(effect, Effect::CreatePtpl(ptpl) if ptpl.subpath() == "pool/zfs/p1/vol/r1.json")
    );
    let (effect, state) = work(state.resume(Reply::Ptpl(Ok(Some(s("/x.json"))))));
    match effect {
        Effect::ShareBdev { uri: shared, share: Some(props) } => {
            assert_eq!(shared, uri);
            assert_eq!(props.allowed_hosts, vec!["nqn-1", "nqn-2"]);
            assert_eq!(props.ptpl, Some(s("/x.json")));
        }
        other => panic!("{other:?}"),
    }
    let opts = done(state.resume(Reply::Shared(Ok((s("nqn"), info(Some(Protocol::Nvmf)))))));
    assert_eq!(opts.share(), Protocol::Nvmf);
    assert_eq!(opts.size(), 1073741824);
    assert_eq!(opts.allowed_hosts(), &vec![s("nqn-1")]);
}

fn reading(device_share: &str) -> BdevOpen {
    let vol = vol_from(&VOL.replace("share\tnvmf", &format!("share\t{device_share}")));
    let (_, state) = work(BdevOpen::start(vol.device()));
    let (_, state) = work(state.resume(Reply::Flag(false)));
    work(state.resume(Reply::Flag(true))).1
}

#[test]
fn bdev_opening_failures() {
    let (_, state) = work(BdevOpen::start(vol().device()));
    let (_, state) = work(state.resume(Reply::Flag(false)));
    let (_, state) = work(state.resume(Reply::Flag(false)));
    assert_eq!(
        failed(state.resume(Reply::Engine(Err(s("e"))))),
        Error::BdevImport { source: s("e") }
    );
    assert_eq!(failed(reading("off").resume(Reply::Bdev(None))), Error::BdevMissing);
    // Not shared, and not to be shared.
    let opts = done(reading("off").resume(Reply::Bdev(Some(info(None)))));
    assert_eq!(opts.share(), Protocol::Off);
    // Shared, but not to be shared.
    let (effect, state) = work(reading("off").resume(Reply::Bdev(Some(info(Some(Protocol::Nvmf))))));
    assert!(matches!(effect, Effect::UnshareBdev(_)));
    assert_eq!(
        failed(state.resume(Reply::Changed(Err(s("e"))))),
        Error::BdevUnshare { source: s("e") }
    );
    let (_, state) = work(reading("off").resume(Reply::Bdev(Some(info(Some(Protocol::Nvmf))))));
    assert_eq!(done(state.resume(Reply::Changed(Ok(info(None))))).share(), Protocol::Off);
    // Shared already, and to be shared.
    let preparing = || work(reading("nvmf").resume(Reply::Bdev(Some(info(Some(Protocol::Nvmf)))))).1;
    assert_eq!(
        failed(preparing().resume(Reply::Ptpl(Err(s("e"))))),
        Error::BdevShare { source: s("e") }
    );
    let (effect, state) = work(preparing().resume(Reply::Ptpl(Ok(None))));
    assert!(matches!(
        effect,
        Effect::UpdateBdev { update: Some(UpdateProps { allowed_hosts }), .. }
            if allowed_hosts == vec!["nqn-1", "nqn-2"]
    ));
    assert_eq!(failed(state.resume(Reply::Changed(Ok(info(None))))), Error::BdevShareUri);
    let (_, state) = work(preparing().resume(Reply::Ptpl(Ok(None))));
    assert_eq!(
        failed(state.resume(Reply::Changed(Err(s("e"))))),
        Error::BdevShare { source: s("e") }
    );
    let (_, state) = work(preparing().resume(Reply::Ptpl(Ok(None))));
    let opts = done(state.resume(Reply::Changed(Ok(info(Some(Protocol::Nvmf))))));
    assert_eq!(opts.share(), Protocol::Nvmf);
    let (_, state) = work(reading("nvmf").resume(Reply::Bdev(Some(info(Some(Protocol::Off))))));
    let (_, state) = work(state.resume(Reply::Ptpl(Ok(None))));
    assert_eq!(
        failed(state.resume(Reply::Shared(Err(s("e"))))),
        Error::BdevShare { source: s("e") }
    );
}

#[test]
fn bdev_closing() {
    let uri = "aio:///dev/zvol/tank/data/p1/r1?uuid=r1";
    let (effect, state) = work(BdevClose::start(s(uri)));
    assert!(matches!(effect, Effect::ReadBdev(read) if read == uri));
    let (effect, state) = work(state.resume(Reply::Bdev(Some(info(Some(Protocol::Nvmf))))));
    assert!(matches!(effect, Effect::UnshareBdev(unshared) if unshared == uri));
    let (effect, state) = work(state.resume(Reply::Changed(Ok(info(None)))));
    assert!(matches!(effect, Effect::DestroyBdev(gone) if gone == uri));
    done(state.resume(Reply::Gone(BdevGone::Destroyed)));

    let (_, state) = work(BdevClose::start(s(uri)));
    let (_, state) = work(state.resume(Reply::Bdev(None)));
    done(state.resume(Reply::Gone(BdevGone::NotFound)));
    let (_, state) = work(BdevClose::start(s(uri)));
    let (_, state) = work(state.resume(Reply::Bdev(Some(info(None)))));
    assert_eq!(
        failed(state.resume(Reply::Gone(BdevGone::Failed(s("e"))))),
        Error::BdevExport { source: s("e") }
    );
    let (_, state) = work(BdevClose::start(s(uri)));
    let (_, state) = work(state.resume(Reply::Bdev(Some(info(Some(Protocol::Nvmf))))));
    assert_eq!(
        failed(state.resume(Reply::Changed(Err(s("e"))))),
        Error::BdevUnshare { source: s("e") }
    );
}

#[test]
fn replica_creation() {
    let (cmd, state) = run(pool().create_zvol(replica_args()));
    assert_eq!(
        cmd,
        "zfs create -s -V 8192 -b 8192 -o compression=lz4 -o io.mayastor:uuid=r1 \
         -o io.mayastor:name=replica-1 -o io.mayastor:entity_id=volume-1 \
         -o io.mayastor:share=off tank/data/p1/r1"
    );
    let (effect, state) = work(state.resume(output("")));
    assert!(matches!(effect, Effect::AwaitDevice(path) if path == "/dev/zvol/tank/data/p1/r1"));
    let (effect, state) = work(state.resume(Reply::Finished(Ok(()))));
    match effect {
        Effect::LookupVol(query) => {
            assert_eq!(query.query(), "vol(uuid=r1),pool(uuid=pool-uuid)");
            assert_eq!(query.dataset, Some(s("tank/data/p1")));
        }
        other => panic!("{other:?}"),
    }
    assert_eq!(done(state.resume(Reply::Vol(Ok(vol())))).uuid(), "r1");

    // The block size of the replica overrides that of the pool.
    let mut args = replica_args();
    args.thin = false;
    args.entity_id = Some(s(""));
    args.properties = vec![(s("volblocksize"), s("512"))];
    let (cmd, _) = run(ZfsVol::create(&pool(), args));
    assert_eq!(
        cmd,
        "zfs create -V 1024 -b 512 -o io.mayastor:uuid=r1 -o io.mayastor:name=replica-1 \
         -o io.mayastor:share=off tank/data/p1/r1"
    );
}

#[test]
fn replica_creation_failures() {
    let mut args = replica_args();
    args.uuid = s("-");
    assert!(matches!(failed(ZfsVol::create(&pool(), args)), Error::InvalidName { .. }));
    let mut args = replica_args();
    args.properties = vec![(s("quota"), s("1"))];
    assert!(matches!(failed(ZfsVol::create(&pool(), args)), Error::InvalidOption { .. }));
    let props = parse_props("zfs", "tank/p\tio.mayastor:volblocksize\t3\tlocal\n").unwrap();
    let odd = ZfsPool::from_props(s("tank/p"), s("u"), &props[0], 0, 0);
    assert!(matches!(failed(odd.create_zvol(replica_args())), Error::InvalidOption { .. }));
    assert!(VolCreate::fits(&odd, &replica_args()));
    let mut args = replica_args();
    args.size = u64::MAX;
    assert!(!VolCreate::fits(&pool(), &args));
    assert!(VolCreate::fits(&pool(), &replica_args()));
    let mut args = replica_args();
    args.name = s("a\nb");
    match ZfsVol::create(&pool(), args) {
        Step::Do(Effect::Run(cmd), _) => {
            assert!(matches!(cmd.ready(), Err(Error::InvalidPropertyValue { .. })))
        }
        other => panic!("{other:?}"),
    }

    let (_, state) = run(pool().create_zvol(replica_args()));
    assert_eq!(failed(state.resume(Reply::Output(Err(boom())))), boom());
    let (_, state) = run(pool().create_zvol(replica_args()));
    let (_, state) = work(state.resume(output("")));
    assert_eq!(failed(state.resume(Reply::Finished(Err(boom())))), boom());
    let (_, state) = run(pool().create_zvol(replica_args()));
    let (_, state) = work(state.resume(output("")));
    let (_, state) = work(state.resume(Reply::Finished(Ok(()))));
    assert_eq!(failed(state.resume(Reply::Vol(Err(boom())))), boom());
}

fn recreate(text: &str, args: ReplicaArgs) -> Step<VolCreate, ZfsVol> {
    let exists = Error::Exists { error: s("already exists") };
    let (_, state) = run(pool().create_zvol(args));
    let (_, state) = work(state.resume(Reply::Output(Err(exists))));
    let (_, state) = work(state.resume(Reply::Finished(Ok(()))));
    let mut vol = vol_from(text);
    vol.set_bdev(Some(BdevOpts::from(info(None))));
    state.resume(Reply::Vol(Ok(vol)))
}

#[test]
fn replica_recreation() {
    let same = VOL
        .replace("volsize\t1073741824", "volsize\t8192")
        .replace("share\tnvmf", "share\toff")
        + "tank/data/p1/r1\tio.mayastor:entity_id\tvolume-1\tlocal\n";
    let exists = Error::Exists { error: s("already exists") };
    assert_eq!(done(recreate(&same, replica_args())).uuid(), "r1");
    for other in [
        same.replace("name\treplica-1", "name\tother"),
        same.replace("name\treplica-1", "name\t-"),
        same.replace("io.mayastor:uuid\tr1", "io.mayastor:uuid\tr2"),
        same.replace("volsize\t8192", "volsize\t16384"),
        same.replace("entity_id\tvolume-1", "entity_id\tother"),
        same.replace("share\toff", "share\tnvmf"),
    ] {
        assert_eq!(failed(recreate(&other, replica_args())), exists);
    }
    // An empty owner is not persisted, so that a repeated request is refused.
    let mut args = replica_args();
    args.entity_id = Some(s(""));
    let unowned = same.replace("entity_id\tvolume-1", "entity_id\t-");
    assert_eq!(failed(recreate(&unowned, args)), exists);
    let mut args = replica_args();
    args.entity_id = None;
    done(recreate(&unowned, args));
}

#[test]
fn replica_destruction() {
    // No snapshots.
    let (effect, state) = work(vol().destroy());
    assert!(matches!(effect, Effect::ListSnaps(query) if query.dataset == Some(s("tank/data/p1/r1"))));
    let (cmd, state) = run(state.resume(Reply::Snaps(Ok(vec![]))));
    assert_eq!(cmd, "zfs destroy tank/data/p1/r1");
    let (effect, state) = work(state.resume(output("")));
    assert!(
        matches!(effect, Effect::RemovePtpl(ptpl) if ptpl.subpath() == "pool/zfs/p1/vol/r1.json")
    );
    done(state.resume(Reply::Noted));

    // Only discarded snapshots, and an open bdev.
    let (_, state) = work(open_vol().destroy());
    let (effect, state) = work(state.resume(Reply::Snaps(Ok(vec![discarded_snap()]))));
    assert!(
        matches!(effect, Effect::CloseBdev(uri) if uri == "aio:///dev/zvol/tank/data/p1/r1?uuid=r1")
    );
    let (cmd, state) = run(state.resume(Reply::Finished(Ok(()))));
    assert_eq!(cmd, "zfs destroy -r tank/data/p1/r1");
    assert_eq!(failed(state.resume(Reply::Output(Err(boom())))), boom());

    // The bdev cannot be closed.
    let (_, state) = work(open_vol().destroy());
    let (_, state) = work(state.resume(Reply::Snaps(Ok(vec![]))));
    assert_eq!(failed(state.resume(Reply::Finished(Err(boom())))), boom());

    // A live snapshot.
    let (_, state) = work(vol().destroy());
    assert_eq!(
        failed(state.resume(Reply::Snaps(Ok(vec![discarded_snap(), snap_with("")])))),
        Error::HasLiveSnapshots { volume: s("r1") }
    );
    let (_, state) = work(vol().destroy());
    assert_eq!(failed(state.resume(Reply::Snaps(Err(boom())))), boom());
}

#[test]
fn replica_destruction_promotes() {
    let (_, state) = work(vol().destroy());
    let (cmd, state) = run(state.resume(Reply::Snaps(Ok(vec![snap_with(""), cloned_snap()]))));
    assert_eq!(cmd, "zfs promote tank/data/p1/c1");
    let (effect, state) = work(state.resume(output("")));
    assert!(matches!(effect, Effect::ListSnaps(_)));
    let (cmd, _) = run(state.resume(Reply::Snaps(Ok(vec![]))));
    assert_eq!(cmd, "zfs destroy tank/data/p1/r1");

    // With one snapshot there are two promotions at most; then the snapshots decide as they are.
    let (_, state) = work(vol().destroy());
    let (cmd, state) = run(state.resume(Reply::Snaps(Ok(vec![cloned_snap()]))));
    assert_eq!(cmd, "zfs promote tank/data/p1/c1");
    let (_, state) = work(state.resume(output("")));
    let (cmd, state) = run(state.resume(Reply::Snaps(Ok(vec![cloned_snap()]))));
    assert_eq!(cmd, "zfs promote tank/data/p1/c1");
    let (_, state) = work(state.resume(output("")));
    assert_eq!(
        failed(state.resume(Reply::Snaps(Ok(vec![cloned_snap()])))),
        Error::HasLiveSnapshots { volume: s("r1") }
    );
    let (_, state) = work(vol().destroy());
    let (_, state) = run(state.resume(Reply::Snaps(Ok(vec![cloned_snap()]))));
    assert_eq!(failed(state.resume(Reply::Output(Err(boom())))), boom());
}

#[test]
fn replica_resizing() {
    let (vol_after, res) = done(vol().resize(1));
    assert_eq!(res, Err(Error::ShrinkNotSup { volume: s("r1") }));
    assert_eq!(vol_after.size(), 1073741824);

    // Without a bdev.
    let (cmd, state) = run(vol().resize(1073741825));
    assert_eq!(cmd, "zfs set volsize=1073758208 tank/data/p1/r1");
    let (vol_after, res) = done(state.resume(output("")));
    assert_eq!((vol_after.size(), res), (1073758208, Ok(())));
    let (_, state) = run(vol().resize(2147483648));
    let (vol_after, res) = done(state.resume(Reply::Output(Err(boom()))));
    assert_eq!((vol_after.size(), res), (1073741824, Err(boom())));

    // With a bdev.
    let notifying = || {
        let (_, state) = run(open_vol().resize(2147483648));
        let (effect, state) = work(state.resume(output("")));
        assert!(matches!(effect, Effect::ReadBdev(_)));
        work(state.resume(Reply::Bdev(Some(info(None)))))
    };
    let (effect, state) = notifying();
    assert!(matches!(effect, Effect::NotifyBlocks { blocks: 4194304, .. }));
    let (vol_after, res) = done(state.resume(Reply::Notified { rc: 0, size: 2147483648 }));
    assert_eq!((vol_after.size(), res), (2147483648, Ok(())));
    assert_eq!(vol_after.bdev_opts().unwrap().size(), 2147483648);

    // The bdev fails: the size of the zvol is set back, as far as it can be.
    let (_, state) = notifying();
    let (cmd, state) = run(state.resume(Reply::Notified { rc: -1, size: 0 }));
    assert_eq!(cmd, "zfs set volsize=1073741824 tank/data/p1/r1");
    let (vol_after, res) = done(state.resume(Reply::Output(Err(boom()))));
    assert_eq!((vol_after.size(), res), (1073741824, Err(Error::BdevShareUri)));
    let (_, state) = run(open_vol().resize(2147483648));
    let (_, state) = work(state.resume(output("")));
    let (cmd, state) = run(state.resume(Reply::Bdev(None)));
    assert_eq!(cmd, "zfs set volsize=1073741824 tank/data/p1/r1");
    let (vol_after, res) = done(state.resume(output("")));
    assert_eq!((vol_after.size(), res), (1073741824, Err(Error::BdevMissing)));
}

#[test]
fn replica_owner() {
    let (cmd, state) = run(vol().set_entity_id(s("volume-2")));
    assert_eq!(cmd, "zfs set io.mayastor:entity_id=volume-2 tank/data/p1/r1");
    let (after, res) = done(state.resume(output("")));
    assert_eq!((after.entity_id(), res), (Some(&s("volume-2")), Ok(())));
    let (_, state) = run(vol().set_entity_id(s("volume-2")));
    let (after, res) = done(state.resume(Reply::Output(Err(boom()))));
    assert_eq!((after.entity_id(), res), (None, Err(boom())));
    // A value which would corrupt the output is refused before anything is run.
    match vol().set_entity_id(s("a\tb")) {
        Step::Do(Effect::Run(cmd), _) => {
            assert!(matches!(cmd.ready(), Err(Error::InvalidPropertyValue { .. })))
        }
        other => panic!("{other:?}"),
    }
}

#[test]
fn replica_sharing() {
    let (_, res) = done(vol().share_nvmf(None));
    assert_eq!(res, Err(Error::BdevMissing));
    let props = || Some(NvmfShareProps { allowed_hosts: vec![s("h1"), s("h2")], ptpl: None });
    let reading = || work(open_vol().share_nvmf(props())).1;
    let (after, res) = done(reading().resume(Reply::Bdev(None)));
    assert_eq!((after.uuid(), res), ("r1", Err(Error::BdevMissing)));

    let mut shared = info(Some(Protocol::Nvmf));
    shared.allowed_hosts = vec![s("h1"), s("h2")];
    shared.size = 1;
    let (effect, state) = work(reading().resume(Reply::Bdev(Some(info(None)))));
    assert!(matches!(effect, Effect::ShareBdev { share: Some(_), .. }));
    let (cmd, state) = run(state.resume(Reply::Shared(Ok((s("nqn"), shared.clone())))));
    assert_eq!(
        cmd,
        "zfs set io.mayastor:share=nvmf io.mayastor:allowed_hosts=h1,h2 tank/data/p1/r1"
    );
    let (after, res) = done(state.resume(output("")));
    assert_eq!(res, Ok(s("nqn")));
    assert_eq!(after.share_proto(), Some(Protocol::Nvmf));
    assert_eq!(after.device().allowed_hosts, vec!["h1", "h2"]);
    // Only what concerns the sharing is taken over.
    assert_eq!(after.bdev_opts().unwrap().size(), 1073741824);

    // Shared already.
    let updating = || work(reading().resume(Reply::Bdev(Some(info(Some(Protocol::Nvmf)))))).1;
    let (cmd, state) = run(updating().resume(Reply::Changed(Ok(shared.clone()))));
    assert!(cmd.contains("allowed_hosts=h1,h2"));
    let (after, res) = done(state.resume(Reply::Output(Err(boom()))));
    assert_eq!(res, Err(boom()));
    assert_eq!(after.bdev_allowed_hosts(), Some(&vec![s("h1"), s("h2")]));
    assert_eq!(after.device().allowed_hosts, vec!["nqn-1", "nqn-2"]);
    let (_, res) = done(updating().resume(Reply::Changed(Ok(info(None)))));
    assert_eq!(res, Err(Error::BdevShareUri));
    let (_, res) = done(updating().resume(Reply::Changed(Err(s("e")))));
    assert_eq!(res, Err(Error::BdevShare { source: s("e") }));
    let (_, state) = work(reading().resume(Reply::Bdev(Some(info(None)))));
    let (_, res) = done(state.resume(Reply::Shared(Err(s("e")))));
    assert_eq!(res, Err(Error::BdevShare { source: s("e") }));
}

#[test]
fn replica_share_update() {
    let props = || Some(UpdateProps { allowed_hosts: vec![s("h1")] });
    let (_, res) = done(vol().update_share_props(props()));
    assert_eq!(res, Err(Error::BdevMissing));
    let reading = || work(open_vol().update_share_props(props())).1;
    let (_, res) = done(reading().resume(Reply::Bdev(None)));
    assert_eq!(res, Err(Error::BdevMissing));
    let (effect, state) = work(reading().resume(Reply::Bdev(Some(info(None)))));
    assert!(matches!(effect, Effect::UpdateBdev { update: Some(_), .. }));
    let (_, res) = done(state.resume(Reply::Changed(Err(s("e")))));
    assert_eq!(res, Err(Error::UpdateProps { source: s("e"), name: s("bdev-1") }));
    let (_, state) = work(reading().resume(Reply::Bdev(Some(info(None)))));
    let (cmd, state) = run(state.resume(Reply::Changed(Ok(info(None)))));
    assert_eq!(
        cmd,
        "zfs set io.mayastor:share=off io.mayastor:allowed_hosts=nqn-1 tank/data/p1/r1"
    );
    let (after, res) = done(state.resume(output("")));
    assert_eq!((after.share_proto(), res), (Some(Protocol::Off), Ok(())));
}

#[test]
fn replica_unsharing() {
    let (_, res) = done(vol().unshare(true));
    assert_eq!(res, Err(Error::BdevMissing));
    let reading = |persist: bool| work(open_vol().unshare(persist)).1;
    let (_, res) = done(reading(true).resume(Reply::Bdev(None)));
    assert_eq!(res, Err(Error::BdevMissing));
    let shared = || Reply::Bdev(Some(info(Some(Protocol::Nvmf))));
    let (effect, state) = work(reading(true).resume(shared()));
    assert!(matches!(effect, Effect::UnshareBdev(_)));
    let (cmd, state) = run(state.resume(Reply::Changed(Ok(info(None)))));
    assert_eq!(cmd, "zfs set io.mayastor:share=off tank/data/p1/r1");
    let (after, res) = done(state.resume(output("")));
    assert_eq!((after.share_proto(), res), (Some(Protocol::Off), Ok(())));
    assert_eq!(after.uri(), None);

    // For the time being: what is persisted stays.
    let (after, res) = done(reading(false).resume(Reply::Bdev(Some(info(None)))));
    assert_eq!(res, Ok(()));
    assert_eq!(after.share_proto(), Some(Protocol::Nvmf));
    assert_eq!(after.bdev_opts().unwrap().share(), Protocol::Off);
    let (_, state) = work(reading(false).resume(shared()));
    let (after, res) = done(state.resume(Reply::Changed(Err(s("e")))));
    assert_eq!(res, Err(Error::BdevUnshare { source: s("e") }));
    assert_eq!(after.uri(), Some(&s("nvmf://host/nqn")));
}

#[test]
fn bdev_parameters_in_place() {
    let mut vol = open_vol();
    let (bdev, uri) = vol.bdev_mut_uri().unwrap();
    assert_eq!(uri, "aio:///dev/zvol/tank/data/p1/r1?uuid=r1");
    assert_eq!(bdev.uri(), uri);
    bdev.set_size(3);
    bdev.update_from(BdevOpts::from(info(None)));
    assert_eq!(vol.bdev_opts().unwrap().size(), 3);
    assert_eq!(vol.bdev_opts().unwrap().share(), Protocol::Off);
    vol.set_bdev(None);
    assert_eq!(vol.bdev_mut().unwrap_err(), Error::BdevMissing);
    assert_eq!(ZfsVol::bdev(None).unwrap_err(), Error::BdevMissing);
    assert_eq!(ZfsVol::bdev(Some(info(None))).unwrap().name, "bdev-1");
    let mut nowhere = info(None);
    nowhere.open_uri = None;
    assert_eq!(BdevOpts::from(nowhere).uri(), "");
}

#[test]
fn snapshot_from_properties() {
    let snap = snap_with("");
    assert_eq!(snap.uuid(), "s1");
    assert_eq!(snap.path(), "tank/data/p1/r1@s1");
    assert_eq!(snap.container(), "tank/data/p1");
    assert_eq!(snap.source_uuid(), "r1");
    assert!(snap.clones().is_empty());
    assert!(!snap.discarded());
    assert!(discarded_snap().discarded());
    assert!(snap_with("tank/data/p1/r1@s1\tdefer_destroy\ton\t-\n").discarded());
    assert!(snap_with("tank/data/p1/r1@s1\tio.mayastor:discarded\ton\tlocal\n").discarded());
    assert!(!snap_with("tank/data/p1/r1@s1\tio.mayastor:discarded\ttrue\t-\n").discarded());
    assert_eq!(cloned_snap().clones(), &vec![s("tank/data/p1/c1"), s("tank/data/p1/c2")]);
    let none = |text: &str| ZfsSnapshot::from_props(&parse_props("zfs", text).unwrap()[0]).is_none();
    assert!(none(&SNAP.replace("uuid\ts1\tlocal", "uuid\ts1\tinherited from x")));
    assert!(none(&SNAP.replace("\tpool-uuid\t", "\t-\t")));
    assert!(none(&SNAP.replace("r1@s1", "r1")));
    assert!(none(&SNAP.replace("tank/data/p1/r1@s1", "tank@s1")));

    let descriptor = snap.descriptor();
    assert_eq!(descriptor.snapshot.uuid(), "s1");
    assert_eq!(descriptor.info.source_uuid, "r1");
    assert_eq!(descriptor.info.snapshot_size, 32768);
    assert_eq!(descriptor.info.num_clones, 0);
    assert!(!descriptor.info.valid_snapshot);
    let full = snap_with(
        "tank/data/p1/r1@s1\tio.mayastor:entity_id\te\tlocal\n\
         tank/data/p1/r1@s1\tio.mayastor:txn_id\tt\tlocal\n",
    );
    let descriptor = full.descriptor();
    assert!(descriptor.info.valid_snapshot);
    assert_eq!(descriptor.info.snapshot_params.txn_id, Some(s("t")));
    assert_eq!(cloned_snap().descriptor().info.num_clones, 2);
}

#[test]
fn snapshot_reports() {
    let snap = snap_with("");
    assert_eq!(LogicalVolume::name(&snap), "snap-1");
    assert_eq!(LogicalVolume::uuid(&snap), "s1");
    assert_eq!(LogicalVolume::pool_name(&snap), "p1");
    assert_eq!(snap.pool_uuid(), "pool-uuid");
    assert_eq!(snap.entity_id(), None);
    assert!(snap.is_thin() && snap.is_read_only() && snap.is_snapshot() && !snap.is_clone());
    assert_eq!((snap.size(), snap.committed(), snap.allocated()), (1073741824, 1073741824, 32768));
    assert_eq!(snap.backend(), PoolBackend::Zfs);
    assert_eq!(snap.snapshot_uuid(), None);
    assert_eq!(snap.share_protocol(), Protocol::Off);
    assert_eq!(snap.bdev_share_uri(), None);
    assert!(snap.nvmf_allowed_hosts().is_empty());
    assert!(!snap.encrypted());
    let usage = snap.usage();
    assert_eq!(usage.num_clusters, 65536);
    assert_eq!(usage.num_allocated_clusters, 2);
    assert_eq!(usage.num_allocated_clusters_snapshots, 2);
    let unnamed = snap_with("tank/data/p1/r1@s1\tio.mayastor:name\t-\t-\n");
    assert_eq!(LogicalVolume::name(&unnamed), "s1");
}

#[test]
fn snapshot_listing() {
    let query = SnapQueryArgs::new().uuid("s1").source_opt(&Some(s("r1")));
    assert_eq!(query.query(), "uuid=s1,source=r1");
    let (cmd, state) = run(ZfsSnapshot::list(query.scoped("tank/data/p1/r1")));
    assert_eq!(
        cmd,
        "zfs get -Hp -t snapshot -o name,property,value,source used,referenced,volsize,\
         volblocksize,clones,defer_destroy,io.mayastor:pool,io.mayastor:snapshot_uuid,\
         io.mayastor:name,io.mayastor:entity_id,io.mayastor:parent_id,io.mayastor:txn_id,\
         io.mayastor:create_time,io.mayastor:discarded -d 1 tank/data/p1/r1"
    );
    let two = format!("{SNAP}{}", SNAP.replace("@s1", "@s2").replace("uuid\ts1", "uuid\ts2"));
    let snaps = done(state.resume(output(&two)));
    assert_eq!(snaps.len(), 1);
    assert_eq!(snaps[0].uuid(), "s1");

    let snap = snap_with("tank/data/p1/r1@s1\tio.mayastor:parent_id\tother\tlocal\n");
    let by_source = |uuid: &str| SnapQueryArgs::new().source_opt(&Some(s(uuid)));
    assert!(snap.matches(&by_source("other")));
    // Also the replica whose zvol it is of by now.
    assert!(snap.matches(&by_source("r1")));
    assert!(!snap.matches(&by_source("r2")));
    assert!(!snap.matches(&SnapQueryArgs::new().uuid_opt(&Some(s("x")))));
    assert!(!snap.matches(&SnapQueryArgs::new().with_pool(ZfsQueryArgs::any().named("x"))));
    assert!(snap.matches(&SnapQueryArgs::new().uuid_opt(&None).source_opt(&None)));

    let (_, state) = run(ZfsSnapshot::list(SnapQueryArgs::new()));
    assert_eq!(failed(state.resume(Reply::Output(Err(boom())))), boom());
    let (effect, state) = work(ZfsSnapshot::lookup(SnapQueryArgs::new().uuid("s1")));
    assert!(matches!(effect, Effect::ListSnaps(_)));
    assert_eq!(
        failed(state.resume(Reply::Snaps(Ok(vec![])))),
        Error::SnapNotFound { query: s("uuid=s1,source=") }
    );
    let (_, state) = work(ZfsSnapshot::lookup(SnapQueryArgs::new()));
    assert_eq!(done(state.resume(Reply::Snaps(Ok(vec![snap_with("")])))).uuid(), "s1");
}

fn params() -> SnapshotParams {
    SnapshotParams {
        entity_id: Some(s("e")),
        parent_id: None,
        txn_id: Some(s("t")),
        name: Some(s("n")),
        snapshot_uuid: Some(s("s1")),
        create_time: None,
        discarded_snapshot: false,
    }
}

#[test]
fn snapshot_creation() {
    let (cmd, state) = run(ZfsSnapshot::create_at(&vol(), params(), s("now")));
    assert_eq!(
        cmd,
        "zfs snapshot -o io.mayastor:snapshot_uuid=s1 -o io.mayastor:parent_id=r1 \
         -o io.mayastor:create_time=now -o io.mayastor:discarded=false -o io.mayastor:name=n \
         -o io.mayastor:entity_id=e -o io.mayastor:txn_id=t tank/data/p1/r1@s1"
    );
    let (effect, state) = work(state.resume(output("")));
    assert!(matches!(
        effect,
        Effect::LookupSnap(query)
            if query.uuid == Some(s("s1")) && query.dataset == Some(s("tank/data/p1/r1"))
    ));
    assert_eq!(done(state.resume(Reply::Snap(Ok(snap_with(""))))).uuid(), "s1");

    let mut given = params();
    given.parent_id = Some(s("p"));
    given.create_time = Some(s("then"));
    given.name = None;
    given.entity_id = None;
    given.txn_id = None;
    given.discarded_snapshot = true;
    let (cmd, state) = run(ZfsSnapshot::create_at(&vol(), given, s("now")));
    assert_eq!(
        cmd,
        "zfs snapshot -o io.mayastor:snapshot_uuid=s1 -o io.mayastor:parent_id=p \
         -o io.mayastor:create_time=then -o io.mayastor:discarded=true tank/data/p1/r1@s1"
    );
    assert_eq!(failed(state.resume(Reply::Output(Err(boom())))), boom());

    let mut without = params();
    without.snapshot_uuid = None;
    assert_eq!(
        failed(ZfsSnapshot::create_at(&vol(), without, s("now"))),
        Error::InvalidOption { error: s("a snapshot uuid must be provided") }
    );
    let mut odd = params();
    odd.snapshot_uuid = Some(s("a b"));
    assert!(matches!(
        failed(ZfsSnapshot::create_at(&vol(), odd, s("now"))),
        Error::InvalidName { .. }
    ));
}

#[test]
fn snapshot_creation_now() {
    let before = chrono::Utc::now();
    let (cmd, _) = run(vol().create_snapshot(params()));
    let after = chrono::Utc::now();
    let time = cmd.split("create_time=").nth(1).unwrap().split(" -o").next().unwrap();
    let parsed = time.parse::<chrono::DateTime<chrono::Utc>>().unwrap();
    assert!(before <= parsed && parsed <= after);
    assert!(time.ends_with(" UTC") && time.len() >= 23);
}

#[test]
fn snapshot_destruction() {
    let (cmd, state) = run(snap_with("").destroy());
    assert_eq!(cmd, "zfs destroy tank/data/p1/r1@s1");
    done(state.resume(output("")));
    let (cmd, state) = run(cloned_snap().destroy());
    assert_eq!(cmd, "zfs set io.mayastor:discarded=true tank/data/p1/r1@s1");
    let (cmd, state) = run(state.resume(output("")));
    assert_eq!(cmd, "zfs destroy -d tank/data/p1/r1@s1");
    assert_eq!(failed(state.resume(Reply::Output(Err(boom())))), boom());
    let (_, state) = run(cloned_snap().destroy());
    assert_eq!(failed(state.resume(Reply::Output(Err(boom())))), boom());
}

#[test]
fn clone_creation() {
    let clone = |uuid: Option<&str>, name: Option<&str>| CloneParams {
        clone_uuid: uuid.map(s),
        clone_name: name.map(s),
    };
    let snap = snap_with("");
    let (cmd, state) = run(snap.create_clone(clone(Some("c1"), Some("n"))));
    assert_eq!(
        cmd,
        "zfs clone -o io.mayastor:uuid=c1 -o io.mayastor:name=n -o io.mayastor:snapshot_uuid=s1 \
         -o io.mayastor:share=off tank/data/p1/r1@s1 tank/data/p1/c1"
    );
    let (effect, state) = work(state.resume(output("")));
    assert!(matches!(effect, Effect::AwaitDevice(path) if path == "/dev/zvol/tank/data/p1/c1"));
    let (effect, state) = work(state.resume(Reply::Finished(Ok(()))));
    assert!(matches!(
        effect,
        Effect::LookupVol(query)
            if query.query() == "vol(uuid=c1),pool()" && query.dataset == Some(s("tank/data/p1"))
    ));
    assert_eq!(done(state.resume(Reply::Vol(Ok(vol())))).uuid(), "r1");
    for (uuid, name) in [(None, Some("n")), (Some("c1"), None), (None, None)] {
        assert_eq!(
            failed(snap.create_clone(clone(uuid, name))),
            Error::InvalidOption { error: s("a clone uuid and name must be provided") }
        );
    }
    assert!(matches!(
        failed(snap.create_clone(clone(Some("/"), Some("n")))),
        Error::InvalidName { .. }
    ));
    let (_, state) = run(snap.create_clone(clone(Some("c1"), Some("n"))));
    assert_eq!(failed(state.resume(Reply::Output(Err(boom())))), boom());
}

#[test]
fn pool_from_properties() {
    let pool = pool();
    assert_eq!(pool.name(), "p1");
    assert_eq!(pool.uuid(), "pool-uuid");
    assert_eq!(pool.dataset(), "tank/data/p1");
    assert_eq!(pool.parent(), "tank/data");
    assert_eq!(pool.disks(), "tank/data?sync=always");
    assert_eq!(pool.disk_list(), vec!["tank/data?sync=always"]);
    assert_eq!((pool.used(), pool.available(), pool.capacity()), (100, 900, 1000));
    assert_eq!((pool.committed(), pool.zpool_size(), pool.disk_capacity()), (7, 5000, 5000));
    assert_eq!((pool.volblocksize(), pool.cluster_size()), (8192, 8192));
    assert!(pool.encrypted());
    assert_eq!(pool.ptpl().subpath(), "pool/zfs/p1");
    assert_eq!(ZfsPool::pool_ptpl("x").subpath(), "pool/zfs/x");
    assert_eq!(pool.pool_type(), PoolBackend::Zfs);
    assert_eq!((pool.page_size(), pool.max_expandable_size()), (None, None));
    assert_eq!(pool.grow(), Err(Error::GrowNotSup));
    assert_eq!(pool.reset_errors(), Err(Error::GrowNotSup));
    assert_eq!(pool.stats(), Err(CoreError::NotSupported { source: Errno::ENOSYS }));
    assert_eq!(pool.reset_stats(), Err(CoreError::NotSupported { source: Errno::ENOSYS }));

    let props = parse_props("zfs", "tank\tx\ty\tlocal\n").unwrap();
    let bare = ZfsPool::from_props(s("tank"), s("u"), &props[0], 0, 0);
    assert_eq!((bare.name(), bare.parent()), ("tank", ""));
    assert_eq!((bare.disks(), bare.volblocksize()), (s("tank"), 16384));
    assert!(!bare.encrypted());
}

#[test]
fn pool_listing() {
    let (cmd, state) = run(ZfsPool::list(ZfsQueryArgs::any().named("p1")));
    assert_eq!(
        cmd,
        "zfs get -Hp -t filesystem -s local -o name,value io.mayastor:pool"
    );
    let found = "tank/data/p1\tu1\nzoo/p1\tu2\ntank/data/p2\tu3\nabc/p1\tu4\ntank/p1\tu5\n";
    let (cmd, state) = run(state.resume(output(found)));
    assert_eq!(
        cmd,
        "zfs get -Hp -o name,property,value,source used,available,quota,encryption,\
         io.mayastor:pool,io.mayastor:disks,io.mayastor:volblocksize tank/data/p1 zoo/p1 abc/p1 \
         tank/p1"
    );
    // One of them is gone by now.
    let details = format!("{POOL}zoo/p1\tused\t1\t-\nabc/p1\tused\t2\t-\n");
    let (cmd, state) = run(state.resume(output(&details)));
    assert_eq!(
        cmd,
        "zfs list -Hp -r -t volume -o name,volsize tank/data/p1 zoo/p1 abc/p1 tank/p1"
    );
    let volumes = "tank/data/p1/r1\t10\ntank/data/p1/r2\t20\nzoo/p1/r1\tx\nzoo/p1/a/r1\t5\nzoo\t9\n";
    let (cmd, state) = run(state.resume(output(volumes)));
    assert_eq!(cmd, "zpool get -Hp -o name,value size abc tank zoo");
    let sizes = "tank\t5000\nabc\t-\ntank\t1\n";
    assert!(state.accepts(&output(sizes)));
    let pools = done(state.resume(output(sizes)));
    let shown = pools
        .iter()
        .map(|p| (p.dataset(), p.uuid(), p.used(), p.committed(), p.zpool_size()))
        .collect::<Vec<_>>();
    assert_eq!(
        shown,
        vec![
            ("tank/data/p1", "u1", 100, 30, 5000),
            ("zoo/p1", "u2", 1, 0, 0),
            ("abc/p1", "u4", 2, 0, 0),
        ]
    );
}

#[test]
fn pool_listing_edges() {
    let (_, state) = run(ZfsPool::list(ZfsQueryArgs::any().uuid("none")));
    assert!(done(state.resume(output("tank/p1\tu1\n"))).is_empty());
    let (_, state) = run(ZfsPool::list(ZfsQueryArgs::any()));
    assert!(matches!(failed(state.resume(output("x\n"))), Error::OutputParsing { .. }));
    let (_, state) = run(ZfsPool::list(ZfsQueryArgs::any()));
    assert_eq!(failed(state.resume(Reply::Output(Err(boom())))), boom());
    let summing = || -> PoolList {
        let (_, state) = run(ZfsPool::list(ZfsQueryArgs::any()));
        let (_, state) = run(state.resume(output("tank/p1\tu1\n")));
        run(state.resume(output("tank/p1\tused\t1\t-\n"))).1
    };
    let huge = format!("tank/p1/a\t{}\ntank/p1/b\t1\n", u64::MAX);
    assert!(summing().accepts(&output(&huge)));
    let sizing = |volumes: &str| run(summing().resume(output(volumes))).1;
    assert!(!sizing(&huge).accepts(&output("tank\t1\n")));
    assert!(sizing(&huge.replace("p1/b", "p2/b")).accepts(&output("tank\t1\n")));
    // Nothing is added up where no pool is built.
    assert!(sizing(&huge).accepts(&output("tank\n")));
    assert!(sizing(&huge).accepts(&Reply::Output(Err(boom()))));
    // Neither are the sizes of a dataset which is gone by now.
    let (_, state) = run(ZfsPool::list(ZfsQueryArgs::any()));
    let (_, state) = run(state.resume(output("tank/p1\tu1\ntank/p2\tu2\n")));
    let (_, state) = run(state.resume(output("tank/p2\tused\t1\t-\n")));
    let (_, state) = run(state.resume(output(&huge)));
    assert!(state.accepts(&output("tank\t1\n")));
    let pools = done(state.resume(output("tank\t1\n")));
    assert_eq!(pools.len(), 1);
    assert_eq!((pools[0].dataset(), pools[0].committed()), ("tank/p2", 0));
    let (_, state) = run(summing().resume(output("")));
    match failed(state.resume(output("a\n"))) {
        Error::OutputParsing { command, .. } => assert_eq!(command, "zpool"),
        other => panic!("{other:?}"),
    }

    let (effect, state) = work(ZfsPool::lookup(ZfsQueryArgs::any().named("p").uuid("u")));
    assert!(matches!(effect, Effect::ListPools(_)));
    assert_eq!(
        failed(state.resume(Reply::Pools(Ok(vec![])))),
        Error::NotFound { query: s("name=p,uuid=u") }
    );
    let (_, state) = work(ZfsPool::lookup(ZfsQueryArgs::any()));
    assert_eq!(done(state.resume(Reply::Pools(Ok(vec![pool()])))).name(), "p1");
}

#[test]
fn pool_creation() {
    let (cmd, state) = run(ZfsPool::create(pool_args()));
    assert_eq!(cmd, "zfs list -Hp -t filesystem -o name tank/data/p1");
    let absent = || Reply::Output(Err(Error::NotFound { query: s("x") }));
    let (cmd, state) = run(state.resume(absent()));
    assert_eq!(
        cmd,
        "zfs create -o io.mayastor:pool=pool-uuid \
         -o io.mayastor:disks=tank/data?quota=1G&sync=always -o io.mayastor:volblocksize=16384 \
         -o quota=1073741824 -o sync=always tank/data/p1"
    );
    let (effect, state) = work(state.resume(output("")));
    assert!(matches!(effect, Effect::LookupPool(query) if query.query() == "name=p1,uuid=pool-uuid"));
    assert_eq!(done(state.resume(Reply::Pool(Ok(pool())))).name(), "p1");

    // An existing dataset is adopted.
    let (_, state) = run(ZfsPool::create(pool_args()));
    let (effect, state) = work(state.resume(output("tank/data/p1\n")));
    assert!(matches!(effect, Effect::AdoptPool { args, .. } if args.name == "p1"));
    assert_eq!(failed(state.resume(Reply::Pool(Err(boom())))), boom());

    // The size asked for comes first.
    let mut args = pool_args();
    args.cluster_size = Some(4096);
    args.disks = vec![s("tank?volblocksize=8k")];
    let (_, state) = run(ZfsPool::create(args));
    let (cmd, _) = run(state.resume(absent()));
    assert_eq!(
        cmd,
        "zfs create -o io.mayastor:pool=pool-uuid -o io.mayastor:disks=tank?volblocksize=8k \
         -o io.mayastor:volblocksize=4096 tank/p1"
    );
}

#[test]
fn pool_creation_failures() {
    let mut args = pool_args();
    args.enc_key = Some(s("key"));
    assert_eq!(failed(ZfsPool::create(args)), Error::EncryptionNotSup);
    let mut args = pool_args();
    args.name = s("a/b");
    assert!(matches!(failed(ZfsPool::create(args)), Error::InvalidName { .. }));
    let mut args = pool_args();
    args.disks = vec![];
    assert!(matches!(failed(ZfsPool::create(args)), Error::InvalidDisks { .. }));
    let (_, state) = run(ZfsPool::create(pool_args()));
    assert_eq!(failed(state.resume(Reply::Output(Err(boom())))), boom());
    let mut args = pool_args();
    args.cluster_size = Some(3);
    let (_, state) = run(ZfsPool::create(args));
    let absent = Reply::Output(Err(Error::NotFound { query: s("x") }));
    assert!(matches!(failed(state.resume(absent)), Error::InvalidOption { .. }));
}

#[test]
fn pool_creation_makes_up_a_uuid() {
    let uuid = || {
        let mut args = pool_args();
        args.uuid = None;
        let (_, state) = run(ZfsPool::create(args));
        let (cmd, _) = run(state.resume(Reply::Output(Err(Error::NotFound { query: s("x") }))));
        s(cmd.split("io.mayastor:pool=").nth(1).unwrap().split(' ').next().unwrap())
    };
    let (a, b) = (uuid(), uuid());
    assert_ne!(a, b);
    let parsed = uuid::Uuid::parse_str(&a).unwrap();
    assert_eq!(parsed.get_version_num(), 4);
    assert_eq!(parsed.to_string(), a);
    // The uuid that is given to it is the one that is taken where none is asked for.
    let mut args = pool_args();
    args.uuid = None;
    let opts = ZfsPoolOpts::try_from_disks(&args.disks).unwrap();
    let (cmd, _) = run(PoolCreate::create_as(args, opts, s("fresh")));
    assert!(cmd.contains("io.mayastor:pool=fresh "));
}

fn adopt(args: PoolArgs, text: &str) -> Step<PoolAdopt, ZfsPool> {
    let opts = ZfsPoolOpts::try_from_disks(&args.disks).unwrap();
    let (cmd, state) = run(ZfsPool::import_inner(args, opts));
    assert_eq!(
        cmd,
        "zfs get -Hp -t filesystem -o name,property,value,source used,available,quota,encryption,\
         io.mayastor:pool,io.mayastor:disks,io.mayastor:volblocksize tank/data/p1"
    );
    state.resume(output(text))
}

#[test]
fn pool_adoption() {
    // All there: nothing is set.
    let (effect, state) = work(adopt(pool_args(), POOL));
    assert!(matches!(effect, Effect::LookupPool(query) if query.query() == "name=p1,uuid=pool-uuid"));
    assert_eq!(done(state.resume(Reply::Pool(Ok(pool())))).name(), "p1");
    // An exported pool.
    let exported = POOL.replace("pool-uuid\tlocal", "pool-uuid\t-");
    let (cmd, state) = run(adopt(pool_args(), &exported));
    assert_eq!(cmd, "zfs set io.mayastor:pool=pool-uuid tank/data/p1");
    let (effect, _) = work(state.resume(output("")));
    assert!(matches!(effect, Effect::LookupPool(_)));
    // A brand new dataset.
    let (cmd, state) = run(adopt(pool_args(), "tank/data/p1\tused\t1\t-\n"));
    assert_eq!(
        cmd,
        "zfs set io.mayastor:pool=pool-uuid io.mayastor:disks=tank/data?quota=1G&sync=always \
         io.mayastor:volblocksize=16384 tank/data/p1"
    );
    assert_eq!(failed(state.resume(Reply::Output(Err(boom())))), boom());
    // The uuid that is persisted is taken where none is asked for, or else a fresh one.
    let mut args = pool_args();
    args.uuid = None;
    let (effect, _) = work(adopt(args.clone(), POOL));
    assert!(matches!(effect, Effect::LookupPool(query) if query.query() == "name=p1,uuid=pool-uuid"));
    let (cmd, _) = run(adopt(args.clone(), &exported));
    let uuid = cmd.split("io.mayastor:pool=").nth(1).unwrap().split(' ').next().unwrap();
    assert_eq!(uuid::Uuid::parse_str(uuid).unwrap().get_version_num(), 4);
    let opts = ZfsPoolOpts::try_from_disks(&args.disks).unwrap();
    let details = parse_props("zfs", &exported).unwrap();
    let (cmd, _) = run(PoolAdopt::adopt_as(args, opts, &details, s("fresh")));
    assert_eq!(cmd, "zfs set io.mayastor:pool=fresh tank/data/p1");
}

#[test]
fn pool_adoption_failures() {
    assert_eq!(
        failed(adopt(pool_args(), "")),
        Error::NotFound { query: s("tank/data/p1") }
    );
    let mut args = pool_args();
    args.uuid = Some(s("other"));
    assert_eq!(
        failed(adopt(args, POOL)),
        Error::UuidMismatch { args: s("other"), pool: s("pool-uuid") }
    );
    assert_eq!(
        failed(adopt(pool_args(), &POOL.replace("tank/data?sync", "other?sync"))),
        Error::DisksMismatch {
            args: s("tank/data?quota=1G&sync=always"),
            pool: s("other?sync=always")
        }
    );
    assert!(matches!(
        failed(adopt(pool_args(), &POOL.replace("?sync", "?x"))),
        Error::InvalidOption { .. }
    ));
    let mut args = pool_args();
    args.cluster_size = Some(1);
    assert!(matches!(
        failed(adopt(args.clone(), "tank/data/p1\tused\t1\t-\n")),
        Error::InvalidOption { .. }
    ));
    // The size asked for does not matter where one is persisted.
    work(adopt(args, POOL));
    let opts = ZfsPoolOpts::try_from_disks(&pool_args().disks).unwrap();
    let mut args = pool_args();
    args.name = s("");
    assert!(matches!(failed(ZfsPool::import_inner(args, opts)), Error::InvalidName { .. }));
}

#[test]
fn pool_import() {
    let (effect, state) = work(ZfsPool::import(pool_args()));
    assert!(matches!(effect, Effect::AdoptPool { .. }));
    let (effect, state) = work(state.resume(Reply::Pool(Ok(pool()))));
    assert!(matches!(effect, Effect::ListVols(query) if query.dataset == Some(s("tank/data/p1"))));
    assert_eq!(done(state.resume(Reply::Vols(Ok(vec![])))).name(), "p1");
    let (_, state) = work(ZfsPool::import(pool_args()));
    assert_eq!(failed(state.resume(Reply::Pool(Err(boom())))), boom());
    let (_, state) = work(ZfsPool::import(pool_args()));
    let (_, state) = work(state.resume(Reply::Pool(Ok(pool()))));
    assert_eq!(failed(state.resume(Reply::Vols(Err(boom())))), boom());
    let mut args = pool_args();
    args.disks = vec![s("/dev/sda")];
    assert!(matches!(failed(ZfsPool::import(args)), Error::InvalidName { .. }));
}

#[test]
fn pool_export() {
    let (effect, state) = work(pool().export());
    assert!(matches!(effect, Effect::ListVols(query) if query.dataset == Some(s("tank/data/p1"))));
    let vols = vec![vol(), open_vol(), vol(), open_vol()];
    let (effect, state) = work(state.resume(Reply::Vols(Ok(vols))));
    assert!(matches!(effect, Effect::CloseBdev(_)));
    let (effect, state) = work(state.resume(Reply::Finished(Ok(()))));
    assert!(matches!(effect, Effect::CloseBdev(_)));
    let (cmd, state) = run(state.resume(Reply::Finished(Ok(()))));
    assert_eq!(cmd, "zfs inherit io.mayastor:pool tank/data/p1");
    done(state.resume(output("")));

    let (_, state) = work(pool().export());
    assert_eq!(failed(state.resume(Reply::Vols(Err(boom())))), boom());
    let (_, state) = work(pool().export());
    let (_, state) = work(state.resume(Reply::Vols(Ok(vec![open_vol()]))));
    assert_eq!(failed(state.resume(Reply::Finished(Err(boom())))), boom());
    let (_, state) = work(pool().export());
    let (_, state) = run(state.resume(Reply::Vols(Ok(vec![]))));
    assert_eq!(failed(state.resume(Reply::Output(Err(boom())))), boom());
}

#[test]
fn export_of_all_pools() {
    let (effect, state) = work(ZfsPool::export_all());
    assert!(matches!(effect, Effect::ListPools(query) if query.query() == ""));
    let props = parse_props("zfs", "tank/p2\tx\ty\t-\n").unwrap();
    let other = ZfsPool::from_props(s("tank/p2"), s("u"), &props[0], 0, 0);
    let (effect, state) = work(state.resume(Reply::Pools(Ok(vec![pool(), other]))));
    assert!(matches!(effect, Effect::ExportPool(dataset) if dataset == "tank/data/p1"));
    let (effect, state) = work(state.resume(Reply::Finished(Err(boom()))));
    assert!(matches!(effect, Effect::ExportPool(dataset) if dataset == "tank/p2"));
    done(state.resume(Reply::Finished(Ok(()))));
    let (_, state) = work(ZfsPool::export_all());
    done(state.resume(Reply::Pools(Err(boom()))));
}

#[test]
fn pool_destruction() {
    let (cmd, state) = run(pool().destroy());
    assert_eq!(
        cmd,
        "zfs get -Hp -r -t filesystem,volume -o name,property,value,source io.mayastor:uuid \
         tank/data/p1"
    );
    let children = "tank/data/p1\tio.mayastor:uuid\t-\t-\ntank/data/p1/r1\tio.mayastor:uuid\tr1\tlocal\n";
    let (effect, state) = work(state.resume(output(children)));
    assert!(matches!(effect, Effect::ExportPool(dataset) if dataset == "tank/data/p1"));
    let (cmd, state) = run(state.resume(Reply::Finished(Ok(()))));
    assert_eq!(cmd, "zfs destroy -r tank/data/p1");
    let (effect, state) = work(state.resume(output("")));
    assert!(matches!(effect, Effect::RemovePoolPtpl(ptpl) if ptpl.subpath() == "pool/zfs/p1"));
    done(state.resume(Reply::Noted));

    // Foreign datasets, one of which inherits a uuid.
    let (_, state) = run(pool().destroy());
    let foreign = format!(
        "{children}tank/data/p1/x\tio.mayastor:uuid\t-\t-\n\
         tank/data/p1/r1/y\tio.mayastor:uuid\tr1\tinherited from tank/data/p1/r1\n"
    );
    assert_eq!(
        failed(state.resume(output(&foreign))),
        Error::ForeignDatasets { datasets: vec![s("tank/data/p1/x"), s("tank/data/p1/r1/y")] }
    );
    let (_, state) = run(pool().destroy());
    let (_, state) = work(state.resume(output(children)));
    assert_eq!(failed(state.resume(Reply::Finished(Err(boom())))), boom());
    let (_, state) = run(pool().destroy());
    assert_eq!(failed(state.resume(Reply::Output(Err(boom())))), boom());
}

#[test]
fn factory_pools() {
    let factory = PoolZfsFactory::default();
    assert_eq!(factory.backend(), PoolBackend::Zfs);
    run(factory.create(pool_args()));
    work(factory.import(pool_args()));
    assert!(done(factory.find(false, &FindPoolArgs::Uuid(s("u")))).is_none());
    let (effect, state) = work(factory.find(true, &FindPoolArgs::Uuid(s("u"))));
    assert!(matches!(effect, Effect::LookupPool(query) if query.query() == "uuid=u"));
    let missing = || Reply::Pool(Err(Error::NotFound { query: s("x") }));
    assert!(done(state.resume(missing())).is_none());
    // First by uuid, then by name.
    let (effect, state) = work(factory.find(true, &FindPoolArgs::UuidOrName(s("p1"))));
    assert!(matches!(effect, Effect::LookupPool(query) if query.query() == "uuid=p1"));
    let (effect, state) = work(state.resume(missing()));
    assert!(matches!(effect, Effect::LookupPool(query) if query.query() == "name=p1"));
    assert_eq!(done(state.resume(Reply::Pool(Ok(pool())))).unwrap().name(), "p1");
    let (_, state) = work(factory.find(true, &FindPoolArgs::UuidOrName(s("p1"))));
    assert_eq!(failed(state.resume(Reply::Pool(Err(boom())))), boom());
    let named = FindPoolArgs::NameUuid { name: s("n"), uuid: Some(s("u")) };
    let (effect, _) = work(factory.find(true, &named));
    assert!(matches!(effect, Effect::LookupPool(query) if query.query() == "name=n,uuid=u"));

    let list = |backend: Option<PoolBackend>| ListPoolArgs {
        name: Some(s("n")),
        uuid: None,
        backend,
    };
    assert!(done(factory.list(false, &list(None))).is_empty());
    assert!(done(factory.list(true, &list(Some(PoolBackend::Lvm)))).is_empty());
    let (effect, state) = work(factory.list(true, &list(Some(PoolBackend::Zfs))));
    assert!(matches!(effect, Effect::ListPools(query) if query.query() == "name=n"));
    assert_eq!(done(state.resume(Reply::Pools(Ok(vec![pool()])))).len(), 1);
    let (_, state) = work(factory.list(true, &list(None)));
    assert_eq!(failed(state.resume(Reply::Pools(Err(boom())))), boom());
}

#[test]
fn factory_replicas() {
    let factory = ReplZfsFactory::default();
    assert_eq!(factory.backend(), PoolBackend::Zfs);
    assert!(factory.bdev_as_replica(info(None)).is_none());
    let find = FindReplicaArgs { uuid: s("r1") };
    assert!(done(factory.find(false, &find)).is_none());
    let finding = || work(factory.find(true, &find)).1;
    assert_eq!(done(finding().resume(Reply::Vol(Ok(vol())))).unwrap().uuid(), "r1");
    let not_found = Error::VolNotFound { query: s("q") };
    assert!(done(finding().resume(Reply::Vol(Err(not_found)))).is_none());
    let not_found = Error::NotFound { query: s("q") };
    assert!(done(finding().resume(Reply::Vol(Err(not_found)))).is_none());
    assert_eq!(failed(finding().resume(Reply::Vol(Err(boom())))), boom());

    let find = FindSnapshotArgs { uuid: s("s1") };
    assert!(done(factory.find_snap(false, &find)).is_none());
    let finding = || work(factory.find_snap(true, &find)).1;
    assert_eq!(done(finding().resume(Reply::Snap(Ok(snap_with(""))))).unwrap().uuid(), "s1");
    let not_found = Error::SnapNotFound { query: s("q") };
    assert!(done(finding().resume(Reply::Snap(Err(not_found)))).is_none());
    assert_eq!(failed(finding().resume(Reply::Snap(Err(boom())))), boom());

    let list = ListReplicaArgs {
        name: Some(s("n")),
        uuid: Some(s("u")),
        pool_name: Some(s("p")),
        pool_uuid: None,
    };
    assert!(done(factory.list(false, &list)).is_empty());
    let (effect, state) = work(factory.list(true, &list));
    assert!(matches!(
        effect,
        Effect::ListVols(query) if query.query() == "vol(name=n,uuid=u),pool(name=p)"
    ));
    assert_eq!(done(state.resume(Reply::Vols(Ok(vec![vol()])))).len(), 1);

    let list = ListSnapshotArgs { uuid: None, source_uuid: Some(s("r1")) };
    assert!(done(factory.list_snaps(false, &list)).is_empty());
    let (effect, state) = work(factory.list_snaps(true, &list));
    assert!(matches!(effect, Effect::ListSnaps(query) if query.query() == "uuid=,source=r1"));
    let found = done(state.resume(Reply::Snaps(Ok(vec![snap_with(""), cloned_snap()]))));
    assert_eq!(found.len(), 2);
    assert_eq!(found[1].info.num_clones, 2);

    let clone_of = |uuid: &str| {
        vol_from(&format!("{VOL}tank/data/p1/r1\tio.mayastor:snapshot_uuid\t{uuid}\tlocal\n"))
    };
    let listed = |snapshot: Option<&str>| {
        let list = ListCloneArgs { snapshot_uuid: snapshot.map(s) };
        let (_, state) = work(factory.list_clones(true, &list));
        let vols = vec![vol(), clone_of("s1"), clone_of("s2")];
        done(state.resume(Reply::Vols(Ok(vols))))
            .iter()
            .map(|vol| vol.snapshot_uuid_prop().unwrap().clone())
            .collect::<Vec<_>>()
    };
    assert_eq!(listed(None), vec!["s1", "s2"]);
    assert_eq!(listed(Some("s2")), vec!["s2"]);
    assert!(listed(Some("s3")).is_empty());
    assert!(done(factory.list_clones(false, &ListCloneArgs { snapshot_uuid: None })).is_empty());
}

/// What "zfs get" reports of a dataset on which the properties of the command were set.
fn reported(name: &str, base: &str, cmd: &str) -> String {
    let mut text = s(base);
    for arg in cmd.split(' ') {
        if let Some(property) = arg.strip_prefix("io.mayastor:") {
            if let Some((key, value)) = property.split_once('=') {
                text.push_str(&format!("{name}\tio.mayastor:{key}\t{value}\tlocal\n"));
            }
        }
    }
    text
}

#[test]
fn what_is_written_is_read_back() {
    let inherited = |name: &str| format!("{name}\tio.mayastor:pool\tpool-uuid\tinherited from x\n");
    // A replica.
    let (cmd, _) = run(pool().create_zvol(replica_args()));
    let name = "tank/data/p1/r1";
    let base = inherited(name) + &format!("{name}\tvolsize\t8192\tlocal\n");
    let text = reported(name, &base, &cmd);
    let vol = vol_from(&text);
    assert_eq!((vol.uuid(), vol.pool_uuid()), ("r1", "pool-uuid"));
    assert_eq!(vol.name(), &Some(s("replica-1")));
    assert_eq!(vol.entity_id(), Some(&s("volume-1")));
    done(recreate(&text, replica_args()));
    // A snapshot.
    let (cmd, _) = run(ZfsSnapshot::create_at(&vol, params(), s("now")));
    let name = "tank/data/p1/r1@s1";
    let text = reported(name, &inherited(name), &cmd);
    let snap = ZfsSnapshot::from_props(&parse_props("zfs", &text).unwrap()[0]).unwrap();
    let info = snap.descriptor().info;
    assert_eq!(info.source_uuid, "r1");
    assert_eq!(info.snapshot_params.name, Some(s("n")));
    assert_eq!(info.snapshot_params.entity_id, Some(s("e")));
    assert_eq!(info.snapshot_params.txn_id, Some(s("t")));
    assert_eq!(info.snapshot_params.create_time, Some(s("now")));
    assert!(info.valid_snapshot);
    // A clone.
    let clone = CloneParams { clone_uuid: Some(s("c1")), clone_name: Some(s("clone-1")) };
    let (cmd, _) = run(snap.create_clone(clone));
    let name = "tank/data/p1/c1";
    let base = inherited(name) + &format!("{name}\tvolsize\t8192\tlocal\n");
    let vol = vol_from(&reported(name, &base, &cmd));
    assert_eq!(vol.snapshot_uuid_prop(), Some(&s("s1")));
    assert!(LogicalVolume::is_clone(&vol));
    // A pool.
    let (_, state) = run(ZfsPool::create(pool_args()));
    let absent = Reply::Output(Err(Error::NotFound { query: s("x") }));
    let (cmd, _) = run(state.resume(absent));
    let text = reported("tank/data/p1", "", &cmd);
    let props = parse_props("zfs", &text).unwrap();
    let pool = ZfsPool::from_props(s("tank/data/p1"), s("pool-uuid"), &props[0], 0, 0);
    assert_eq!(pool.disks(), "tank/data?quota=1G&sync=always");
    assert_eq!(pool.volblocksize(), 16384);
    // Adopted once, nothing is missing any more.
    let (cmd, _) = run(adopt(pool_args(), "tank/data/p1\tused\t1\t-\n"));
    let text = reported("tank/data/p1", "", &cmd);
    assert!(matches!(work(adopt(pool_args(), &text)).0, Effect::LookupPool(_)));
}

#[test]
fn an_engine_which_is_not_reached() {
    let lost = || Reply::Lost(Error::ReactorSpawn);
    let (_, state) = work(BdevOpen::start(vol().device()));
    let (_, state) = work(state.resume(Reply::Flag(true)));
    assert_eq!(failed(state.resume(lost())), Error::ReactorSpawn);
    let (_, state) = work(BdevClose::start(s("aio:///x")));
    assert_eq!(failed(state.resume(lost())), Error::ReactorSpawn);
    // The size is set back.
    let (_, state) = run(open_vol().resize(2147483648));
    let (_, state) = work(state.resume(output("")));
    let (cmd, state) = run(state.resume(lost()));
    assert_eq!(cmd, "zfs set volsize=1073741824 tank/data/p1/r1");
    let (after, res) = done(state.resume(output("")));
    assert_eq!((after.size(), res), (1073741824, Err(Error::ReactorSpawn)));
    let (_, state) = work(open_vol().share_nvmf(None));
    assert_eq!(done(state.resume(lost())).1, Err(Error::ReactorSpawn));
    let (_, state) = work(open_vol().update_share_props(None));
    assert_eq!(done(state.resume(lost())).1, Err(Error::ReactorSpawn));
    let (_, state) = work(open_vol().unshare(true));
    let (after, res) = done(state.resume(lost()));
    assert_eq!(res, Err(Error::ReactorSpawn));
    assert_eq!(after.share_proto(), Some(Protocol::Nvmf));
}

#[test]
fn replica_import_and_export() {
    let opts = || BdevOpts::from(info(Some(Protocol::Nvmf)));
    let (effect, state) = work(vol().import());
    assert!(matches!(effect, Effect::OpenVol(device) if device.path == "/dev/zvol/tank/data/p1/r1"));
    let (after, res) = done(state.resume(Reply::Opened(Ok(opts()))));
    assert_eq!(res, Ok(()));
    assert_eq!(after.bdev_opts().unwrap().uri(), opts().uri());
    let (_, state) = work(vol().import_bdev());
    let (after, res) = done(state.resume(Reply::Opened(Err(boom()))));
    assert_eq!(res, Err(boom()));
    assert!(after.bdev_opts().is_err());

    // Nothing to close.
    assert_eq!(done(vol().export_bdev()).1, Ok(()));
    let (effect, state) = work(open_vol().export_bdev());
    assert!(matches!(
        effect,
        Effect::CloseBdev(uri) if uri == "aio:///dev/zvol/tank/data/p1/r1?uuid=r1"
    ));
    let (after, res) = done(state.resume(Reply::Finished(Ok(()))));
    assert_eq!(res, Ok(()));
    assert!(after.bdev_opts().is_err());
    let (_, state) = work(open_vol().export_bdev());
    let (after, res) = done(state.resume(Reply::Finished(Err(boom()))));
    assert_eq!(res, Err(boom()));
    assert!(after.bdev_opts().is_ok());
}

#[test]
fn created_pool_is_listed() {
    let args = PoolArgs {
        disks: vec![s("tank/data?volblocksize=32k")],
        uuid: Some(s("u1")),
        cluster_size: None,
        ..pool_args()
    };
    let name = args.name.clone();
    let (_, state) = run(ZfsPool::create(args));
    let missing = Error::NotFound { query: s("x") };
    let (cmd, state) = run(state.resume(Reply::Output(Err(missing))));
    let dataset = format!("tank/data/{name}");
    assert_eq!(
        cmd,
        format!(
            "zfs create -o io.mayastor:pool=u1 -o io.mayastor:disks=tank/data?volblocksize=32k \
             -o io.mayastor:volblocksize=32768 {dataset}"
        )
    );
    let (effect, _) = work(state.resume(output("")));
    let query = match effect {
        Effect::LookupPool(query) => query,
        other => panic!("{other:?}"),
    };
    let (_, state) = run(ZfsPool::list(query));
    let (_, state) = run(state.resume(output(&format!("zoo/{name}\tu2\n{dataset}\tu1\n"))));
    let details = format!(
        "{dataset}\tio.mayastor:pool\tu1\tlocal\n\
         {dataset}\tio.mayastor:disks\ttank/data?volblocksize=32k\tlocal\n\
         {dataset}\tio.mayastor:volblocksize\t32768\tlocal\n"
    );
    let (_, state) = run(state.resume(output(&details)));
    let (_, state) = run(state.resume(output("")));
    let pools = done(state.resume(output("tank\t1\n")));
    assert_eq!(pools.len(), 1);
    assert_eq!((pools[0].name(), pools[0].uuid()), (name.as_str(), "u1"));
    assert_eq!((pools[0].dataset(), pools[0].parent()), (dataset.as_str(), "tank/data"));
    assert_eq!(pools[0].disks(), "tank/data?volblocksize=32k");
    assert_eq!(pools[0].volblocksize(), 32768);
}

#[test]
fn operations_are_taken_up() {
    match Effect::AwaitDevice(s("/dev/x")).take_up() {
        Nested::AwaitDevice(step) => {
            assert!(matches!(work(step).0, Effect::Probe { path, delay_ms: 0 } if path == "/dev/x"))
        }
        other => panic!("{other:?}"),
    }
    match Effect::OpenVol(vol().device()).take_up() {
        Nested::OpenVol(step) => assert!(matches!(work(step).0, Effect::PunchHole(_))),
        other => panic!("{other:?}"),
    }
    match Effect::CloseBdev(s("aio:///x")).take_up() {
        Nested::CloseBdev(step) => {
            assert!(matches!(work(step).0, Effect::ReadBdev(uri) if uri == "aio:///x"))
        }
        other => panic!("{other:?}"),
    }
    match Effect::ListVols(VolQueryArgs::new().scoped("tank/p1")).take_up() {
        Nested::ListVols(step) => assert!(run(step).0.ends_with(" -d 1 tank/p1")),
        other => panic!("{other:?}"),
    }
    match Effect::LookupVol(VolQueryArgs::default()).take_up() {
        Nested::LookupVol(step) => assert!(matches!(work(step).0, Effect::ListVols(_))),
        other => panic!("{other:?}"),
    }
    match Effect::ListSnaps(SnapQueryArgs::new().scoped("tank/p1/r1")).take_up() {
        Nested::ListSnaps(step) => assert!(run(step).0.ends_with(" -d 1 tank/p1/r1")),
        other => panic!("{other:?}"),
    }
    match Effect::LookupSnap(SnapQueryArgs::default()).take_up() {
        Nested::LookupSnap(step) => assert!(matches!(work(step).0, Effect::ListSnaps(_))),
        other => panic!("{other:?}"),
    }
    match Effect::ListPools(ZfsQueryArgs::default()).take_up() {
        Nested::ListPools(step) => assert!(run(step).0.ends_with(" io.mayastor:pool")),
        other => panic!("{other:?}"),
    }
    match Effect::LookupPool(ZfsQueryArgs::any()).take_up() {
        Nested::LookupPool(step) => assert!(matches!(work(step).0, Effect::ListPools(_))),
        other => panic!("{other:?}"),
    }
    let opts = ZfsPoolOpts::try_from_disks(&pool_args().disks).unwrap();
    match (Effect::AdoptPool { args: pool_args(), opts }).take_up() {
        Nested::AdoptPool(step) => assert!(run(step).0.ends_with(" tank/data/p1")),
        other => panic!("{other:?}"),
    }
    match Effect::ExportPool(s("tank/p1")).take_up() {
        Nested::ExportPool(step) => assert!(matches!(
            work(step).0,
            Effect::ListVols(query) if query.dataset == Some(s("tank/p1"))
        )),
        other => panic!("{other:?}"),
    }
    assert!(matches!(
        Effect::DestroyBdev(s("aio:///x")).take_up(),
        Nested::Work(Effect::DestroyBdev(uri)) if uri == "aio:///x"
    ));
}
