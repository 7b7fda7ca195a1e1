//! What zfs reports of a dataset is what the pool, the replica or the snapshot holds of it, one
//! property at a time.
use vstd::prelude::*;
use crate::cli::{DsPropsView, PropSource};
use crate::dataset::component_check;
use crate::ds_pool::PoolView;
use crate::engine::{clusters_of, LvolView, Protocol, SnapshotParamsView};
use crate::flow::snapshot::{snapshot_path, snapshot_properties};
use crate::laws::metadata::{after_set, filled, is_bare, is_told, law_snapshot_read_back};
use crate::laws::text::{law_rsplit_once, law_split_once};
use crate::property::PropertyType;
use crate::snapshot::{SnapView, SnapshotDescriptor, ZfsSnapshot};
use crate::text::decimal::{decimal, lemma_parse_decimal};
use crate::text::split::{
    join, lemma_nonempty_all, lemma_split_join, lemma_split_once_at, rsplit_once, split_once,
};
use crate::zvol_replica::{csv, VolView};

verus! {

/// The dataset reports the value for the property, from whatever source.
pub open spec fn tells(props: DsPropsView, key: Seq<char>, value: Seq<char>) -> bool {
    props.props.contains_key(key) && props.props[key].0 == value && value != "-"@
}

/// The dataset reports the value for the property, which is set on the dataset itself.
pub open spec fn tells_own(props: DsPropsView, key: Seq<char>, value: Seq<char>) -> bool {
    tells(props, key, value) && props.props[key].1 == PropSource::Local
}

/// The dataset reports no value for the property.
pub open spec fn silent(props: DsPropsView, key: Seq<char>) -> bool {
    !props.props.contains_key(key) || props.props[key].0 == "-"@
}

/// The dataset reports the number for the property.
pub open spec fn counts(props: DsPropsView, key: Seq<char>, n: u64) -> bool {
    tells(props, key, decimal(n as nat))
}

/// The path is that of an entry of the container.
pub open spec fn lies_in(path: Seq<char>, container: Seq<char>) -> bool {
    exists|entry: Seq<char>|
        !(#[trigger] entry.contains('/')) && path == container + seq!['/'] + entry
}

/// The name is the last component of the path.
pub open spec fn ends_path(path: Seq<char>, name: Seq<char>) -> bool {
    !name.contains('/') && (path == name || lies_under(path, name))
}

/// The path is that of the entry with the given name of some container.
pub open spec fn lies_under(path: Seq<char>, name: Seq<char>) -> bool {
    path.len() > name.len() && path.skip(path.len() - name.len() - 1) == seq!['/'] + name
}

proof fn lemma_counts(props: DsPropsView)
    ensures
        forall|key: Seq<char>, n: u64| #[trigger] counts(props, key, n) ==> props.number(key) == Some(n),
{
    assert forall|key: Seq<char>, n: u64| #[trigger] counts(props, key, n) implies props.number(key)
        == Some(n) by {
        lemma_parse_decimal(n);
    }
}

pub proof fn lemma_lies_in(path: Seq<char>)
    ensures
        rsplit_once(path, '/') matches Some((container, entry)) ==> lies_in(path, container)
            && ends_path(path, entry),
        rsplit_once(path, '/') is None ==> ends_path(path, path),
{
    law_rsplit_once(path, '/');
    if let Some((container, entry)) = rsplit_once(path, '/') {
        assert(!entry.contains('/') && path == container + seq!['/'] + entry);
        assert(path.skip(path.len() - entry.len() - 1) =~= seq!['/'] + entry);
    }
}

/// The hosts, if they are names without commas, are told by joining them with commas.
pub open spec fn host_names(hosts: Seq<Seq<char>>) -> bool {
    hosts.len() > 0 && forall|i: int|
        0 <= i < hosts.len() ==> (#[trigger] hosts[i]).len() > 0 && !hosts[i].contains(',')
}

proof fn lemma_csv(hosts: Seq<Seq<char>>)
    requires
        host_names(hosts),
    ensures
        csv(Some(join(hosts, seq![',']))) == hosts,
{
    lemma_split_join(hosts, ',');
    lemma_nonempty_all(hosts);
}

/// What a replica is, is what is reported of its zvol.
pub proof fn law_replica_reported(props: DsPropsView, vol: VolView)
    requires
        VolView::of_props(props) == Some(vol),
    ensures
        vol.dataset == props.name,
        lies_in(props.name, vol.pool_dataset),
        ends_path(vol.pool_dataset, vol.pool_name),
        tells_own(props, "io.mayastor:uuid"@, vol.uuid),
        tells(props, "io.mayastor:pool"@, vol.pool_uuid),
        forall|v: Seq<char>|
            #![trigger tells_own(props, "io.mayastor:name"@, v)]
            tells_own(props, "io.mayastor:name"@, v) <==> vol.name == Some(v),
        forall|v: Seq<char>|
            #![trigger tells_own(props, "io.mayastor:entity_id"@, v)]
            tells_own(props, "io.mayastor:entity_id"@, v) <==> vol.entity_id == Some(v),
        forall|v: Seq<char>|
            #![trigger tells_own(props, "io.mayastor:snapshot_uuid"@, v)]
            tells_own(props, "io.mayastor:snapshot_uuid"@, v) <==> vol.snapshot_uuid == Some(v),
        forall|v: Seq<char>|
            #![trigger tells(props, "origin"@, v)]
            tells(props, "origin"@, v) <==> vol.origin == Some(v),
        forall|n: u64| #[trigger] counts(props, "volsize"@, n) ==> vol.size == n,
        forall|n: u64| #[trigger] counts(props, "volblocksize"@, n) ==> vol.volblocksize == n,
        forall|n: u64| #[trigger] counts(props, "used"@, n) ==> vol.used == n,
        forall|n: u64| #[trigger] counts(props, "referenced"@, n) ==> vol.referenced == n,
        forall|n: u64| #[trigger] counts(props, "usedbysnapshots"@, n) ==> vol.usedbysnapshots == n,
        forall|n: u64| #[trigger] counts(props, "refreservation"@, n) ==> (vol.thin <==> n == 0),
        silent(props, "volblocksize"@) ==> vol.volblocksize == 16384,
        silent(props, "used"@) ==> vol.used == 0,
        silent(props, "referenced"@) ==> vol.referenced == 0,
        silent(props, "usedbysnapshots"@) ==> vol.usedbysnapshots == 0,
        silent(props, "refreservation"@) ==> vol.thin,
        vol.encrypted <==> !silent(props, "encryption"@) && !tells(props, "encryption"@, "off"@),
        vol.share == Protocol::Nvmf <==> tells_own(props, "io.mayastor:share"@, "nvmf"@),
        forall|hosts: Seq<Seq<char>>|
            host_names(hosts) && #[trigger] tells_own(
                props,
                "io.mayastor:allowed_hosts"@,
                join(hosts, seq![',']),
            ) ==> vol.allowed_hosts == hosts,
        (forall|v: Seq<char>| !#[trigger] tells_own(props, "io.mayastor:allowed_hosts"@, v))
            ==> vol.allowed_hosts.len() == 0,
        vol.bdev is None,
{
    lemma_counts(props);
    lemma_lies_in(props.name);
    lemma_lies_in(vol.pool_dataset);
    reveal_strlit("nvmf");
    reveal_strlit("-");
    assert forall|hosts: Seq<Seq<char>>|
        host_names(hosts) && #[trigger] tells_own(
            props,
            "io.mayastor:allowed_hosts"@,
            join(hosts, seq![',']),
        ) implies vol.allowed_hosts == hosts by {
        lemma_csv(hosts);
    }
    if forall|v: Seq<char>| !#[trigger] tells_own(props, "io.mayastor:allowed_hosts"@, v) {
        if let Some(v) = props.local("io.mayastor:allowed_hosts"@) {
            assert(tells_own(props, "io.mayastor:allowed_hosts"@, v));
        }
    }
    if vol.share == Protocol::Nvmf {
        assert(tells_own(props, "io.mayastor:share"@, "nvmf"@));
    }
}

/// A zvol is one of our replicas exactly when it lies in a container, its uuid is set on the zvol
/// itself, the uuid of its pool is visible and its size is a number.
pub proof fn law_replica_owned(props: DsPropsView, uuid: Seq<char>, pool: Seq<char>, size: u64)
    ensures
        props.name.contains('/') && tells_own(props, "io.mayastor:uuid"@, uuid) && tells(
            props,
            "io.mayastor:pool"@,
            pool,
        ) && counts(props, "volsize"@, size) ==> VolView::of_props(props) is Some,
        !props.name.contains('/') ==> VolView::of_props(props) is None,
        (forall|v: Seq<char>| !#[trigger] tells_own(props, "io.mayastor:uuid"@, v))
            ==> VolView::of_props(props) is None,
        silent(props, "io.mayastor:pool"@) ==> VolView::of_props(props) is None,
        silent(props, "volsize"@) ==> VolView::of_props(props) is None,
{
    lemma_counts(props);
    law_rsplit_once(props.name, '/');
    if let Some(v) = props.local("io.mayastor:uuid"@) {
        assert(tells_own(props, "io.mayastor:uuid"@, v));
    }
}

/// What a snapshot is, is what is reported of it.
pub proof fn law_snapshot_reported(props: DsPropsView, snap: SnapView)
    requires
        SnapView::of_props(props) == Some(snap),
    ensures
        snap.path == props.name,
        !snap.dataset.contains('@'),
        exists|rest: Seq<char>| props.name == #[trigger] (snap.dataset + seq!['@'] + rest),
        lies_in(snap.dataset, snap.container),
        ends_path(snap.container, snap.pool_name),
        tells_own(props, "io.mayastor:snapshot_uuid"@, snap.uuid),
        tells(props, "io.mayastor:pool"@, snap.pool_uuid),
        snap.params.snapshot_uuid == Some(snap.uuid),
        forall|v: Seq<char>|
            #![trigger tells_own(props, "io.mayastor:name"@, v)]
            tells_own(props, "io.mayastor:name"@, v) <==> snap.params.name == Some(v),
        forall|v: Seq<char>|
            #![trigger tells_own(props, "io.mayastor:entity_id"@, v)]
            tells_own(props, "io.mayastor:entity_id"@, v) <==> snap.params.entity_id == Some(v),
        forall|v: Seq<char>|
            #![trigger tells_own(props, "io.mayastor:parent_id"@, v)]
            tells_own(props, "io.mayastor:parent_id"@, v) <==> snap.params.parent_id == Some(v),
        forall|v: Seq<char>|
            #![trigger tells_own(props, "io.mayastor:txn_id"@, v)]
            tells_own(props, "io.mayastor:txn_id"@, v) <==> snap.params.txn_id == Some(v),
        forall|v: Seq<char>|
            #![trigger tells_own(props, "io.mayastor:create_time"@, v)]
            tells_own(props, "io.mayastor:create_time"@, v) <==> snap.params.create_time == Some(v),
        snap.params.discarded_snapshot <==> tells_own(props, "io.mayastor:discarded"@, "true"@)
            || tells_own(props, "io.mayastor:discarded"@, "on"@),
        snap.discarded <==> snap.params.discarded_snapshot || tells(
            props,
            "defer_destroy"@,
            "on"@,
        ),
        forall|n: u64| #[trigger] counts(props, "used"@, n) ==> snap.used == n,
        forall|n: u64| #[trigger] counts(props, "referenced"@, n) ==> snap.referenced == n,
        forall|n: u64| #[trigger] counts(props, "volsize"@, n) ==> snap.volsize == n,
        forall|n: u64| #[trigger] counts(props, "volblocksize"@, n) ==> snap.volblocksize == n,
        silent(props, "used"@) ==> snap.used == 0,
        silent(props, "referenced"@) ==> snap.referenced == 0,
        silent(props, "volsize"@) ==> snap.volsize == 0,
        silent(props, "volblocksize"@) ==> snap.volblocksize == 16384,
        forall|clones: Seq<Seq<char>>|
            host_names(clones) && #[trigger] tells(props, "clones"@, join(clones, seq![',']))
                ==> snap.clones == clones,
        silent(props, "clones"@) ==> snap.clones.len() == 0,
{
    lemma_counts(props);
    law_split_once(props.name, '@');
    lemma_lies_in(snap.dataset);
    lemma_lies_in(snap.container);
    reveal_strlit("true");
    reveal_strlit("on");
    reveal_strlit("-");
    if let Some((dataset, rest)) = split_once(props.name, '@') {
        assert(props.name == snap.dataset + seq!['@'] + rest);
    }
    assert forall|clones: Seq<Seq<char>>|
        host_names(clones) && #[trigger] tells(
            props,
            "clones"@,
            join(clones, seq![',']),
        ) implies snap.clones == clones by {
        lemma_csv(clones);
    }
}

/// A snapshot is one of ours exactly when it is of a zvol which lies in a container, its uuid is
/// set on the snapshot itself and the uuid of its pool is visible.
pub proof fn law_snapshot_owned(
    props: DsPropsView,
    dataset: Seq<char>,
    rest: Seq<char>,
    uuid: Seq<char>,
    pool: Seq<char>,
)
    requires
        props.name == dataset + seq!['@'] + rest,
        !dataset.contains('@'),
    ensures
        dataset.contains('/') && tells_own(props, "io.mayastor:snapshot_uuid"@, uuid) && tells(
            props,
            "io.mayastor:pool"@,
            pool,
        ) ==> SnapView::of_props(props) is Some && SnapView::of_props(props)->0.dataset == dataset,
        (forall|v: Seq<char>| !#[trigger] tells_own(props, "io.mayastor:snapshot_uuid"@, v))
            ==> SnapView::of_props(props) is None,
        silent(props, "io.mayastor:pool"@) ==> SnapView::of_props(props) is None,
        !dataset.contains('/') ==> SnapView::of_props(props) is None,
{
    let at = dataset.len() as int;
    assert(props.name[at] == '@');
    assert forall|j: int| 0 <= j < at implies props.name[j] != '@' by {
        assert(props.name[j] == dataset[j]);
    }
    lemma_split_once_at(props.name, '@', at);
    assert(props.name.take(at) =~= dataset);
    law_rsplit_once(dataset, '/');
    if let Some(v) = props.local("io.mayastor:snapshot_uuid"@) {
        assert(tells_own(props, "io.mayastor:snapshot_uuid"@, v));
    }
}

/// What a pool is, is what is reported of its container dataset.
pub proof fn law_pool_reported(
    dataset: Seq<char>,
    uuid: Seq<char>,
    props: DsPropsView,
    committed: u64,
    zpool_size: u64,
)
    ensures
        ({
            let pool = PoolView::of_props(dataset, uuid, props, committed, zpool_size);
            &&& pool.dataset == dataset
            &&& pool.uuid == uuid
            &&& pool.committed == committed
            &&& pool.zpool_size == zpool_size
            &&& ends_path(dataset, pool.name)
            &&& dataset.contains('/') ==> dataset == pool.parent + seq!['/'] + pool.name
            &&& !dataset.contains('/') ==> pool.parent.len() == 0 && pool.name == dataset
            &&& forall|v: Seq<char>| #[trigger]
                tells_own(props, "io.mayastor:disks"@, v) ==> pool.disks == v
            &&& (forall|v: Seq<char>| !#[trigger] tells_own(props, "io.mayastor:disks"@, v))
                ==> pool.disks == dataset
            &&& forall|n: u64|
                #[trigger]
                tells_own(props, "io.mayastor:volblocksize"@, decimal(n as nat))
                    ==> pool.volblocksize == n
            &&& (forall|v: Seq<char>| !#[trigger] tells_own(props, "io.mayastor:volblocksize"@, v))
                ==> pool.volblocksize == 16384
            &&& forall|n: u64| #[trigger] counts(props, "used"@, n) ==> pool.used == n
            &&& forall|n: u64| #[trigger] counts(props, "available"@, n) ==> pool.available == n
            &&& silent(props, "used"@) ==> pool.used == 0
            &&& silent(props, "available"@) ==> pool.available == 0
            &&& pool.encrypted <==> !silent(props, "encryption"@) && !tells(
                props,
                "encryption"@,
                "off"@,
            )
        }),
{
    lemma_counts(props);
    law_rsplit_once(dataset, '/');
    lemma_lies_in(dataset);
    let pool = PoolView::of_props(dataset, uuid, props, committed, zpool_size);
    if let Some(v) = props.local("io.mayastor:disks"@) {
        assert(tells_own(props, "io.mayastor:disks"@, v));
    }
    if let Some(v) = props.local("io.mayastor:volblocksize"@) {
        assert(tells_own(props, "io.mayastor:volblocksize"@, v));
    }
    assert forall|n: u64|
        #[trigger]
        tells_own(props, "io.mayastor:volblocksize"@, decimal(n as nat)) implies pool.volblocksize
        == n by {
        lemma_parse_decimal(n);
    }
}

/// The source of a snapshot is the replica it was created from, as it is persisted, whatever zvol
/// it lies on by now: two snapshots with the same properties have the same source. Only where no
/// source is persisted is it the zvol the snapshot lies on.
pub proof fn law_snapshot_source(
    a: DsPropsView,
    b: DsPropsView,
    id: Seq<char>,
    snap: SnapView,
    moved: SnapView,
)
    requires
        a.props == b.props,
        SnapView::of_props(a) == Some(snap),
        SnapView::of_props(b) == Some(moved),
    ensures
        tells_own(a, "io.mayastor:parent_id"@, id) ==> snap.source_uuid() == id
            && moved.source_uuid() == id,
        (forall|v: Seq<char>| !#[trigger] tells_own(a, "io.mayastor:parent_id"@, v)) ==> ends_path(
            snap.dataset,
            snap.source_uuid(),
        ),
{
    lemma_lies_in(snap.dataset);
    if let Some(v) = a.local("io.mayastor:parent_id"@) {
        assert(tells_own(a, "io.mayastor:parent_id"@, v));
    }
}

/// What is told of a snapshot: where it came from, what it references, the parameters it was
/// created with, how many clones it has, and whether all the parameters are known.
pub proof fn law_snapshot_told(
    props: DsPropsView,
    snap: ZfsSnapshot,
    told: SnapshotDescriptor,
    source: String,
    id: Seq<char>,
)
    requires
        SnapView::of_props(props) == Some(snap@),
        call_ensures(ZfsSnapshot::descriptor, (&snap,), told),
        call_ensures(ZfsSnapshot::source_uuid, (&snap,), source),
    ensures
        tells_own(props, "io.mayastor:parent_id"@, id) ==> told.info.source_uuid@ == id && source@
            == id,
        told.info.source_uuid@ == source@,
        told.snapshot@ == snap@,
        forall|n: u64| #[trigger]
            counts(props, "referenced"@, n) ==> told.info.snapshot_size == n,
        told.info.snapshot_params@ == snap@.params,
        forall|clones: Seq<Seq<char>>|
            host_names(clones) && #[trigger] tells(props, "clones"@, join(clones, seq![',']))
                ==> told.info.num_clones == clones.len(),
        silent(props, "clones"@) ==> told.info.num_clones == 0,
        told.info.valid_snapshot <==> snap@.params.name is Some && snap@.params.parent_id is Some
            && snap@.params.entity_id is Some && snap@.params.txn_id is Some
            && snap@.params.create_time is Some,
{
    law_snapshot_reported(props, snap@);
    law_snapshot_source(props, props, id, snap@, snap@);
}

/// A snapshot which was created without a parent tells the uuid of the replica it was taken of as
/// its source, and one with a parent that parent.
pub proof fn law_created_snapshot_source(
    base: DsPropsView,
    vol: VolView,
    uuid: Seq<char>,
    params: SnapshotParamsView,
    now: Seq<char>,
    snap: SnapView,
)
    requires
        is_bare(base),
        base.name == snapshot_path(vol.dataset, uuid),
        base.value(PropertyType::PoolUuid.key()) is Some,
        component_check(uuid) is Ok,
        !vol.dataset.contains('@'),
        rsplit_once(vol.dataset, '/') is Some,
        is_told(filled(vol, uuid, params, now).parent_id),
        is_told(filled(vol, uuid, params, now).create_time),
        is_told(params.name),
        is_told(params.entity_id),
        is_told(params.txn_id),
        SnapView::of_props(after_set(base, snapshot_properties(vol, uuid, params, now))) == Some(
            snap,
        ),
    ensures
        params.parent_id is None ==> snap.source_uuid() == vol.uuid,
        params.parent_id matches Some(id) ==> snap.source_uuid() == id,
{
    law_snapshot_read_back(base, vol, uuid, params, now);
}

/// What a replica reports of itself is what is known of its zvol: it occupies what the zvol
/// references, and it may come to occupy its whole size.
pub proof fn law_replica_reports(vol: VolView)
    ensures
        vol.lvol().uuid == vol.uuid,
        vol.lvol().name == (match vol.name {
            Some(name) => name,
            None => Seq::empty(),
        }),
        vol.lvol().pool_name == vol.pool_name,
        vol.lvol().pool_uuid == vol.pool_uuid,
        vol.lvol().entity_id == vol.entity_id,
        vol.lvol().thin == vol.thin,
        !vol.lvol().read_only,
        vol.lvol().size == vol.size,
        vol.lvol().committed == vol.size,
        vol.lvol().allocated == vol.referenced,
        vol.lvol().cluster_size == vol.volblocksize,
        vol.lvol().allocated_snapshots == vol.usedbysnapshots,
        !vol.lvol().snapshot,
        vol.lvol().clone <==> vol.snapshot_uuid is Some || vol.origin is Some,
        vol.lvol().snapshot_uuid == vol.snapshot_uuid,
        vol.lvol().share == vol.share,
        vol.lvol().encrypted == vol.encrypted,
        vol.bdev is None ==> vol.lvol().share_uri is None && vol.lvol().allowed_hosts.len() == 0,
        vol.bdev matches Some(bdev) ==> vol.lvol().share_uri == bdev.share_uri
            && vol.lvol().allowed_hosts == bdev.allowed_hosts,
        vol.share_proto() is Some <==> vol.bdev is Some,
        vol.share_proto() matches Some(share) ==> share == vol.share,
{
}

/// What a snapshot reports of itself is what is known of it: it is thin, read only and not shared.
pub proof fn law_snapshot_reports(snap: SnapView)
    ensures
        snap.lvol().uuid == snap.uuid,
        snap.params.name matches Some(name) ==> snap.lvol().name == name,
        snap.params.name is None ==> snap.lvol().name == snap.uuid,
        snap.lvol().pool_name == snap.pool_name,
        snap.lvol().pool_uuid == snap.pool_uuid,
        snap.lvol().entity_id == snap.params.entity_id,
        snap.lvol().thin,
        snap.lvol().read_only,
        snap.lvol().size == snap.volsize,
        snap.lvol().committed == snap.volsize,
        snap.lvol().allocated == snap.referenced,
        snap.lvol().cluster_size == snap.volblocksize,
        snap.lvol().allocated_snapshots == snap.used,
        snap.lvol().snapshot,
        !snap.lvol().clone,
        snap.lvol().snapshot_uuid is None,
        snap.lvol().share == Protocol::Off,
        snap.lvol().share_uri is None,
        snap.lvol().allowed_hosts.len() == 0,
        !snap.lvol().encrypted,
{
}

/// The space usage of a volume is told in bytes and in clusters: whole clusters of its size, and
/// as many clusters as it takes to hold what is allocated.
pub proof fn law_space_usage(vol: LvolView)
    requires
        vol.cluster_size > 0,
    ensures
        vol.usage().capacity_bytes == vol.size,
        vol.usage().allocated_bytes == vol.allocated,
        vol.usage().cluster_size == vol.cluster_size,
        vol.usage().allocated_bytes_snapshots == vol.allocated_snapshots,
        vol.usage().allocated_bytes_snapshot_from_clone is None,
        vol.usage().num_clusters * vol.cluster_size <= vol.size,
        vol.size < (vol.usage().num_clusters + 1) * vol.cluster_size,
        vol.allocated <= vol.usage().num_allocated_clusters * vol.cluster_size,
        vol.usage().num_allocated_clusters * vol.cluster_size < vol.allocated + vol.cluster_size,
        vol.allocated_snapshots <= vol.usage().num_allocated_clusters_snapshots * vol.cluster_size,
        vol.usage().num_allocated_clusters_snapshots * vol.cluster_size < vol.allocated_snapshots
            + vol.cluster_size,
{
    lemma_clusters(vol.size, vol.cluster_size);
    lemma_clusters(vol.allocated, vol.cluster_size);
    lemma_clusters(vol.allocated_snapshots, vol.cluster_size);
}

proof fn lemma_clusters(bytes: u64, cluster: u64)
    requires
        cluster > 0,
    ensures
        (bytes / cluster) * cluster <= bytes,
        bytes < (bytes / cluster + 1) * cluster,
        bytes <= clusters_of(bytes, cluster) * cluster,
        clusters_of(bytes, cluster) * cluster < bytes + cluster,
{
    let b = bytes as int;
    let c = cluster as int;
    assert(b == c * (b / c) + b % c && 0 <= b % c < c) by (nonlinear_arith)
        requires
            c > 0,
    ;
    assert((b / c) * c == c * (b / c)) by (nonlinear_arith);
    assert((b / c + 1) * c == c * (b / c) + c) by (nonlinear_arith);
    assert(0 <= b / c <= b) by (nonlinear_arith)
        requires
            b >= 0,
            c > 0,
    ;
    if b % c != 0 {
        assert(b / c < b) by (nonlinear_arith)
            requires
                b >= 0,
                c > 0,
                b % c != 0,
                b == c * (b / c) + b % c,
                0 <= b / c,
        ;
    }
}

} // verus!
