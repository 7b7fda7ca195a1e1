//! What is persisted as user properties is what is read back from them, and only properties which
//! are set on a dataset itself mark it as ours.
use vstd::prelude::*;
use crate::cli::{optional, DsPropsView, PropSource};
use crate::dataset::{component_check, is_component};
use crate::ds_pool::{volblocksize_default, PoolView};
use crate::engine::{PoolArgs, Protocol, ReplicaArgs, SnapshotParamsView};
use crate::error::ErrorView;
use crate::flow::factory::is_clone_of;
use crate::flow::pool_create::{
    adopted_uuid, container_of, is_fresh, missing_block, missing_disks, missing_props, missing_uuid,
    pool_properties, pool_query, uuid_or,
};
use crate::flow::pool_remove::is_foreign;
use crate::flow::share::{persisted, share_properties};
use crate::flow::snapshot::{
    clone_properties, clone_query, name_prop, owner_prop, snapshot_path, snapshot_properties,
    snapshot_query, txn_prop,
};
use crate::flow::volume::{
    as_requested, child_dataset, created_query, replica_owner, replica_properties,
};
use crate::options::{pool_opts_of_disks, PoolOptsView};
use crate::outside::{is_utc_time, is_uuid_v4};
use crate::property::{
    faithful_hosts, is_true, law_property_from_kv, lemma_keys, PropertyType, PropertyView,
};
use crate::snapshot::SnapView;
use crate::text::chars::{control_free, is_control, is_digit, text_opt};
use crate::text::decimal::{decimal, lemma_decimal, lemma_parse_decimal};
use crate::text::split::{
    join, last_piece, lemma_rsplit_once_at, lemma_split_once_at, rsplit_once, split_once,
};
use crate::zvol_replica::{csv, BdevOptsView, VolView};

verus! {

/// The dataset after the properties were set on it.
pub open spec fn after_set(props: DsPropsView, properties: Seq<PropertyView>) -> DsPropsView
    decreases properties.len(),
{
    if properties.len() == 0 {
        props
    } else {
        let before = after_set(props, properties.drop_last());
        let property = properties.last();
        DsPropsView {
            name: before.name,
            props: before.props.insert(
                property.key(),
                (property.value()->0, PropSource::Local),
            ),
        }
    }
}

/// None of our properties is set on the dataset itself.
pub open spec fn is_bare(props: DsPropsView) -> bool {
    forall|kind: PropertyType| props.local(#[trigger] kind.key()) is None
}

/// A value which is not taken for that of an unset property.
pub open spec fn is_told(value: Option<Seq<char>>) -> bool {
    value != Some("-"@)
}

/// One more property is set.
proof fn lemma_set_push(props: DsPropsView, list: Seq<PropertyView>, property: PropertyView)
    ensures
        after_set(props, list.push(property)) == (DsPropsView {
            name: after_set(props, list).name,
            props: after_set(props, list).props.insert(
                property.key(),
                (property.value()->0, PropSource::Local),
            ),
        }),
        after_set(props, Seq::empty()) == props,
{
    assert(list.push(property).drop_last() =~= list);
}

/// An optional property is set or not.
proof fn lemma_set_optional(
    props: DsPropsView,
    list: Seq<PropertyView>,
    property: Option<PropertyView>,
)
    ensures
        after_set(props, list + optional(property)) == (match property {
            Some(property) => DsPropsView {
                name: after_set(props, list).name,
                props: after_set(props, list).props.insert(
                    property.key(),
                    (property.value()->0, PropSource::Local),
                ),
            },
            None => after_set(props, list),
        }),
{
    match property {
        Some(property) => {
            lemma_set_push(props, list, property);
            assert(list + optional(Some(property)) =~= list.push(property));
        },
        None => {
            assert(list + optional(None) =~= list);
        },
    }
}

/// The known keys are told apart, and none is that of a native property.
proof fn lemma_key_table()
    ensures
        forall|a: PropertyType, b: PropertyType|
            (#[trigger] a.key()) == (#[trigger] b.key()) ==> a == b,
        forall|a: PropertyType| #![trigger a.key()] a.key().len() >= 11 && a.key()[2] == '.',
{
    assert forall|a: PropertyType, b: PropertyType| (#[trigger] a.key()) == (
    #[trigger] b.key()) implies a == b by {
        lemma_keys(a);
        lemma_keys(b);
    }
    reveal_strlit("io.mayastor");
    reveal_strlit("io.mayastor:pool");
    reveal_strlit("io.mayastor:disks");
    reveal_strlit("io.mayastor:volblocksize");
    reveal_strlit("io.mayastor:uuid");
    reveal_strlit("io.mayastor:name");
    reveal_strlit("io.mayastor:share");
    reveal_strlit("io.mayastor:allowed_hosts");
    reveal_strlit("io.mayastor:entity_id");
    reveal_strlit("io.mayastor:snapshot_uuid");
    reveal_strlit("io.mayastor:parent_id");
    reveal_strlit("io.mayastor:txn_id");
    reveal_strlit("io.mayastor:create_time");
    reveal_strlit("io.mayastor:discarded");
}

/// The native properties that are read are not among ours.
proof fn lemma_native_keys()
    ensures
        forall|a: PropertyType|
            #![trigger a.key()]
            a.key() != "volsize"@ && a.key() != "volblocksize"@ && a.key() != "used"@ && a.key()
                != "referenced"@ && a.key() != "usedbysnapshots"@ && a.key() != "refreservation"@
                && a.key() != "origin"@ && a.key() != "encryption"@ && a.key() != "clones"@
                && a.key() != "defer_destroy"@ && a.key() != "available"@,
{
    lemma_key_table();
    reveal_strlit("volsize");
    reveal_strlit("volblocksize");
    reveal_strlit("used");
    reveal_strlit("referenced");
    reveal_strlit("usedbysnapshots");
    reveal_strlit("refreservation");
    reveal_strlit("origin");
    reveal_strlit("encryption");
    reveal_strlit("clones");
    reveal_strlit("defer_destroy");
    reveal_strlit("available");
}

/// A valid path component is not taken for an unset value, and splits off its parent.
proof fn lemma_component(name: Seq<char>, container: Seq<char>)
    requires
        component_check(name) is Ok,
    ensures
        name != "-"@,
        rsplit_once(child_dataset(container, name), '/') == Some((container, name)),
        !name.contains('@'),
{
    assert(is_component(name));
    reveal_strlit("-");
    reveal_strlit("/");
    let path = child_dataset(container, name);
    let at = container.len() as int;
    assert(path[at] == '/');
    assert forall|j: int| at < j < path.len() implies path[j] != '/' by {
        assert(path[j] == name[j - at - 1]);
    }
    lemma_rsplit_once_at(path, '/', at);
    assert(path.take(at) =~= container);
    assert(path.skip(at + 1) =~= name);
}

/// A zvol is a replica of ours only if its uuid is set on the zvol itself: a uuid which it merely
/// inherits does not make it one.
pub proof fn law_inherited_replica_not_ours(props: DsPropsView)
    requires
        props.props.contains_key(PropertyType::VolUuid.key()) ==> props.props[
            PropertyType::VolUuid.key()
        ].1 != PropSource::Local,
    ensures
        VolView::of_props(props) is None,
{
}

/// A snapshot is one of ours only if its uuid is set on the snapshot itself: one taken out-of-band
/// merely inherits the uuid of its dataset.
pub proof fn law_inherited_snapshot_not_ours(props: DsPropsView)
    requires
        props.props.contains_key(PropertyType::SnapshotUuid.key()) ==> props.props[
            PropertyType::SnapshotUuid.key()
        ].1 != PropSource::Local,
    ensures
        SnapView::of_props(props) is None,
{
}

/// A child dataset which merely inherits a replica uuid is foreign to the pool.
pub proof fn law_inherited_child_foreign(props: DsPropsView, container: Seq<char>)
    requires
        props.name != container,
        props.props.contains_key(PropertyType::VolUuid.key()) ==> props.props[
            PropertyType::VolUuid.key()
        ].1 != PropSource::Local,
    ensures
        is_foreign(props, container),
{
}

/// The identity of a replica rests on its properties alone: of two zvols of a container with the
/// same properties, the one under another path is the same replica.
pub proof fn law_replica_identity(a: DsPropsView, b: DsPropsView)
    requires
        a.props == b.props,
        VolView::of_props(a) is Some,
        rsplit_once(b.name, '/') is Some,
    ensures
        VolView::of_props(b) is Some,
        VolView::of_props(a)->0.uuid == VolView::of_props(b)->0.uuid,
        VolView::of_props(a)->0.name == VolView::of_props(b)->0.name,
        VolView::of_props(a)->0.entity_id == VolView::of_props(b)->0.entity_id,
        VolView::of_props(a)->0.snapshot_uuid == VolView::of_props(b)->0.snapshot_uuid,
        VolView::of_props(a)->0.pool_uuid == VolView::of_props(b)->0.pool_uuid,
{
}

/// The identity of a snapshot rests on its properties alone: re-homed onto another zvol, as a
/// promotion does, it is the same snapshot with the same parameters.
pub proof fn law_snapshot_identity(a: DsPropsView, b: DsPropsView)
    requires
        a.props == b.props,
        SnapView::of_props(a) is Some,
        split_once(b.name, '@') matches Some((dataset, _)) && rsplit_once(dataset, '/') is Some,
    ensures
        SnapView::of_props(b) is Some,
        SnapView::of_props(a)->0.uuid == SnapView::of_props(b)->0.uuid,
        SnapView::of_props(a)->0.params == SnapView::of_props(b)->0.params,
        SnapView::of_props(a)->0.discarded == SnapView::of_props(b)->0.discarded,
        SnapView::of_props(a)->0.clones == SnapView::of_props(b)->0.clones,
{
}

/// A snapshot is discarded if and only if its discarded property is true, or ZFS defers its
/// destruction.
pub proof fn law_discarded(props: DsPropsView)
    requires
        SnapView::of_props(props) is Some,
    ensures
        SnapView::of_props(props)->0.discarded <==> (props.local(PropertyType::Discarded.key())
            matches Some(value) && is_true(value)) || props.value("defer_destroy"@) == Some(
            "on"@,
        ),
{
}

/// The parameters of a snapshot with the defaults filled in.
pub open spec fn filled(
    vol: VolView,
    uuid: Seq<char>,
    params: SnapshotParamsView,
    now: Seq<char>,
) -> SnapshotParamsView {
    SnapshotParamsView {
        parent_id: match params.parent_id {
            Some(id) => Some(id),
            None => Some(vol.uuid),
        },
        create_time: match params.create_time {
            Some(time) => Some(time),
            None => Some(now),
        },
        snapshot_uuid: Some(uuid),
        ..params
    }
}

/// The parameters a snapshot is created with are the ones that are read back from it, and the
/// lookup which follows the creation finds it.
pub proof fn law_snapshot_read_back(
    base: DsPropsView,
    vol: VolView,
    uuid: Seq<char>,
    params: SnapshotParamsView,
    now: Seq<char>,
)
    requires
        is_bare(base),
        base.name == snapshot_path(vol.dataset, uuid),
        base.value(PropertyType::PoolUuid.key()) is Some,
        component_check(uuid) is Ok,
        !vol.dataset.contains('@'),
        rsplit_once(vol.dataset, '/') is Some,
        is_told(filled(vol, uuid, params, now).parent_id),
        is_told(filled(vol, uuid, params, now).create_time),
        is_told(params.name),
        is_told(params.entity_id),
        is_told(params.txn_id),
    ensures
        SnapView::of_props(
            after_set(base, snapshot_properties(vol, uuid, params, now)),
        ) matches Some(snap) && snap.path == base.name && snap.dataset == vol.dataset && snap.uuid
            == uuid && snap.params == filled(vol, uuid, params, now) && snap.meets(
            snapshot_query(vol.dataset, uuid),
        ),
{
    let all = filled(vol, uuid, params, now);
    let fixed = seq![
        PropertyView::SnapshotUuid(uuid),
        PropertyView::ParentId(all.parent_id->0),
        PropertyView::CreateTime(all.create_time->0),
        PropertyView::Discarded(params.discarded_snapshot),
    ];
    let none = Seq::<PropertyView>::empty();
    let a = optional(name_prop(params));
    let b = optional(owner_prop(params));
    let c = optional(txn_prop(params));
    assert(snapshot_properties(vol, uuid, params, now) =~= fixed + a + b + c);
    lemma_set_push(base, none, fixed[0]);
    lemma_set_push(base, none.push(fixed[0]), fixed[1]);
    lemma_set_push(base, none.push(fixed[0]).push(fixed[1]), fixed[2]);
    lemma_set_push(base, none.push(fixed[0]).push(fixed[1]).push(fixed[2]), fixed[3]);
    assert(none.push(fixed[0]).push(fixed[1]).push(fixed[2]).push(fixed[3]) =~= fixed);
    lemma_set_optional(base, fixed, name_prop(params));
    lemma_set_optional(base, fixed + a, owner_prop(params));
    lemma_set_optional(base, fixed + a + b, txn_prop(params));
    lemma_key_table();
    lemma_component(uuid, vol.dataset);
    let after = after_set(base, fixed + a + b + c);
    reveal_strlit("true");
    reveal_strlit("false");
    reveal_strlit("on");
    reveal_strlit("-");
    reveal_strlit("@");
    assert("false"@ != "true"@ && "false"@ != "on"@) by {
        assert("false"@.len() == 5 && "true"@.len() == 4 && "on"@.len() == 2);
    }
    assert("true"@.len() != "-"@.len() && "false"@.len() != "-"@.len());
    let at = vol.dataset.len() as int;
    assert(base.name[at] == '@');
    assert forall|j: int| 0 <= j < at implies base.name[j] != '@' by {
        assert(base.name[j] == vol.dataset[j]);
    }
    lemma_split_once_at(base.name, '@', at);
    assert(base.name.take(at) =~= vol.dataset);
    assert(base.local(PropertyType::Name.key()) is None);
    assert(base.local(PropertyType::EntityId.key()) is None);
    assert(base.local(PropertyType::TxnId.key()) is None);
    assert(after.local(PropertyType::SnapshotUuid.key()) == Some(uuid));
    assert(after.local(PropertyType::ParentId.key()) == all.parent_id);
    assert(after.local(PropertyType::CreateTime.key()) == all.create_time);
    assert(after.local(PropertyType::Name.key()) == params.name);
    assert(after.local(PropertyType::EntityId.key()) == params.entity_id);
    assert(after.local(PropertyType::TxnId.key()) == params.txn_id);
    assert(after.value(PropertyType::PoolUuid.key()) == base.value(PropertyType::PoolUuid.key()));
    assert(SnapView::params_of(after, uuid) =~= all);
}

/// A snapshot which is marked as discarded is read back as discarded, and as the same otherwise.
pub proof fn law_discard_read_back(base: DsPropsView)
    requires
        SnapView::of_props(base) is Some,
    ensures
        SnapView::of_props(
            after_set(base, seq![PropertyView::Discarded(true)]),
        ) matches Some(snap) && snap.discarded && snap.uuid == SnapView::of_props(base)->0.uuid
            && snap.clones == SnapView::of_props(base)->0.clones && snap.path
            == SnapView::of_props(base)->0.path,
{
    let discarded = PropertyView::Discarded(true);
    lemma_set_push(base, Seq::empty(), discarded);
    assert(Seq::<PropertyView>::empty().push(discarded) =~= seq![discarded]);
    lemma_key_table();
    lemma_native_keys();
    reveal_strlit("true");
    reveal_strlit("-");
    assert("true"@.len() != "-"@.len());
}

/// What a replica is created with is what is read back from it: the lookup which follows the
/// creation finds it, and a repeated request finds it to be what was requested.
pub proof fn law_replica_read_back(
    base: DsPropsView,
    pool: PoolView,
    args: ReplicaArgs,
    size: u64,
)
    requires
        is_bare(base),
        component_check(args.uuid@) is Ok,
        base.name == child_dataset(pool.dataset, args.uuid@),
        base.value(PropertyType::PoolUuid.key()) == Some(pool.uuid),
        base.number("volsize"@) == Some(size),
        is_told(Some(args.name@)),
        is_told(text_opt(args.entity_id)),
    ensures
        VolView::of_props(after_set(base, replica_properties(args))) matches Some(vol)
            && vol.dataset == base.name && vol.pool_dataset == pool.dataset && vol.uuid
            == args.uuid@ && vol.name == Some(args.name@) && vol.size == size && vol.share
            == Protocol::Off && vol.allowed_hosts.len() == 0 && vol.snapshot_uuid is None
            && vol.meets(created_query(pool, args.uuid@)) && (text_opt(args.entity_id) != Some(
            Seq::<char>::empty(),
        ) ==> as_requested(vol, args, size)),
{
    let named = seq![PropertyView::VolUuid(args.uuid@), PropertyView::Name(args.name@)];
    let none = Seq::<PropertyView>::empty();
    let owned = named + optional(replica_owner(args));
    lemma_set_push(base, none, named[0]);
    lemma_set_push(base, none.push(named[0]), named[1]);
    assert(none.push(named[0]).push(named[1]) =~= named);
    lemma_set_optional(base, named, replica_owner(args));
    lemma_set_push(base, owned, PropertyView::Share(Protocol::Off));
    lemma_key_table();
    lemma_native_keys();
    lemma_component(args.uuid@, pool.dataset);
    reveal_strlit("off");
    reveal_strlit("nvmf");
    reveal_strlit("-");
    assert("off"@.len() == 3 && "nvmf"@.len() == 4 && "-"@.len() == 1);
    let after = after_set(base, replica_properties(args));
    assert(base.local(PropertyType::EntityId.key()) is None);
    assert(base.local(PropertyType::SnapshotUuid.key()) is None);
    assert(base.local(PropertyType::AllowedHosts.key()) is None);
    assert(after.local(PropertyType::VolUuid.key()) == Some(args.uuid@));
    assert(after.local(PropertyType::Name.key()) == Some(args.name@));
    assert(after.local(PropertyType::Share.key()) == Some("off"@));
    assert(after.value(PropertyType::PoolUuid.key()) == Some(pool.uuid));
    assert(after.number("volsize"@) == Some(size));
    assert(after.local(PropertyType::AllowedHosts.key()) is None);
    assert(after.local(PropertyType::SnapshotUuid.key()) is None);
    match args.entity_id {
        Some(id) => {
            if id@.len() > 0 {
                assert(after.local(PropertyType::EntityId.key()) == Some(id@));
            } else {
                assert(id@ =~= Seq::<char>::empty());
            }
        },
        None => {
            assert(after.local(PropertyType::EntityId.key()) is None);
        },
    }
}

/// What a clone is created with is what is read back from it: the lookup which follows the creation
/// finds it, and it is listed as a clone of its snapshot.
pub proof fn law_clone_read_back(
    base: DsPropsView,
    snap: SnapView,
    uuid: Seq<char>,
    name: Seq<char>,
)
    requires
        is_bare(base),
        component_check(uuid) is Ok,
        base.name == child_dataset(snap.container, uuid),
        base.value(PropertyType::PoolUuid.key()) is Some,
        base.number("volsize"@) is Some,
        is_told(Some(name)),
        is_told(Some(snap.uuid)),
    ensures
        VolView::of_props(after_set(base, clone_properties(snap, uuid, name))) matches Some(vol)
            && vol.pool_dataset == snap.container && vol.uuid == uuid && vol.name == Some(name)
            && vol.share == Protocol::Off && is_clone_of(vol, Some(snap.uuid)) && vol.lvol().clone
            && vol.meets(clone_query(snap.container, uuid)),
{
    let list = clone_properties(snap, uuid, name);
    let none = Seq::<PropertyView>::empty();
    lemma_set_push(base, none, list[0]);
    lemma_set_push(base, none.push(list[0]), list[1]);
    lemma_set_push(base, none.push(list[0]).push(list[1]), list[2]);
    lemma_set_push(base, none.push(list[0]).push(list[1]).push(list[2]), list[3]);
    assert(none.push(list[0]).push(list[1]).push(list[2]).push(list[3]) =~= list);
    lemma_key_table();
    lemma_native_keys();
    lemma_component(uuid, snap.container);
    reveal_strlit("off");
    reveal_strlit("nvmf");
    reveal_strlit("-");
    assert("off"@.len() == 3 && "nvmf"@.len() == 4 && "-"@.len() == 1);
}

/// How a replica is shared, once persisted, is what is read back from it; the rest of it stays the
/// same.
pub proof fn law_share_read_back(base: DsPropsView, bdev: BdevOptsView)
    requires
        VolView::of_props(base) is Some,
        faithful_hosts(bdev.allowed_hosts),
        bdev.allowed_hosts != seq!["-"@],
    ensures
        VolView::of_props(after_set(base, share_properties(bdev))) == Some(
            VolView {
                share: bdev.share,
                allowed_hosts: bdev.allowed_hosts,
                ..VolView::of_props(base)->0
            },
        ),
{
    let list = share_properties(bdev);
    let none = Seq::<PropertyView>::empty();
    lemma_set_push(base, none, list[0]);
    lemma_set_push(base, none.push(list[0]), list[1]);
    assert(none.push(list[0]).push(list[1]) =~= list);
    lemma_key_table();
    lemma_native_keys();
    let hosts = PropertyView::AllowedHosts(bdev.allowed_hosts);
    law_property_from_kv(hosts);
    lemma_keys(PropertyType::AllowedHosts);
    reveal_strlit("off");
    reveal_strlit("nvmf");
    reveal_strlit("-");
    assert("off"@.len() == 3 && "nvmf"@.len() == 4 && "-"@.len() == 1);
    let text = hosts.value()->0;
    assert(csv(Some(text)) == bdev.allowed_hosts);
    assert(text != "-"@) by {
        if text == "-"@ {
            lemma_dash_hosts();
            assert(bdev.allowed_hosts == seq!["-"@]);
        }
    }
}

/// A dash alone is a list of one host.
proof fn lemma_dash_hosts()
    ensures
        csv(Some("-"@)) == seq!["-"@],
{
    reveal_strlit("-");
    reveal_strlit(",");
    let hosts = seq!["-"@];
    assert(faithful_hosts(hosts)) by {
        assert forall|i: int| 0 <= i < hosts.len() implies !(#[trigger] hosts[i]).contains(
            ',',
        ) by {
            assert(hosts[i] == "-"@);
        }
    }
    let property = PropertyView::AllowedHosts(hosts);
    law_property_from_kv(property);
    lemma_keys(PropertyType::AllowedHosts);
    reveal_with_fuel(join, 3);
    assert(property.value()->0 =~= "-"@);
}

/// The owner of a replica, once persisted, is what is read back from it; the rest of it stays the
/// same.
pub proof fn law_owner_read_back(base: DsPropsView, id: Seq<char>)
    requires
        VolView::of_props(base) is Some,
        is_told(Some(id)),
    ensures
        VolView::of_props(after_set(base, seq![PropertyView::EntityId(id)])) == Some(
            VolView { entity_id: Some(id), ..VolView::of_props(base)->0 },
        ),
{
    let owner = PropertyView::EntityId(id);
    lemma_set_push(base, Seq::empty(), owner);
    assert(Seq::<PropertyView>::empty().push(owner) =~= seq![owner]);
    lemma_key_table();
    lemma_native_keys();
}

/// What a pool is created with is what is read back from it.
pub proof fn law_pool_read_back(
    base: DsPropsView,
    args: PoolArgs,
    opts: PoolOptsView,
    uuid: Seq<char>,
    block: u64,
    committed: u64,
    zpool_size: u64,
)
    requires
        component_check(args.name@) is Ok,
        is_told(Some(uuid)),
        is_told(Some(opts.disks)),
    ensures
        ({
            let props = after_set(base, pool_properties(uuid, block, opts.disks));
            let dataset = container_of(args, opts);
            let pool = PoolView::of_props(dataset, uuid, props, committed, zpool_size);
            &&& props.local(PropertyType::PoolUuid.key()) == Some(uuid)
            &&& pool.name == args.name@
            &&& pool.parent == opts.parent
            &&& pool.disks == opts.disks
            &&& pool.volblocksize == block
            &&& pool_query(args.name@, uuid).matches(last_piece(dataset, '/'), uuid)
        }),
{
    let list = pool_properties(uuid, block, opts.disks);
    let none = Seq::<PropertyView>::empty();
    lemma_set_push(base, none, list[0]);
    lemma_set_push(base, none.push(list[0]), list[1]);
    lemma_set_push(base, none.push(list[0]).push(list[1]), list[2]);
    assert(none.push(list[0]).push(list[1]).push(list[2]) =~= list);
    lemma_key_table();
    lemma_component(args.name@, opts.parent);
    lemma_parse_decimal(block);
    lemma_number_told(block);
}

/// A number is not taken for an unset value.
proof fn lemma_number_told(n: u64)
    ensures
        is_told(Some(decimal(n as nat))),
{
    lemma_decimal(n as nat);
    reveal_strlit("-");
    let text = decimal(n as nat);
    if text == "-"@ {
        assert(is_digit(text[0]));
    }
}

/// Adopting a pool is idempotent: once what was missing is set on its container dataset, nothing is
/// missing any more, and the pool keeps its uuid.
pub proof fn law_adopt_idempotent(
    props: DsPropsView,
    args: PoolArgs,
    opts: PoolOptsView,
    fresh: Seq<char>,
    later: Seq<char>,
)
    requires
        pool_opts_of_disks(seq![opts.disks]) == Ok::<PoolOptsView, ErrorView>(opts),
        is_told(Some(opts.disks)),
        is_told(text_opt(args.uuid)),
        is_fresh(args, fresh),
        missing_props(props, args, opts, fresh) is Ok,
    ensures
        ({
            let missing = missing_props(props, args, opts, fresh)->Ok_0;
            let after = after_set(props, missing);
            &&& missing_props(after, args, opts, later) == Ok::<Seq<PropertyView>, ErrorView>(
                Seq::empty(),
            )
            &&& adopted_uuid(after, args, later) == adopted_uuid(props, args, fresh)
        }),
{
    let uuid = uuid_or(args, fresh);
    let a = missing_uuid(props, uuid);
    let b = missing_disks(props, opts.disks);
    let c = missing_block(props, args, opts)->Ok_0;
    let missing = a + b + c;
    assert(missing_props(props, args, opts, fresh)->Ok_0 == missing);
    let none = Seq::<PropertyView>::empty();
    let pa = if a.len() > 0 {
        Some(a[0])
    } else {
        None
    };
    let pb = if b.len() > 0 {
        Some(b[0])
    } else {
        None
    };
    let pc = if c.len() > 0 {
        Some(c[0])
    } else {
        None
    };
    assert(a =~= optional(pa));
    assert(b =~= optional(pb));
    assert(c =~= optional(pc));
    lemma_set_optional(props, none, pa);
    lemma_set_optional(props, none + a, pb);
    lemma_set_optional(props, none + a + b, pc);
    assert(none + a + b + c =~= missing);
    lemma_key_table();
    reveal_strlit("-");
    assert(is_told(Some(uuid)));
    match volblocksize_default(args.cluster_size, opts) {
        Ok(size) => {
            lemma_number_told(size);
        },
        Err(_) => {},
    }
    let after = after_set(props, missing);
    assert(props.local(PropertyType::PoolUuid.key()) is None ==> after.local(
        PropertyType::PoolUuid.key(),
    ) == Some(uuid));
    assert(props.local(PropertyType::PoolUuid.key()) is Some ==> after.local(
        PropertyType::PoolUuid.key(),
    ) == props.local(PropertyType::PoolUuid.key()));
    assert(props.local(PropertyType::PoolDisks.key()) is None ==> after.local(
        PropertyType::PoolDisks.key(),
    ) == Some(opts.disks));
    assert(props.local(PropertyType::PoolDisks.key()) is Some ==> after.local(
        PropertyType::PoolDisks.key(),
    ) == props.local(PropertyType::PoolDisks.key()));
    assert(after.local(PropertyType::PoolVolBlockSize.key()) is Some);
    assert(missing_uuid(after, uuid_or(args, later)) + missing_disks(after, opts.disks)
        + Seq::<PropertyView>::empty() =~= Seq::empty());
}

/// The values that the backend makes up itself, a random uuid and the current time, are never
/// refused as the value of a property, nor taken for an unset value.
pub proof fn law_made_up_values(value: Seq<char>)
    requires
        is_uuid_v4(value) || is_utc_time(value),
    ensures
        control_free(value),
        is_told(Some(value)),
{
    reveal_strlit("-");
    if is_uuid_v4(value) {
        assert forall|i: int| 0 <= i < value.len() implies !is_control(#[trigger] value[i]) by {};
    } else {
        let tail = value.skip(value.len() - 4);
        assert forall|i: int| 0 <= i < value.len() implies !is_control(#[trigger] value[i]) by {
            if i >= value.len() - 4 {
                assert(value[i] == tail[i - (value.len() - 4)]);
            }
        };
    }
}

} // verus!
