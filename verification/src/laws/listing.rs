//! A listing yields what is ours and meets the query, and nothing else; and what was written to a
//! dataset is found by a listing of it.
use vstd::prelude::*;
use crate::cli::{
    lemma_position, pairs_of, position_of, props_named, props_of, props_of_rows, DsPropsView,
    QueryView,
};
use crate::dataset::component_check;
use crate::ds_pool::{candidates, committed_of, pools_of, zpool_size_of, PoolView};
use crate::engine::{PoolArgs, ReplicaArgs, SnapshotParamsView};
use crate::error::ErrorView;
use crate::flow::pool_create::{container_of, pool_properties, pool_query};
use crate::flow::snapshot::{snapshot_path, snapshot_properties, snapshot_query, snaps_of};
use crate::flow::volume::{
    child_dataset, created_query, replica_properties, vols_of,
};
use crate::laws::metadata::{
    after_set, filled, is_bare, is_told, law_pool_read_back, law_replica_read_back,
    law_snapshot_read_back,
};
use crate::laws::output::{
    clean_rows, held, law_props_decoded, law_rows_round_trip, render_rows, reported,
};
use crate::options::PoolOptsView;
use crate::property::{PropertyType, PropertyView};
use crate::snapshot::{SnapQueryView, SnapView};
use crate::text::chars::text_opt;
use crate::text::split::{last_piece, rsplit_once};
use crate::zvol_replica::{VolQueryView, VolView};

verus! {

/// The replicas which are listed are those of the datasets which are ours and meet the query.
pub proof fn law_listed_replicas(list: Seq<DsPropsView>, query: VolQueryView, vol: VolView)
    ensures
        vols_of(list, query).contains(vol) <==> vol.meets(query) && exists|i: int|
            0 <= i < list.len() && VolView::of_props(#[trigger] list[i]) == Some(vol),
    decreases list.len(),
{
    if list.len() > 0 {
        let init = list.drop_last();
        let rest = vols_of(init, query);
        let all = vols_of(list, query);
        let n = list.len() - 1;
        law_listed_replicas(init, query, vol);
        if all.contains(vol) {
            let k = choose|k: int| 0 <= k < all.len() && all[k] == vol;
            if k < rest.len() {
                assert(rest[k] == vol);
                let i = choose|i: int|
                    0 <= i < init.len() && VolView::of_props(#[trigger] init[i]) == Some(vol);
                assert(list[i] == init[i]);
            } else {
                assert(VolView::of_props(list[n]) == Some(vol));
            }
        }
        if vol.meets(query) && exists|i: int|
            0 <= i < list.len() && VolView::of_props(#[trigger] list[i]) == Some(vol) {
            let i = choose|i: int|
                0 <= i < list.len() && VolView::of_props(#[trigger] list[i]) == Some(vol);
            if i < n {
                assert(init[i] == list[i]);
                let k = choose|k: int| 0 <= k < rest.len() && rest[k] == vol;
                assert(all[k] == vol);
            } else {
                assert(all[all.len() - 1] == vol);
            }
        }
    }
}

/// The snapshots which are listed are those of the datasets which are ours and meet the query.
pub proof fn law_listed_snapshots(list: Seq<DsPropsView>, query: SnapQueryView, snap: SnapView)
    ensures
        snaps_of(list, query).contains(snap) <==> snap.meets(query) && exists|i: int|
            0 <= i < list.len() && SnapView::of_props(#[trigger] list[i]) == Some(snap),
    decreases list.len(),
{
    if list.len() > 0 {
        let init = list.drop_last();
        let rest = snaps_of(init, query);
        let all = snaps_of(list, query);
        let n = list.len() - 1;
        law_listed_snapshots(init, query, snap);
        if all.contains(snap) {
            let k = choose|k: int| 0 <= k < all.len() && all[k] == snap;
            if k < rest.len() {
                assert(rest[k] == snap);
                let i = choose|i: int|
                    0 <= i < init.len() && SnapView::of_props(#[trigger] init[i]) == Some(snap);
                assert(list[i] == init[i]);
            } else {
                assert(SnapView::of_props(list[n]) == Some(snap));
            }
        }
        if snap.meets(query) && exists|i: int|
            0 <= i < list.len() && SnapView::of_props(#[trigger] list[i]) == Some(snap) {
            let i = choose|i: int|
                0 <= i < list.len() && SnapView::of_props(#[trigger] list[i]) == Some(snap);
            if i < n {
                assert(init[i] == list[i]);
                let k = choose|k: int| 0 <= k < rest.len() && rest[k] == snap;
                assert(all[k] == snap);
            } else {
                assert(all[all.len() - 1] == snap);
            }
        }
    }
}

/// The pool that a discovered dataset and its details stand for, if it has details.
pub open spec fn pool_of(
    pair: (Seq<char>, Seq<char>),
    details: Seq<DsPropsView>,
    volumes: Seq<(Seq<char>, Seq<char>)>,
    sizes: Seq<(Seq<char>, Seq<char>)>,
) -> Option<PoolView> {
    match props_named(details, pair.0) {
        Some(props) => Some(
            PoolView::of_props(
                pair.0,
                pair.1,
                props,
                committed_of(volumes, pair.0) as u64,
                zpool_size_of(sizes, pair.0),
            ),
        ),
        None => None,
    }
}

/// The pools which are listed are those of the discovered datasets which have details and meet the
/// query.
pub proof fn law_listed_pools(
    pairs: Seq<(Seq<char>, Seq<char>)>,
    query: QueryView,
    details: Seq<DsPropsView>,
    volumes: Seq<(Seq<char>, Seq<char>)>,
    sizes: Seq<(Seq<char>, Seq<char>)>,
    pool: PoolView,
)
    ensures
        pools_of(candidates(pairs, query), details, volumes, sizes).contains(pool)
            <==> query.matches(pool.name, pool.uuid) && exists|i: int|
            0 <= i < pairs.len() && pool_of(#[trigger] pairs[i], details, volumes, sizes) == Some(
                pool,
            ),
{
    let found = candidates(pairs, query);
    let keep = |pair: (Seq<char>, Seq<char>)| query.matches(last_piece(pair.0, '/'), pair.1);
    let all = pools_of(found, details, volumes, sizes);
    lemma_pools_built(found, details, volumes, sizes, pool);
    if all.contains(pool) {
        let k = choose|k: int|
            0 <= k < found.len() && pool_of(#[trigger] found[k], details, volumes, sizes) == Some(
                pool,
            );
        pairs.lemma_filter_contains_rev(keep, found[k]);
        assert(keep(found[k])) by {
            pairs.filter_lemma(keep);
        }
        let i = choose|i: int| 0 <= i < pairs.len() && pairs[i] == found[k];
        assert(pool_of(pairs[i], details, volumes, sizes) == Some(pool));
    }
    if query.matches(pool.name, pool.uuid) && exists|i: int|
        0 <= i < pairs.len() && pool_of(#[trigger] pairs[i], details, volumes, sizes) == Some(
            pool,
        ) {
        let i = choose|i: int|
            0 <= i < pairs.len() && pool_of(#[trigger] pairs[i], details, volumes, sizes) == Some(
                pool,
            );
        assert(keep(pairs[i]));
        assert(found.contains(pairs[i])) by {
            pairs.filter_lemma(keep);
        }
        let k = choose|k: int| 0 <= k < found.len() && found[k] == pairs[i];
        assert(pool_of(found[k], details, volumes, sizes) == Some(pool));
    }
}

/// The pools which are built are those of the found datasets which have details.
proof fn lemma_pools_built(
    found: Seq<(Seq<char>, Seq<char>)>,
    details: Seq<DsPropsView>,
    volumes: Seq<(Seq<char>, Seq<char>)>,
    sizes: Seq<(Seq<char>, Seq<char>)>,
    pool: PoolView,
)
    ensures
        pools_of(found, details, volumes, sizes).contains(pool) <==> exists|i: int|
            0 <= i < found.len() && pool_of(#[trigger] found[i], details, volumes, sizes) == Some(
                pool,
            ),
    decreases found.len(),
{
    if found.len() > 0 {
        let init = found.drop_last();
        let rest = pools_of(init, details, volumes, sizes);
        let all = pools_of(found, details, volumes, sizes);
        let n = found.len() - 1;
        lemma_pools_built(init, details, volumes, sizes, pool);
        if all.contains(pool) {
            let k = choose|k: int| 0 <= k < all.len() && all[k] == pool;
            if k < rest.len() {
                assert(rest[k] == pool);
                let i = choose|i: int|
                    0 <= i < init.len() && pool_of(#[trigger] init[i], details, volumes, sizes)
                        == Some(pool);
                assert(found[i] == init[i]);
            } else {
                assert(pool_of(found[n], details, volumes, sizes) == Some(pool));
            }
        }
        if exists|i: int|
            0 <= i < found.len() && pool_of(#[trigger] found[i], details, volumes, sizes) == Some(
                pool,
            ) {
            let i = choose|i: int|
                0 <= i < found.len() && pool_of(#[trigger] found[i], details, volumes, sizes)
                    == Some(pool);
            if i < n {
                assert(init[i] == found[i]);
                let k = choose|k: int| 0 <= k < rest.len() && rest[k] == pool;
                assert(all[k] == pool);
            } else {
                assert(all[all.len() - 1] == pool);
            }
        }
    }
}

/// The rows report all the properties of the dataset, of which there is at least one, and no other
/// properties of it.
pub open spec fn reports(rows: Seq<Seq<Seq<char>>>, ds: DsPropsView) -> bool {
    &&& exists|key: Seq<char>| #[trigger] ds.props.contains_key(key)
    &&& forall|key: Seq<char>| #[trigger]
        reported(rows, ds.name, key) == (if ds.props.contains_key(key) {
            Some(ds.props[key])
        } else {
            None
        })
}

/// A dataset is decoded as the output reports it, among whatever other datasets, as long as no
/// cell of the output holds a control character.
pub proof fn law_dataset_decoded(
    command: Seq<char>,
    rows: Seq<Seq<Seq<char>>>,
    ds: DsPropsView,
)
    requires
        clean_rows(rows, 4),
        reports(rows, ds),
    ensures
        props_of(command, render_rows(rows)) == Ok::<Seq<DsPropsView>, ErrorView>(
            props_of_rows(rows),
        ),
        props_named(props_of_rows(rows), ds.name) == Some(ds),
{
    law_rows_round_trip(command, rows, 4);
    let list = props_of_rows(rows);
    lemma_position(list, ds.name);
    let at = position_of(list, ds.name);
    let some = choose|key: Seq<char>| #[trigger] ds.props.contains_key(key);
    law_props_decoded(rows, ds.name, some);
    assert(reported(rows, ds.name, some) is Some);
    assert(at < list.len());
    assert forall|key: Seq<char>|
        list[at].props.contains_key(key) == #[trigger] ds.props.contains_key(key) && (
        ds.props.contains_key(key) ==> list[at].props[key] == ds.props[key]) by {
        law_props_decoded(rows, ds.name, key);
        assert(held(list, ds.name, key) == reported(rows, ds.name, key));
    }
    assert(list[at].props =~= ds.props);
}

/// A snapshot which was created is found by the listing which follows, with the parameters it was
/// created with.
pub proof fn law_created_snapshot_listed(
    rows: Seq<Seq<Seq<char>>>,
    base: DsPropsView,
    vol: VolView,
    uuid: Seq<char>,
    params: SnapshotParamsView,
    now: Seq<char>,
)
    requires
        is_bare(base),
        base.name == snapshot_path(vol.dataset, uuid),
        base.value(PropertyType::PoolUuid.key()) is Some,
        component_check(uuid) is Ok,
        !vol.dataset.contains('@'),
        rsplit_once(vol.dataset, '/') is Some,
        is_told(filled(vol, uuid, params, now).parent_id),
        is_told(filled(vol, uuid, params, now).create_time),
        is_told(params.name),
        is_told(params.entity_id),
        is_told(params.txn_id),
        clean_rows(rows, 4),
        reports(rows, after_set(base, snapshot_properties(vol, uuid, params, now))),
    ensures
        props_of("zfs"@, render_rows(rows)) == Ok::<Seq<DsPropsView>, ErrorView>(
            props_of_rows(rows),
        ),
        SnapView::of_props(
            after_set(base, snapshot_properties(vol, uuid, params, now)),
        ) matches Some(snap) && snaps_of(
            props_of_rows(rows),
            snapshot_query(vol.dataset, uuid),
        ).contains(snap) && snap.params == filled(vol, uuid, params, now) && snap.uuid == uuid
            && snap.dataset == vol.dataset,
{
    let ds = after_set(base, snapshot_properties(vol, uuid, params, now));
    law_snapshot_read_back(base, vol, uuid, params, now);
    law_dataset_decoded("zfs"@, rows, ds);
    let list = props_of_rows(rows);
    let snap = SnapView::of_props(ds)->0;
    let query = snapshot_query(vol.dataset, uuid);
    lemma_position(list, ds.name);
    assert(list[position_of(list, ds.name)] == ds);
    law_listed_snapshots(list, query, snap);
    assert(snaps_of(list, query).contains(snap));
}

/// A replica which was created is found by the listing which follows, with what it was created
/// with.
pub proof fn law_created_replica_listed(
    rows: Seq<Seq<Seq<char>>>,
    base: DsPropsView,
    pool: PoolView,
    args: ReplicaArgs,
    size: u64,
)
    requires
        is_bare(base),
        component_check(args.uuid@) is Ok,
        base.name == child_dataset(pool.dataset, args.uuid@),
        base.value(PropertyType::PoolUuid.key()) == Some(pool.uuid),
        base.number("volsize"@) == Some(size),
        is_told(Some(args.name@)),
        is_told(text_opt(args.entity_id)),
        clean_rows(rows, 4),
        reports(rows, after_set(base, replica_properties(args))),
    ensures
        props_of("zfs"@, render_rows(rows)) == Ok::<Seq<DsPropsView>, ErrorView>(
            props_of_rows(rows),
        ),
        VolView::of_props(after_set(base, replica_properties(args))) matches Some(vol) && vols_of(
            props_of_rows(rows),
            created_query(pool, args.uuid@),
        ).contains(vol) && vol.uuid == args.uuid@ && vol.name == Some(args.name@) && vol.size
            == size,
{
    let ds = after_set(base, replica_properties(args));
    law_replica_read_back(base, pool, args, size);
    law_dataset_decoded("zfs"@, rows, ds);
    let list = props_of_rows(rows);
    let vol = VolView::of_props(ds)->0;
    let query = created_query(pool, args.uuid@);
    lemma_position(list, ds.name);
    assert(list[position_of(list, ds.name)] == ds);
    law_listed_replicas(list, query, vol);
    assert(vols_of(list, query).contains(vol));
}

/// The rows of two cells, as pairs.
pub open spec fn row_pairs(rows: Seq<Seq<Seq<char>>>) -> Seq<(Seq<char>, Seq<char>)> {
    rows.map_values(|row: Seq<Seq<char>>| (row[0], row[1]))
}

/// A pool which was created is found by the listing which follows, with what it was created with.
pub proof fn law_created_pool_listed(
    discovered: Seq<Seq<Seq<char>>>,
    rows: Seq<Seq<Seq<char>>>,
    base: DsPropsView,
    args: PoolArgs,
    opts: PoolOptsView,
    uuid: Seq<char>,
    block: u64,
    volumes: Seq<(Seq<char>, Seq<char>)>,
    sizes: Seq<(Seq<char>, Seq<char>)>,
)
    requires
        component_check(args.name@) is Ok,
        is_told(Some(uuid)),
        is_told(Some(opts.disks)),
        base.name == container_of(args, opts),
        clean_rows(discovered, 2),
        row_pairs(discovered).contains((container_of(args, opts), uuid)),
        clean_rows(rows, 4),
        reports(rows, after_set(base, pool_properties(uuid, block, opts.disks))),
    ensures
        pairs_of("zfs"@, render_rows(discovered)) == Ok::<Seq<(Seq<char>, Seq<char>)>, ErrorView>(
            row_pairs(discovered),
        ),
        props_of("zfs"@, render_rows(rows)) == Ok::<Seq<DsPropsView>, ErrorView>(
            props_of_rows(rows),
        ),
        pool_of((container_of(args, opts), uuid), props_of_rows(rows), volumes, sizes) matches Some(
            pool,
        ) && pools_of(
            candidates(row_pairs(discovered), pool_query(args.name@, uuid)),
            props_of_rows(rows),
            volumes,
            sizes,
        ).contains(pool) && pool.name == args.name@ && pool.uuid == uuid && pool.dataset
            == container_of(args, opts) && pool.parent == opts.parent && pool.disks == opts.disks
            && pool.volblocksize == block,
{
    let dataset = container_of(args, opts);
    let query = pool_query(args.name@, uuid);
    let ds = after_set(base, pool_properties(uuid, block, opts.disks));
    let pairs = row_pairs(discovered);
    let list = props_of_rows(rows);
    law_rows_round_trip("zfs"@, discovered, 2);
    law_pool_read_back(
        base,
        args,
        opts,
        uuid,
        block,
        committed_of(volumes, dataset) as u64,
        zpool_size_of(sizes, dataset),
    );
    lemma_set_name(base, pool_properties(uuid, block, opts.disks));
    law_dataset_decoded("zfs"@, rows, ds);
    let pool = pool_of((dataset, uuid), list, volumes, sizes)->0;
    let i = choose|i: int| 0 <= i < pairs.len() && pairs[i] == (dataset, uuid);
    assert(pool_of(pairs[i], list, volumes, sizes) == Some(pool));
    law_listed_pools(pairs, query, list, volumes, sizes, pool);
}

/// Setting properties on a dataset keeps its name.
proof fn lemma_set_name(props: DsPropsView, properties: Seq<PropertyView>)
    ensures
        after_set(props, properties).name == props.name,
    decreases properties.len(),
{
    if properties.len() > 0 {
        lemma_set_name(props, properties.drop_last());
    }
}

} // verus!
