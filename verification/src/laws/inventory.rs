//! Listing pools.
use vstd::prelude::*;
use crate::cli::{
    pairs_of, position_of, props_named, props_of, props_views, DsProps, DsPropsView, QueryView, ZfsQueryArgs,
};
use crate::ds_pool::{
    candidates, committed_of, datasets, pool_views, pools_of, second_of, zpool_size_of, PoolView,
    ZfsPool,
};
use crate::error::Error;
use crate::flow::pool_list::{are_zpools, sizes_cmd, PoolList};
use crate::laws::commands::runs_zfs;
use crate::laws::reported::ends_path;
use crate::laws::text::{law_rsplit_once, law_split_once};
use crate::operation::{Reply, Step};
use crate::text::chars::text_pairs;
use crate::text::decimal::{decimal, lemma_parse_decimal};
use crate::text::order::text_lt;
use crate::text::split::{first_piece, last_piece, rsplit_once, split_once};

verus! {

pub proof fn lemma_first_named(list: Seq<DsPropsView>, name: Seq<char>, at: int)
    requires
        0 <= at <= list.len(),
        at < list.len() ==> list[at].name == name,
        forall|i: int| 0 <= i < at ==> (#[trigger] list[i]).name != name,
    ensures
        position_of(list, name) == at,
    decreases list.len(),
{
    if list.len() > 0 && at > 0 {
        let rest = list.drop_first();
        assert forall|i: int| 0 <= i < at - 1 implies (#[trigger] rest[i]).name != name by {
            assert(rest[i] == list[i + 1]);
        }
        lemma_first_named(rest, name, at - 1);
    }
}

/// The pools which a listing goes on with are told one by one: a discovered dataset is kept if the
/// last component of its path is the name asked for, if one is, and its uuid the one asked for, if
/// one is. They are kept in order, each as often as it was discovered.
pub proof fn law_pools_told(
    a: Seq<(Seq<char>, Seq<char>)>,
    b: Seq<(Seq<char>, Seq<char>)>,
    pair: (Seq<char>, Seq<char>),
    name: Seq<char>,
    query: QueryView,
)
    requires
        ends_path(pair.0, name),
    ensures
        candidates(a + b, query) == candidates(a, query) + candidates(b, query),
        (query.name is None || query.name == Some(name)) && (query.uuid is None || query.uuid
            == Some(pair.1)) ==> candidates(seq![pair], query) == seq![pair],
        query.name is Some && query.name != Some(name) ==> candidates(seq![pair], query).len() == 0,
        query.uuid is Some && query.uuid != Some(pair.1) ==> candidates(seq![pair], query).len()
            == 0,
{
    let keep = |p: (Seq<char>, Seq<char>)| query.matches(last_piece(p.0, '/'), p.1);
    Seq::filter_distributes_over_add(a, b, keep);
    reveal(Seq::filter);
    assert(seq![pair].drop_last() =~= Seq::empty());
    lemma_last_component(pair.0, name);
    assert(seq![pair].drop_last().filter(keep) =~= Seq::empty());
    assert(keep(pair) ==> candidates(seq![pair], query) =~= seq![pair]);
}

pub proof fn lemma_last_component(path: Seq<char>, name: Seq<char>)
    requires
        ends_path(path, name),
    ensures
        last_piece(path, '/') == name,
{
    law_rsplit_once(path, '/');
    if path != name {
        let at = path.len() - name.len() - 1;
        assert(path.skip(at)[0] == '/');
        assert(path[at] == '/');
        path.index_of_last_ensures('/');
        let i = path.index_of_last('/')->0;
        if i > at {
            assert(path.skip(at)[i - at] == '/');
            assert((seq!['/'] + name)[i - at] == name[i - at - 1]);
            assert(name.contains('/'));
        }
        assert(i == at);
        assert(path.skip(i + 1) =~= name) by {
            assert forall|j: int| 0 <= j < name.len() implies path.skip(i + 1)[j] == name[j] by {
                assert(path.skip(at)[j + 1] == (seq!['/'] + name)[j + 1]);
            }
        }
    }
}

/// The pools are built one by one from what was discovered: one for each dataset which has details,
/// in order.
pub proof fn law_pools_built(
    a: Seq<(Seq<char>, Seq<char>)>,
    b: Seq<(Seq<char>, Seq<char>)>,
    pair: (Seq<char>, Seq<char>),
    details: Seq<DsPropsView>,
    at: int,
    volumes: Seq<(Seq<char>, Seq<char>)>,
    sizes: Seq<(Seq<char>, Seq<char>)>,
)
    requires
        0 <= at <= details.len(),
        at < details.len() ==> details[at].name == pair.0,
        forall|i: int| 0 <= i < at ==> (#[trigger] details[i]).name != pair.0,
    ensures
        pools_of(a + b, details, volumes, sizes) == pools_of(a, details, volumes, sizes)
            + pools_of(b, details, volumes, sizes),
        at == details.len() ==> pools_of(seq![pair], details, volumes, sizes).len() == 0,
        at < details.len() ==> pools_of(seq![pair], details, volumes, sizes) == seq![
            PoolView::of_props(
                pair.0,
                pair.1,
                details[at],
                committed_of(volumes, pair.0) as u64,
                zpool_size_of(sizes, pair.0),
            ),
        ],
    decreases b.len(),
{
    if b.len() == 0 {
        assert(a + b =~= a);
        assert(pools_of(a, details, volumes, sizes) + pools_of(b, details, volumes, sizes)
            =~= pools_of(a, details, volumes, sizes));
    } else {
        law_pools_built(a, b.drop_last(), pair, details, at, volumes, sizes);
        assert((a + b).drop_last() =~= a + b.drop_last());
        assert((a + b).last() == b.last());
        assert(pools_of(a + b, details, volumes, sizes) =~= pools_of(a, details, volumes, sizes)
            + pools_of(b, details, volumes, sizes));
    }
    reveal_with_fuel(pools_of, 2);
    assert(seq![pair].drop_last() =~= Seq::empty());
    lemma_first_named(details, pair.0, at);
}

/// What a pool commits is the sum over the volumes which lie in it itself, whatever else lies below
/// or beside it.
pub proof fn law_committed(
    a: Seq<(Seq<char>, Seq<char>)>,
    b: Seq<(Seq<char>, Seq<char>)>,
    dataset: Seq<char>,
    container: Seq<char>,
    entry: Seq<char>,
    size: u64,
)
    requires
        !entry.contains('/'),
    ensures
        committed_of(a + b, dataset) == committed_of(a, dataset) + committed_of(b, dataset),
        committed_of(Seq::empty(), dataset) == 0,
        committed_of(
            seq![(dataset + seq!['/'] + entry, decimal(size as nat))],
            dataset,
        ) == size,
        container != dataset ==> committed_of(
            seq![(container + seq!['/'] + entry, decimal(size as nat))],
            dataset,
        ) == 0,
        committed_of(seq![(entry, decimal(size as nat))], dataset) == 0,
    decreases b.len(),
{
    if b.len() == 0 {
        assert(a + b =~= a);
    } else {
        law_committed(a, b.drop_last(), dataset, container, entry, size);
        assert((a + b).drop_last() =~= a + b.drop_last());
        assert((a + b).last() == b.last());
    }
    reveal_with_fuel(committed_of, 2);
    lemma_parse_decimal(size);
    lemma_within(dataset, entry);
    lemma_within(container, entry);
    law_rsplit_once(entry, '/');
}

proof fn lemma_within(container: Seq<char>, entry: Seq<char>)
    requires
        !entry.contains('/'),
    ensures
        rsplit_once(container + seq!['/'] + entry, '/') == Some((container, entry)),
{
    let path = container + seq!['/'] + entry;
    assert(path[container.len() as int] == '/');
    path.index_of_last_ensures('/');
    let i = path.index_of_last('/')->0;
    if i > container.len() {
        assert(entry[i - container.len() - 1] == path[i]);
        assert(entry.contains('/'));
    }
    assert(path.take(i) =~= container);
    assert(path.skip(i + 1) =~= entry);
}

/// The size of the zpool of a dataset is the first that is told for the first component of its
/// path.
pub proof fn law_zpool_size(
    sizes: Seq<(Seq<char>, Seq<char>)>,
    at: int,
    zpool: Seq<char>,
    rest: Seq<char>,
    size: u64,
)
    requires
        !zpool.contains('/'),
        0 <= at <= sizes.len(),
        at < sizes.len() ==> sizes[at] == (zpool, decimal(size as nat)),
        forall|i: int| 0 <= i < at ==> (#[trigger] sizes[i]).0 != zpool,
    ensures
        at < sizes.len() ==> zpool_size_of(sizes, zpool) == size,
        at < sizes.len() ==> zpool_size_of(sizes, zpool + seq!['/'] + rest) == size,
        at == sizes.len() ==> zpool_size_of(sizes, zpool) == 0,
        at == sizes.len() ==> zpool_size_of(sizes, zpool + seq!['/'] + rest) == 0,
{
    lemma_parse_decimal(size);
    lemma_second(sizes, at, zpool);
    law_split_once(zpool, '/');
    let path = zpool + seq!['/'] + rest;
    assert(path[zpool.len() as int] == '/');
    path.index_of_first_ensures('/');
    let i = path.index_of_first('/')->0;
    if i < zpool.len() {
        assert(zpool[i] == path[i]);
        assert(zpool.contains('/'));
    }
    assert(path.take(i) =~= zpool);
}

proof fn lemma_second(sizes: Seq<(Seq<char>, Seq<char>)>, at: int, zpool: Seq<char>)
    requires
        0 <= at <= sizes.len(),
        at < sizes.len() ==> sizes[at].0 == zpool,
        forall|i: int| 0 <= i < at ==> (#[trigger] sizes[i]).0 != zpool,
    ensures
        at < sizes.len() ==> second_of(sizes, zpool) == Some(sizes[at].1),
        at == sizes.len() ==> second_of(sizes, zpool) is None,
    decreases sizes.len(),
{
    if sizes.len() > 0 && at > 0 {
        let rest = sizes.drop_first();
        assert forall|i: int| 0 <= i < at - 1 implies (#[trigger] rest[i]).0 != zpool by {
            assert(rest[i] == sizes[i + 1]);
        }
        lemma_second(rest, at - 1, zpool);
    }
}

/// The names are those of the zpools of the discovered datasets: each of these lies in one of them,
/// none is told twice, and they are in order.
pub open spec fn zpools_of(zpools: Seq<Seq<char>>, found: Seq<(String, String)>) -> bool {
    &&& forall|i: int|
        0 <= i < found.len() ==> exists|k: int|
            0 <= k < zpools.len() && lies_in_zpool((#[trigger] found[i]).0@, #[trigger] zpools[k])
    &&& forall|k: int|
        0 <= k < zpools.len() ==> exists|i: int|
            0 <= i < found.len() && lies_in_zpool((#[trigger] found[i]).0@, #[trigger] zpools[k])
    &&& forall|i: int, j: int|
        0 <= i < j < zpools.len() ==> text_lt(#[trigger] zpools[i], #[trigger] zpools[j])
}

/// The zpool is the first component of the path.
pub open spec fn lies_in_zpool(path: Seq<char>, zpool: Seq<char>) -> bool {
    !zpool.contains('/') && (path == zpool || (path.len() > zpool.len() && path.take(
        (zpool.len() + 1) as int,
    ) == zpool + seq!['/']))
}

/// The names of the discovered datasets.
pub open spec fn found_names(found: Seq<(String, String)>) -> Seq<Seq<char>> {
    Seq::new(found.len(), |i: int| found[i].0@)
}

/// Listing pools fetches, of those discovered which meet the query, first the properties, then the
/// volumes and then the sizes of their zpools, and builds the pools of all that. Where none meets
/// the query there is nothing to list.
pub proof fn law_pool_list_steps(
    query: ZfsQueryArgs,
    found: Vec<(String, String)>,
    details: Vec<DsProps>,
    volumes: Vec<(String, String)>,
    output: String,
    a: Step<PoolList, Vec<ZfsPool>>,
    b: Step<PoolList, Vec<ZfsPool>>,
    c: Step<PoolList, Vec<ZfsPool>>,
    d: Step<PoolList, Vec<ZfsPool>>,
)
    requires
        (PoolList::Discovering { query }).resumed(Reply::Output(Ok(output)), a),
        (PoolList::Detailing { found }).resumed(Reply::Output(Ok(output)), b),
        (PoolList::Summing { found, details }).resumed(Reply::Output(Ok(output)), c),
        (PoolList::Sizing { found, details, volumes }).resumed(Reply::Output(Ok(output)), d),
    ensures
        pairs_of("zfs"@, output@) matches Ok(pairs) ==> {
            let pools = candidates(pairs, query@);
            &&& pools.len() == 0 ==> a is Done && a->Done_0@.len() == 0
            &&& pools.len() > 0 ==> {
                &&& runs_zfs(
                    a,
                    seq![
                        "get"@,
                        "-Hp"@,
                        "-o"@,
                        "name,property,value,source"@,
                        "used,available,quota,encryption,io.mayastor:pool,io.mayastor:disks,io.mayastor:volblocksize"@,
                    ] + found_names(a->Do_1->Detailing_found@),
                )
                &&& a->Do_1 is Detailing
                &&& text_pairs(a->Do_1->Detailing_found@) == pools
            }
        },
        props_of("zfs"@, output@) matches Ok(list) ==> {
            &&& runs_zfs(
                b,
                seq!["list"@, "-Hp"@, "-r"@, "-t"@, "volume"@, "-o"@, "name,volsize"@]
                    + found_names(found@),
            )
            &&& b->Do_1 is Summing
            &&& b->Do_1->Summing_found == found
            &&& props_views(b->Do_1->Summing_details@) == list
        },
        pairs_of("zfs"@, output@) matches Ok(pairs) ==> {
            &&& c is Do
            &&& c->Do_0 is Run
            &&& c->Do_0->Run_0@.cmd == "zpool"@
            &&& c->Do_0->Run_0@.input is None
            &&& c->Do_0->Run_0@.deferred is None
            &&& c->Do_0->Run_0@.argv.len() >= 5
            &&& c->Do_0->Run_0@.argv.take(5) == seq![
                "get"@,
                "-Hp"@,
                "-o"@,
                "name,value"@,
                "size"@,
            ]
            &&& zpools_of(c->Do_0->Run_0@.argv.skip(5), found@)
            &&& c->Do_1 is Sizing
            &&& c->Do_1->Sizing_found == found
            &&& c->Do_1->Sizing_details == details
            &&& text_pairs(c->Do_1->Sizing_volumes@) == pairs
        },
        pairs_of("zpool"@, output@) matches Ok(sizes) ==> d is Done && pool_views(d->Done_0@)
            == pools_of(text_pairs(found@), props_views(details@), text_pairs(volumes@), sizes),
        pairs_of("zfs"@, output@) matches Err(error) ==> a is Failed && a->Failed_0@ == error
            && c is Failed && c->Failed_0@ == error,
        props_of("zfs"@, output@) matches Err(error) ==> b is Failed && b->Failed_0@ == error,
        pairs_of("zpool"@, output@) matches Err(error) ==> d is Failed && d->Failed_0@ == error,
{
    if let Ok(pairs) = pairs_of("zfs"@, output@) {
        if candidates(pairs, query@).len() > 0 {
            lemma_found_names(a->Do_1->Detailing_found@);
        }
        let argv = c->Do_0->Run_0@.argv;
        let all = datasets(text_pairs(found@));
        let firsts = all.map_values(|ds: Seq<char>| first_piece(ds, '/'));
        let zpools = choose|zpools: Seq<Seq<char>>|
            are_zpools(zpools, all) && c->Do_0->Run_0@ == #[trigger] sizes_cmd(zpools);
        assert(argv.take(5) =~= seq!["get"@, "-Hp"@, "-o"@, "name,value"@, "size"@]);
        assert(argv.skip(5) =~= zpools);
        assert forall|i: int| 0 <= i < found@.len() implies exists|k: int|
            0 <= k < zpools.len() && lies_in_zpool((#[trigger] found@[i]).0@, #[trigger] zpools[k]) by {
            assert(all[i] == found@[i].0@);
            assert(firsts[i] == first_piece(all[i], '/'));
            assert(firsts.to_set().contains(firsts[i]));
            assert(zpools.to_set().contains(firsts[i]));
            let k = choose|k: int| 0 <= k < zpools.len() && zpools[k] == firsts[i];
            lemma_zpool(found@[i].0@);
            assert(lies_in_zpool(found@[i].0@, zpools[k]));
        }
        assert forall|k: int| 0 <= k < zpools.len() implies exists|i: int|
            0 <= i < found@.len() && lies_in_zpool((#[trigger] found@[i]).0@, #[trigger] zpools[k]) by {
            assert(zpools.to_set().contains(zpools[k]));
            assert(firsts.to_set().contains(zpools[k]));
            let i = choose|i: int| 0 <= i < firsts.len() && firsts[i] == zpools[k];
            assert(all[i] == found@[i].0@);
            lemma_zpool(found@[i].0@);
            assert(lies_in_zpool(found@[i].0@, zpools[k]));
        }
    }
    lemma_found_names(found@);
}

proof fn lemma_found_names(found: Seq<(String, String)>)
    ensures
        datasets(text_pairs(found)) == found_names(found),
{
    assert(datasets(text_pairs(found)) =~= found_names(found));
}

proof fn lemma_zpool(path: Seq<char>)
    ensures
        lies_in_zpool(path, first_piece(path, '/')),
{
    law_split_once(path, '/');
    if let Some((a, b)) = split_once(path, '/') {
        assert(path.take((a.len() + 1) as int) =~= a + seq!['/']);
    }
}

/// Pools can be listed unless what one of them commits is more than can be told.
pub proof fn law_pool_list_accepts(
    m: PoolList,
    output: Result<String, Error>,
    res: bool,
    at: int,
)
    requires
        call_ensures(PoolList::accepts, (&m, &Reply::Output(output)), res),
    ensures
        !(m is Sizing) || output is Err ==> res,
        m is Sizing && (forall|i: int|
            0 <= i < m->Sizing_found@.len() ==> committed_of(
                text_pairs(m->Sizing_volumes@),
                (#[trigger] m->Sizing_found@[i]).0@,
            ) <= u64::MAX) ==> res,
        m is Sizing && output is Ok && pairs_of("zpool"@, output->Ok_0@) is Err ==> res,
        m is Sizing && output is Ok && pairs_of("zpool"@, output->Ok_0@) is Ok && 0 <= at
            < m->Sizing_found@.len() && props_named(
            props_views(m->Sizing_details@),
            m->Sizing_found@[at].0@,
        ) is Some && committed_of(text_pairs(m->Sizing_volumes@), m->Sizing_found@[at].0@)
            > u64::MAX ==> !res,
{
    if m is Sizing {
        let found = text_pairs(m->Sizing_found@);
        assert forall|i: int| 0 <= i < found.len() implies (#[trigger] found[i]).0
            == m->Sizing_found@[i].0@ by {}
        if 0 <= at < found.len() {
            assert(found[at].0 == m->Sizing_found@[at].0@);
        }
    }
}

/// A listing of pools ends with the first command which fails.
pub proof fn law_pool_list_failures(m: PoolList, error: Error, next: Step<PoolList, Vec<ZfsPool>>)
    requires
        m.resumed(Reply::Output(Err(error)), next),
    ensures
        next == Step::<PoolList, Vec<ZfsPool>>::Failed(error),
{
}

} // verus!
