//! Pools: listing them.
use vstd::prelude::*;
use crate::cli::{
    pairs_of, parse_pairs, parse_props, props_of, props_views, CmdView, DsProps, ZfsCmd,
    ZfsQueryArgs,
};
use crate::ds_pool::{
    build_pools, can_sum, candidates, datasets, matching_pools, pool_datasets, pool_views, pools_of,
    sums_fit, ZfsPool,
};
use crate::error::{Error, ErrorView};
use crate::operation::{fails, runs, Effect, Reply, Step};
use crate::property::PropertyType;
use crate::text::chars::{text_pairs, texts};
use crate::text::order::{insert_sorted, strictly_sorted};
use crate::text::split::{first_piece, first_piece_text};

verus! {

/// The properties fetched for the pool container dataset detail query.
pub const POOL_PROPS: &'static str = "used,available,quota,encryption,io.mayastor:pool,io.mayastor:disks,io.mayastor:volblocksize";

/// The command which discovers the datasets with a local pool property.
pub open spec fn discover_cmd() -> CmdView {
    CmdView::zfs(
        seq![
            "get"@,
            "-Hp"@,
            "-t"@,
            "filesystem"@,
            "-s"@,
            "local"@,
            "-o"@,
            "name,value"@,
            PropertyType::PoolUuid.key(),
        ],
    )
}

/// The command which fetches the properties of pools.
pub open spec fn detail_cmd(datasets: Seq<Seq<char>>) -> CmdView {
    CmdView::zfs(
        seq!["get"@, "-Hp"@, "-o"@, "name,property,value,source"@, POOL_PROPS@] + datasets,
    )
}

/// The command which lists the zvols of pools along with their sizes.
pub open spec fn volumes_cmd(datasets: Seq<Seq<char>>) -> CmdView {
    CmdView::zfs(
        seq!["list"@, "-Hp"@, "-r"@, "-t"@, "volume"@, "-o"@, "name,volsize"@] + datasets,
    )
}

/// The command which gets the sizes of zpools.
pub open spec fn sizes_cmd(zpools: Seq<Seq<char>>) -> CmdView {
    CmdView::of("zpool"@, seq!["get"@, "-Hp"@, "-o"@, "name,value"@, "size"@] + zpools)
}

/// The zpools of datasets, each of them once and in order.
pub open spec fn are_zpools(zpools: Seq<Seq<char>>, datasets: Seq<Seq<char>>) -> bool {
    &&& strictly_sorted(zpools)
    &&& zpools.to_set() == datasets.map_values(|ds: Seq<char>| first_piece(ds, '/')).to_set()
}

/// Listing pools.
#[derive(Debug)]
pub enum PoolList {
    /// The datasets with a local pool property are discovered.
    Discovering { query: ZfsQueryArgs },
    /// The properties of the pools are fetched.
    Detailing { found: Vec<(String, String)> },
    /// The zvols of the pools are listed.
    Summing { found: Vec<(String, String)>, details: Vec<DsProps> },
    /// The sizes of the zpools are fetched.
    Sizing {
        found: Vec<(String, String)>,
        details: Vec<DsProps>,
        volumes: Vec<(String, String)>,
    },
}

impl PoolList {
    /// The reply is the output of a command, and where the pools are built from it, the sizes that
    /// each of them commits can be added up.
    pub open spec fn awaits(self, reply: Reply) -> bool {
        match (self, reply) {
            (PoolList::Sizing { found, details, volumes }, Reply::Output(Ok(output))) => pairs_of(
                "zpool"@,
                output@,
            ) is Ok ==> sums_fit(
                text_pairs(found@),
                props_views(details@),
                text_pairs(volumes@),
            ),
            (_, Reply::Output(_)) => true,
            _ => false,
        }
    }

    /// How the listing goes on.
    pub open spec fn resumed(self, reply: Reply, next: Step<PoolList, Vec<ZfsPool>>) -> bool {
        match (self, reply) {
            (_, Reply::Output(Err(error))) => next == Step::<PoolList, Vec<ZfsPool>>::Failed(error),
            (PoolList::Discovering { query }, Reply::Output(Ok(output))) => match pairs_of(
                "zfs"@,
                output@,
            ) {
                Err(error) => fails(next, error),
                Ok(pairs) => {
                    let pools = candidates(pairs, query@);
                    if pools.len() == 0 {
                        next matches Step::Done(v) && v@.len() == 0
                    } else {
                        next matches Step::Do(Effect::Run(cmd), PoolList::Detailing { found })
                            && cmd@ == detail_cmd(datasets(pools)) && text_pairs(found@) == pools
                    }
                },
            },
            (PoolList::Detailing { found }, Reply::Output(Ok(output))) => match props_of(
                "zfs"@,
                output@,
            ) {
                Err(error) => fails(next, error),
                Ok(list) => next matches Step::Do(
                    Effect::Run(cmd),
                    PoolList::Summing { found: f, details },
                ) && cmd@ == volumes_cmd(datasets(text_pairs(found@))) && f == found
                    && props_views(details@) == list,
            },
            (PoolList::Summing { found, details }, Reply::Output(Ok(output))) => match pairs_of(
                "zfs"@,
                output@,
            ) {
                Err(error) => fails(next, error),
                Ok(pairs) => next matches Step::Do(
                    Effect::Run(cmd),
                    PoolList::Sizing { found: f, details: d, volumes },
                ) && sizes_asked(cmd@, datasets(text_pairs(found@))) && f == found && d == details
                    && text_pairs(volumes@) == pairs,
            },
            (PoolList::Sizing { found, details, volumes }, Reply::Output(Ok(output))) => {
                match pairs_of("zpool"@, output@) {
                    Err(error) => fails(next, error),
                    Ok(sizes) => next matches Step::Done(pools) && pool_views(pools@) == pools_of(
                        text_pairs(found@),
                        props_views(details@),
                        text_pairs(volumes@),
                        sizes,
                    ),
                }
            },
            _ => true,
        }
    }

    /// Whether the reply can be gone on with: where the pools are built from it, the sizes that
    /// each of them commits must not add up to more than can be told.
    pub fn accepts(&self, reply: &Reply) -> (res: bool)
        requires
            reply is Output,
        ensures
            res == self.awaits(*reply),
    {
        match (self, reply) {
            (PoolList::Sizing { found, details, volumes }, Reply::Output(Ok(output))) => {
                match parse_pairs("zpool", output.as_str()) {
                    Ok(_) => can_sum(found, details, volumes),
                    Err(_) => true,
                }
            },
            _ => true,
        }
    }

    /// Go on with the output of discovering the datasets.
    fn discovered(query: ZfsQueryArgs, output: String) -> (res: Step<PoolList, Vec<ZfsPool>>)
        ensures
            (PoolList::Discovering { query }).resumed(Reply::Output(Ok(output)), res),
    {
        let pairs = match parse_pairs("zfs", output.as_str()) {
            Ok(pairs) => pairs,
            Err(error) => {
                return Step::Failed(error);
            },
        };
        let found = matching_pools(pairs, &query);
        assert(text_pairs(found@).len() == found@.len());
        if found.len() == 0 {
            return Step::Done(Vec::new());
        }
        let names = pool_datasets(&found);
        let args: [&str; 4] = ["-Hp", "-o", "name,property,value,source", POOL_PROPS];
        let cmd = ZfsCmd::zfs("get").args(&args).arg_list(&names);
        assert(cmd@ =~= detail_cmd(texts(names@)));
        Step::Do(Effect::Run(cmd), PoolList::Detailing { found })
    }

    /// Go on with the output of fetching the properties.
    fn detailed(found: Vec<(String, String)>, output: String) -> (res: Step<
        PoolList,
        Vec<ZfsPool>,
    >)
        ensures
            (PoolList::Detailing { found }).resumed(Reply::Output(Ok(output)), res),
    {
        match parse_props("zfs", output.as_str()) {
            Err(error) => Step::Failed(error),
            Ok(details) => {
                let names = pool_datasets(&found);
                let args: [&str; 6] = ["-Hp", "-r", "-t", "volume", "-o", "name,volsize"];
                let cmd = ZfsCmd::zfs("list").args(&args).arg_list(&names);
                assert(cmd@ =~= volumes_cmd(texts(names@)));
                Step::Do(Effect::Run(cmd), PoolList::Summing { found, details })
            },
        }
    }

    /// Go on with the output of listing the zvols.
    fn summed(found: Vec<(String, String)>, details: Vec<DsProps>, output: String) -> (res: Step<
        PoolList,
        Vec<ZfsPool>,
    >)
        ensures
            (PoolList::Summing { found, details }).resumed(Reply::Output(Ok(output)), res),
    {
        match parse_pairs("zfs", output.as_str()) {
            Err(error) => Step::Failed(error),
            Ok(volumes) => {
                let names = pool_datasets(&found);
                let zpools = zpool_names(&names);
                let args: [&str; 4] = ["-Hp", "-o", "name,value", "size"];
                let cmd = ZfsCmd::zpool_get().args(&args).arg_list(&zpools);
                assert(cmd@ =~= sizes_cmd(texts(zpools@)));
                Step::Do(Effect::Run(cmd), PoolList::Sizing { found, details, volumes })
            },
        }
    }

    /// Go on with the reply.
    pub fn resume(self, reply: Reply) -> (res: Step<PoolList, Vec<ZfsPool>>)
        requires
            self.awaits(reply),
        ensures
            self.resumed(reply, res),
    {
        let output = match reply {
            Reply::Output(Ok(output)) => output,
            Reply::Output(Err(error)) => {
                return Step::Failed(error);
            },
            _ => {
                return unreached();
            },
        };
        match self {
            PoolList::Discovering { query } => PoolList::discovered(query, output),
            PoolList::Detailing { found } => PoolList::detailed(found, output),
            PoolList::Summing { found, details } => PoolList::summed(found, details, output),
            PoolList::Sizing { found, details, volumes } => {
                match parse_pairs("zpool", output.as_str()) {
                    Err(error) => Step::Failed(error),
                    Ok(sizes) => Step::Done(build_pools(found, &details, &volumes, &sizes)),
                }
            },
        }
    }
}

/// The command asks for the sizes of the zpools of the datasets.
pub open spec fn sizes_asked(cmd: CmdView, datasets: Seq<Seq<char>>) -> bool {
    exists|zpools: Seq<Seq<char>>|
        are_zpools(zpools, datasets) && cmd == #[trigger] sizes_cmd(zpools)
}

/// The zpools of datasets, each of them once and in order.
fn zpool_names(names: &Vec<String>) -> (res: Vec<String>)
    ensures
        are_zpools(texts(res@), texts(names@)),
{
    let ghost all = texts(names@);
    let ghost firsts = all.map_values(|ds: Seq<char>| first_piece(ds, '/'));
    let mut zpools: Vec<String> = Vec::new();
    proof {
        assert(texts(zpools@).to_set() =~= firsts.take(0).to_set());
    }
    for i in 0..names.len()
        invariant
            all == texts(names@),
            firsts == all.map_values(|ds: Seq<char>| first_piece(ds, '/')),
            strictly_sorted(texts(zpools@)),
            texts(zpools@).to_set() == firsts.take(i as int).to_set(),
    {
        assert(all[i as int] == names@[i as int]@);
        let zpool = first_piece_text(names[i].as_str(), '/');
        let ghost name = zpool@;
        insert_sorted(&mut zpools, zpool);
        proof {
            assert(firsts[i as int] == name);
            lemma_set_take(firsts, i as int);
        }
    }
    assert(firsts.take(firsts.len() as int) =~= firsts);
    zpools
}

/// One more element of a sequence is one more of the set.
proof fn lemma_set_take(list: Seq<Seq<char>>, i: int)
    requires
        0 <= i < list.len(),
    ensures
        list.take(i + 1).to_set() == list.take(i).to_set().insert(list[i]),
{
    let before = list.take(i);
    let after = list.take(i + 1);
    assert forall|x: Seq<char>| after.to_set().contains(x) == before.to_set().insert(
        list[i],
    ).contains(x) by {
        if after.contains(x) {
            let k = choose|k: int| 0 <= k < after.len() && after[k] == x;
            if k < i {
                assert(before[k] == x);
            }
        }
        if before.contains(x) {
            let k = choose|k: int| 0 <= k < before.len() && before[k] == x;
            assert(after[k] == x);
        }
        assert(after[i] == list[i]);
    }
    assert(after.to_set() =~= before.to_set().insert(list[i]));
}

/// Looking a pool up.
#[derive(Debug)]
pub struct PoolLookup {
    pub query: ZfsQueryArgs,
}

impl PoolLookup {
    /// How the lookup goes on: the first pool is the one looked for.
    pub open spec fn resumed(self, reply: Reply, next: Step<PoolLookup, ZfsPool>) -> bool {
        match reply {
            Reply::Pools(Err(error)) => next == Step::<PoolLookup, ZfsPool>::Failed(error),
            Reply::Pools(Ok(pools)) => if pools@.len() > 0 {
                next == Step::<PoolLookup, ZfsPool>::Done(pools@[0])
            } else {
                fails(next, ErrorView::NotFound { query: self.query@.display() })
            },
            _ => true,
        }
    }

    /// Go on with the reply.
    pub fn resume(self, reply: Reply) -> (res: Step<PoolLookup, ZfsPool>)
        requires
            reply is Pools,
        ensures
            self.resumed(reply, res),
    {
        match reply {
            Reply::Pools(listed) => match listed {
                Err(error) => Step::Failed(error),
                Ok(pools) => {
                    let mut pools = pools;
                    if pools.len() > 0 {
                        Step::Done(pools.swap_remove(0))
                    } else {
                        Step::Failed(Error::NotFound { query: self.query.query() })
                    }
                },
            },
            _ => unreached(),
        }
    }
}

impl ZfsPool {
    /// List all the ZFS pools owned by us, using the provided query options. A dataset is a pool
    /// iff it has a local io.mayastor:pool user property (inherited copies on child datasets do not
    /// count); the property value is the pool uuid.
    pub fn list(query: ZfsQueryArgs) -> (res: Step<PoolList, Vec<ZfsPool>>)
        ensures
            runs(res, discover_cmd(), PoolList::Discovering { query }),
    {
        let args: [&str; 8] = [
            "-Hp",
            "-t",
            "filesystem",
            "-s",
            "local",
            "-o",
            "name,value",
            PropertyType::PoolUuid.value(),
        ];
        let cmd = ZfsCmd::zfs("get").args(&args);
        assert(cmd@ =~= discover_cmd());
        Step::Do(Effect::Run(cmd), PoolList::Discovering { query })
    }

    /// Lookup a single ZFS pool owned by us.
    pub fn lookup(query: ZfsQueryArgs) -> (res: Step<PoolLookup, ZfsPool>)
        ensures
            res == Step::<PoolLookup, ZfsPool>::Do(
                Effect::ListPools(query),
                PoolLookup { query },
            ),
    {
        let listed = query.copy();
        Step::Do(Effect::ListPools(listed), PoolLookup { query })
    }
}

} // verus!
