//! Pools: exporting and destroying them.
use vstd::prelude::*;
use crate::cli::{
    parse_props, props_of, props_views, CmdView, DsProps, DsPropsView, QueryView, ZfsCmd,
    ZfsQueryArgs,
};
use crate::ds_pool::ZfsPool;
use crate::engine::ReplicaArgs;
use crate::error::{Error, ErrorView};
use crate::flow::pool_create::pool_vols_query;
use crate::flow::volume::{create_fits, fetch_cmd, VolCreate, VolList};
use crate::operation::{fails, runs, Effect, Reply, Step};
use crate::property::{Property, PropertyType};
use crate::ptpl::ZfsPoolPtpl;
use crate::text::chars::{str_eq, texts};
use crate::zvol_replica::{vol_views, VolQueryArgs, VolView, ZfsVol};

verus! {

/// The command which drops the ownership of a pool.
pub open spec fn inherit_cmd(dataset: Seq<char>) -> CmdView {
    CmdView::zfs(seq!["inherit"@, PropertyType::PoolUuid.key(), dataset])
}

/// The position of the first replica from the given one on whose bdev is open; the number of
/// replicas where there is none.
pub open spec fn next_open(vols: Seq<VolView>, at: int) -> int
    decreases vols.len() - at,
{
    if at >= vols.len() {
        vols.len() as int
    } else if vols[at].bdev is Some {
        at
    } else {
        next_open(vols, at + 1)
    }
}

/// Exporting a pool: the bdevs of its replicas are closed, and then its ownership is dropped.
#[derive(Debug)]
pub enum PoolExport {
    /// The replicas are listed.
    Listing { dataset: String },
    /// A bdev is closed, after which those of the replicas from the given position on are.
    Closing { dataset: String, vols: Vec<ZfsVol>, at: usize },
    /// The pool property is removed from the container dataset.
    Inheriting,
}

impl PoolExport {
    /// The reply is of the kind that is awaited.
    pub open spec fn awaits(self, reply: Reply) -> bool {
        match self {
            PoolExport::Listing { .. } => reply is Vols,
            PoolExport::Closing { .. } => reply is Finished,
            PoolExport::Inheriting => reply is Output,
        }
    }

    /// How the export goes on with the replicas from the given position on.
    pub open spec fn closing(
        dataset: String,
        vols: Vec<ZfsVol>,
        at: int,
        next: Step<PoolExport, ()>,
    ) -> bool {
        let views = vol_views(vols@);
        let open = next_open(views, at);
        if open < views.len() {
            next matches Step::Do(
                Effect::CloseBdev(uri),
                PoolExport::Closing { dataset: d, vols: v, at: a },
            ) && uri@ == views[open].bdev->0.open_uri && d == dataset && v == vols && a == open + 1
        } else {
            runs(next, inherit_cmd(dataset@), PoolExport::Inheriting)
        }
    }

    /// How the export goes on.
    pub open spec fn resumed(self, reply: Reply, next: Step<PoolExport, ()>) -> bool {
        match (self, reply) {
            (PoolExport::Listing { dataset }, Reply::Vols(Ok(vols))) => PoolExport::closing(
                dataset,
                vols,
                0,
                next,
            ),
            (PoolExport::Listing { .. }, Reply::Vols(Err(error))) => next == Step::<
                PoolExport,
                (),
            >::Failed(error),
            (PoolExport::Closing { dataset, vols, at }, Reply::Finished(Ok(_))) => {
                PoolExport::closing(dataset, vols, at as int, next)
            },
            (PoolExport::Closing { .. }, Reply::Finished(Err(error))) => next == Step::<
                PoolExport,
                (),
            >::Failed(error),
            (PoolExport::Inheriting, Reply::Output(Ok(_))) => next == Step::<PoolExport, ()>::Done(
                (),
            ),
            (PoolExport::Inheriting, Reply::Output(Err(error))) => next == Step::<
                PoolExport,
                (),
            >::Failed(error),
            _ => true,
        }
    }

    /// Close the bdevs of the replicas from the given position on, and then drop the ownership.
    fn close_from(dataset: String, vols: Vec<ZfsVol>, at: usize) -> (res: Step<PoolExport, ()>)
        ensures
            PoolExport::closing(dataset, vols, at as int, res),
    {
        let ghost views = vol_views(vols@);
        let mut i: usize = at;
        while i < vols.len()
            invariant
                views == vol_views(vols@),
                next_open(views, at as int) == next_open(views, i as int),
            decreases vols@.len() - i,
        {
            assert(views[i as int] == vols@[i as int]@);
            if let Ok(uri) = vols[i].open_uri() {
                return Step::Do(
                    Effect::CloseBdev(uri),
                    PoolExport::Closing { dataset, vols, at: i + 1 },
                );
            }
            i = i + 1;
        }
        let key = Property::PoolUuid(String::new()).inherit_arg();
        let cmd = ZfsCmd::zfs("inherit").arg(key.as_str()).arg(dataset.as_str());
        assert(cmd@ =~= inherit_cmd(dataset@));
        Step::Do(Effect::Run(cmd), PoolExport::Inheriting)
    }

    /// Export the pool with the given container dataset.
    pub fn start(dataset: String) -> (res: Step<PoolExport, ()>)
        ensures
            res matches Step::Do(Effect::ListVols(query), state) && query@ == pool_vols_query(
                dataset@,
            ) && state == (PoolExport::Listing { dataset }),
    {
        let query = VolQueryArgs::new().scoped(dataset.as_str());
        Step::Do(Effect::ListVols(query), PoolExport::Listing { dataset })
    }

    /// Go on with the reply.
    pub fn resume(self, reply: Reply) -> (res: Step<PoolExport, ()>)
        requires
            self.awaits(reply),
        ensures
            self.resumed(reply, res),
    {
        match (self, reply) {
            (PoolExport::Listing { dataset }, Reply::Vols(listed)) => match listed {
                Ok(vols) => PoolExport::close_from(dataset, vols, 0),
                Err(error) => Step::Failed(error),
            },
            (PoolExport::Closing { dataset, vols, at }, Reply::Finished(closed)) => match closed {
                Ok(_) => PoolExport::close_from(dataset, vols, at),
                Err(error) => Step::Failed(error),
            },
            (PoolExport::Inheriting, Reply::Output(output)) => match output {
                Ok(_) => Step::Done(()),
                Err(error) => Step::Failed(error),
            },
            _ => unreached(),
        }
    }
}

/// Exporting all pools, as far as they can be.
#[derive(Debug)]
pub enum PoolExportAll {
    /// The pools are listed.
    Listing,
    /// A pool is exported, after which those with the given container datasets are, the last of
    /// them first.
    Exporting { rest: Vec<String> },
}

/// The container datasets of pools.
pub open spec fn containers(pools: Seq<ZfsPool>) -> Seq<Seq<char>> {
    pools.map_values(|p: ZfsPool| p@.dataset)
}

impl PoolExportAll {
    /// The reply is of the kind that is awaited.
    pub open spec fn awaits(self, reply: Reply) -> bool {
        match self {
            PoolExportAll::Listing => reply is Pools,
            PoolExportAll::Exporting { .. } => reply is Finished,
        }
    }

    /// How the export goes on with the pools that are left, the last of them first.
    pub open spec fn exporting(rest: Seq<Seq<char>>, next: Step<PoolExportAll, ()>) -> bool {
        if rest.len() > 0 {
            next matches Step::Do(
                Effect::ExportPool(dataset),
                PoolExportAll::Exporting { rest: left },
            ) && dataset@ == rest.last() && texts(left@) == rest.drop_last()
        } else {
            next == Step::<PoolExportAll, ()>::Done(())
        }
    }

    /// How the export goes on: what fails is passed over.
    pub open spec fn resumed(self, reply: Reply, next: Step<PoolExportAll, ()>) -> bool {
        match (self, reply) {
            (PoolExportAll::Listing, Reply::Pools(Ok(pools))) => PoolExportAll::exporting(
                containers(pools@).reverse(),
                next,
            ),
            (PoolExportAll::Listing, Reply::Pools(Err(_))) => next == Step::<
                PoolExportAll,
                (),
            >::Done(()),
            (PoolExportAll::Exporting { rest }, Reply::Finished(_)) => PoolExportAll::exporting(
                texts(rest@),
                next,
            ),
            _ => true,
        }
    }

    /// Export the pools that are left, the last of them first.
    fn export_rest(rest: Vec<String>) -> (res: Step<PoolExportAll, ()>)
        ensures
            PoolExportAll::exporting(texts(rest@), res),
    {
        let mut rest = rest;
        let ghost before = rest@;
        assert(texts(before).len() == before.len());
        match rest.pop() {
            Some(dataset) => {
                assert(texts(rest@) =~= texts(before).drop_last());
                assert(texts(before).last() == before.last()@);
                Step::Do(Effect::ExportPool(dataset), PoolExportAll::Exporting { rest })
            },
            None => Step::Done(()),
        }
    }

    /// Go on with the reply.
    pub fn resume(self, reply: Reply) -> (res: Step<PoolExportAll, ()>)
        requires
            self.awaits(reply),
        ensures
            self.resumed(reply, res),
    {
        match (self, reply) {
            (PoolExportAll::Listing, Reply::Pools(listed)) => match listed {
                Ok(pools) => {
                    let ghost all = containers(pools@).reverse();
                    let mut rest: Vec<String> = Vec::new();
                    let n = pools.len();
                    for i in 0..n
                        invariant
                            n == pools@.len(),
                            all == containers(pools@).reverse(),
                            texts(rest@) == all.take(i as int),
                    {
                        let ghost before = rest@;
                        rest.push(pools[n - 1 - i].dataset().to_owned());
                        assert(all[i as int] == pools@[n - 1 - i]@.dataset);
                        assert(texts(rest@) =~= texts(before).push(all[i as int]));
                        assert(all.take(i + 1) =~= all.take(i as int).push(all[i as int]));
                    }
                    assert(all.take(all.len() as int) =~= all);
                    PoolExportAll::export_rest(rest)
                },
                Err(_) => Step::Done(()),
            },
            (PoolExportAll::Exporting { rest }, Reply::Finished(_)) => {
                PoolExportAll::export_rest(rest)
            },
            _ => unreached(),
        }
    }
}

/// The command which fetches the uuids of the children of a pool.
pub open spec fn children_cmd(dataset: Seq<char>) -> CmdView {
    CmdView::zfs(
        seq![
            "get"@,
            "-Hp"@,
            "-r"@,
            "-t"@,
            "filesystem,volume"@,
            "-o"@,
            "name,property,value,source"@,
            PropertyType::VolUuid.key(),
            dataset,
        ],
    )
}

/// The command which destroys the container dataset of a pool with all that it contains.
pub open spec fn pool_destroy_cmd(dataset: Seq<char>) -> CmdView {
    CmdView::zfs(seq!["destroy"@, "-r"@, dataset])
}

/// The dataset is neither the container itself nor owned by us.
pub open spec fn is_foreign(child: DsPropsView, container: Seq<char>) -> bool {
    child.name != container && child.local(PropertyType::VolUuid.key()) is None
}

/// The names of the foreign datasets among the children of a pool.
pub open spec fn foreign_of(children: Seq<DsPropsView>, container: Seq<char>) -> Seq<Seq<char>>
    decreases children.len(),
{
    if children.len() == 0 {
        Seq::empty()
    } else {
        let rest = foreign_of(children.drop_last(), container);
        if is_foreign(children.last(), container) {
            rest.push(children.last().name)
        } else {
            rest
        }
    }
}

/// The names of the foreign datasets among the children of a pool.
fn foreign_datasets(children: &Vec<DsProps>, container: &str) -> (res: Vec<String>)
    ensures
        texts(res@) == foreign_of(props_views(children@), container@),
{
    let ghost all = props_views(children@);
    let mut names: Vec<String> = Vec::new();
    assert(texts(names@) =~= Seq::empty());
    for i in 0..children.len()
        invariant
            all == props_views(children@),
            texts(names@) == foreign_of(all.take(i as int), container@),
    {
        let ghost before = names@;
        proof {
            assert(all.take(i + 1).drop_last() =~= all.take(i as int));
            assert(all[i as int] == children@[i as int]@);
        }
        let child = &children[i];
        if !str_eq(child.name(), container) && child.local(PropertyType::VolUuid.value()).is_none()
        {
            names.push(child.name().to_owned());
            assert(texts(names@) =~= texts(before).push(all[i as int].name));
        }
    }
    assert(all.take(all.len() as int) =~= all);
    names
}

/// Destroying a pool along with all its replicas and snapshots.
#[derive(Debug)]
pub enum PoolDestroy {
    /// The children of the container dataset are inspected.
    Inspecting { pool: ZfsPool },
    /// The pool is exported.
    Exporting { pool: ZfsPool },
    /// The container dataset is destroyed.
    Destroying { ptpl: ZfsPoolPtpl },
    /// The persist through power loss files are removed.
    Removing,
}

impl PoolDestroy {
    /// The reply is of the kind that is awaited.
    pub open spec fn awaits(self, reply: Reply) -> bool {
        match self {
            PoolDestroy::Inspecting { .. } | PoolDestroy::Destroying { .. } => reply is Output,
            PoolDestroy::Exporting { .. } => reply is Finished,
            PoolDestroy::Removing => reply is Noted,
        }
    }

    /// How the destruction goes on: it is refused where there are foreign datasets, rather than to
    /// eat foreign data.
    pub open spec fn resumed(self, reply: Reply, next: Step<PoolDestroy, ()>) -> bool {
        match (self, reply) {
            (_, Reply::Output(Err(error))) => next == Step::<PoolDestroy, ()>::Failed(error),
            (PoolDestroy::Inspecting { pool }, Reply::Output(Ok(output))) => match props_of(
                "zfs"@,
                output@,
            ) {
                Err(error) => fails(next, error),
                Ok(children) => {
                    let foreign = foreign_of(children, pool@.dataset);
                    if foreign.len() > 0 {
                        fails(next, ErrorView::ForeignDatasets { datasets: foreign })
                    } else {
                        next matches Step::Do(Effect::ExportPool(dataset), state) && dataset@
                            == pool@.dataset && state == (PoolDestroy::Exporting { pool })
                    }
                },
            },
            (PoolDestroy::Exporting { .. }, Reply::Finished(Err(error))) => next == Step::<
                PoolDestroy,
                (),
            >::Failed(error),
            (PoolDestroy::Exporting { pool }, Reply::Finished(Ok(_))) => next matches Step::Do(
                Effect::Run(cmd),
                PoolDestroy::Destroying { ptpl },
            ) && cmd@ == pool_destroy_cmd(pool@.dataset) && ptpl.pool_name() == pool@.name,
            (PoolDestroy::Destroying { ptpl }, Reply::Output(Ok(_))) => next == Step::<
                PoolDestroy,
                (),
            >::Do(Effect::RemovePoolPtpl(ptpl), PoolDestroy::Removing),
            (PoolDestroy::Removing, Reply::Noted) => next == Step::<PoolDestroy, ()>::Done(()),
            _ => true,
        }
    }

    /// Go on with the reply.
    pub fn resume(self, reply: Reply) -> (res: Step<PoolDestroy, ()>)
        requires
            self.awaits(reply),
        ensures
            self.resumed(reply, res),
    {
        match (self, reply) {
            (PoolDestroy::Inspecting { pool }, Reply::Output(output)) => match output {
                Err(error) => Step::Failed(error),
                Ok(output) => match parse_props("zfs", output.as_str()) {
                    Err(error) => Step::Failed(error),
                    Ok(children) => {
                        let foreign = foreign_datasets(&children, pool.dataset());
                        assert(texts(foreign@).len() == foreign@.len());
                        if foreign.len() > 0 {
                            return Step::Failed(Error::ForeignDatasets { datasets: foreign });
                        }
                        Step::Do(
                            Effect::ExportPool(pool.dataset().to_owned()),
                            PoolDestroy::Exporting { pool },
                        )
                    },
                },
            },
            (PoolDestroy::Exporting { pool }, Reply::Finished(exported)) => match exported {
                Err(error) => Step::Failed(error),
                Ok(_) => {
                    let cmd = ZfsCmd::zfs("destroy").arg("-r").arg(pool.dataset());
                    assert(cmd@ =~= pool_destroy_cmd(pool@.dataset));
                    Step::Do(Effect::Run(cmd), PoolDestroy::Destroying { ptpl: pool.ptpl() })
                },
            },
            (PoolDestroy::Destroying { ptpl }, Reply::Output(output)) => match output {
                Err(error) => Step::Failed(error),
                Ok(_) => Step::Do(Effect::RemovePoolPtpl(ptpl), PoolDestroy::Removing),
            },
            (PoolDestroy::Removing, Reply::Noted) => Step::Done(()),
            _ => unreached(),
        }
    }
}

impl ZfsPool {
    /// Delete the ZFS pool along with all its replicas and snapshots. The pool is kept if it
    /// contains foreign child datasets: any child dataset lacking a local io.mayastor:uuid property
    /// was not created by us.
    pub fn destroy(self) -> (res: Step<PoolDestroy, ()>)
        ensures
            runs(res, children_cmd(self@.dataset), PoolDestroy::Inspecting { pool: self }),
    {
        let list: [&str; 8] = [
            "-Hp",
            "-r",
            "-t",
            "filesystem,volume",
            "-o",
            "name,property,value,source",
            PropertyType::VolUuid.value(),
            self.dataset(),
        ];
        let cmd = ZfsCmd::zfs("get").args(&list);
        assert(cmd@ =~= children_cmd(self@.dataset));
        Step::Do(Effect::Run(cmd), PoolDestroy::Inspecting { pool: self })
    }

    /// Exports the ZFS pool by unloading all zvol bdevs and finally removing the local
    /// io.mayastor:pool property from the container dataset. The pool will no longer be listable
    /// until it is imported again.
    pub fn export(&self) -> (res: Step<PoolExport, ()>)
        ensures
            res matches Step::Do(Effect::ListVols(query), PoolExport::Listing { dataset }) && query@
                == pool_vols_query(self@.dataset) && dataset@ == self@.dataset,
    {
        PoolExport::start(self.dataset().to_owned())
    }

    /// Export all ZFS pool instances.
    pub fn export_all() -> (res: Step<PoolExportAll, ()>)
        ensures
            res matches Step::Do(Effect::ListPools(query), PoolExportAll::Listing) && query@
                == QueryView::any(),
    {
        Step::Do(Effect::ListPools(ZfsQueryArgs::any()), PoolExportAll::Listing)
    }

    /// Creates a `ZfsVol` replica from this `ZfsPool`.
    pub fn create_zvol(&self, args: ReplicaArgs) -> (res: Step<VolCreate, ZfsVol>)
        requires
            create_fits(self@, args),
        ensures
            VolCreate::started(self@, args, res),
    {
        ZfsVol::create(self, args)
    }

    /// List the zvol replicas owned by this pool, importing their bdevs.
    pub fn list_vols(&self) -> (res: Step<VolList, Vec<ZfsVol>>)
        ensures
            res matches Step::Do(Effect::Run(cmd), VolList::Fetching { query }) && cmd@
                == fetch_cmd(Some(self@.dataset)) && query@ == pool_vols_query(self@.dataset),
    {
        ZfsVol::list(VolQueryArgs::new().scoped(self.dataset()))
    }
}

} // verus!
