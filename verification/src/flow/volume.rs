//! Replicas: listing, creating, destroying and resizing them.
use vstd::prelude::*;
use crate::cli::{
    lemma_one_prop, lemma_push_prop, lemma_with_props_add, optional, parse_props, props_of,
    props_views, strs, with_optional, CmdView, DsProps, DsPropsView, QueryView, ZfsCmd,
    ZfsQueryArgs,
};
use crate::dataset::{component_check, is_valid_dataset_component};
use crate::ds_pool::{PoolView, ZfsPool};
use crate::engine::{Protocol, ReplicaArgs};
use crate::error::{Error, ErrorView};
use crate::operation::{fails, runs, Effect, Reply, Step};
use crate::options::{
    can_round_up, lemma_volblocksize_positive, round_up, rounded_up, validate_volblocksize,
    volblocksize_check, zvol_opts_of, ZvolCreateOpts, ZvolOptsView,
};
use crate::property::{Property, PropertyView};
use crate::text::chars::{str_eq, text_opt, text_pairs};
use crate::text::decimal::{decimal, decimal_text};
use crate::zvol_replica::{
    device_path_of, vol_views, zvol_device, VolQueryArgs, VolQueryView, VolView, ZfsVol,
};

verus! {

/// The properties fetched for the zvol replica bulk query.
pub const VOL_PROPS: &'static str = "volsize,volblocksize,used,referenced,refreservation,usedbysnapshots,origin,encryption,io.mayastor:pool,io.mayastor:uuid,io.mayastor:name,io.mayastor:entity_id,io.mayastor:share,io.mayastor:allowed_hosts,io.mayastor:snapshot_uuid";

/// The command which fetches the zvols, those of the given container if there is one.
pub open spec fn fetch_cmd(dataset: Option<Seq<char>>) -> CmdView {
    let cmd = CmdView::zfs(
        seq!["get"@, "-Hp"@, "-t"@, "volume"@, "-o"@, "name,property,value,source"@, VOL_PROPS@],
    );
    match dataset {
        Some(dataset) => cmd.args(seq!["-d"@, "1"@, dataset]),
        None => cmd,
    }
}

/// The replicas among datasets which meet the list options.
pub open spec fn vols_of(list: Seq<DsPropsView>, query: VolQueryView) -> Seq<VolView>
    decreases list.len(),
{
    if list.len() == 0 {
        Seq::empty()
    } else {
        let rest = vols_of(list.drop_last(), query);
        match VolView::of_props(list.last()) {
            Some(vol) => if vol.meets(query) {
                rest.push(vol)
            } else {
                rest
            },
            None => rest,
        }
    }
}

/// Build the replicas which meet the list options.
fn build_vols(list: &Vec<DsProps>, query: &VolQueryArgs) -> (res: Vec<ZfsVol>)
    ensures
        vol_views(res@) == vols_of(props_views(list@), query@),
{
    let ghost all = props_views(list@);
    let mut vols: Vec<ZfsVol> = Vec::new();
    assert(vol_views(vols@) =~= Seq::empty());
    for i in 0..list.len()
        invariant
            all == props_views(list@),
            vol_views(vols@) == vols_of(all.take(i as int), query@),
    {
        let ghost before = vols@;
        proof {
            assert(all.take(i + 1).drop_last() =~= all.take(i as int));
            assert(all[i as int] == list@[i as int]@);
        }
        if let Some(vol) = ZfsVol::from_props(&list[i]) {
            if vol.matches(query) {
                vols.push(vol);
                assert(vol_views(vols@) =~= vol_views(before).push(vol@));
            }
        }
    }
    assert(all.take(all.len() as int) =~= all);
    vols
}

/// Listing replicas: they are fetched, and each of them is then opened as a bdev.
#[derive(Debug)]
pub enum VolList {
    /// The zvols are fetched.
    Fetching { query: VolQueryArgs },
    /// The replicas are opened, by now the one at the given position; with the last failure.
    Opening { vols: Vec<ZfsVol>, at: usize, error: Option<Error> },
}

impl VolList {
    /// There is a replica at the position.
    pub open spec fn wf(self) -> bool {
        self matches VolList::Opening { vols, at, .. } ==> at < vols@.len()
    }

    /// The reply is of the kind that is awaited.
    pub open spec fn awaits(self, reply: Reply) -> bool {
        match self {
            VolList::Fetching { .. } => reply is Output,
            VolList::Opening { .. } => reply is Opened,
        }
    }

    /// How the listing goes on with the replicas from the given position on.
    pub open spec fn opening(
        vols: Seq<VolView>,
        at: int,
        error: Option<Error>,
        next: Step<VolList, Vec<ZfsVol>>,
    ) -> bool {
        if at < vols.len() {
            next matches Step::Do(
                Effect::OpenVol(device),
                VolList::Opening { vols: v, at: a, error: e },
            ) && device.device_of(vols[at]) && vol_views(v@) == vols && a == at && e == error
        } else {
            match error {
                Some(error) => next == Step::<VolList, Vec<ZfsVol>>::Failed(error),
                None => next matches Step::Done(v) && vol_views(v@) == vols,
            }
        }
    }

    /// How the listing goes on.
    pub open spec fn resumed(self, reply: Reply, next: Step<VolList, Vec<ZfsVol>>) -> bool {
        match (self, reply) {
            (VolList::Fetching { .. }, Reply::Output(Err(error))) => next == Step::<
                VolList,
                Vec<ZfsVol>,
            >::Failed(error),
            (VolList::Fetching { query }, Reply::Output(Ok(output))) => match props_of(
                "zfs"@,
                output@,
            ) {
                Err(error) => fails(next, error),
                Ok(list) => VolList::opening(vols_of(list, query@), 0, None, next),
            },
            (VolList::Opening { vols, at, error }, Reply::Opened(Ok(bdev))) => {
                let views = vol_views(vols@);
                let vol = VolView { bdev: Some(bdev@), ..views[at as int] };
                VolList::opening(views.update(at as int, vol), at + 1, error, next)
            },
            (VolList::Opening { vols, at, .. }, Reply::Opened(Err(error))) => VolList::opening(
                vol_views(vols@),
                at + 1,
                Some(error),
                next,
            ),
            _ => true,
        }
    }

    /// Open the replicas from the given position on.
    fn open_from(vols: Vec<ZfsVol>, at: usize, error: Option<Error>) -> (res: Step<
        VolList,
        Vec<ZfsVol>,
    >)
        ensures
            VolList::opening(vol_views(vols@), at as int, error, res),
            res matches Step::Do(_, next) ==> next.wf(),
    {
        assert(vol_views(vols@).len() == vols@.len());
        if at < vols.len() {
            assert(vol_views(vols@)[at as int] == vols@[at as int]@);
            Step::Do(Effect::OpenVol(vols[at].device()), VolList::Opening { vols, at, error })
        } else {
            match error {
                Some(error) => Step::Failed(error),
                None => Step::Done(vols),
            }
        }
    }

    /// Go on with the reply. A replica that cannot be opened does not keep the others from being
    /// opened, but all of them must be for the listing to succeed.
    pub fn resume(self, reply: Reply) -> (res: Step<VolList, Vec<ZfsVol>>)
        requires
            self.wf(),
            self.awaits(reply),
        ensures
            self.resumed(reply, res),
            res matches Step::Do(_, next) ==> next.wf(),
    {
        match (self, reply) {
            (VolList::Fetching { query }, Reply::Output(output)) => match output {
                Err(error) => Step::Failed(error),
                Ok(output) => match parse_props("zfs", output.as_str()) {
                    Err(error) => Step::Failed(error),
                    Ok(list) => VolList::open_from(build_vols(&list, &query), 0, None),
                },
            },
            (VolList::Opening { vols, at, error }, Reply::Opened(opened)) => {
                let ghost views = vol_views(vols@);
                assert(views[at as int] == vols@[at as int]@);
                let count: usize = vols.len();
                assert(at < count);
                match opened {
                    Ok(bdev) => {
                        let mut vols = vols;
                        vols[at].set_bdev(Some(bdev));
                        assert(vol_views(vols@) =~= views.update(
                            at as int,
                            VolView { bdev: Some(bdev@), ..views[at as int] },
                        ));
                        VolList::open_from(vols, at + 1, error)
                    },
                    Err(error) => VolList::open_from(vols, at + 1, Some(error)),
                }
            },
            _ => unreached(),
        }
    }
}

/// Looking a replica up.
#[derive(Debug)]
pub struct VolLookup {
    pub query: VolQueryArgs,
}

impl VolLookup {
    /// How the lookup goes on: the first replica is the one looked for.
    pub open spec fn resumed(self, reply: Reply, next: Step<VolLookup, ZfsVol>) -> bool {
        match reply {
            Reply::Vols(Err(error)) => next == Step::<VolLookup, ZfsVol>::Failed(error),
            Reply::Vols(Ok(vols)) => if vols@.len() > 0 {
                next == Step::<VolLookup, ZfsVol>::Done(vols@[0])
            } else {
                fails(next, ErrorView::VolNotFound { query: self.query@.display() })
            },
            _ => true,
        }
    }

    /// Go on with the reply.
    pub fn resume(self, reply: Reply) -> (res: Step<VolLookup, ZfsVol>)
        requires
            reply is Vols,
        ensures
            self.resumed(reply, res),
    {
        match reply {
            Reply::Vols(listed) => match listed {
                Err(error) => Step::Failed(error),
                Ok(vols) => {
                    let mut vols = vols;
                    if vols.len() > 0 {
                        Step::Done(vols.swap_remove(0))
                    } else {
                        Step::Failed(Error::VolNotFound { query: self.query.query() })
                    }
                },
            },
            _ => unreached(),
        }
    }
}

/// The volblocksize of a replica which is asked for, or why it is refused.
pub open spec fn create_block(pool: PoolView, args: ReplicaArgs) -> Result<
    (ZvolOptsView, u64),
    ErrorView,
> {
    match component_check(args.uuid@) {
        Err(error) => Err(error),
        Ok(_) => match zvol_opts_of(text_pairs(args.properties@)) {
            Err(error) => Err(error),
            Ok(opts) => {
                let block = match opts.volblocksize {
                    Some(block) => block,
                    None => pool.volblocksize,
                };
                match volblocksize_check(block) {
                    Err(error) => Err(error),
                    Ok(_) => Ok((opts, block)),
                }
            },
        },
    }
}

/// The size of the replica can be rounded up to a multiple of its volblocksize.
pub open spec fn create_fits(pool: PoolView, args: ReplicaArgs) -> bool {
    create_block(pool, args) matches Ok((_, block)) ==> rounded_up(args.size, block) <= u64::MAX
}

/// The owner property of a replica, if it has an owner.
pub open spec fn replica_owner(args: ReplicaArgs) -> Option<PropertyView> {
    match args.entity_id {
        Some(id) => if id@.len() > 0 {
            Some(PropertyView::EntityId(id@))
        } else {
            None
        },
        None => None,
    }
}

/// The properties which persist what a replica is.
pub open spec fn replica_properties(args: ReplicaArgs) -> Seq<PropertyView> {
    (seq![PropertyView::VolUuid(args.uuid@), PropertyView::Name(args.name@)] + optional(
        replica_owner(args),
    )).push(PropertyView::Share(Protocol::Off))
}

/// The command which creates a zvol replica.
pub open spec fn create_cmd(
    dataset: Seq<char>,
    size: u64,
    block: u64,
    opts: ZvolOptsView,
    args: ReplicaArgs,
) -> CmdView {
    let cmd = CmdView::zfs(seq!["create"@]);
    let cmd = if args.thin {
        cmd.arg("-s"@)
    } else {
        cmd
    };
    cmd.args(seq!["-V"@, decimal(size as nat), "-b"@, decimal(block as nat)]).with_pairs(
        opts.props,
    ).with_props(replica_properties(args)).arg(dataset)
}

/// The query which finds the replica in the pool.
pub open spec fn created_query(pool: PoolView, uuid: Seq<char>) -> VolQueryView {
    VolQueryView {
        pool: QueryView { name: None, uuid: Some(pool.uuid) },
        vol: QueryView { name: None, uuid: Some(uuid) },
        dataset: Some(pool.dataset),
    }
}

/// The dataset of a child of the container.
pub open spec fn child_dataset(container: Seq<char>, name: Seq<char>) -> Seq<char> {
    container + "/"@ + name
}

/// The dataset of a child of the container.
pub fn child(container: &str, name: &str) -> (res: String)
    ensures
        res@ == child_dataset(container@, name@),
{
    container.to_owned().concat("/").concat(name)
}

/// Creating a replica.
#[derive(Debug)]
pub enum VolCreate {
    /// The zvol is created.
    Creating { args: ReplicaArgs, size: u64, device: String, query: VolQueryArgs },
    /// The device of the zvol is waited for; with the error, if the zvol existed before.
    Waiting { args: ReplicaArgs, size: u64, query: VolQueryArgs, existing: Option<Error> },
    /// The replica is looked up.
    Looking { args: ReplicaArgs, size: u64, existing: Option<Error> },
}

/// The replica is what the request would have created.
pub open spec fn as_requested(vol: VolView, args: ReplicaArgs, size: u64) -> bool {
    &&& vol.name == Some(args.name@)
    &&& vol.uuid == args.uuid@
    &&& vol.size == size
    &&& vol.entity_id == text_opt(args.entity_id)
    &&& vol.share_proto() != Some(Protocol::Nvmf)
}

impl VolCreate {
    /// The reply is of the kind that is awaited.
    pub open spec fn awaits(self, reply: Reply) -> bool {
        match self {
            VolCreate::Creating { .. } => reply is Output,
            VolCreate::Waiting { .. } => reply is Finished,
            VolCreate::Looking { .. } => reply is Vol,
        }
    }

    /// How the creation starts.
    pub open spec fn started(
        pool: PoolView,
        args: ReplicaArgs,
        next: Step<VolCreate, ZfsVol>,
    ) -> bool {
        match create_block(pool, args) {
            Err(error) => fails(next, error),
            Ok((opts, block)) => {
                let dataset = child_dataset(pool.dataset, args.uuid@);
                next matches Step::Do(
                    Effect::Run(cmd),
                    VolCreate::Creating { args: a, size, device, query },
                ) && size == rounded_up(args.size, block) && cmd@ == create_cmd(
                    dataset,
                    size,
                    block,
                    opts,
                    args,
                ) && a == args && device@ == device_path_of(dataset) && query@ == created_query(
                    pool,
                    args.uuid@,
                )
            },
        }
    }

    /// How the creation goes on.
    pub open spec fn resumed(self, reply: Reply, next: Step<VolCreate, ZfsVol>) -> bool {
        match (self, reply) {
            (VolCreate::Creating { args, size, device, query }, Reply::Output(output)) => {
                let existing = match output {
                    Ok(_) => None,
                    Err(error) => Some(error),
                };
                if output is Ok || output->Err_0 is Exists {
                    next == Step::<VolCreate, ZfsVol>::Do(
                        Effect::AwaitDevice(device),
                        VolCreate::Waiting { args, size, query, existing },
                    )
                } else {
                    next == Step::<VolCreate, ZfsVol>::Failed(output->Err_0)
                }
            },
            (VolCreate::Waiting { args, size, query, existing }, Reply::Finished(Ok(_))) => next
                == Step::<VolCreate, ZfsVol>::Do(
                Effect::LookupVol(query),
                VolCreate::Looking { args, size, existing },
            ),
            (VolCreate::Waiting { .. }, Reply::Finished(Err(error))) => next == Step::<
                VolCreate,
                ZfsVol,
            >::Failed(error),
            (VolCreate::Looking { .. }, Reply::Vol(Err(error))) => next == Step::<
                VolCreate,
                ZfsVol,
            >::Failed(error),
            (VolCreate::Looking { args, size, existing }, Reply::Vol(Ok(vol))) => match existing {
                None => next == Step::<VolCreate, ZfsVol>::Done(vol),
                Some(error) => if as_requested(vol@, args, size) {
                    next == Step::<VolCreate, ZfsVol>::Done(vol)
                } else {
                    next == Step::<VolCreate, ZfsVol>::Failed(error)
                },
            },
            _ => true,
        }
    }

    /// Whether the size of the replica can be rounded up to a multiple of its volblocksize.
    pub fn fits(pool: &ZfsPool, args: &ReplicaArgs) -> (res: bool)
        ensures
            res == create_fits(pool@, *args),
    {
        match VolCreate::block(pool, args) {
            Ok((_, block)) => {
                proof {
                    lemma_volblocksize_positive(block);
                }
                can_round_up(args.size, block)
            },
            Err(_) => true,
        }
    }

    /// The volblocksize of the replica, or why it is refused.
    fn block(pool: &ZfsPool, args: &ReplicaArgs) -> (res: Result<(ZvolCreateOpts, u64), Error>)
        ensures
            match res {
                Ok((opts, block)) => create_block(pool@, *args) == Ok::<
                    (ZvolOptsView, u64),
                    ErrorView,
                >((opts@, block)),
                Err(error) => create_block(pool@, *args) == Err::<(ZvolOptsView, u64), ErrorView>(
                    error@,
                ),
            },
    {
        if let Err(error) = is_valid_dataset_component(args.uuid.as_str()) {
            return Err(error);
        }
        let opts = match ZvolCreateOpts::try_from_properties(args.properties.as_slice()) {
            Ok(opts) => opts,
            Err(error) => {
                return Err(error);
            },
        };
        let block = match opts.volblocksize() {
            Some(block) => block,
            None => pool.volblocksize(),
        };
        if let Err(error) = validate_volblocksize(block) {
            return Err(error);
        }
        Ok((opts, block))
    }

    /// Whether the replica is what the request would have created.
    fn requested(vol: &ZfsVol, args: &ReplicaArgs, size: u64) -> (res: bool)
        ensures
            res == as_requested(vol@, *args, size),
    {
        let named = match vol.name() {
            Some(name) => str_eq(name.as_str(), args.name.as_str()),
            None => false,
        };
        let owned = match (vol.entity_id(), &args.entity_id) {
            (Some(id), Some(owner)) => str_eq(id.as_str(), owner.as_str()),
            (None, None) => true,
            _ => false,
        };
        let shared = match vol.share_proto() {
            Some(Protocol::Nvmf) => true,
            _ => false,
        };
        named && str_eq(vol.uuid(), args.uuid.as_str()) && vol.size() == size && owned && !shared
    }

    /// Go on with the reply. That the zvol exists already is no failure if it is what the request
    /// would have created.
    pub fn resume(self, reply: Reply) -> (res: Step<VolCreate, ZfsVol>)
        requires
            self.awaits(reply),
        ensures
            self.resumed(reply, res),
    {
        match (self, reply) {
            (VolCreate::Creating { args, size, device, query }, Reply::Output(output)) => {
                let existing = match output {
                    Ok(_) => None,
                    Err(error) => match error {
                        Error::Exists { error } => Some(Error::Exists { error }),
                        error => {
                            return Step::Failed(error);
                        },
                    },
                };
                Step::Do(
                    Effect::AwaitDevice(device),
                    VolCreate::Waiting { args, size, query, existing },
                )
            },
            (VolCreate::Waiting { args, size, query, existing }, Reply::Finished(waited)) => {
                match waited {
                    Ok(_) => Step::Do(
                        Effect::LookupVol(query),
                        VolCreate::Looking { args, size, existing },
                    ),
                    Err(error) => Step::Failed(error),
                }
            },
            (VolCreate::Looking { args, size, existing }, Reply::Vol(looked)) => match looked {
                Err(error) => Step::Failed(error),
                Ok(vol) => match existing {
                    None => Step::Done(vol),
                    Some(error) => {
                        if VolCreate::requested(&vol, &args, size) {
                            Step::Done(vol)
                        } else {
                            Step::Failed(error)
                        }
                    },
                },
            },
            _ => unreached(),
        }
    }
}

impl ZfsVol {
    /// Create a new zvol replica on the given pool. The replica size is rounded up to a multiple of
    /// the volblocksize, and any allow-listed per-replica properties override the pool defaults.
    pub fn create(pool: &ZfsPool, args: ReplicaArgs) -> (res: Step<VolCreate, ZfsVol>)
        requires
            create_fits(pool@, args),
        ensures
            VolCreate::started(pool@, args, res),
    {
        let (opts, block) = match VolCreate::block(pool, &args) {
            Ok(found) => found,
            Err(error) => {
                return Step::Failed(error);
            },
        };
        proof {
            lemma_volblocksize_positive(block);
        }
        let size = round_up(args.size, block);
        let dataset = child(pool.dataset(), args.uuid.as_str());
        let size_text = decimal_text(size);
        let block_text = decimal_text(block);
        let sizes: [&str; 4] = ["-V", size_text.as_str(), "-b", block_text.as_str()];
        assert(strs(sizes@) =~= seq![
            "-V"@,
            decimal(size as nat),
            "-b"@,
            decimal(block as nat),
        ]);
        let cmd = ZfsCmd::zfs("create").arg_if(args.thin, "-s").args(&sizes).pairs(opts.props());
        let owner = match &args.entity_id {
            Some(id) => {
                if id.as_str().unicode_len() > 0 {
                    Some(Property::EntityId(id.clone()))
                } else {
                    None
                }
            },
            None => None,
        };
        proof {
            let named = seq![PropertyView::VolUuid(args.uuid@), PropertyView::Name(args.name@)];
            let owned = named + optional(replica_owner(args));
            lemma_one_prop(cmd@, named[0]);
            lemma_push_prop(cmd@, seq![named[0]], named[1]);
            assert(seq![named[0]].push(named[1]) =~= named);
            lemma_with_props_add(cmd@, named, optional(replica_owner(args)));
            lemma_push_prop(cmd@, owned, PropertyView::Share(Protocol::Off));
        }
        let cmd = cmd.prop(Property::VolUuid(args.uuid.clone())).prop(
            Property::Name(args.name.clone()),
        );
        let cmd = with_optional(cmd, owner).prop(Property::Share(Protocol::Off)).arg(
            dataset.as_str(),
        );
        let query = VolQueryArgs::new().with_vol(
            ZfsQueryArgs::any().uuid(args.uuid.as_str()),
        ).with_pool(ZfsQueryArgs::any().uuid(pool.uuid())).scoped(pool.dataset());
        let device = zvol_device(dataset.as_str());
        Step::Do(Effect::Run(cmd), VolCreate::Creating { args, size, device, query })
    }

    /// List zvol replicas using the provided options as query criteria. The query is a single bulk
    /// "zfs get" whose output is filtered client-side. All zvols are imported as bdevs and all
    /// imports must succeed.
    pub fn list(query: VolQueryArgs) -> (res: Step<VolList, Vec<ZfsVol>>)
        ensures
            runs(res, fetch_cmd(query@.dataset), VolList::Fetching { query }),
    {
        let args: [&str; 6] = [
            "-Hp",
            "-t",
            "volume",
            "-o",
            "name,property,value,source",
            VOL_PROPS,
        ];
        let cmd = ZfsCmd::zfs("get").args(&args);
        assert(cmd@ =~= fetch_cmd(None));
        let cmd = match &query.dataset {
            Some(dataset) => {
                let scope: [&str; 3] = ["-d", "1", dataset.as_str()];
                assert(strs(scope@) =~= seq!["-d"@, "1"@, dataset@]);
                cmd.args(&scope)
            },
            None => cmd,
        };
        Step::Do(Effect::Run(cmd), VolList::Fetching { query })
    }

    /// Lookup a single zvol replica.
    pub fn lookup(query: VolQueryArgs) -> (res: Step<VolLookup, ZfsVol>)
        ensures
            res matches Step::Do(Effect::ListVols(listed), VolLookup { query: q }) && listed
                == query && q == query,
    {
        let listed = query.copy();
        Step::Do(Effect::ListVols(listed), VolLookup { query })
    }
}

} // verus!
