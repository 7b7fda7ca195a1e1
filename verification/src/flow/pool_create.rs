//! Pools: creating and importing them.
use vstd::prelude::*;
use crate::cli::{
    find_props, lemma_one_prop, lemma_push_prop, parse_props, props_named, props_of, props_views,
    property_views, CmdView, DsProps, DsPropsView, QueryView, ZfsCmd, ZfsQueryArgs,
};
use crate::dataset::{component_check, is_valid_dataset_component};
use crate::ds_pool::{volblocksize_default, ZfsPool};
use crate::engine::PoolArgs;
use crate::error::{result_view, Error, ErrorView};
use crate::flow::pool_list::POOL_PROPS;
use crate::flow::share::set_cmd;
use crate::flow::volume::{child, child_dataset};
use crate::operation::{fails, runs, Effect, Reply, Step};
use crate::options::{pool_opts_of_disks, PoolOptsView, ZfsPoolOpts};
use crate::outside::{is_uuid_v4, random_uuid};
use crate::property::{Property, PropertyType, PropertyView};
use crate::text::chars::{str_eq, str_opt, texts};
use crate::text::decimal::{decimal, decimal_text};
use crate::zvol_replica::{VolQueryArgs, VolQueryView};

verus! {

/// The container dataset of a pool.
pub open spec fn container_of(args: PoolArgs, opts: PoolOptsView) -> Seq<char> {
    child_dataset(opts.parent, args.name@)
}

/// The query which finds a pool by its name and uuid.
pub open spec fn pool_query(name: Seq<char>, uuid: Seq<char>) -> QueryView {
    QueryView { name: Some(name), uuid: Some(uuid) }
}

/// The uuid that is asked for, or a fresh one where none is.
pub open spec fn uuid_or(args: PoolArgs, fresh: Seq<char>) -> Seq<char> {
    match args.uuid {
        Some(uuid) => uuid@,
        None => fresh,
    }
}

/// A fresh uuid which may be taken where none is asked for.
pub open spec fn is_fresh(args: PoolArgs, fresh: Seq<char>) -> bool {
    args.uuid is None ==> is_uuid_v4(fresh)
}

/// A fresh uuid, where none is asked for.
fn fresh_uuid(args: &PoolArgs) -> (res: String)
    ensures
        is_fresh(*args, res@),
{
    match &args.uuid {
        Some(_) => String::new(),
        None => random_uuid(),
    }
}

/// The uuid that is asked for, or the fresh one where none is.
fn chosen_uuid(args: &PoolArgs, fresh: String) -> (res: String)
    ensures
        res@ == uuid_or(*args, fresh@),
{
    match &args.uuid {
        Some(uuid) => uuid.clone(),
        None => fresh,
    }
}

/// The command which fetches the properties of the container dataset.
pub open spec fn inspect_cmd(dataset: Seq<char>) -> CmdView {
    CmdView::zfs(
        seq![
            "get"@,
            "-Hp"@,
            "-t"@,
            "filesystem"@,
            "-o"@,
            "name,property,value,source"@,
            POOL_PROPS@,
            dataset,
        ],
    )
}

/// The parent dataset persisted for a pool, if any, is that of the request.
pub open spec fn disks_check(persisted: Option<Seq<char>>, opts: PoolOptsView) -> Result<
    (),
    ErrorView,
> {
    match persisted {
        None => Ok(()),
        Some(disks) => match pool_opts_of_disks(seq![disks]) {
            Err(error) => Err(error),
            Ok(before) => if before.parent == opts.parent {
                Ok(())
            } else {
                Err(ErrorView::DisksMismatch { args: opts.disks, pool: disks })
            },
        },
    }
}

/// The uuid persisted for a pool, if any, is that of the request, if it asks for one.
pub open spec fn uuid_check(persisted: Option<Seq<char>>, asked: Option<String>) -> Result<
    (),
    ErrorView,
> {
    match (persisted, asked) {
        (Some(uuid), Some(arg)) => if arg@ == uuid {
            Ok(())
        } else {
            Err(ErrorView::UuidMismatch { args: arg@, pool: uuid })
        },
        _ => Ok(()),
    }
}

/// The uuid of the adopted pool: the persisted one, if there is one.
pub open spec fn adopted_uuid(props: DsPropsView, args: PoolArgs, fresh: Seq<char>) -> Seq<char> {
    match props.local(PropertyType::PoolUuid.key()) {
        Some(uuid) => uuid,
        None => uuid_or(args, fresh),
    }
}

/// The uuid property which is to be asserted, if it is not set on the dataset itself.
pub open spec fn missing_uuid(props: DsPropsView, uuid: Seq<char>) -> Seq<PropertyView> {
    match props.local(PropertyType::PoolUuid.key()) {
        Some(_) => Seq::empty(),
        None => seq![PropertyView::PoolUuid(uuid)],
    }
}

/// The disks property which is to be asserted, if it is not set on the dataset itself.
pub open spec fn missing_disks(props: DsPropsView, disks: Seq<char>) -> Seq<PropertyView> {
    match props.local(PropertyType::PoolDisks.key()) {
        Some(_) => Seq::empty(),
        None => seq![PropertyView::PoolDisks(disks)],
    }
}

/// The volblocksize property which is to be asserted, if it is not set on the dataset itself.
pub open spec fn missing_block(
    props: DsPropsView,
    args: PoolArgs,
    opts: PoolOptsView,
) -> Result<Seq<PropertyView>, ErrorView> {
    match props.local(PropertyType::PoolVolBlockSize.key()) {
        Some(_) => Ok(Seq::empty()),
        None => match volblocksize_default(args.cluster_size, opts) {
            Ok(size) => Ok(seq![PropertyView::PoolVolBlockSize(size)]),
            Err(error) => Err(error),
        },
    }
}

/// What is to be asserted on the container dataset to adopt it, or why it is refused.
pub open spec fn missing_props(
    props: DsPropsView,
    args: PoolArgs,
    opts: PoolOptsView,
    fresh: Seq<char>,
) -> Result<Seq<PropertyView>, ErrorView> {
    match disks_check(props.local(PropertyType::PoolDisks.key()), opts) {
        Err(error) => Err(error),
        Ok(_) => match uuid_check(props.local(PropertyType::PoolUuid.key()), args.uuid) {
            Err(error) => Err(error),
            Ok(_) => match missing_block(props, args, opts) {
                Err(error) => Err(error),
                Ok(block) => Ok(
                    missing_uuid(props, uuid_or(args, fresh)) + missing_disks(props, opts.disks)
                        + block,
                ),
            },
        },
    }
}

/// Adopting a pool by asserting ownership of its container dataset.
#[derive(Debug)]
pub enum PoolAdopt {
    /// The properties of the container dataset are fetched.
    Inspecting { args: PoolArgs, opts: ZfsPoolOpts },
    /// The missing properties are set.
    Asserting { query: ZfsQueryArgs },
    /// The pool is looked up.
    Looking,
}

impl PoolAdopt {
    /// The reply is of the kind that is awaited.
    pub open spec fn awaits(self, reply: Reply) -> bool {
        match self {
            PoolAdopt::Inspecting { .. } | PoolAdopt::Asserting { .. } => reply is Output,
            PoolAdopt::Looking => reply is Pool,
        }
    }

    /// How the adoption starts.
    pub open spec fn started(
        args: PoolArgs,
        opts: ZfsPoolOpts,
        next: Step<PoolAdopt, ZfsPool>,
    ) -> bool {
        match component_check(args.name@) {
            Err(error) => fails(next, error),
            Ok(_) => runs(
                next,
                inspect_cmd(container_of(args, opts@)),
                PoolAdopt::Inspecting { args, opts },
            ),
        }
    }

    /// How the adoption goes on with the fetched properties, where the fresh uuid is taken if it
    /// is needed.
    pub open spec fn inspected(
        args: PoolArgs,
        opts: PoolOptsView,
        details: Seq<DsPropsView>,
        fresh: Seq<char>,
        next: Step<PoolAdopt, ZfsPool>,
    ) -> bool {
        let dataset = container_of(args, opts);
        match props_named(details, dataset) {
            None => fails(next, ErrorView::NotFound { query: dataset }),
            Some(props) => match missing_props(props, args, opts, fresh) {
                Err(error) => fails(next, error),
                Ok(missing) => {
                    let found = pool_query(args.name@, adopted_uuid(props, args, fresh));
                    if missing.len() > 0 {
                        next matches Step::Do(Effect::Run(cmd), PoolAdopt::Asserting { query })
                            && cmd@ == set_cmd(dataset, missing) && query@ == found
                    } else {
                        next matches Step::Do(Effect::LookupPool(query), PoolAdopt::Looking)
                            && query@ == found
                    }
                },
            },
        }
    }

    /// How the adoption goes on with the fetched properties, whatever fresh uuid is taken.
    pub open spec fn adopted(
        args: PoolArgs,
        opts: PoolOptsView,
        details: Seq<DsPropsView>,
        next: Step<PoolAdopt, ZfsPool>,
    ) -> bool {
        exists|fresh: Seq<char>|
            is_fresh(args, fresh) && #[trigger] PoolAdopt::inspected(
                args,
                opts,
                details,
                fresh,
                next,
            )
    }

    /// How the adoption goes on.
    pub open spec fn resumed(self, reply: Reply, next: Step<PoolAdopt, ZfsPool>) -> bool {
        match (self, reply) {
            (_, Reply::Output(Err(error))) => next == Step::<PoolAdopt, ZfsPool>::Failed(error),
            (PoolAdopt::Inspecting { args, opts }, Reply::Output(Ok(output))) => match props_of(
                "zfs"@,
                output@,
            ) {
                Err(error) => fails(next, error),
                Ok(details) => PoolAdopt::adopted(args, opts@, details, next),
            },
            (PoolAdopt::Asserting { query }, Reply::Output(Ok(_))) => next == Step::<
                PoolAdopt,
                ZfsPool,
            >::Do(Effect::LookupPool(query), PoolAdopt::Looking),
            (PoolAdopt::Looking, Reply::Pool(Ok(pool))) => next == Step::<PoolAdopt, ZfsPool>::Done(
                pool,
            ),
            (PoolAdopt::Looking, Reply::Pool(Err(error))) => next == Step::<
                PoolAdopt,
                ZfsPool,
            >::Failed(error),
            _ => true,
        }
    }

    /// Check that the parent dataset persisted for the pool, if any, is that of the request.
    fn check_disks(persisted: Option<&str>, opts: &ZfsPoolOpts) -> (res: Result<(), Error>)
        ensures
            result_view(res) == disks_check(
                str_opt(persisted),
                opts@,
            ),
    {
        if let Some(disks) = persisted {
            let mut list: Vec<String> = Vec::new();
            list.push(disks.to_owned());
            assert(texts(list@) =~= seq![disks@]);
            let before = match ZfsPoolOpts::try_from_disks(list.as_slice()) {
                Ok(before) => before,
                Err(error) => {
                    return Err(error);
                },
            };
            if !str_eq(before.parent(), opts.parent()) {
                return Err(
                    Error::DisksMismatch {
                        args: opts.disks().to_owned(),
                        pool: disks.to_owned(),
                    },
                );
            }
        }
        Ok(())
    }

    /// Check that the uuid persisted for the pool, if any, is that of the request.
    fn check_uuid(persisted: Option<&str>, asked: &Option<String>) -> (res: Result<(), Error>)
        ensures
            result_view(res) == uuid_check(
                str_opt(persisted),
                *asked,
            ),
    {
        match (persisted, asked) {
            (Some(uuid), Some(arg)) => {
                if str_eq(arg.as_str(), uuid) {
                    Ok(())
                } else {
                    Err(Error::UuidMismatch { args: arg.clone(), pool: uuid.to_owned() })
                }
            },
            _ => Ok(()),
        }
    }

    /// Go on with the fetched properties, where the fresh uuid is taken if it is needed.
    pub fn adopt_as(
        args: PoolArgs,
        opts: ZfsPoolOpts,
        details: &Vec<DsProps>,
        fresh: String,
    ) -> (res: Step<PoolAdopt, ZfsPool>)
        ensures
            PoolAdopt::inspected(args, opts@, props_views(details@), fresh@, res),
    {
        let ghost new = fresh@;
        let dataset = child(opts.parent(), args.name.as_str());
        let props = match find_props(details, dataset.as_str()) {
            Some(props) => props,
            None => {
                return Step::Failed(Error::NotFound { query: dataset });
            },
        };
        // The parsed parent must match the parent persisted in the io.mayastor:disks property, if
        // any.
        let disks = props.local(PropertyType::PoolDisks.value());
        if let Err(error) = PoolAdopt::check_disks(disks, &opts) {
            return Step::Failed(error);
        }
        let owner = props.local(PropertyType::PoolUuid.value());
        if let Err(error) = PoolAdopt::check_uuid(owner, &args.uuid) {
            return Step::Failed(error);
        }
        let mut missing: Vec<Property> = Vec::new();
        assert(property_views(missing@) =~= Seq::empty());
        let uuid = match owner {
            Some(uuid) => uuid.to_owned(),
            None => {
                // A previously exported (or brand new) dataset: adopt it by asserting the local
                // pool property.
                let uuid = chosen_uuid(&args, fresh);
                missing.push(Property::PoolUuid(uuid.clone()));
                uuid
            },
        };
        assert(property_views(missing@) =~= missing_uuid(props@, uuid_or(args, new)));
        let ghost some = property_views(missing@);
        if disks.is_none() {
            missing.push(Property::PoolDisks(opts.disks().to_owned()));
        }
        assert(property_views(missing@) =~= some + missing_disks(props@, opts@.disks));
        let ghost more = property_views(missing@);
        if props.local(PropertyType::PoolVolBlockSize.value()).is_none() {
            match ZfsPool::default_volblocksize(&args, &opts) {
                Ok(size) => missing.push(Property::PoolVolBlockSize(size)),
                Err(error) => {
                    return Step::Failed(error);
                },
            }
        }
        assert(missing_block(props@, args, opts@) matches Ok(block) && property_views(missing@)
            =~= more + block);
        let query = ZfsQueryArgs::any().named(args.name.as_str()).uuid(uuid.as_str());
        assert(property_views(missing@).len() == missing@.len());
        if missing.len() > 0 {
            let cmd = ZfsCmd::zfs("set").set_props(&missing).arg(dataset.as_str());
            Step::Do(Effect::Run(cmd), PoolAdopt::Asserting { query })
        } else {
            Step::Do(Effect::LookupPool(query), PoolAdopt::Looking)
        }
    }

    /// Go on with the reply.
    pub fn resume(self, reply: Reply) -> (res: Step<PoolAdopt, ZfsPool>)
        requires
            self.awaits(reply),
        ensures
            self.resumed(reply, res),
    {
        match (self, reply) {
            (PoolAdopt::Inspecting { args, opts }, Reply::Output(output)) => match output {
                Err(error) => Step::Failed(error),
                Ok(output) => match parse_props("zfs", output.as_str()) {
                    Err(error) => Step::Failed(error),
                    Ok(details) => {
                        let fresh = fresh_uuid(&args);
                        let ghost new = fresh@;
                        let ghost views = props_views(details@);
                        let res = PoolAdopt::adopt_as(args, opts, &details, fresh);
                        assert(PoolAdopt::inspected(args, opts@, views, new, res));
                        assert(PoolAdopt::adopted(args, opts@, views, res));
                        res
                    },
                },
            },
            (PoolAdopt::Asserting { query }, Reply::Output(output)) => match output {
                Err(error) => Step::Failed(error),
                Ok(_) => Step::Do(Effect::LookupPool(query), PoolAdopt::Looking),
            },
            (PoolAdopt::Looking, Reply::Pool(looked)) => match looked {
                Ok(pool) => Step::Done(pool),
                Err(error) => Step::Failed(error),
            },
            _ => unreached(),
        }
    }
}

/// The command which tells if the filesystem dataset exists.
pub open spec fn exists_cmd(dataset: Seq<char>) -> CmdView {
    CmdView::zfs(seq!["list"@, "-Hp"@, "-t"@, "filesystem"@, "-o"@, "name"@, dataset])
}

/// The properties which persist what a pool is.
pub open spec fn pool_properties(uuid: Seq<char>, block: u64, disks: Seq<char>) -> Seq<
    PropertyView,
> {
    seq![
        PropertyView::PoolUuid(uuid),
        PropertyView::PoolDisks(disks),
        PropertyView::PoolVolBlockSize(block),
    ]
}

/// The command which creates the container dataset of a pool.
pub open spec fn pool_cmd(
    dataset: Seq<char>,
    uuid: Seq<char>,
    block: u64,
    opts: PoolOptsView,
) -> CmdView {
    let cmd = CmdView::zfs(seq!["create"@]).with_props(pool_properties(uuid, block, opts.disks));
    let cmd = match opts.quota {
        Some(quota) => cmd.args(seq!["-o"@, "quota"@ + "="@ + decimal(quota as nat)]),
        None => cmd,
    };
    cmd.with_pairs(opts.props).arg(dataset)
}

/// Creating a pool, or importing an existing dataset with the same path.
#[derive(Debug)]
pub enum PoolCreate {
    /// The container dataset may exist already.
    Checking { args: PoolArgs, opts: ZfsPoolOpts },
    /// The existing container dataset is adopted.
    Adopting,
    /// The container dataset is created.
    Creating { query: ZfsQueryArgs },
    /// The pool is looked up.
    Looking,
}

impl PoolCreate {
    /// The reply is of the kind that is awaited.
    pub open spec fn awaits(self, reply: Reply) -> bool {
        match self {
            PoolCreate::Checking { .. } | PoolCreate::Creating { .. } => reply is Output,
            PoolCreate::Adopting | PoolCreate::Looking => reply is Pool,
        }
    }

    /// How the creation starts.
    pub open spec fn started(args: PoolArgs, next: Step<PoolCreate, ZfsPool>) -> bool {
        if args.enc_key is Some {
            fails(next, ErrorView::EncryptionNotSup)
        } else {
            match component_check(args.name@) {
                Err(error) => fails(next, error),
                Ok(_) => match pool_opts_of_disks(texts(args.disks@)) {
                    Err(error) => fails(next, error),
                    Ok(view) => next matches Step::Do(
                        Effect::Run(cmd),
                        PoolCreate::Checking { args: a, opts },
                    ) && cmd@ == exists_cmd(container_of(args, view)) && a == args && opts@
                        == view,
                },
            }
        }
    }

    /// How the creation goes on when there is no such dataset, where the fresh uuid is taken if it
    /// is needed.
    pub open spec fn absent(
        args: PoolArgs,
        opts: PoolOptsView,
        fresh: Seq<char>,
        next: Step<PoolCreate, ZfsPool>,
    ) -> bool {
        let uuid = uuid_or(args, fresh);
        match volblocksize_default(args.cluster_size, opts) {
            Err(error) => fails(next, error),
            Ok(block) => next matches Step::Do(Effect::Run(cmd), PoolCreate::Creating { query })
                && cmd@ == pool_cmd(container_of(args, opts), uuid, block, opts) && query@
                == pool_query(args.name@, uuid),
        }
    }

    /// How the creation goes on when there is no such dataset, whatever fresh uuid is taken.
    pub open spec fn created(
        args: PoolArgs,
        opts: PoolOptsView,
        next: Step<PoolCreate, ZfsPool>,
    ) -> bool {
        exists|fresh: Seq<char>|
            is_fresh(args, fresh) && #[trigger] PoolCreate::absent(args, opts, fresh, next)
    }

    /// How the creation goes on.
    pub open spec fn resumed(self, reply: Reply, next: Step<PoolCreate, ZfsPool>) -> bool {
        match (self, reply) {
            (PoolCreate::Checking { args, opts }, Reply::Output(Ok(_))) => next == Step::<
                PoolCreate,
                ZfsPool,
            >::Do(Effect::AdoptPool { args, opts }, PoolCreate::Adopting),
            (
                PoolCreate::Checking { args, opts },
                Reply::Output(Err(Error::NotFound { .. })),
            ) => PoolCreate::created(args, opts@, next),
            (PoolCreate::Creating { query }, Reply::Output(Ok(_))) => next == Step::<
                PoolCreate,
                ZfsPool,
            >::Do(Effect::LookupPool(query), PoolCreate::Looking),
            (_, Reply::Output(Err(error))) => next == Step::<PoolCreate, ZfsPool>::Failed(error),
            (_, Reply::Pool(Ok(pool))) => next == Step::<PoolCreate, ZfsPool>::Done(pool),
            (_, Reply::Pool(Err(error))) => next == Step::<PoolCreate, ZfsPool>::Failed(error),
            _ => true,
        }
    }

    /// Create the container dataset, where the fresh uuid is taken if it is needed.
    pub fn create_as(args: PoolArgs, opts: ZfsPoolOpts, fresh: String) -> (res: Step<
        PoolCreate,
        ZfsPool,
    >)
        ensures
            PoolCreate::absent(args, opts@, fresh@, res),
    {
        let uuid = chosen_uuid(&args, fresh);
        let block = match ZfsPool::default_volblocksize(&args, &opts) {
            Ok(block) => block,
            Err(error) => {
                return Step::Failed(error);
            },
        };
        let dataset = child(opts.parent(), args.name.as_str());
        proof {
            let list = pool_properties(uuid@, block, opts@.disks);
            let start = CmdView::zfs(seq!["create"@]);
            lemma_one_prop(start, list[0]);
            lemma_push_prop(start, seq![list[0]], list[1]);
            lemma_push_prop(start, seq![list[0]].push(list[1]), list[2]);
            assert(seq![list[0]].push(list[1]).push(list[2]) =~= list);
        }
        let cmd = ZfsCmd::zfs("create").prop(Property::PoolUuid(uuid.clone())).prop(
            Property::PoolDisks(opts.disks().to_owned()),
        ).prop(Property::PoolVolBlockSize(block));
        let cmd = match opts.quota() {
            Some(quota) => cmd.pair("quota", decimal_text(quota).as_str()),
            None => cmd,
        };
        let cmd = cmd.pairs(opts.props()).arg(dataset.as_str());
        let query = ZfsQueryArgs::any().named(args.name.as_str()).uuid(uuid.as_str());
        Step::Do(Effect::Run(cmd), PoolCreate::Creating { query })
    }

    /// Go on with the reply.
    pub fn resume(self, reply: Reply) -> (res: Step<PoolCreate, ZfsPool>)
        requires
            self.awaits(reply),
        ensures
            self.resumed(reply, res),
    {
        match (self, reply) {
            (PoolCreate::Checking { args, opts }, Reply::Output(output)) => match output {
                Ok(_) => Step::Do(Effect::AdoptPool { args, opts }, PoolCreate::Adopting),
                Err(Error::NotFound { .. }) => {
                    let fresh = fresh_uuid(&args);
                    let ghost new = fresh@;
                    let res = PoolCreate::create_as(args, opts, fresh);
                    assert(PoolCreate::absent(args, opts@, new, res));
                    assert(PoolCreate::created(args, opts@, res));
                    res
                },
                Err(error) => Step::Failed(error),
            },
            (PoolCreate::Creating { query }, Reply::Output(output)) => match output {
                Ok(_) => Step::Do(Effect::LookupPool(query), PoolCreate::Looking),
                Err(error) => Step::Failed(error),
            },
            (_, Reply::Pool(looked)) => match looked {
                Ok(pool) => Step::Done(pool),
                Err(error) => Step::Failed(error),
            },
            _ => unreached(),
        }
    }
}

/// Importing a pool, along with its replicas.
#[derive(Debug)]
pub enum PoolImport {
    /// The container dataset is adopted.
    Adopting,
    /// The replicas are opened as bdevs.
    Opening { pool: ZfsPool },
}

/// The query which finds the replicas of a pool.
pub open spec fn pool_vols_query(dataset: Seq<char>) -> VolQueryView {
    VolQueryView { dataset: Some(dataset), ..VolQueryView::any() }
}

impl PoolImport {
    /// The reply is of the kind that is awaited.
    pub open spec fn awaits(self, reply: Reply) -> bool {
        match self {
            PoolImport::Adopting => reply is Pool,
            PoolImport::Opening { .. } => reply is Vols,
        }
    }

    /// How the import starts.
    pub open spec fn started(args: PoolArgs, next: Step<PoolImport, ZfsPool>) -> bool {
        match pool_opts_of_disks(texts(args.disks@)) {
            Err(error) => fails(next, error),
            Ok(view) => next matches Step::Do(
                Effect::AdoptPool { args: a, opts },
                PoolImport::Adopting,
            ) && a == args && opts@ == view,
        }
    }

    /// How the import goes on.
    pub open spec fn resumed(self, reply: Reply, next: Step<PoolImport, ZfsPool>) -> bool {
        match (self, reply) {
            (PoolImport::Adopting, Reply::Pool(Ok(pool))) => next matches Step::Do(
                Effect::ListVols(query),
                PoolImport::Opening { pool: p },
            ) && query@ == pool_vols_query(pool@.dataset) && p == pool,
            (PoolImport::Adopting, Reply::Pool(Err(error))) => next == Step::<
                PoolImport,
                ZfsPool,
            >::Failed(error),
            (PoolImport::Opening { pool }, Reply::Vols(Ok(_))) => next == Step::<
                PoolImport,
                ZfsPool,
            >::Done(pool),
            (PoolImport::Opening { .. }, Reply::Vols(Err(error))) => next == Step::<
                PoolImport,
                ZfsPool,
            >::Failed(error),
            _ => true,
        }
    }

    /// Go on with the reply.
    pub fn resume(self, reply: Reply) -> (res: Step<PoolImport, ZfsPool>)
        requires
            self.awaits(reply),
        ensures
            self.resumed(reply, res),
    {
        match (self, reply) {
            (PoolImport::Adopting, Reply::Pool(adopted)) => match adopted {
                Ok(pool) => {
                    let query = VolQueryArgs::new().scoped(pool.dataset());
                    Step::Do(Effect::ListVols(query), PoolImport::Opening { pool })
                },
                Err(error) => Step::Failed(error),
            },
            (PoolImport::Opening { pool }, Reply::Vols(opened)) => match opened {
                Ok(_) => Step::Done(pool),
                Err(error) => Step::Failed(error),
            },
            _ => unreached(),
        }
    }
}

impl ZfsPool {
    /// Create a ZFS pool (or import an existing dataset with the same path).
    pub fn create(args: PoolArgs) -> (res: Step<PoolCreate, ZfsPool>)
        ensures
            PoolCreate::started(args, res),
    {
        if args.enc_key.is_some() {
            return Step::Failed(Error::EncryptionNotSup);
        }
        if let Err(error) = is_valid_dataset_component(args.name.as_str()) {
            return Step::Failed(error);
        }
        let opts = match ZfsPoolOpts::try_from_disks(args.disks.as_slice()) {
            Ok(opts) => opts,
            Err(error) => {
                return Step::Failed(error);
            },
        };
        let dataset = child(opts.parent(), args.name.as_str());
        let cmd = ZfsPool::dataset_exists(dataset.as_str());
        Step::Do(Effect::Run(cmd), PoolCreate::Checking { args, opts })
    }

    /// Check if the given filesystem dataset exists.
    fn dataset_exists(dataset: &str) -> (res: ZfsCmd)
        ensures
            res@ == exists_cmd(dataset@),
    {
        let list: [&str; 6] = ["-Hp", "-t", "filesystem", "-o", "name", dataset];
        let cmd = ZfsCmd::zfs("list").args(&list);
        assert(cmd@ =~= exists_cmd(dataset@));
        cmd
    }

    /// Import a ZFS pool: the container dataset must already exist. The local io.mayastor:pool
    /// property is (re-)asserted, adopting a previously exported pool, and all owned zvols are
    /// eagerly imported as bdevs (re-sharing them over nvmf from the persisted properties).
    pub fn import(args: PoolArgs) -> (res: Step<PoolImport, ZfsPool>)
        ensures
            PoolImport::started(args, res),
    {
        match ZfsPoolOpts::try_from_disks(args.disks.as_slice()) {
            Ok(opts) => Step::Do(Effect::AdoptPool { args, opts }, PoolImport::Adopting),
            Err(error) => Step::Failed(error),
        }
    }

    /// Import a ZFS pool by asserting ownership of its container dataset.
    pub fn import_inner(args: PoolArgs, opts: ZfsPoolOpts) -> (res: Step<PoolAdopt, ZfsPool>)
        ensures
            PoolAdopt::started(args, opts, res),
    {
        if let Err(error) = is_valid_dataset_component(args.name.as_str()) {
            return Step::Failed(error);
        }
        let dataset = child(opts.parent(), args.name.as_str());
        let list: [&str; 7] = [
            "-Hp",
            "-t",
            "filesystem",
            "-o",
            "name,property,value,source",
            POOL_PROPS,
            dataset.as_str(),
        ];
        let cmd = ZfsCmd::zfs("get").args(&list);
        assert(cmd@ =~= inspect_cmd(dataset@));
        Step::Do(Effect::Run(cmd), PoolAdopt::Inspecting { args, opts })
    }
}

} // verus!
