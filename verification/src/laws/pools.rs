//! Creating, adopting and importing pools.
use vstd::prelude::*;
use crate::cli::{position_of, props_of, props_views, CmdView, DsProps, DsPropsView, ZfsQueryArgs};
use crate::dataset::component_check;
use crate::ds_pool::ZfsPool;
use crate::engine::PoolArgs;
use crate::error::{Error, ErrorView};
use crate::flow::factory::PoolZfsFactory;
use crate::flow::pool_create::{
    container_of, is_fresh, missing_props, pool_cmd, uuid_or, PoolAdopt, PoolCreate, PoolImport,
};
use crate::laws::arguments::{
    all_written, law_pairs_appended, law_props_appended, law_set_command, option_args, setting_args,
    writable,
};
use crate::laws::commands::runs_zfs;
use crate::laws::options::law_default_block_choice;
use crate::laws::reported::tells_own;
use crate::operation::{Effect, Reply, Step};
use crate::options::{is_volblocksize, pool_opts_of_disks, PoolOptsView, ZfsPoolOpts};
use crate::outside::is_uuid_v4;
use crate::property::PropertyView;
use crate::text::chars::texts;
use crate::text::decimal::decimal;
use crate::zvol_replica::ZfsVol;

verus! {

/// The pool is looked for by this name and this uuid.
pub open spec fn looks_for(query: ZfsQueryArgs, name: Seq<char>, uuid: Seq<char>) -> bool {
    &&& query.name is Some && query.name->0@ == name
    &&& query.uuid is Some && query.uuid->0@ == uuid
}

/// The block size is the default one of the pool: the one that is asked for, else that of the disks
/// entry, else 16384.
pub open spec fn is_default_block(args: PoolArgs, opts: PoolOptsView, block: u64) -> bool {
    match args.cluster_size {
        Some(size) => block == size && is_volblocksize(size as u64),
        None => match opts.volblocksize {
            Some(size) => block == size,
            None => block == 16384,
        },
    }
}

/// The uuid is the one that is asked for, or this one where none is.
pub open spec fn is_uuid_of(args: PoolArgs, fresh: Seq<char>, uuid: Seq<char>) -> bool {
    match args.uuid {
        Some(asked) => uuid == asked@,
        None => uuid == fresh,
    }
}

/// The quota, as an option, if there is one.
pub open spec fn quota_args(quota: Option<u64>) -> Seq<Seq<char>> {
    match quota {
        Some(quota) => seq!["-o"@, "quota"@ + "="@ + decimal(quota as nat)],
        None => Seq::empty(),
    }
}

proof fn lemma_pool_cmd(args: PoolArgs, opts: PoolOptsView, block: u64, uuid: Seq<char>)
    ensures
        ({
            let own = seq![
                PropertyView::PoolUuid(uuid),
                PropertyView::PoolDisks(opts.disks),
                PropertyView::PoolVolBlockSize(block),
            ];
            writable(own) ==> pool_cmd(container_of(args, opts), uuid, block, opts) == (CmdView {
                cmd: "zfs"@,
                argv: seq!["create"@] + option_args(all_written(own)) + quota_args(opts.quota)
                    + option_args(opts.props) + seq![opts.parent + "/"@ + args.name@],
                input: None,
                deferred: None,
            })
        }),
{
    let own = seq![
        PropertyView::PoolUuid(uuid),
        PropertyView::PoolDisks(opts.disks),
        PropertyView::PoolVolBlockSize(block),
    ];
    if writable(own) {
        let start = CmdView::zfs(seq!["create"@]);
        law_props_appended(start, own);
        let some = start.with_props(own);
        let more = CmdView { argv: some.argv + quota_args(opts.quota), ..some };
        assert(some.args(quota_args(opts.quota)) =~= more);
        assert(some.argv + quota_args(None) =~= some.argv);
        law_pairs_appended(more, opts.props);
        assert(pool_cmd(container_of(args, opts), uuid, block, opts).argv =~= seq!["create"@]
            + option_args(all_written(own)) + quota_args(opts.quota) + option_args(opts.props)
            + seq![opts.parent + "/"@ + args.name@]);
    }
}

/// A pool which does not exist yet is created as a filesystem named after it below its parent
/// dataset, with what it is persisted on it, with its quota and with each of its properties in
/// order. It is then looked for by its name and uuid.
pub proof fn law_pool_create_command(
    args: PoolArgs,
    opts: ZfsPoolOpts,
    fresh: String,
    block: u64,
    uuid: Seq<char>,
    step: Step<PoolCreate, ZfsPool>,
)
    requires
        call_ensures(PoolCreate::create_as, (args, opts, fresh), step),
        is_default_block(args, opts@, block),
        is_uuid_of(args, fresh@, uuid),
    ensures
        step is Do,
        step->Do_0 is Run,
        step->Do_1 is Creating,
        looks_for(step->Do_1->Creating_query, args.name@, uuid),
        ({
            let own = seq![
                PropertyView::PoolUuid(uuid),
                PropertyView::PoolDisks(opts@.disks),
                PropertyView::PoolVolBlockSize(block),
            ];
            writable(own) ==> runs_zfs(
                step,
                seq!["create"@] + option_args(all_written(own)) + quota_args(opts@.quota)
                    + option_args(opts@.props) + seq![opts@.parent + "/"@ + args.name@],
            )
        }),
{
    law_default_block_choice(args.cluster_size, opts@);
    lemma_pool_cmd(args, opts@, block, uuid);
}

/// A pool whose blocks would be of a size that zvols cannot have is not created.
pub proof fn law_pool_create_refused(
    args: PoolArgs,
    opts: ZfsPoolOpts,
    fresh: String,
    step: Step<PoolCreate, ZfsPool>,
)
    requires
        call_ensures(PoolCreate::create_as, (args, opts, fresh), step),
        args.cluster_size is Some,
        !is_volblocksize(args.cluster_size->0 as u64),
    ensures
        step is Failed,
{
    law_default_block_choice(args.cluster_size, opts@);
}

/// A pool is created only where it asks for no encryption, its name is valid and its disks are; the
/// dataset is looked for first.
pub proof fn law_pool_create_start(
    factory: PoolZfsFactory,
    args: PoolArgs,
    step: Step<PoolCreate, ZfsPool>,
)
    requires
        call_ensures(ZfsPool::create, (args,), step) || call_ensures(
            PoolZfsFactory::create,
            (&factory, args),
            step,
        ),
    ensures
        args.enc_key is Some ==> step is Failed && step->Failed_0 is EncryptionNotSup,
        args.enc_key is None && component_check(args.name@) is Err ==> step is Failed
            && step->Failed_0 is InvalidName && step->Failed_0->InvalidName_name@ == args.name@,
        args.enc_key is None && component_check(args.name@) is Ok ==> match pool_opts_of_disks(
            texts(args.disks@),
        ) {
            Err(error) => step is Failed && step->Failed_0@ == error,
            Ok(opts) => {
                &&& runs_zfs(
                    step,
                    seq![
                        "list"@,
                        "-Hp"@,
                        "-t"@,
                        "filesystem"@,
                        "-o"@,
                        "name"@,
                        opts.parent + "/"@ + args.name@,
                    ],
                )
                &&& step->Do_1 is Checking
                &&& step->Do_1->Checking_args == args
                &&& step->Do_1->Checking_opts@ == opts
            },
        },
{
}

/// A dataset that is there already is adopted; one that is not is created, with the uuid that is
/// asked for if one is. Once it is there, the pool is looked up, and any failure is told.
pub proof fn law_pool_create_steps(
    args: PoolArgs,
    opts: ZfsPoolOpts,
    query: ZfsQueryArgs,
    text: String,
    error: Error,
    pool: ZfsPool,
    m: PoolCreate,
    next: Step<PoolCreate, ZfsPool>,
)
    ensures
        (PoolCreate::Checking { args, opts }).resumed(Reply::Output(Ok(text)), next) ==> next
            == Step::<PoolCreate, ZfsPool>::Do(
            Effect::AdoptPool { args, opts },
            PoolCreate::Adopting,
        ),
        (PoolCreate::Checking { args, opts }).resumed(
            Reply::Output(Err(Error::NotFound { query: text })),
            next,
        ) && args.uuid is Some ==> forall|block: u64|
            #[trigger] is_default_block(args, opts@, block) ==> next is Do
                && next->Do_1 is Creating && looks_for(
                next->Do_1->Creating_query,
                args.name@,
                args.uuid->0@,
            ),
        (PoolCreate::Creating { query }).resumed(Reply::Output(Ok(text)), next) ==> next == Step::<
            PoolCreate,
            ZfsPool,
        >::Do(Effect::LookupPool(query), PoolCreate::Looking),
        m is Checking && !(error is NotFound) && m.resumed(Reply::Output(Err(error)), next) ==> next
            == Step::<PoolCreate, ZfsPool>::Failed(error),
        m is Creating && m.resumed(Reply::Output(Err(error)), next) ==> next == Step::<
            PoolCreate,
            ZfsPool,
        >::Failed(error),
        (m is Adopting || m is Looking) && m.resumed(Reply::Pool(Ok(pool)), next) ==> next
            == Step::<PoolCreate, ZfsPool>::Done(pool),
        (m is Adopting || m is Looking) && m.resumed(Reply::Pool(Err(error)), next) ==> next
            == Step::<PoolCreate, ZfsPool>::Failed(error),
{
    law_default_block_choice(args.cluster_size, opts@);
}

/// A pool is adopted only under a valid name. What is persisted on its dataset is fetched first.
pub proof fn law_pool_adopt_start(
    args: PoolArgs,
    opts: ZfsPoolOpts,
    step: Step<PoolAdopt, ZfsPool>,
)
    requires
        call_ensures(ZfsPool::import_inner, (args, opts), step),
    ensures
        component_check(args.name@) is Err ==> step is Failed && step->Failed_0 is InvalidName
            && step->Failed_0->InvalidName_name@ == args.name@,
        component_check(args.name@) is Ok ==> {
            &&& runs_zfs(
                step,
                seq![
                    "get"@,
                    "-Hp"@,
                    "-t"@,
                    "filesystem"@,
                    "-o"@,
                    "name,property,value,source"@,
                    "used,available,quota,encryption,io.mayastor:pool,io.mayastor:disks,io.mayastor:volblocksize"@,
                    opts@.parent + "/"@ + args.name@,
                ],
            )
            &&& step->Do_1 == (PoolAdopt::Inspecting { args, opts })
        },
{
}

/// The property is not set on the dataset itself.
pub open spec fn not_own(props: DsPropsView, key: Seq<char>) -> bool {
    forall|v: Seq<char>| !#[trigger] tells_own(props, key, v)
}

/// The properties that the dataset lacks, of those which make it the container of a pool.
pub open spec fn lacking(
    props: DsPropsView,
    uuid: Seq<char>,
    disks: Seq<char>,
    block: u64,
) -> Seq<PropertyView> {
    (if not_own(props, "io.mayastor:pool"@) {
        seq![PropertyView::PoolUuid(uuid)]
    } else {
        Seq::empty()
    }) + (if not_own(props, "io.mayastor:disks"@) {
        seq![PropertyView::PoolDisks(disks)]
    } else {
        Seq::empty()
    }) + (if not_own(props, "io.mayastor:volblocksize"@) {
        seq![PropertyView::PoolVolBlockSize(block)]
    } else {
        Seq::empty()
    })
}

/// Which of the fetched datasets is the container of the pool: the first of that name.
pub open spec fn is_container(details: Seq<DsProps>, at: int, dataset: Seq<char>) -> bool {
    &&& 0 <= at < details.len()
    &&& details[at]@.name == dataset
    &&& forall|i: int| 0 <= i < at ==> (#[trigger] details[i])@.name != dataset
}

proof fn lemma_container(details: Seq<DsPropsView>, at: int, dataset: Seq<char>)
    requires
        0 <= at <= details.len(),
        forall|i: int| 0 <= i < at ==> (#[trigger] details[i]).name != dataset,
        at < details.len() ==> details[at].name == dataset,
    ensures
        position_of(details, dataset) == at,
    decreases details.len(),
{
    if details.len() > 0 && at > 0 {
        let rest = details.drop_first();
        assert forall|i: int| 0 <= i < at - 1 implies (#[trigger] rest[i]).name != dataset by {
            assert(rest[i] == details[i + 1]);
        }
        lemma_container(rest, at - 1, dataset);
    }
}

proof fn lemma_own(props: DsPropsView, key: Seq<char>)
    ensures
        props.local(key) is None <==> not_own(props, key),
        forall|v: Seq<char>| #[trigger] tells_own(props, key, v) <==> props.local(key) == Some(v),
{
    if let Some(v) = props.local(key) {
        assert(tells_own(props, key, v));
    }
}

/// A dataset which is not there cannot be adopted.
pub proof fn law_pool_adopt_missing(
    args: PoolArgs,
    opts: ZfsPoolOpts,
    details: Vec<DsProps>,
    fresh: String,
    step: Step<PoolAdopt, ZfsPool>,
)
    requires
        call_ensures(PoolAdopt::adopt_as, (args, opts, &details, fresh), step),
        forall|i: int|
            0 <= i < details@.len() ==> (#[trigger] details@[i])@.name != opts@.parent + "/"@
                + args.name@,
    ensures
        step is Failed,
        step->Failed_0 is NotFound,
        step->Failed_0->NotFound_query@ == opts@.parent + "/"@ + args.name@,
{
    let views = props_views(details@);
    let dataset = opts@.parent + "/"@ + args.name@;
    assert forall|i: int| 0 <= i < views.len() implies (#[trigger] views[i]).name != dataset by {
        assert(views[i] == details@[i]@);
    }
    lemma_container(views, views.len() as int, dataset);
}

/// A dataset which tells of another parent than the request, or of another uuid, is not adopted.
pub proof fn law_pool_adopt_refused(
    args: PoolArgs,
    opts: ZfsPoolOpts,
    details: Vec<DsProps>,
    at: int,
    fresh: String,
    disks: Seq<char>,
    before: PoolOptsView,
    uuid: Seq<char>,
    step: Step<PoolAdopt, ZfsPool>,
)
    requires
        call_ensures(PoolAdopt::adopt_as, (args, opts, &details, fresh), step),
        is_container(details@, at, opts@.parent + "/"@ + args.name@),
    ensures
        tells_own(details@[at]@, "io.mayastor:disks"@, disks) && pool_opts_of_disks(seq![disks])
            == Ok::<PoolOptsView, ErrorView>(before) && before.parent != opts@.parent ==> step is Failed
            && step->Failed_0 is DisksMismatch && step->Failed_0->DisksMismatch_args@ == opts@.disks
            && step->Failed_0->DisksMismatch_pool@ == disks,
        tells_own(details@[at]@, "io.mayastor:disks"@, disks) && pool_opts_of_disks(
            seq![disks],
        ) is Err ==> step is Failed && step->Failed_0@ == pool_opts_of_disks(seq![disks])->Err_0,
        (not_own(details@[at]@, "io.mayastor:disks"@) || (tells_own(
            details@[at]@,
            "io.mayastor:disks"@,
            disks,
        ) && pool_opts_of_disks(seq![disks]) == Ok::<PoolOptsView, ErrorView>(before)
            && before.parent == opts@.parent)) && tells_own(
            details@[at]@,
            "io.mayastor:pool"@,
            uuid,
        ) && args.uuid is Some && args.uuid->0@ != uuid ==> step is Failed
            && step->Failed_0 is UuidMismatch && step->Failed_0->UuidMismatch_args@
            == args.uuid->0@ && step->Failed_0->UuidMismatch_pool@ == uuid,
{
    let views = props_views(details@);
    let dataset = opts@.parent + "/"@ + args.name@;
    assert forall|i: int| 0 <= i < at implies (#[trigger] views[i]).name != dataset by {
        assert(views[i] == details@[i]@);
    }
    assert(views[at] == details@[at]@);
    lemma_container(views, at, dataset);
    lemma_own(details@[at]@, "io.mayastor:disks"@);
    lemma_own(details@[at]@, "io.mayastor:pool"@);
}

/// A dataset of the same parent, with the same uuid or with none, is adopted: just what it lacks is
/// set on it, and the pool is then looked for by its name and by the uuid that it is known under.
pub proof fn law_pool_adopt_command(
    args: PoolArgs,
    opts: ZfsPoolOpts,
    details: Vec<DsProps>,
    at: int,
    fresh: String,
    uuid: Seq<char>,
    block: u64,
    step: Step<PoolAdopt, ZfsPool>,
)
    requires
        call_ensures(PoolAdopt::adopt_as, (args, opts, &details, fresh), step),
        is_container(details@, at, opts@.parent + "/"@ + args.name@),
        forall|disks: Seq<char>| #[trigger]
            tells_own(details@[at]@, "io.mayastor:disks"@, disks) ==> pool_opts_of_disks(
                seq![disks],
            ) is Ok && pool_opts_of_disks(seq![disks])->Ok_0.parent == opts@.parent,
        if not_own(details@[at]@, "io.mayastor:pool"@) {
            is_uuid_of(args, fresh@, uuid)
        } else {
            tells_own(details@[at]@, "io.mayastor:pool"@, uuid) && (args.uuid is None
                || args.uuid->0@ == uuid)
        },
        not_own(details@[at]@, "io.mayastor:volblocksize"@) ==> is_default_block(
            args,
            opts@,
            block,
        ),
    ensures
        step is Do,
        ({
            let dataset = opts@.parent + "/"@ + args.name@;
            let own = lacking(details@[at]@, uuid, opts@.disks, block);
            &&& own.len() == 0 ==> step->Do_0 is LookupPool && looks_for(
                step->Do_0->LookupPool_0,
                args.name@,
                uuid,
            ) && step->Do_1 is Looking
            &&& own.len() > 0 ==> step->Do_1 is Asserting && looks_for(
                step->Do_1->Asserting_query,
                args.name@,
                uuid,
            )
            &&& own.len() > 0 && writable(own) ==> runs_zfs(
                step,
                seq!["set"@] + setting_args(all_written(own)) + seq![dataset],
            )
        }),
{
    let views = props_views(details@);
    let dataset = opts@.parent + "/"@ + args.name@;
    let props = details@[at]@;
    assert forall|i: int| 0 <= i < at implies (#[trigger] views[i]).name != dataset by {
        assert(views[i] == details@[i]@);
    }
    assert(views[at] == props);
    lemma_container(views, at, dataset);
    lemma_own(props, "io.mayastor:disks"@);
    lemma_own(props, "io.mayastor:pool"@);
    lemma_own(props, "io.mayastor:volblocksize"@);
    if let Some(disks) = props.local("io.mayastor:disks"@) {
        assert(tells_own(props, "io.mayastor:disks"@, disks));
    }
    law_default_block_choice(args.cluster_size, opts@);
    let own = lacking(props, uuid, opts@.disks, block);
    let missing = missing_props(props, args, opts@, fresh@)->Ok_0;
    assert(own =~= missing);
    if writable(own) {
        law_set_command(dataset, own);
    }
}

/// The fetched properties are what the adoption is decided by, with the uuid that is asked for, or
/// with a fresh one where none is.
pub proof fn law_pool_adopt_fetched(
    args: PoolArgs,
    opts: ZfsPoolOpts,
    output: String,
    details: Seq<DsPropsView>,
    next: Step<PoolAdopt, ZfsPool>,
)
    requires
        (PoolAdopt::Inspecting { args, opts }).resumed(Reply::Output(Ok(output)), next),
    ensures
        props_of("zfs"@, output@) == Ok::<Seq<DsPropsView>, ErrorView>(details) ==> exists|
            fresh: Seq<char>,
        |
            (args.uuid is None ==> is_uuid_v4(fresh)) && #[trigger] PoolAdopt::inspected(
                args,
                opts@,
                details,
                fresh,
                next,
            ),
        props_of("zfs"@, output@) matches Err(error) ==> next is Failed && next->Failed_0@ == error,
{
}

/// A new pool gets the uuid that is asked for, or a fresh one where none is.
pub proof fn law_pool_created_fresh(
    args: PoolArgs,
    opts: ZfsPoolOpts,
    query: String,
    block: u64,
    next: Step<PoolCreate, ZfsPool>,
)
    requires
        (PoolCreate::Checking { args, opts }).resumed(
            Reply::Output(Err(Error::NotFound { query })),
            next,
        ),
        is_default_block(args, opts@, block),
    ensures
        next is Do,
        next->Do_0 is Run,
        next->Do_1 is Creating,
        exists|uuid: Seq<char>|
            {
                let own = seq![
                    PropertyView::PoolUuid(uuid),
                    PropertyView::PoolDisks(opts@.disks),
                    PropertyView::PoolVolBlockSize(block),
                ];
                &&& #[trigger] looks_for(next->Do_1->Creating_query, args.name@, uuid)
                &&& args.uuid is Some ==> uuid == args.uuid->0@
                &&& args.uuid is None ==> is_uuid_v4(uuid)
                &&& writable(own) ==> runs_zfs(
                    next,
                    seq!["create"@] + option_args(all_written(own)) + quota_args(opts@.quota)
                        + option_args(opts@.props) + seq![opts@.parent + "/"@ + args.name@],
                )
            },
{
    law_default_block_choice(args.cluster_size, opts@);
    let fresh = choose|fresh: Seq<char>|
        is_fresh(args, fresh) && #[trigger] PoolCreate::absent(args, opts@, fresh, next);
    assert(is_fresh(args, fresh) && PoolCreate::absent(args, opts@, fresh, next));
    let uuid = uuid_or(args, fresh);
    lemma_pool_cmd(args, opts@, block, uuid);
    assert(looks_for(next->Do_1->Creating_query, args.name@, uuid));
}

/// Once the dataset has all of its properties, the pool is looked up, and any failure is told.
pub proof fn law_pool_adopt_steps(
    query: ZfsQueryArgs,
    text: String,
    error: Error,
    pool: ZfsPool,
    m: PoolAdopt,
    next: Step<PoolAdopt, ZfsPool>,
)
    ensures
        (PoolAdopt::Asserting { query }).resumed(Reply::Output(Ok(text)), next) ==> next == Step::<
            PoolAdopt,
            ZfsPool,
        >::Do(Effect::LookupPool(query), PoolAdopt::Looking),
        (m is Inspecting || m is Asserting) && m.resumed(Reply::Output(Err(error)), next) ==> next
            == Step::<PoolAdopt, ZfsPool>::Failed(error),
        m is Looking && m.resumed(Reply::Pool(Ok(pool)), next) ==> next == Step::<
            PoolAdopt,
            ZfsPool,
        >::Done(pool),
        m is Looking && m.resumed(Reply::Pool(Err(error)), next) ==> next == Step::<
            PoolAdopt,
            ZfsPool,
        >::Failed(error),
{
}

/// Importing a pool adopts it as its disks tell, and then opens the replicas of that very pool.
pub proof fn law_pool_import(
    factory: PoolZfsFactory,
    args: PoolArgs,
    first: Step<PoolImport, ZfsPool>,
    pool: ZfsPool,
    error: Error,
    vols: Vec<ZfsVol>,
    next: Step<PoolImport, ZfsPool>,
)
    requires
        call_ensures(ZfsPool::import, (args,), first) || call_ensures(
            PoolZfsFactory::import,
            (&factory, args),
            first,
        ),
    ensures
        pool_opts_of_disks(texts(args.disks@)) matches Ok(opts) ==> first is Do
            && first->Do_0 is AdoptPool && first->Do_0->AdoptPool_args == args
            && first->Do_0->AdoptPool_opts@ == opts && first->Do_1 is Adopting,
        pool_opts_of_disks(texts(args.disks@)) matches Err(error) ==> first is Failed
            && first->Failed_0@ == error,
        PoolImport::Adopting.resumed(Reply::Pool(Ok(pool)), next) ==> {
            &&& next is Do
            &&& next->Do_0 is ListVols
            &&& next->Do_0->ListVols_0.dataset is Some
            &&& next->Do_0->ListVols_0.dataset->0@ == pool@.dataset
            &&& next->Do_0->ListVols_0.vol.uuid is None
            &&& next->Do_0->ListVols_0.vol.name is None
            &&& next->Do_0->ListVols_0.pool.uuid is None
            &&& next->Do_0->ListVols_0.pool.name is None
            &&& next->Do_1 == (PoolImport::Opening { pool })
        },
        PoolImport::Adopting.resumed(Reply::Pool(Err(error)), next) ==> next == Step::<
            PoolImport,
            ZfsPool,
        >::Failed(error),
        (PoolImport::Opening { pool }).resumed(Reply::Vols(Ok(vols)), next) ==> next == Step::<
            PoolImport,
            ZfsPool,
        >::Done(pool),
        (PoolImport::Opening { pool }).resumed(Reply::Vols(Err(error)), next) ==> next == Step::<
            PoolImport,
            ZfsPool,
        >::Failed(error),
{
}

} // verus!
