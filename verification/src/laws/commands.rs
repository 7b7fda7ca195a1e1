//! The commands that each operation runs, and what it looks for afterwards.
use vstd::prelude::*;
use crate::cli::{CmdView, ZfsQueryArgs};
use crate::dataset::is_component;
use crate::ds_pool::ZfsPool;
use crate::engine::{CloneParams, Protocol, ReplicaArgs, SnapshotParams};
use crate::flow::pool_list::{PoolList, PoolLookup};
use crate::flow::snapshot::{
    clone_properties, snapshot_properties, CloneCreate, SnapCreate, SnapDestroy, SnapList,
    SnapLookup,
};
use crate::flow::volume::{create_block, replica_properties, VolCreate, VolList, VolLookup};
use crate::laws::arguments::{
    all_written, law_pairs_appended, law_props_appended, law_set_command, option_args,
    setting_args, writable, written,
};
use crate::laws::options::{
    is_option, last_size, law_replica_options, law_replica_options_kept, passed_on,
};
use crate::operation::{Effect, Reply, Step};
use crate::options::{is_power_of_two, is_volblocksize, law_round_up, lemma_volblocksize_positive};
use crate::outside::is_utc_time;
use crate::property::PropertyView;
use crate::snapshot::{SnapQueryArgs, ZfsSnapshot};
use crate::text::chars::{control_free, text_opt, text_pairs};
use crate::text::decimal::decimal;
use crate::zvol_replica::{VolQueryArgs, ZfsVol};

verus! {

/// The step runs zfs with the given arguments.
pub open spec fn runs_zfs<S, T>(step: Step<S, T>, argv: Seq<Seq<char>>) -> bool {
    step is Do && step->Do_0 is Run && step->Do_0->Run_0@ == (CmdView {
        cmd: "zfs"@,
        argv,
        input: None,
        deferred: None,
    })
}

/// The replicas, snapshots and pools are each listed by one command which fetches all that is read
/// of them, of the dataset that the query is scoped to, if there is one.
pub proof fn law_listing_commands(
    vols: VolQueryArgs,
    vol_step: Step<VolList, Vec<ZfsVol>>,
    snaps: SnapQueryArgs,
    snap_step: Step<SnapList, Vec<ZfsSnapshot>>,
    pools: ZfsQueryArgs,
    pool_step: Step<PoolList, Vec<ZfsPool>>,
)
    requires
        call_ensures(ZfsVol::list, (vols,), vol_step),
        call_ensures(ZfsSnapshot::list, (snaps,), snap_step),
        call_ensures(ZfsPool::list, (pools,), pool_step),
    ensures
        ({
            let get = seq![
                "get"@,
                "-Hp"@,
                "-t"@,
                "volume"@,
                "-o"@,
                "name,property,value,source"@,
                "volsize,volblocksize,used,referenced,refreservation,usedbysnapshots,origin,encryption,io.mayastor:pool,io.mayastor:uuid,io.mayastor:name,io.mayastor:entity_id,io.mayastor:share,io.mayastor:allowed_hosts,io.mayastor:snapshot_uuid"@,
            ];
            &&& vols.dataset matches Some(dataset) ==> runs_zfs(
                vol_step,
                get + seq!["-d"@, "1"@, dataset@],
            )
            &&& vols.dataset is None ==> runs_zfs(vol_step, get)
            &&& vol_step->Do_1 == (VolList::Fetching { query: vols })
        }),
        ({
            let get = seq![
                "get"@,
                "-Hp"@,
                "-t"@,
                "snapshot"@,
                "-o"@,
                "name,property,value,source"@,
                "used,referenced,volsize,volblocksize,clones,defer_destroy,io.mayastor:pool,io.mayastor:snapshot_uuid,io.mayastor:name,io.mayastor:entity_id,io.mayastor:parent_id,io.mayastor:txn_id,io.mayastor:create_time,io.mayastor:discarded"@,
            ];
            &&& snaps.dataset matches Some(dataset) ==> runs_zfs(
                snap_step,
                get + seq!["-d"@, "1"@, dataset@],
            )
            &&& snaps.dataset is None ==> runs_zfs(snap_step, get)
            &&& snap_step->Do_1 == (SnapList { query: snaps })
        }),
        runs_zfs(
            pool_step,
            seq![
                "get"@,
                "-Hp"@,
                "-t"@,
                "filesystem"@,
                "-s"@,
                "local"@,
                "-o"@,
                "name,value"@,
                "io.mayastor:pool"@,
            ],
        ),
        pool_step->Do_1 == (PoolList::Discovering { query: pools }),
{
}

/// A lookup lists with the very query it was asked for.
pub proof fn law_lookups(
    vols: VolQueryArgs,
    vol_step: Step<VolLookup, ZfsVol>,
    snaps: SnapQueryArgs,
    snap_step: Step<SnapLookup, ZfsSnapshot>,
    pools: ZfsQueryArgs,
    pool_step: Step<PoolLookup, ZfsPool>,
)
    requires
        call_ensures(ZfsVol::lookup, (vols,), vol_step),
        call_ensures(ZfsSnapshot::lookup, (snaps,), snap_step),
        call_ensures(ZfsPool::lookup, (pools,), pool_step),
    ensures
        vol_step == Step::<VolLookup, ZfsVol>::Do(Effect::ListVols(vols), VolLookup { query: vols }),
        snap_step == Step::<SnapLookup, ZfsSnapshot>::Do(
            Effect::ListSnaps(snaps),
            SnapLookup { query: snaps },
        ),
        pool_step == Step::<PoolLookup, ZfsPool>::Do(
            Effect::ListPools(pools),
            PoolLookup { query: pools },
        ),
{
}

/// A lookup gives the first of what is listed, and tells where there is nothing.
pub proof fn law_lookup_results(
    vol: VolLookup,
    vols: Vec<ZfsVol>,
    vol_step: Step<VolLookup, ZfsVol>,
    snap: SnapLookup,
    snaps: Vec<ZfsSnapshot>,
    snap_step: Step<SnapLookup, ZfsSnapshot>,
    pool: PoolLookup,
    pools: Vec<ZfsPool>,
    pool_step: Step<PoolLookup, ZfsPool>,
)
    requires
        vol.resumed(Reply::Vols(Ok(vols)), vol_step),
        snap.resumed(Reply::Snaps(Ok(snaps)), snap_step),
        pool.resumed(Reply::Pools(Ok(pools)), pool_step),
    ensures
        vols@.len() > 0 ==> vol_step == Step::<VolLookup, ZfsVol>::Done(vols@[0]),
        vols@.len() == 0 ==> vol_step is Failed && vol_step->Failed_0 is VolNotFound,
        snaps@.len() > 0 ==> snap_step == Step::<SnapLookup, ZfsSnapshot>::Done(snaps@[0]),
        snaps@.len() == 0 ==> snap_step is Failed && snap_step->Failed_0 is SnapNotFound,
        pools@.len() > 0 ==> pool_step == Step::<PoolLookup, ZfsPool>::Done(pools@[0]),
        pools@.len() == 0 ==> pool_step is Failed && pool_step->Failed_0 is NotFound,
{
}

/// The owner that a request asks for, if it is not empty.
pub open spec fn owners(id: Option<String>) -> Seq<PropertyView> {
    match id {
        Some(id) => if id@.len() > 0 {
            seq![PropertyView::EntityId(id@)]
        } else {
            Seq::empty()
        },
        None => Seq::empty(),
    }
}

/// The arguments which create a zvol.
pub open spec fn zvol_args(
    thin: bool,
    size: u64,
    block: u64,
    props: Seq<(Seq<char>, Seq<char>)>,
    own: Seq<PropertyView>,
    dataset: Seq<char>,
) -> Seq<Seq<char>> {
    let sparse = if thin {
        seq!["-s"@]
    } else {
        Seq::empty()
    };
    seq!["create"@] + sparse + seq!["-V"@, decimal(size as nat), "-b"@, decimal(block as nat)]
        + option_args(props) + option_args(all_written(own)) + seq![dataset]
}

/// The block size is the last that is asked for, or that of the pool where none is.
pub open spec fn is_block_of(pool: ZfsPool, args: ReplicaArgs, block: u64) -> bool {
    exists|own: Option<u64>| #[trigger]
        last_size(text_pairs(args.properties@), "volblocksize"@, own) && block == (match own {
            Some(size) => size,
            None => pool@.volblocksize,
        })
}

/// A replica is created below its pool under its uuid, sparse if it is thin, as large as asked for
/// rounded up to its blocks, with each of its properties in order, and with what it is persisted on
/// it; not shared at first. It is then looked for by its uuid, in that pool alone.
pub proof fn law_replica_create_command(
    pool: ZfsPool,
    args: ReplicaArgs,
    step: Step<VolCreate, ZfsVol>,
)
    requires
        call_ensures(ZfsVol::create, (&pool, args), step) || call_ensures(
            ZfsPool::create_zvol,
            (&pool, args),
            step,
        ),
        step is Do,
    ensures
        is_component(args.uuid@),
        step->Do_1 is Creating,
        step->Do_1->Creating_args == args,
        step->Do_0 is Run,
        ({
            let size = step->Do_1->Creating_size;
            let dataset = pool@.dataset + "/"@ + args.uuid@;
            let query = step->Do_1->Creating_query;
            let own = seq![PropertyView::VolUuid(args.uuid@), PropertyView::Name(args.name@)]
                + owners(args.entity_id) + seq![PropertyView::Share(Protocol::Off)];
            let props = passed_on(text_pairs(args.properties@));
            &&& exists|block: u64|
                {
                    &&& #[trigger] is_block_of(pool, args, block)
                    &&& is_volblocksize(block)
                    &&& size as int % block as int == 0
                    &&& args.size <= size < args.size + block
                    &&& writable(own) ==> runs_zfs(
                        step,
                        zvol_args(args.thin, size, block, props, own, dataset),
                    )
                }
            &&& step->Do_1->Creating_device@ == "/dev/zvol/"@ + dataset
            &&& query.dataset is Some && query.dataset->0@ == pool@.dataset
            &&& query.vol.uuid is Some && query.vol.uuid->0@ == args.uuid@
            &&& query.vol.name is None
            &&& query.pool.uuid is Some && query.pool.uuid->0@ == pool@.uuid
            &&& query.pool.name is None
        }),
{
    let properties = text_pairs(args.properties@);
    law_replica_options_kept(properties);
    let (opts, block) = create_block(pool@, args)->Ok_0;
    let size = step->Do_1->Creating_size;
    let dataset = pool@.dataset + "/"@ + args.uuid@;
    assert(last_size(properties, "volblocksize"@, opts.volblocksize));
    assert(is_block_of(pool, args, block));
    reveal_with_fuel(is_power_of_two, 2);
    lemma_volblocksize_positive(block);
    law_round_up(args.size, block);
    let own = seq![PropertyView::VolUuid(args.uuid@), PropertyView::Name(args.name@)] + owners(
        args.entity_id,
    ) + seq![PropertyView::Share(Protocol::Off)];
    assert(replica_properties(args) =~= own);
    if writable(own) {
        let start = CmdView::zfs(seq!["create"@]);
        let sparse = if args.thin {
            start.arg("-s"@)
        } else {
            start
        };
        let sized = sparse.args(
            seq!["-V"@, decimal(size as nat), "-b"@, decimal(block as nat)],
        );
        law_pairs_appended(sized, opts.props);
        law_props_appended(sized.with_pairs(opts.props), own);
        assert(step->Do_0->Run_0@.argv =~= zvol_args(
            args.thin,
            size,
            block,
            passed_on(properties),
            own,
            dataset,
        ));
    }
}

/// A request for a replica is refused, and nothing is run, if its uuid is no valid name, if one of
/// its options is not known or not valid, or if its blocks would not be.
pub proof fn law_replica_create_refused(
    pool: ZfsPool,
    args: ReplicaArgs,
    step: Step<VolCreate, ZfsVol>,
)
    requires
        call_ensures(ZfsVol::create, (&pool, args), step),
        is_volblocksize(pool@.volblocksize),
    ensures
        step is Do || step is Failed,
        step is Do <==> is_component(args.uuid@) && forall|i: int|
            0 <= i < args.properties@.len() ==> is_option(
                (#[trigger] args.properties@[i]).0@,
                args.properties@[i].1@,
            ),
{
    let properties = text_pairs(args.properties@);
    law_replica_options_kept(properties);
    law_replica_options(properties);
    if forall|i: int|
        0 <= i < args.properties@.len() ==> is_option(
            (#[trigger] args.properties@[i]).0@,
            args.properties@[i].1@,
        ) {
        assert forall|i: int| 0 <= i < properties.len() implies is_option(
            (#[trigger] properties[i]).0,
            properties[i].1,
        ) by {
            assert(properties[i].0 == args.properties@[i].0@);
        }
    }
    if step is Do {
        assert forall|i: int| 0 <= i < args.properties@.len() implies is_option(
            (#[trigger] args.properties@[i]).0@,
            args.properties@[i].1@,
        ) by {
            assert(properties[i].0 == args.properties@[i].0@);
            assert(is_option(properties[i].0, properties[i].1));
        }
    }
}

/// What follows the creation of a zvol: its device is waited for and then it is looked up. A zvol
/// which existed already is taken only if it is just what was asked for, and not shared.
pub proof fn law_replica_create_steps(
    m: VolCreate,
    reply: Reply,
    next: Step<VolCreate, ZfsVol>,
)
    requires
        m.awaits(reply),
        m.resumed(reply, next),
    ensures
        m matches VolCreate::Creating { args, size, device, query } ==> {
            &&& reply matches Reply::Output(Ok(_)) ==> next == Step::<VolCreate, ZfsVol>::Do(
                Effect::AwaitDevice(device),
                VolCreate::Waiting { args, size, query, existing: None },
            )
            &&& reply matches Reply::Output(Err(error)) ==> if error is Exists {
                next == Step::<VolCreate, ZfsVol>::Do(
                    Effect::AwaitDevice(device),
                    VolCreate::Waiting { args, size, query, existing: Some(error) },
                )
            } else {
                next == Step::<VolCreate, ZfsVol>::Failed(error)
            }
        },
        m matches VolCreate::Waiting { args, size, query, existing } ==> {
            &&& reply matches Reply::Finished(Ok(_)) ==> next == Step::<VolCreate, ZfsVol>::Do(
                Effect::LookupVol(query),
                VolCreate::Looking { args, size, existing },
            )
            &&& reply matches Reply::Finished(Err(error)) ==> next == Step::<
                VolCreate,
                ZfsVol,
            >::Failed(error)
        },
        m matches VolCreate::Looking { args, size, existing } ==> {
            &&& reply matches Reply::Vol(Err(error)) ==> next == Step::<VolCreate, ZfsVol>::Failed(
                error,
            )
            &&& reply matches Reply::Vol(Ok(vol)) ==> {
                let same = vol@.name == Some(args.name@) && vol@.uuid == args.uuid@ && vol@.size
                    == size && vol@.entity_id == text_opt(args.entity_id) && !(vol@.bdev is Some
                    && vol@.share == Protocol::Nvmf);
                &&& existing is None || same ==> next == Step::<VolCreate, ZfsVol>::Done(vol)
                &&& existing matches Some(error) ==> (!same ==> next == Step::<
                    VolCreate,
                    ZfsVol,
                >::Failed(error))
            }
        },
{
}

/// The parameters of a snapshot as they are persisted.
pub open spec fn snapshot_own(
    vol: ZfsVol,
    params: SnapshotParams,
    now: Seq<char>,
) -> Seq<PropertyView> {
    let parent = match params.parent_id {
        Some(id) => id@,
        None => vol@.uuid,
    };
    let time = match params.create_time {
        Some(time) => time@,
        None => now,
    };
    let name = match params.name {
        Some(name) => seq![PropertyView::Name(name@)],
        None => Seq::empty(),
    };
    let owner = match params.entity_id {
        Some(id) => seq![PropertyView::EntityId(id@)],
        None => Seq::empty(),
    };
    let txn = match params.txn_id {
        Some(id) => seq![PropertyView::TxnId(id@)],
        None => Seq::empty(),
    };
    seq![
        PropertyView::SnapshotUuid(params.snapshot_uuid->0@),
        PropertyView::ParentId(parent),
        PropertyView::CreateTime(time),
        PropertyView::Discarded(params.discarded_snapshot),
    ] + name + owner + txn
}

/// A snapshot is created of its zvol under its uuid, with all its parameters persisted on it by the
/// same command, and then looked for by its uuid among the snapshots of that zvol.
pub proof fn law_snapshot_create_command(
    vol: ZfsVol,
    params: SnapshotParams,
    now: String,
    step: Step<SnapCreate, ZfsSnapshot>,
)
    requires
        call_ensures(ZfsSnapshot::create_at, (&vol, params, now), step),
    ensures
        step is Do || step is Failed,
        step is Do <==> params.snapshot_uuid is Some && is_component(params.snapshot_uuid->0@),
        step is Do ==> {
            let uuid = params.snapshot_uuid->0@;
            let own = snapshot_own(vol, params, now@);
            let query = step->Do_1->Creating_query;
            &&& step->Do_0 is Run
            &&& writable(own) ==> runs_zfs(
                step,
                seq!["snapshot"@] + option_args(all_written(own)) + seq![
                    vol@.dataset + "@"@ + uuid,
                ],
            )
            &&& step->Do_1 is Creating
            &&& query.uuid is Some && query.uuid->0@ == uuid
            &&& query.dataset is Some && query.dataset->0@ == vol@.dataset
            &&& query.source_uuid is None && query.pool.name is None && query.pool.uuid is None
        },
{
    if step is Do {
        let own = snapshot_own(vol, params, now@);
        let uuid = params.snapshot_uuid->0@;
        assert(snapshot_properties(vol@, uuid, params@, now@) =~= own);
        if writable(own) {
            law_props_appended(CmdView::zfs(seq!["snapshot"@]), own);
            assert(step->Do_0->Run_0@.argv =~= seq!["snapshot"@] + option_args(all_written(own))
                + seq![vol@.dataset + "@"@ + uuid]);
        }
    }
}

/// A snapshot that is created now is created as it would be at some time of the clock: that time
/// matters only where the request gives none.
pub proof fn law_snapshot_created_now(
    vol: ZfsVol,
    params: SnapshotParams,
    step: Step<SnapCreate, ZfsSnapshot>,
)
    requires
        call_ensures(ZfsSnapshot::create, (&vol, params), step) || call_ensures(
            ZfsVol::create_snapshot,
            (&vol, params),
            step,
        ),
    ensures
        step is Do || step is Failed,
        step is Do <==> params.snapshot_uuid is Some && is_component(params.snapshot_uuid->0@),
        step is Do ==> {
            let uuid = params.snapshot_uuid->0@;
            let query = step->Do_1->Creating_query;
            &&& step->Do_0 is Run
            &&& exists|now: Seq<char>|
                {
                    let own = snapshot_own(vol, params, now);
                    &&& #[trigger] is_utc_time(now)
                    &&& writable(own) ==> runs_zfs(
                        step,
                        seq!["snapshot"@] + option_args(all_written(own)) + seq![
                            vol@.dataset + "@"@ + uuid,
                        ],
                    )
                }
            &&& step->Do_1 is Creating
            &&& query.uuid is Some && query.uuid->0@ == uuid
            &&& query.dataset is Some && query.dataset->0@ == vol@.dataset
            &&& query.source_uuid is None && query.pool.name is None && query.pool.uuid is None
        },
{
    let now = choose|now: Seq<char>|
        is_utc_time(now) && #[trigger] SnapCreate::started(vol@, params@, now, step);
    assert(is_utc_time(now) && SnapCreate::started(vol@, params@, now, step));
    if step is Do {
        let own = snapshot_own(vol, params, now);
        let uuid = params.snapshot_uuid->0@;
        assert(snapshot_properties(vol@, uuid, params@, now) =~= own);
        if writable(own) {
            law_props_appended(CmdView::zfs(seq!["snapshot"@]), own);
            assert(step->Do_0->Run_0@.argv =~= seq!["snapshot"@] + option_args(all_written(own))
                + seq![vol@.dataset + "@"@ + uuid]);
        }
    }
}

/// A snapshot without clones is destroyed at once. One with clones is marked as discarded first,
/// and then destroyed once its last clone is gone.
pub proof fn law_snapshot_destroy_commands(
    snap: ZfsSnapshot,
    first: Step<SnapDestroy, ()>,
    output: String,
    next: Step<SnapDestroy, ()>,
)
    requires
        call_ensures(ZfsSnapshot::destroy, (snap,), first),
        first is Do,
        first->Do_1.resumed(Reply::Output(Ok(output)), next),
    ensures
        snap@.clones.len() == 0 ==> runs_zfs(first, seq!["destroy"@, snap@.path]) && next
            == Step::<SnapDestroy, ()>::Done(()),
        snap@.clones.len() > 0 ==> runs_zfs(
            first,
            seq!["set"@, "io.mayastor:discarded"@ + "="@ + "true"@, snap@.path],
        ) && runs_zfs(next, seq!["destroy"@, "-d"@, snap@.path]) && next->Do_1
            == SnapDestroy::Destroying,
{
    if snap@.clones.len() > 0 {
        let own = seq![PropertyView::Discarded(true)];
        lemma_plain_words();
        assert(written(own[0]).1 == "true"@);
        law_set_command(snap@.path, own);
        assert(setting_args(all_written(own)) =~= seq![
            "io.mayastor:discarded"@ + "="@ + "true"@,
        ]);
        assert(first->Do_0->Run_0@.argv =~= seq![
            "set"@,
            "io.mayastor:discarded"@ + "="@ + "true"@,
            snap@.path,
        ]);
    }
}

/// The words that properties are persisted with hold no control character.
proof fn lemma_plain_words()
    ensures
        control_free("true"@),
        control_free("false"@),
        control_free("off"@),
        control_free("nvmf"@),
{
    reveal_strlit("true");
    reveal_strlit("false");
    reveal_strlit("off");
    reveal_strlit("nvmf");
}

/// A clone is created of the snapshot in the same container under its uuid, with what it is
/// persisted on it, not shared at first, and without any size, block size or other option. Its
/// device is then waited for, and it is looked for by its uuid in that container.
pub proof fn law_clone_create_command(
    snap: ZfsSnapshot,
    params: CloneParams,
    step: Step<CloneCreate, ZfsVol>,
)
    requires
        call_ensures(ZfsSnapshot::create_clone, (&snap, params), step),
    ensures
        step is Do || step is Failed,
        step is Do <==> params.clone_uuid is Some && params.clone_name is Some && is_component(
            params.clone_uuid->0@,
        ),
        step is Do ==> {
            let uuid = params.clone_uuid->0@;
            let dataset = snap@.container + "/"@ + uuid;
            let own = seq![
                PropertyView::VolUuid(uuid),
                PropertyView::Name(params.clone_name->0@),
                PropertyView::SnapshotUuid(snap@.uuid),
                PropertyView::Share(Protocol::Off),
            ];
            let query = step->Do_1->Cloning_query;
            &&& step->Do_0 is Run
            &&& writable(own) ==> runs_zfs(
                step,
                seq!["clone"@] + option_args(all_written(own)) + seq![snap@.path, dataset],
            )
            &&& step->Do_1 is Cloning
            &&& step->Do_1->Cloning_device@ == "/dev/zvol/"@ + dataset
            &&& query.vol.uuid is Some && query.vol.uuid->0@ == uuid
            &&& query.vol.name is None && query.pool.name is None && query.pool.uuid is None
            &&& query.dataset is Some && query.dataset->0@ == snap@.container
        },
{
    if step is Do {
        let uuid = params.clone_uuid->0@;
        let dataset = snap@.container + "/"@ + uuid;
        let own = seq![
            PropertyView::VolUuid(uuid),
            PropertyView::Name(params.clone_name->0@),
            PropertyView::SnapshotUuid(snap@.uuid),
            PropertyView::Share(Protocol::Off),
        ];
        assert(clone_properties(snap@, uuid, params.clone_name->0@) =~= own);
        if writable(own) {
            law_props_appended(CmdView::zfs(seq!["clone"@]), own);
            assert(step->Do_0->Run_0@.argv =~= seq!["clone"@] + option_args(all_written(own))
                + seq![snap@.path, dataset]);
        }
    }
}

/// What follows the creation of a snapshot or a clone: what was created is looked up, and what is
/// found is the result. Every failure is passed on.
pub proof fn law_snapshot_clone_steps(snap: SnapCreate, clone: CloneCreate, reply: Reply)
    ensures
        snap.awaits(reply) ==> {
            &&& snap matches SnapCreate::Creating { query } ==> (reply is Output && (match reply->Output_0 {
                Ok(_) => snap.resumed(reply) == Step::<SnapCreate, ZfsSnapshot>::Do(
                    Effect::LookupSnap(query),
                    SnapCreate::Looking,
                ),
                Err(error) => snap.resumed(reply) == Step::<SnapCreate, ZfsSnapshot>::Failed(error),
            }))
            &&& snap is Looking ==> (reply is Snap && (match reply->Snap_0 {
                Ok(found) => snap.resumed(reply) == Step::<SnapCreate, ZfsSnapshot>::Done(found),
                Err(error) => snap.resumed(reply) == Step::<SnapCreate, ZfsSnapshot>::Failed(error),
            }))
        },
        clone.awaits(reply) ==> {
            &&& clone matches CloneCreate::Cloning { device, query } ==> (reply is Output && (match reply->Output_0 {
                Ok(_) => clone.resumed(reply) == Step::<CloneCreate, ZfsVol>::Do(
                    Effect::AwaitDevice(device),
                    CloneCreate::Waiting { query },
                ),
                Err(error) => clone.resumed(reply) == Step::<CloneCreate, ZfsVol>::Failed(error),
            }))
            &&& clone matches CloneCreate::Waiting { query } ==> (reply is Finished && (match reply->Finished_0 {
                Ok(_) => clone.resumed(reply) == Step::<CloneCreate, ZfsVol>::Do(
                    Effect::LookupVol(query),
                    CloneCreate::Looking,
                ),
                Err(error) => clone.resumed(reply) == Step::<CloneCreate, ZfsVol>::Failed(error),
            }))
            &&& clone is Looking ==> (reply is Vol && (match reply->Vol_0 {
                Ok(found) => clone.resumed(reply) == Step::<CloneCreate, ZfsVol>::Done(found),
                Err(error) => clone.resumed(reply) == Step::<CloneCreate, ZfsVol>::Failed(error),
            }))
        },
{
}

} // verus!
