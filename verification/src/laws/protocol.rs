//! Every reply to the work an operation asks for can be gone on with: whatever answers the work is
//! what is awaited in the state that comes with it.
use vstd::prelude::*;
use crate::cli::props_views;
use crate::ds_pool::sums_fit;
use crate::flow::device::{BdevClose, BdevOpen, DeviceWait};
use crate::flow::factory::PoolFind;
use crate::flow::pool_create::{PoolAdopt, PoolCreate, PoolImport};
use crate::flow::pool_list::PoolList;
use crate::flow::pool_remove::{PoolDestroy, PoolExport, PoolExportAll};
use crate::flow::removal::VolDestroy;
use crate::flow::resize::VolResize;
use crate::flow::share::{VolShare, VolUnshare, VolUpdate};
use crate::flow::snapshot::{CloneCreate, SnapCreate, SnapDestroy};
use crate::flow::volume::{VolCreate, VolList};
use crate::operation::{Effect, Reply, Step};
use crate::snapshot::ZfsSnapshot;
use crate::text::chars::text_pairs;
use crate::zvol_replica::ZfsVol;

verus! {

/// Replies while a device is waited for.
pub proof fn law_device_wait_replies(
    m: DeviceWait,
    reply: Reply,
    effect: Effect,
    state: DeviceWait,
    answer: Reply,
)
    requires
        reply is Probed,
        m.resumed(reply) == Step::<DeviceWait, ()>::Do(effect, state),
        effect.answered(answer),
    ensures
        answer is Probed,
{
}

/// Replies while a bdev is opened.
pub proof fn law_bdev_open_replies(
    m: BdevOpen,
    reply: Reply,
    effect: Effect,
    state: BdevOpen,
    answer: Reply,
)
    requires
        m.awaits(reply),
        m.resumed(reply, Step::Do(effect, state)),
        effect.answered(answer),
    ensures
        state.awaits(answer),
{
}

/// Replies while a bdev is closed.
pub proof fn law_bdev_close_replies(
    m: BdevClose,
    reply: Reply,
    effect: Effect,
    state: BdevClose,
    answer: Reply,
)
    requires
        m.awaits(reply),
        m.resumed(reply) == Step::<BdevClose, ()>::Do(effect, state),
        effect.answered(answer),
    ensures
        state.awaits(answer),
{
}

/// Replies while replicas are listed.
pub proof fn law_vol_list_replies(
    m: VolList,
    reply: Reply,
    effect: Effect,
    state: VolList,
    answer: Reply,
)
    requires
        m.awaits(reply),
        m.resumed(reply, Step::Do(effect, state)),
        effect.answered(answer),
    ensures
        state.awaits(answer),
{
}

/// Replies while a replica is created.
pub proof fn law_vol_create_replies(
    m: VolCreate,
    reply: Reply,
    effect: Effect,
    state: VolCreate,
    answer: Reply,
)
    requires
        m.awaits(reply),
        m.resumed(reply, Step::Do(effect, state)),
        effect.answered(answer),
    ensures
        state.awaits(answer),
{
}

/// Replies while a replica is destroyed.
pub proof fn law_vol_destroy_replies(
    m: VolDestroy,
    reply: Reply,
    effect: Effect,
    state: VolDestroy,
    answer: Reply,
)
    requires
        m.awaits(reply),
        m.resumed(reply, Step::Do(effect, state)),
        effect.answered(answer),
    ensures
        state.awaits(answer),
{
}

/// Replies while a replica is resized; the blocks of a bdev must not be empty.
pub proof fn law_vol_resize_replies(
    m: VolResize,
    reply: Reply,
    effect: Effect,
    state: VolResize,
    answer: Reply,
)
    requires
        m.awaits(reply),
        m.resumed(reply, Step::Do(effect, state)),
        effect.answered(answer),
        answer matches Reply::Bdev(Some(bdev)) ==> bdev.block_len > 0,
    ensures
        state.awaits(answer),
{
}

/// Replies while a replica is shared.
pub proof fn law_vol_share_replies(
    m: VolShare,
    reply: Reply,
    effect: Effect,
    state: VolShare,
    answer: Reply,
)
    requires
        m.awaits(reply),
        m.resumed(reply, Step::Do(effect, state)),
        effect.answered(answer),
    ensures
        state.awaits(answer),
{
}

/// Replies while the share properties of a replica are updated.
pub proof fn law_vol_update_replies(
    m: VolUpdate,
    reply: Reply,
    effect: Effect,
    state: VolUpdate,
    answer: Reply,
)
    requires
        m.awaits(reply),
        m.resumed(reply, Step::Do(effect, state)),
        effect.answered(answer),
    ensures
        state.awaits(answer),
{
}

/// Replies while a replica is unshared.
pub proof fn law_vol_unshare_replies(
    m: VolUnshare,
    reply: Reply,
    effect: Effect,
    state: VolUnshare,
    answer: Reply,
)
    requires
        m.awaits(reply),
        m.resumed(reply, Step::Do(effect, state)),
        effect.answered(answer),
    ensures
        state.awaits(answer),
{
}

/// Replies while a snapshot is created.
pub proof fn law_snap_create_replies(
    m: SnapCreate,
    reply: Reply,
    effect: Effect,
    state: SnapCreate,
    answer: Reply,
)
    requires
        m.awaits(reply),
        m.resumed(reply) == Step::<SnapCreate, ZfsSnapshot>::Do(effect, state),
        effect.answered(answer),
    ensures
        state.awaits(answer),
{
}

/// Replies while a snapshot is destroyed.
pub proof fn law_snap_destroy_replies(
    m: SnapDestroy,
    reply: Reply,
    effect: Effect,
    state: SnapDestroy,
    answer: Reply,
)
    requires
        reply is Output,
        m.resumed(reply, Step::Do(effect, state)),
        effect.answered(answer),
    ensures
        answer is Output,
{
}

/// Replies while a clone is created.
pub proof fn law_clone_create_replies(
    m: CloneCreate,
    reply: Reply,
    effect: Effect,
    state: CloneCreate,
    answer: Reply,
)
    requires
        m.awaits(reply),
        m.resumed(reply) == Step::<CloneCreate, ZfsVol>::Do(effect, state),
        effect.answered(answer),
    ensures
        state.awaits(answer),
{
}

/// Replies while pools are listed; the sizes of the zvols of a pool must add up.
pub proof fn law_pool_list_replies(
    m: PoolList,
    reply: Reply,
    effect: Effect,
    state: PoolList,
    answer: Reply,
)
    requires
        m.awaits(reply),
        m.resumed(reply, Step::Do(effect, state)),
        effect.answered(answer),
        state matches PoolList::Sizing { found, details, volumes } ==> sums_fit(
            text_pairs(found@),
            props_views(details@),
            text_pairs(volumes@),
        ),
    ensures
        state.awaits(answer),
{
}

/// Replies while a pool is adopted.
pub proof fn law_pool_adopt_replies(
    m: PoolAdopt,
    reply: Reply,
    effect: Effect,
    state: PoolAdopt,
    answer: Reply,
)
    requires
        m.awaits(reply),
        m.resumed(reply, Step::Do(effect, state)),
        effect.answered(answer),
    ensures
        state.awaits(answer),
{
}

/// Replies while a pool is created.
pub proof fn law_pool_create_replies(
    m: PoolCreate,
    reply: Reply,
    effect: Effect,
    state: PoolCreate,
    answer: Reply,
)
    requires
        m.awaits(reply),
        m.resumed(reply, Step::Do(effect, state)),
        effect.answered(answer),
    ensures
        state.awaits(answer),
{
}

/// Replies while a pool is imported.
pub proof fn law_pool_import_replies(
    m: PoolImport,
    reply: Reply,
    effect: Effect,
    state: PoolImport,
    answer: Reply,
)
    requires
        m.awaits(reply),
        m.resumed(reply, Step::Do(effect, state)),
        effect.answered(answer),
    ensures
        state.awaits(answer),
{
}

/// Replies while a pool is exported.
pub proof fn law_pool_export_replies(
    m: PoolExport,
    reply: Reply,
    effect: Effect,
    state: PoolExport,
    answer: Reply,
)
    requires
        m.awaits(reply),
        m.resumed(reply, Step::Do(effect, state)),
        effect.answered(answer),
    ensures
        state.awaits(answer),
{
}

/// Replies while all pools are exported.
pub proof fn law_pool_export_all_replies(
    m: PoolExportAll,
    reply: Reply,
    effect: Effect,
    state: PoolExportAll,
    answer: Reply,
)
    requires
        m.awaits(reply),
        m.resumed(reply, Step::Do(effect, state)),
        effect.answered(answer),
    ensures
        state.awaits(answer),
{
}

/// Replies while a pool is destroyed.
pub proof fn law_pool_destroy_replies(
    m: PoolDestroy,
    reply: Reply,
    effect: Effect,
    state: PoolDestroy,
    answer: Reply,
)
    requires
        m.awaits(reply),
        m.resumed(reply, Step::Do(effect, state)),
        effect.answered(answer),
    ensures
        state.awaits(answer),
{
}

/// Replies while a pool is found.
pub proof fn law_pool_find_replies(
    m: PoolFind,
    reply: Reply,
    effect: Effect,
    state: PoolFind,
    answer: Reply,
)
    requires
        reply is Pool,
        m.resumed(reply, Step::Do(effect, state)),
        effect.answered(answer),
    ensures
        answer is Pool,
{
}

} // verus!
