//! What holds of the operations from their start to their end, whatever the replies are.
use vstd::prelude::*;
use crate::cli::{lemma_one_prop, lemma_push_prop, props_of, CmdView, DsPropsView, ZfsCmd};
use crate::engine::Protocol;
use crate::error::{Error, ErrorView};
use crate::flow::device::{DeviceWait, VolExport, VolImport, DEVICE_TIMEOUT_MS};
use crate::flow::pool_remove::{
    foreign_of, is_foreign, next_open, pool_destroy_cmd, PoolDestroy, PoolExport,
};
use crate::flow::removal::{
    destroy_cmd, first_cloned, promote_cmd, some_live, VolDestroy,
};
use crate::flow::resize::{Change, VolResize};
use crate::flow::share::{set_cmd, VolUnshare};
use crate::flow::snapshot::{
    clone_cmd, clone_properties, snap_defer_cmd, SnapDestroy,
};
use crate::flow::volume::VolList;
use crate::operation::{fails, runs, Effect, Reply, Step};
use crate::options::{law_round_up, rounded_up};
use crate::property::{PropertyType, PropertyView};
use crate::snapshot::{snap_views, SnapView, ZfsSnapshot};
use crate::zvol_replica::{vol_views, BdevOpts, VolView, ZfsVol};

verus! {

/// The command destroys something.
pub open spec fn is_destroy(cmd: CmdView) -> bool {
    cmd.argv.len() > 0 && cmd.argv[0] == "destroy"@
}

/// A zvol is destroyed only once its snapshots were listed and none of them was live, and only
/// once its bdev is closed, if it has one.
pub proof fn law_destroy_spares_live(
    m: VolDestroy,
    reply: Reply,
    cmd: ZfsCmd,
    state: VolDestroy,
)
    requires
        m.awaits(reply),
        m.resumed(reply, Step::Do(Effect::Run(cmd), state)),
        is_destroy(cmd@),
    ensures
        match m {
            VolDestroy::Closing { vol, recursive } => reply matches Reply::Finished(Ok(_)) && cmd@
                == destroy_cmd(vol@.dataset, recursive),
            VolDestroy::Listing { vol } | VolDestroy::Relisting { vol, .. } => {
                &&& vol@.bdev is None
                &&& reply matches Reply::Snaps(Ok(snaps))
                &&& !some_live(snap_views(snaps@))
                &&& cmd@ == destroy_cmd(vol@.dataset, snaps@.len() > 0)
            },
            _ => false,
        },
{
    reveal_strlit("promote");
    reveal_strlit("destroy");
    assert("promote"@[0] != "destroy"@[0]);
    match reply {
        Reply::Snaps(Ok(snaps)) => {
            assert(snap_views(snaps@).len() == snaps@.len());
        },
        _ => {},
    }
}

/// The bdev of a zvol is closed to destroy the zvol only if its snapshots were listed and none of
/// them was live; the zvol is then destroyed recursively if and only if there were snapshots.
pub proof fn law_close_spares_live(
    m: VolDestroy,
    reply: Reply,
    uri: String,
    vol: ZfsVol,
    recursive: bool,
)
    requires
        m.awaits(reply),
        m.resumed(reply, Step::Do(Effect::CloseBdev(uri), VolDestroy::Closing { vol, recursive })),
    ensures
        m is Listing || m is Relisting,
        reply matches Reply::Snaps(Ok(snaps)) && !some_live(snap_views(snaps@)) && recursive == (
        snaps@.len() > 0),
{
    match reply {
        Reply::Snaps(Ok(snaps)) => {
            assert(snap_views(snaps@).len() == snaps@.len());
        },
        _ => {},
    }
}

/// A live snapshot without clones keeps its zvol from being destroyed.
pub proof fn law_live_snapshot_refuses(
    m: VolDestroy,
    reply: Reply,
    next: Step<VolDestroy, ()>,
    vol: ZfsVol,
    snaps: Vec<ZfsSnapshot>,
)
    requires
        m == (VolDestroy::Listing { vol }) || (m matches VolDestroy::Relisting { vol: v, .. } && v
            == vol),
        reply == Reply::Snaps(Ok(snaps)),
        m.resumed(reply, next),
        first_cloned(snap_views(snaps@)) is None,
        some_live(snap_views(snaps@)),
    ensures
        fails(next, ErrorView::HasLiveSnapshots { volume: vol@.uuid }),
{
}

/// A snapshot with clones is first re-homed onto its first clone.
pub proof fn law_clone_promoted(
    vol: ZfsVol,
    snaps: Vec<ZfsSnapshot>,
    next: Step<VolDestroy, ()>,
)
    requires
        (VolDestroy::Listing { vol }).resumed(Reply::Snaps(Ok(snaps)), next),
        first_cloned(snap_views(snaps@)) is Some,
    ensures
        first_cloned(snap_views(snaps@)) matches Some(snap) && snap.clones.len() > 0 && (next
            matches Step::Do(Effect::Run(cmd), _) && cmd@ == promote_cmd(snap.clones[0])),
{
    lemma_first_cloned(snap_views(snaps@));
}

proof fn lemma_first_cloned(snaps: Seq<SnapView>)
    ensures
        first_cloned(snaps) matches Some(snap) ==> snap.clones.len() > 0,
    decreases snaps.len(),
{
    if snaps.len() > 0 && snaps[0].clones.len() == 0 {
        lemma_first_cloned(snaps.drop_first());
    }
}

/// Clones are promoted at most once more often than there were snapshots: after the first one as
/// many more may be as there were snapshots, and each of them leaves one less.
pub proof fn law_promotions_bounded(
    m: VolDestroy,
    reply: Reply,
    effect: Effect,
    vol: ZfsVol,
    more: usize,
)
    requires
        m.awaits(reply),
        m.resumed(reply, Step::Do(effect, VolDestroy::Promoting { vol, more })) || m.resumed(
            reply,
            Step::Do(effect, VolDestroy::Relisting { vol, more }),
        ),
    ensures
        match m {
            VolDestroy::Listing { .. } => reply matches Reply::Snaps(Ok(snaps)) && more
                == snaps@.len() as usize,
            VolDestroy::Relisting { more: left, .. } => more < left,
            VolDestroy::Promoting { more: left, .. } => more == left,
            _ => false,
        },
{
}

/// The size of the replica when its resizing began.
pub open spec fn size_before(m: VolResize) -> u64 {
    match m {
        VolResize::Setting { vol, .. } => vol@.size,
        VolResize::Reading { prev, .. } => prev,
        VolResize::Notifying { prev, .. } => prev,
        VolResize::Reverting { prev, .. } => prev,
    }
}

/// The size the replica is to have when it is resized.
pub open spec fn size_after(m: VolResize) -> u64 {
    match m {
        VolResize::Setting { size, .. } => size,
        VolResize::Reading { vol, .. } => vol@.size,
        VolResize::Notifying { vol, .. } => vol@.size,
        VolResize::Reverting { vol, .. } => vol@.size,
    }
}

/// A replica is never shrunk, and it is resized to no less than what was asked for, and to less
/// than one block more.
pub proof fn law_resize_expands(vol: ZfsVol, size: u64, effect: Effect, m: VolResize)
    requires
        vol@.volblocksize > 0,
        rounded_up(size, vol@.volblocksize) <= u64::MAX,
        VolResize::started(vol, size, Step::Do(effect, m)),
    ensures
        size_before(m) == vol@.size,
        size_after(m) >= vol@.size,
        size <= size_after(m) < size + vol@.volblocksize,
{
    law_round_up(size, vol@.volblocksize);
}

/// Resizing a replica gives it the new size, or fails and leaves it with the size it had.
pub proof fn law_resize_reverts(m: VolResize, reply: Reply, next: Step<VolResize, Change<()>>)
    requires
        m.wf(),
        m.awaits(reply),
        m.resumed(reply, next),
    ensures
        match next {
            Step::Do(_, state) => size_before(state) == size_before(m) && size_after(state)
                == size_after(m),
            Step::Done((vol, Ok(_))) => vol@.size == size_after(m),
            Step::Done((vol, Err(_))) => vol@.size == size_before(m),
            Step::Failed(_) => false,
        },
{
}

/// Each child of a container, other than itself, is foreign or owned by us; no dataset is foreign
/// if and only if all the children are owned.
pub proof fn law_foreign(children: Seq<DsPropsView>, container: Seq<char>)
    ensures
        foreign_of(children, container).len() == 0 <==> (forall|i: int|
            0 <= i < children.len() ==> (#[trigger] children[i]).name == container
                || children[i].local(PropertyType::VolUuid.key()) is Some),
    decreases children.len(),
{
    if children.len() > 0 {
        let rest = children.drop_last();
        law_foreign(rest, container);
        assert forall|i: int|
            0 <= i < children.len() && !is_foreign(children.last(), container) && foreign_of(
                rest,
                container,
            ).len() == 0 implies (#[trigger] children[i]).name == container || children[i].local(
            PropertyType::VolUuid.key(),
        ) is Some by {
            if i < rest.len() {
                assert(children[i] == rest[i]);
            }
        }
        if foreign_of(children, container).len() > 0 {
            if is_foreign(children.last(), container) {
                assert(is_foreign(children[children.len() - 1], container));
            } else {
                let i = choose|i: int|
                    0 <= i < rest.len() && !((#[trigger] rest[i]).name == container
                        || rest[i].local(PropertyType::VolUuid.key()) is Some);
                assert(children[i] == rest[i]);
            }
        }
    }
}

/// A pool is destroyed only once its children were inspected and none of them was foreign, and only
/// once it is exported.
pub proof fn law_pool_destroy_spares_foreign(
    m: PoolDestroy,
    reply: Reply,
    effect: Effect,
    state: PoolDestroy,
)
    requires
        m.awaits(reply),
        m.resumed(reply, Step::Do(effect, state)),
    ensures
        match state {
            PoolDestroy::Inspecting { .. } => false,
            PoolDestroy::Exporting { pool } => {
                &&& m == (PoolDestroy::Inspecting { pool })
                &&& reply matches Reply::Output(Ok(output))
                &&& props_of("zfs"@, output@) matches Ok(children)
                &&& foreign_of(children, pool@.dataset).len() == 0
            },
            PoolDestroy::Destroying { .. } => {
                &&& m matches PoolDestroy::Exporting { pool }
                &&& reply matches Reply::Finished(Ok(_))
                &&& effect matches Effect::Run(cmd)
                &&& cmd@ == pool_destroy_cmd(pool@.dataset)
            },
            PoolDestroy::Removing => {
                &&& m is Destroying
                &&& reply matches Reply::Output(Ok(_))
            },
        },
{
}

/// A replica from the given position on whose bdev is open is found, if there is one.
pub proof fn lemma_next_open(vols: Seq<VolView>, at: int)
    requires
        0 <= at,
    ensures
        next_open(vols, at) <= vols.len(),
        next_open(vols, at) < vols.len() ==> at <= next_open(vols, at) && vols[next_open(
            vols,
            at,
        )].bdev is Some,
        forall|i: int| at <= i < next_open(vols, at) ==> (#[trigger] vols[i]).bdev is None,
    decreases vols.len() - at,
{
    if at < vols.len() && vols[at].bdev is None {
        lemma_next_open(vols, at + 1);
        assert forall|i: int| at <= i < next_open(vols, at) implies (#[trigger] vols[i]).bdev is
            None by {
            if i > at {
                assert(vols[i].bdev is None);
            }
        }
    }
}

/// The ownership of a pool is dropped only once the bdevs of all its replicas are closed: they are
/// closed one after the other, none is passed over, and one which cannot be closed ends the export.
pub proof fn law_export_closes_all(
    m: PoolExport,
    reply: Reply,
    effect: Effect,
    state: PoolExport,
)
    requires
        m.awaits(reply),
        m.resumed(reply, Step::Do(effect, state)),
    ensures
        ({
            let from = match m {
                PoolExport::Closing { at, .. } => at as int,
                _ => 0,
            };
            let vols = match (m, reply) {
                (PoolExport::Closing { vols, .. }, _) => vol_views(vols@),
                (_, Reply::Vols(Ok(vols))) => vol_views(vols@),
                _ => Seq::empty(),
            };
            match state {
                PoolExport::Listing { .. } => false,
                PoolExport::Closing { vols: v, at, .. } => {
                    &&& vol_views(v@) == vols
                    &&& from < at <= vols.len()
                    &&& vols[at - 1].bdev matches Some(bdev)
                    &&& effect matches Effect::CloseBdev(uri)
                    &&& uri@ == bdev.open_uri
                    &&& forall|i: int| from <= i < at - 1 ==> (#[trigger] vols[i]).bdev is None
                },
                PoolExport::Inheriting => {
                    &&& !(reply matches Reply::Finished(Err(_)))
                    &&& forall|i: int|
                        from <= i < vols.len() ==> (#[trigger] vols[i]).bdev is None
                },
            }
        }),
{
    match (m, reply) {
        (PoolExport::Listing { .. }, Reply::Vols(Ok(vols))) => {
            lemma_next_open(vol_views(vols@), 0);
        },
        (PoolExport::Closing { vols, at, .. }, _) => {
            lemma_next_open(vol_views(vols@), at as int);
        },
        _ => {},
    }
}

/// The replicas before the position are open, as long as none could not be opened.
pub open spec fn opened_so_far(m: VolList) -> bool {
    match m {
        VolList::Fetching { .. } => true,
        VolList::Opening { vols, at, error } => error is None ==> forall|i: int|
            0 <= i < at ==> (#[trigger] vol_views(vols@)[i]).bdev is Some,
    }
}

/// All the replicas that are listed are open: a listing succeeds only if each of them could be
/// opened.
pub proof fn law_listed_replicas_open(m: VolList, reply: Reply, next: Step<VolList, Vec<ZfsVol>>)
    requires
        m.wf(),
        m.awaits(reply),
        m.resumed(reply, next),
        opened_so_far(m),
    ensures
        match next {
            Step::Do(_, state) => opened_so_far(state),
            Step::Done(vols) => forall|i: int|
                0 <= i < vols@.len() ==> (#[trigger] vol_views(vols@)[i]).bdev is Some,
            Step::Failed(_) => true,
        },
{
    match (m, reply) {
        (VolList::Opening { vols, at, error }, Reply::Opened(Ok(bdev))) => {
            let views = vol_views(vols@);
            let after = views.update(
                at as int,
                VolView { bdev: Some(bdev@), ..views[at as int] },
            );
            assert(error is None ==> forall|i: int|
                0 <= i < at + 1 ==> (#[trigger] after[i]).bdev is Some);
        },
        _ => {},
    }
}

/// A snapshot which still has clones is never destroyed at once: it is marked as discarded, and
/// then its destruction is left to ZFS until its last clone goes away.
pub proof fn law_cloned_snapshot_kept(
    snap: SnapView,
    effect: Effect,
    m: SnapDestroy,
    reply: Reply,
    next: Step<SnapDestroy, ()>,
)
    requires
        snap.clones.len() > 0,
        SnapDestroy::started(snap, Step::Do(effect, m)),
        reply is Output,
        m.resumed(reply, next),
    ensures
        effect matches Effect::Run(cmd) && cmd@ == set_cmd(
            snap.path,
            seq![PropertyView::Discarded(true)],
        ),
        reply matches Reply::Output(Ok(_)) ==> runs(
            next,
            snap_defer_cmd(snap.path),
            SnapDestroy::Destroying,
        ),
        reply matches Reply::Output(Err(error)) ==> next == Step::<SnapDestroy, ()>::Failed(error),
{
}

/// A clone is created with its own properties alone: neither a size nor a block size nor anything
/// about encryption is passed, all of which the clone has from its origin.
pub proof fn law_clone_arguments(
    snap: SnapView,
    uuid: Seq<char>,
    name: Seq<char>,
    dataset: Seq<char>,
)
    requires
        clone_cmd(snap, uuid, name, dataset).deferred is None,
    ensures
        clone_cmd(snap, uuid, name, dataset).argv == seq![
            "clone"@,
            "-o"@,
            PropertyView::VolUuid(uuid).set_arg(),
            "-o"@,
            PropertyView::Name(name).set_arg(),
            "-o"@,
            PropertyView::SnapshotUuid(snap.uuid).set_arg(),
            "-o"@,
            PropertyView::Share(Protocol::Off).set_arg(),
            snap.path,
            dataset,
        ],
{
    let start = CmdView::zfs(seq!["clone"@]);
    let list = clone_properties(snap, uuid, name);
    lemma_one_prop(start, list[0]);
    let one = seq![list[0]];
    lemma_push_prop(start, one, list[1]);
    lemma_push_prop(start, one.push(list[1]), list[2]);
    lemma_push_prop(start, one.push(list[1]).push(list[2]), list[3]);
    assert(list =~= one.push(list[1]).push(list[2]).push(list[3]));
    let cmd = clone_cmd(snap, uuid, name, dataset);
    assert(cmd.argv =~= seq![
        "clone"@,
        "-o"@,
        list[0].set_arg(),
        "-o"@,
        list[1].set_arg(),
        "-o"@,
        list[2].set_arg(),
        "-o"@,
        list[3].set_arg(),
        snap.path,
        dataset,
    ]);
}

/// What a replica persists of its sharing stays as it is when it is unshared for the time being.
pub proof fn law_unshare_transient(
    m: VolUnshare,
    reply: Reply,
    next: Step<VolUnshare, Change<()>>,
)
    requires
        m.wf(),
        m.awaits(reply),
        m.resumed(reply, next),
        match m {
            VolUnshare::Reading { persist, .. } | VolUnshare::Unsharing { persist, .. } => !persist,
            VolUnshare::Persisting { .. } => false,
        },
    ensures
        ({
            let vol = match m {
                VolUnshare::Reading { vol, .. }
                | VolUnshare::Unsharing { vol, .. }
                | VolUnshare::Persisting { vol } => vol,
            };
            match next {
                Step::Do(effect, state) => !(effect is Run) && state == (VolUnshare::Unsharing {
                    vol,
                    persist: false,
                }),
                Step::Done((v, _)) => v@.share == vol@.share && v@.allowed_hosts
                    == vol@.allowed_hosts,
                Step::Failed(_) => false,
            }
        }),
{
}

/// Waiting for a device ends as soon as it is there, and is given up only after the timeout.
pub proof fn law_device_wait(m: DeviceWait, exists: bool, elapsed_ms: u64)
    ensures
        ({
            let next = m.resumed(Reply::Probed { exists, elapsed_ms });
            &&& next is Done <==> exists
            &&& next is Failed <==> !exists && elapsed_ms >= DEVICE_TIMEOUT_MS
        }),
{
}

/// An export undoes an import: the replica holds the bdev that was opened, and once the bdev is
/// closed the replica is as it was before. An import or an export that fails changes nothing.
pub proof fn law_export_undoes_import(
    vol: ZfsVol,
    opts: BdevOpts,
    error: Error,
    opened: ZfsVol,
    closed: ZfsVol,
    kept: ZfsVol,
    left: ZfsVol,
)
    requires
        vol@.bdev is None,
        (VolImport { vol }).resumed(Reply::Opened(Ok(opts)), Step::Done((opened, Ok(())))),
        (VolExport { vol: opened }).resumed(Reply::Finished(Ok(())), Step::Done((closed, Ok(())))),
        (VolImport { vol }).resumed(Reply::Opened(Err(error)), Step::Done((kept, Err(error)))),
        (VolExport { vol: opened }).resumed(
            Reply::Finished(Err(error)),
            Step::Done((left, Err(error))),
        ),
    ensures
        opened@ == (VolView { bdev: Some(opts@), ..vol@ }),
        closed@ == vol@,
        kept@ == vol@,
        left@ == opened@,
{
}

} // verus!
