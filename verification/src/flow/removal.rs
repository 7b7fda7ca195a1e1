//! Replicas: destroying them, along with their discarded snapshots.
use vstd::prelude::*;
use crate::cli::{CmdView, ZfsCmd};
use crate::error::{Error, ErrorView};
use crate::operation::{fails, runs, Effect, Reply, Step};
use crate::ptpl::ZvolPtpl;
use crate::snapshot::{snap_views, SnapQueryArgs, SnapQueryView, SnapView, ZfsSnapshot};
use crate::text::chars::texts;
use crate::zvol_replica::{VolView, ZfsVol};

verus! {

/// The query which finds the snapshots of a zvol.
pub open spec fn snapshots_query(dataset: Seq<char>) -> SnapQueryView {
    SnapQueryView { dataset: Some(dataset), ..SnapQueryView::any() }
}

/// The command which re-homes the snapshots of a zvol onto a clone.
pub open spec fn promote_cmd(clone: Seq<char>) -> CmdView {
    CmdView::zfs(seq!["promote"@, clone])
}

/// The command which destroys a zvol, recursively or not.
pub open spec fn destroy_cmd(dataset: Seq<char>, recursive: bool) -> CmdView {
    if recursive {
        CmdView::zfs(seq!["destroy"@, "-r"@, dataset])
    } else {
        CmdView::zfs(seq!["destroy"@, dataset])
    }
}

/// The first snapshot which has clones.
pub open spec fn first_cloned(snaps: Seq<SnapView>) -> Option<SnapView>
    decreases snaps.len(),
{
    if snaps.len() == 0 {
        None
    } else if snaps[0].clones.len() > 0 {
        Some(snaps[0])
    } else {
        first_cloned(snaps.drop_first())
    }
}

/// Some snapshot is live, that is not discarded.
pub open spec fn some_live(snaps: Seq<SnapView>) -> bool {
    exists|i: int| 0 <= i < snaps.len() && !(#[trigger] snaps[i]).discarded
}

/// The first clone of the first snapshot which has clones.
fn clone_to_promote(snaps: &Vec<ZfsSnapshot>) -> (res: Option<String>)
    ensures
        match res {
            Some(clone) => first_cloned(snap_views(snaps@)) matches Some(snap) && clone@
                == snap.clones[0],
            None => first_cloned(snap_views(snaps@)) is None,
        },
{
    let ghost all = snap_views(snaps@);
    assert(all.skip(0) =~= all);
    for i in 0..snaps.len()
        invariant
            all == snap_views(snaps@),
            first_cloned(all) == first_cloned(all.skip(i as int)),
    {
        assert(all[i as int] == snaps@[i as int]@);
        assert(all.skip(i as int).drop_first() =~= all.skip(i + 1));
        let clones = snaps[i].clones();
        assert(texts(clones@).len() == clones@.len());
        if clones.len() > 0 {
            assert(texts(clones@)[0] == clones@[0]@);
            return Some(clones[0].clone());
        }
    }
    assert(all.skip(all.len() as int).len() == 0);
    None
}

/// Whether some snapshot is live.
fn any_live(snaps: &Vec<ZfsSnapshot>) -> (res: bool)
    ensures
        res == some_live(snap_views(snaps@)),
{
    let ghost all = snap_views(snaps@);
    for i in 0..snaps.len()
        invariant
            all == snap_views(snaps@),
            forall|j: int| 0 <= j < i ==> (#[trigger] all[j]).discarded,
    {
        assert(all[i as int] == snaps@[i as int]@);
        if !snaps[i].discarded() {
            return true;
        }
    }
    false
}

/// Destroying a replica.
#[derive(Debug)]
pub enum VolDestroy {
    /// The snapshots are listed.
    Listing { vol: ZfsVol },
    /// A clone is promoted, after which that many more may be.
    Promoting { vol: ZfsVol, more: usize },
    /// The snapshots are listed again, after which that many more clones may be promoted.
    Relisting { vol: ZfsVol, more: usize },
    /// The bdev is closed, after which the zvol is destroyed, recursively or not.
    Closing { vol: ZfsVol, recursive: bool },
    /// The zvol is destroyed.
    Destroying { ptpl: ZvolPtpl },
    /// The persist through power loss file is removed.
    Removing,
}

impl VolDestroy {
    /// The reply is of the kind that is awaited.
    pub open spec fn awaits(self, reply: Reply) -> bool {
        match self {
            VolDestroy::Listing { .. } | VolDestroy::Relisting { .. } => reply is Snaps,
            VolDestroy::Promoting { .. } | VolDestroy::Destroying { .. } => reply is Output,
            VolDestroy::Closing { .. } => reply is Finished,
            VolDestroy::Removing => reply is Noted,
        }
    }

    /// The zvol is destroyed.
    pub open spec fn destroying(vol: VolView, recursive: bool, next: Step<VolDestroy, ()>) -> bool {
        next matches Step::Do(Effect::Run(cmd), VolDestroy::Destroying { ptpl }) && cmd@
            == destroy_cmd(vol.dataset, recursive) && ptpl.pool_name() == vol.pool_name
            && ptpl.replica() == vol.uuid
    }

    /// How the destruction goes on when no clone is promoted: it is refused while a snapshot is
    /// live, and otherwise the bdev is closed, if there is one, and then the zvol is destroyed.
    pub open spec fn settled(
        vol: ZfsVol,
        snaps: Seq<SnapView>,
        next: Step<VolDestroy, ()>,
    ) -> bool {
        if some_live(snaps) {
            fails(next, ErrorView::HasLiveSnapshots { volume: vol@.uuid })
        } else {
            match vol@.bdev {
                Some(bdev) => next matches Step::Do(
                    Effect::CloseBdev(uri),
                    VolDestroy::Closing { vol: v, recursive },
                ) && uri@ == bdev.open_uri && v == vol && recursive == (snaps.len() > 0),
                None => VolDestroy::destroying(vol@, snaps.len() > 0, next),
            }
        }
    }

    /// How the destruction goes on with the listed snapshots, when that many more clones may be
    /// promoted after this one, or none.
    pub open spec fn listed(
        vol: ZfsVol,
        snaps: Seq<SnapView>,
        more: Option<usize>,
        next: Step<VolDestroy, ()>,
    ) -> bool {
        match (more, first_cloned(snaps)) {
            (Some(more), Some(snap)) => runs(
                next,
                promote_cmd(snap.clones[0]),
                VolDestroy::Promoting { vol, more },
            ),
            _ => VolDestroy::settled(vol, snaps, next),
        }
    }

    /// How the destruction goes on.
    pub open spec fn resumed(self, reply: Reply, next: Step<VolDestroy, ()>) -> bool {
        match (self, reply) {
            (VolDestroy::Listing { vol }, Reply::Snaps(Ok(snaps))) => VolDestroy::listed(
                vol,
                snap_views(snaps@),
                Some(snaps@.len() as usize),
                next,
            ),
            (VolDestroy::Relisting { vol, more }, Reply::Snaps(Ok(snaps))) => VolDestroy::listed(
                vol,
                snap_views(snaps@),
                if more > 0 {
                    Some((more - 1) as usize)
                } else {
                    None
                },
                next,
            ),
            (_, Reply::Snaps(Err(error))) => next == Step::<VolDestroy, ()>::Failed(error),
            (VolDestroy::Promoting { vol, more }, Reply::Output(Ok(_))) => next matches Step::Do(
                Effect::ListSnaps(query),
                state,
            ) && query@ == snapshots_query(vol@.dataset) && state == (VolDestroy::Relisting {
                vol,
                more,
            }),
            (VolDestroy::Closing { vol, recursive }, Reply::Finished(Ok(_))) => {
                VolDestroy::destroying(vol@, recursive, next)
            },
            (_, Reply::Finished(Err(error))) => next == Step::<VolDestroy, ()>::Failed(error),
            (VolDestroy::Destroying { ptpl }, Reply::Output(Ok(_))) => next == Step::<
                VolDestroy,
                (),
            >::Do(Effect::RemovePtpl(ptpl), VolDestroy::Removing),
            (_, Reply::Output(Err(error))) => next == Step::<VolDestroy, ()>::Failed(error),
            (VolDestroy::Removing, Reply::Noted) => next == Step::<VolDestroy, ()>::Done(()),
            _ => true,
        }
    }

    /// Destroy the zvol.
    fn destroy(vol: ZfsVol, recursive: bool) -> (res: Step<VolDestroy, ()>)
        ensures
            VolDestroy::destroying(vol@, recursive, res),
    {
        let cmd = ZfsCmd::zfs("destroy").arg_if(recursive, "-r").arg(vol.dataset());
        assert(cmd@ =~= destroy_cmd(vol@.dataset, recursive));
        Step::Do(Effect::Run(cmd), VolDestroy::Destroying { ptpl: vol.ptpl() })
    }

    /// Go on with the listed snapshots.
    fn decide(vol: ZfsVol, snaps: Vec<ZfsSnapshot>, more: Option<usize>) -> (res: Step<
        VolDestroy,
        (),
    >)
        ensures
            VolDestroy::listed(vol, snap_views(snaps@), more, res),
    {
        if let Some(more) = more {
            if let Some(clone) = clone_to_promote(&snaps) {
                let cmd = ZfsCmd::zfs("promote").arg(clone.as_str());
                assert(cmd@ =~= promote_cmd(clone@));
                return Step::Do(Effect::Run(cmd), VolDestroy::Promoting { vol, more });
            }
        }
        if any_live(&snaps) {
            return Step::Failed(Error::HasLiveSnapshots { volume: vol.uuid().to_owned() });
        }
        assert(snap_views(snaps@).len() == snaps@.len());
        let recursive = snaps.len() > 0;
        match vol.open_uri() {
            Ok(uri) => Step::Do(Effect::CloseBdev(uri), VolDestroy::Closing { vol, recursive }),
            // Nothing to close if the bdev was not setup.
            Err(_) => VolDestroy::destroy(vol, recursive),
        }
    }

    /// Go on with the reply.
    pub fn resume(self, reply: Reply) -> (res: Step<VolDestroy, ()>)
        requires
            self.awaits(reply),
        ensures
            self.resumed(reply, res),
    {
        match (self, reply) {
            (VolDestroy::Listing { vol }, Reply::Snaps(listed)) => match listed {
                Ok(snaps) => {
                    let more: usize = snaps.len();
                    VolDestroy::decide(vol, snaps, Some(more))
                },
                Err(error) => Step::Failed(error),
            },
            (VolDestroy::Relisting { vol, more }, Reply::Snaps(listed)) => match listed {
                Ok(snaps) => {
                    let more = if more > 0 {
                        Some(more - 1)
                    } else {
                        None
                    };
                    VolDestroy::decide(vol, snaps, more)
                },
                Err(error) => Step::Failed(error),
            },
            (VolDestroy::Promoting { vol, more }, Reply::Output(output)) => match output {
                Ok(_) => Step::Do(
                    Effect::ListSnaps(SnapQueryArgs::new().scoped(vol.dataset())),
                    VolDestroy::Relisting { vol, more },
                ),
                Err(error) => Step::Failed(error),
            },
            (VolDestroy::Closing { vol, recursive }, Reply::Finished(closed)) => match closed {
                Ok(_) => VolDestroy::destroy(vol, recursive),
                Err(error) => Step::Failed(error),
            },
            (VolDestroy::Destroying { ptpl }, Reply::Output(output)) => match output {
                Ok(_) => Step::Do(Effect::RemovePtpl(ptpl), VolDestroy::Removing),
                Err(error) => Step::Failed(error),
            },
            (VolDestroy::Removing, Reply::Noted) => Step::Done(()),
            _ => unreached(),
        }
    }
}

impl ZfsVol {
    /// Destroy the zvol replica, along with its discarded snapshots.
    ///
    /// # Snapshot ordering
    /// 1. Snapshots with clones are first re-homed onto their first clone via zfs promote (the
    ///    snapshot identity is property-driven, so promotion cannot orphan the metadata).
    /// 2. If any live (non-discarded) snapshot remains the destroy is refused.
    /// 3. Otherwise the zvol is destroyed, recursively when discarded snapshots remain.
    pub fn destroy(self) -> (res: Step<VolDestroy, ()>)
        ensures
            res matches Step::Do(Effect::ListSnaps(query), state) && query@ == snapshots_query(
                self@.dataset,
            ) && state == (VolDestroy::Listing { vol: self }),
    {
        Step::Do(self.list_snapshots(), VolDestroy::Listing { vol: self })
    }

    /// List the snapshots of this zvol.
    pub fn list_snapshots(&self) -> (res: Effect)
        ensures
            res matches Effect::ListSnaps(query) && query@ == snapshots_query(self@.dataset),
    {
        Effect::ListSnaps(SnapQueryArgs::new().scoped(self.dataset()))
    }
}

} // verus!
