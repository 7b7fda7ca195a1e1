//! Destroying replicas.
use vstd::prelude::*;
use crate::error::Error;
use crate::flow::removal::{first_cloned, VolDestroy};
use crate::laws::commands::runs_zfs;
use crate::operation::{Effect, Reply, Step};
use crate::snapshot::{snap_views, SnapQueryArgs, SnapView, ZfsSnapshot};
use crate::zvol_replica::ZfsVol;

verus! {

/// The replica that is being destroyed, as long as it is known.
pub open spec fn destroyed(m: VolDestroy) -> Option<ZfsVol> {
    match m {
        VolDestroy::Listing { vol }
        | VolDestroy::Promoting { vol, .. }
        | VolDestroy::Relisting { vol, .. }
        | VolDestroy::Closing { vol, .. } => Some(vol),
        _ => None,
    }
}

/// Each listing of snapshots is that of the very replica that is being destroyed, from the first on.
pub proof fn law_destroy_lists_own(
    vol: ZfsVol,
    first: Step<VolDestroy, ()>,
    m: VolDestroy,
    reply: Reply,
    query: SnapQueryArgs,
    state: VolDestroy,
)
    requires
        call_ensures(ZfsVol::destroy, (vol,), first),
        m.awaits(reply),
        m.resumed(reply, Step::Do(Effect::ListSnaps(query), state)),
    ensures
        first is Do,
        first->Do_0 is ListSnaps,
        first->Do_0->ListSnaps_0.dataset is Some,
        first->Do_0->ListSnaps_0.dataset->0@ == vol@.dataset,
        destroyed(first->Do_1) == Some(vol),
        destroyed(m) is Some,
        destroyed(state) == destroyed(m),
        query.dataset is Some,
        query.dataset->0@ == destroyed(m)->0@.dataset,
        query.uuid is None,
        query.source_uuid is None,
{
}

/// The snapshot at this position has clones, and none before it has.
pub open spec fn first_with_clones(snaps: Seq<ZfsSnapshot>, at: int) -> bool {
    &&& 0 <= at < snaps.len()
    &&& snaps[at]@.clones.len() > 0
    &&& forall|i: int| 0 <= i < at ==> (#[trigger] snaps[i])@.clones.len() == 0
}

proof fn lemma_first_cloned(snaps: Seq<SnapView>, at: int)
    requires
        0 <= at <= snaps.len(),
        forall|i: int| 0 <= i < at ==> (#[trigger] snaps[i]).clones.len() == 0,
        at < snaps.len() ==> snaps[at].clones.len() > 0,
    ensures
        at < snaps.len() ==> first_cloned(snaps) == Some(snaps[at]),
        at == snaps.len() ==> first_cloned(snaps) is None,
    decreases snaps.len(),
{
    if snaps.len() > 0 && at > 0 {
        let rest = snaps.drop_first();
        assert forall|i: int| 0 <= i < at - 1 implies (#[trigger] rest[i]).clones.len() == 0 by {
            assert(rest[i] == snaps[i + 1]);
        }
        lemma_first_cloned(rest, at - 1);
    }
}

/// While a snapshot of the replica has clones, the first clone of the first such snapshot is
/// promoted; as often at most as there were snapshots at first.
pub proof fn law_destroy_promotes(
    m: VolDestroy,
    snaps: Vec<ZfsSnapshot>,
    at: int,
    next: Step<VolDestroy, ()>,
)
    requires
        m is Listing || (m is Relisting && m->Relisting_more > 0),
        first_with_clones(snaps@, at),
        m.resumed(Reply::Snaps(Ok(snaps)), next),
    ensures
        runs_zfs(next, seq!["promote"@, snaps@[at]@.clones[0]]),
        next->Do_1 is Promoting,
        destroyed(next->Do_1) == destroyed(m),
        m is Listing ==> next->Do_1->Promoting_more == snaps@.len() as usize,
        m is Relisting ==> next->Do_1->Promoting_more == m->Relisting_more - 1,
{
    let views = snap_views(snaps@);
    assert forall|i: int| 0 <= i < at implies (#[trigger] views[i]).clones.len() == 0 by {
        assert(views[i] == snaps@[i]@);
    }
    lemma_first_cloned(views, at);
}

/// Once no snapshot has clones, or no more clones may be promoted, a replica with a live snapshot
/// is not destroyed. Any other has its bdev closed first, if it is open, and is then destroyed,
/// along with its discarded snapshots if there are any.
pub proof fn law_destroy_settles(
    m: VolDestroy,
    snaps: Vec<ZfsSnapshot>,
    next: Step<VolDestroy, ()>,
)
    requires
        m is Listing || m is Relisting,
        (m is Relisting && m->Relisting_more == 0) || forall|i: int|
            0 <= i < snaps@.len() ==> (#[trigger] snaps@[i])@.clones.len() == 0,
        m.resumed(Reply::Snaps(Ok(snaps)), next),
    ensures
        (exists|i: int| 0 <= i < snaps@.len() && !(#[trigger] snaps@[i])@.discarded) ==> next is Failed
            && next->Failed_0 is HasLiveSnapshots && next->Failed_0->HasLiveSnapshots_volume@
            == destroyed(m)->0@.uuid,
        (forall|i: int| 0 <= i < snaps@.len() ==> (#[trigger] snaps@[i])@.discarded) ==> {
            let vol = destroyed(m)->0;
            match vol@.bdev {
                Some(bdev) => next is Do && next->Do_0 is CloseBdev && next->Do_0->CloseBdev_0@
                    == bdev.open_uri && next->Do_1 == (VolDestroy::Closing {
                    vol,
                    recursive: snaps@.len() > 0,
                }),
                None => {
                    &&& snaps@.len() > 0 ==> runs_zfs(
                        next,
                        seq!["destroy"@, "-r"@, vol@.dataset],
                    )
                    &&& snaps@.len() == 0 ==> runs_zfs(next, seq!["destroy"@, vol@.dataset])
                    &&& next->Do_1 is Destroying
                    &&& next->Do_1->Destroying_ptpl.pool_name() == vol@.pool_name
                    &&& next->Do_1->Destroying_ptpl.replica() == vol@.uuid
                },
            }
        },
{
    let views = snap_views(snaps@);
    assert forall|i: int| 0 <= i < views.len() implies #[trigger] views[i] == snaps@[i]@ by {}
    if !(m is Relisting && m->Relisting_more == 0) {
        lemma_first_cloned(views, views.len() as int);
    }
    if exists|i: int| 0 <= i < snaps@.len() && !(#[trigger] snaps@[i])@.discarded {
        let i = choose|i: int| 0 <= i < snaps@.len() && !(#[trigger] snaps@[i])@.discarded;
        assert(!views[i].discarded);
    }
}

/// What follows each step of a destruction that went well: the snapshots are listed anew after a
/// promotion, the zvol goes once its bdev is closed, and the persisted reservations go last.
pub proof fn law_destroy_steps(m: VolDestroy, output: String, next: Step<VolDestroy, ()>)
    ensures
        m is Promoting && m.resumed(Reply::Output(Ok(output)), next) ==> next is Do
            && next->Do_0 is ListSnaps && next->Do_1 == (VolDestroy::Relisting {
            vol: m->Promoting_vol,
            more: m->Promoting_more,
        }),
        m is Closing && m->Closing_recursive && m.resumed(Reply::Finished(Ok(())), next) ==> runs_zfs(
            next,
            seq!["destroy"@, "-r"@, m->Closing_vol@.dataset],
        ),
        m is Closing && !m->Closing_recursive && m.resumed(Reply::Finished(Ok(())), next)
            ==> runs_zfs(next, seq!["destroy"@, m->Closing_vol@.dataset]),
        m is Closing && m.resumed(Reply::Finished(Ok(())), next) ==> next->Do_1 is Destroying
            && next->Do_1->Destroying_ptpl.pool_name() == m->Closing_vol@.pool_name
            && next->Do_1->Destroying_ptpl.replica() == m->Closing_vol@.uuid,
        m is Destroying && m.resumed(Reply::Output(Ok(output)), next) ==> next == Step::<
            VolDestroy,
            (),
        >::Do(Effect::RemovePtpl(m->Destroying_ptpl), VolDestroy::Removing),
        m is Removing && m.resumed(Reply::Noted, next) ==> next == Step::<VolDestroy, ()>::Done(()),
{
}

/// A destruction ends with the first failure.
pub proof fn law_destroy_failures(m: VolDestroy, error: Error, next: Step<VolDestroy, ()>)
    ensures
        (m is Listing || m is Relisting) && m.resumed(Reply::Snaps(Err(error)), next) ==> next
            == Step::<VolDestroy, ()>::Failed(error),
        (m is Promoting || m is Destroying) && m.resumed(Reply::Output(Err(error)), next) ==> next
            == Step::<VolDestroy, ()>::Failed(error),
        m is Closing && m.resumed(Reply::Finished(Err(error)), next) ==> next == Step::<
            VolDestroy,
            (),
        >::Failed(error),
{
}

} // verus!
