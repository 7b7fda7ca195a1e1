//! What sharing, updating and unsharing a replica make of it.
use vstd::prelude::*;
use crate::cli::CmdView;
use crate::engine::{BdevInfo, NvmfShareProps, Protocol, UpdateProps};
use crate::error::Error;
use crate::flow::resize::Change;
use crate::flow::share::{set_cmd, SetOwner, VolShare, VolUnshare, VolUpdate};
use crate::laws::arguments::{all_written, law_set_command, setting_args, writable, written};
use crate::laws::commands::runs_zfs;
use crate::operation::{Effect, Reply, Step};
use crate::property::PropertyView;
use crate::text::chars::{control_free, text_opt, texts};
use crate::text::split::join;
use crate::zvol_replica::{BdevOpts, VolView, ZfsVol};

verus! {

/// The protocol that the engine shares a bdev with.
pub open spec fn shared_with(bdev: BdevInfo) -> Protocol {
    match bdev.shared {
        Some(Protocol::Nvmf) => Protocol::Nvmf,
        _ => Protocol::Off,
    }
}

/// The word that a protocol is persisted as.
pub open spec fn share_word(share: Protocol) -> Seq<char> {
    match share {
        Protocol::Nvmf => "nvmf"@,
        Protocol::Off => "off"@,
    }
}

/// The replica holds the bdev as the engine reports its sharing; the URI and the size it was opened
/// with, and all else of the replica, are as before.
pub open spec fn follows(after: VolView, before: VolView, bdev: BdevInfo) -> bool {
    &&& after.bdev is Some
    &&& before.bdev is Some
    &&& after.bdev->0.share_uri == text_opt(bdev.share_uri)
    &&& after.bdev->0.allowed_hosts == texts(bdev.allowed_hosts@)
    &&& after.bdev->0.share == shared_with(bdev)
    &&& after.bdev->0.open_uri == before.bdev->0.open_uri
    &&& after.bdev->0.size == before.bdev->0.size
    &&& same_but_sharing(after, before)
}

/// The replicas differ at most in what concerns their sharing.
pub open spec fn same_but_sharing(a: VolView, b: VolView) -> bool {
    a == (VolView { bdev: a.bdev, share: a.share, allowed_hosts: a.allowed_hosts, ..b })
}

/// The settings which persist how the bdev is shared.
pub open spec fn share_settings(bdev: BdevInfo) -> Seq<Seq<char>> {
    seq![
        "io.mayastor:share"@ + "="@ + share_word(shared_with(bdev)),
        "io.mayastor:allowed_hosts"@ + "="@ + join(texts(bdev.allowed_hosts@), ","@),
    ]
}

/// The hosts can be persisted.
pub open spec fn hosts_writable(bdev: BdevInfo) -> bool {
    control_free(join(texts(bdev.allowed_hosts@), ","@))
}

proof fn lemma_share_set(dataset: Seq<char>, bdev: BdevInfo)
    requires
        hosts_writable(bdev),
    ensures
        ({
            let own = seq![
                PropertyView::Share(shared_with(bdev)),
                PropertyView::AllowedHosts(texts(bdev.allowed_hosts@)),
            ];
            set_cmd(dataset, own) == (CmdView {
                cmd: "zfs"@,
                argv: seq!["set"@] + share_settings(bdev) + seq![dataset],
                input: None,
                deferred: None,
            })
        }),
{
    let own = seq![
        PropertyView::Share(shared_with(bdev)),
        PropertyView::AllowedHosts(texts(bdev.allowed_hosts@)),
    ];
    reveal_strlit("nvmf");
    reveal_strlit("off");
    assert forall|i: int| 0 <= i < own.len() implies control_free(written(#[trigger] own[i]).1)
        && !(own[i] is Zfs) by {
        assert(written(own[0]).1 == share_word(shared_with(bdev)));
        assert(written(own[1]).1 == join(texts(bdev.allowed_hosts@), ","@));
    }
    law_set_command(dataset, own);
    assert(setting_args(all_written(own)) =~= share_settings(bdev));
}

/// Sharing a replica: its bdev is asked for, and shared, or updated where it is shared already. The
/// replica then follows the bdev as the engine reports it, which is persisted.
pub proof fn law_share(m: VolShare, reply: Reply, next: Step<VolShare, Change<String>>)
    requires
        m.wf(),
        m.awaits(reply),
        m.resumed(reply, next),
    ensures
        m matches VolShare::Reading { vol, uri, props } ==> (reply matches Reply::Bdev(Some(bdev)) ==> if bdev.shared == Some(
            Protocol::Nvmf,
        ) {
            next is Do && next->Do_1 == (VolShare::Updating { vol }) && next->Do_0 is UpdateBdev
                && next->Do_0->UpdateBdev_uri == uri && (props is None
                <==> next->Do_0->UpdateBdev_update is None) && (props matches Some(p)
                ==> next->Do_0->UpdateBdev_update->0.allowed_hosts == p.allowed_hosts)
        } else {
            next == Step::<VolShare, Change<String>>::Do(
                Effect::ShareBdev { uri, share: props },
                VolShare::Sharing { vol },
            )
        }),
        m matches VolShare::Sharing { vol } ==> (reply matches Reply::Shared(Ok((nqn, bdev))) ==> {
            &&& next is Do && next->Do_1 is Persisting
            &&& follows(next->Do_1->Persisting_vol@, vol@, bdev)
            &&& next->Do_1->Persisting_vol@.share == vol@.share
            &&& next->Do_1->Persisting_vol@.allowed_hosts == vol@.allowed_hosts
            &&& next->Do_1->Persisting_nqn@ == nqn@
            &&& hosts_writable(bdev) ==> runs_zfs(
                next,
                seq!["set"@] + share_settings(bdev) + seq![vol@.dataset],
            )
        }),
        m matches VolShare::Updating { vol } ==> (reply matches Reply::Changed(Ok(bdev)) ==> {
            &&& bdev.share_uri is None ==> next == Step::<VolShare, Change<String>>::Done(
                (vol, Err(Error::BdevShareUri)),
            )
            &&& bdev.share_uri matches Some(nqn) ==> {
                &&& next is Do && next->Do_1 is Persisting
                &&& follows(next->Do_1->Persisting_vol@, vol@, bdev)
                &&& next->Do_1->Persisting_vol@.share == vol@.share
                &&& next->Do_1->Persisting_vol@.allowed_hosts == vol@.allowed_hosts
                &&& next->Do_1->Persisting_nqn@ == nqn@
                &&& hosts_writable(bdev) ==> runs_zfs(
                    next,
                    seq!["set"@] + share_settings(bdev) + seq![vol@.dataset],
                )
            }
        }),
        m matches VolShare::Persisting { vol, nqn } ==> (reply matches Reply::Output(Ok(_)) ==> {
            &&& next is Done
            &&& next->Done_0.1 == Ok::<String, Error>(nqn)
            &&& same_but_sharing(next->Done_0.0@, vol@)
            &&& next->Done_0.0@.bdev == vol@.bdev
            &&& next->Done_0.0@.share == vol@.bdev->0.share
            &&& next->Done_0.0@.allowed_hosts == vol@.bdev->0.allowed_hosts
        }),
{
    match (m, reply) {
        (VolShare::Sharing { vol }, Reply::Shared(Ok((_, bdev)))) => {
            if hosts_writable(bdev) {
                lemma_share_set(vol@.dataset, bdev);
            }
        },
        (VolShare::Updating { vol }, Reply::Changed(Ok(bdev))) => {
            if hosts_writable(bdev) {
                lemma_share_set(vol@.dataset, bdev);
            }
        },
        _ => {},
    }
}

/// Once sharing a replica has succeeded, the replica reports the share URI, the protocol and the
/// hosts that the engine reported of its bdev, and the same protocol and hosts are what is
/// persisted. The URI under which the engine shared it is the result.
pub proof fn law_shared_replica(
    vol: ZfsVol,
    nqn: String,
    bdev: BdevInfo,
    persisting: Step<VolShare, Change<String>>,
    output: String,
    done: Step<VolShare, Change<String>>,
)
    requires
        vol@.bdev is Some,
        (VolShare::Sharing { vol }).resumed(Reply::Shared(Ok((nqn, bdev))), persisting) || (
        bdev.share_uri == Some(nqn) && (VolShare::Updating { vol }).resumed(
            Reply::Changed(Ok(bdev)),
            persisting,
        )),
        persisting is Do,
        persisting->Do_1.resumed(Reply::Output(Ok(output)), done),
    ensures
        done is Done,
        done->Done_0.1 is Ok,
        done->Done_0.1->Ok_0@ == nqn@,
        done->Done_0.0@.lvol().share_uri == text_opt(bdev.share_uri),
        done->Done_0.0@.lvol().allowed_hosts == texts(bdev.allowed_hosts@),
        done->Done_0.0@.lvol().share == shared_with(bdev),
        done->Done_0.0@.allowed_hosts == texts(bdev.allowed_hosts@),
        done->Done_0.0@.share_proto() == Some(shared_with(bdev)),
        follows(done->Done_0.0@, vol@, bdev),
{
}

/// Once updating a shared replica has succeeded, the replica reports what the engine reported of
/// its bdev, and the same protocol and hosts are what is persisted.
pub proof fn law_updated_replica(
    vol: ZfsVol,
    name: String,
    bdev: BdevInfo,
    persisting: Step<VolUpdate, Change<()>>,
    output: String,
    done: Step<VolUpdate, Change<()>>,
)
    requires
        vol@.bdev is Some,
        (VolUpdate::Updating { vol, name }).resumed(Reply::Changed(Ok(bdev)), persisting),
        persisting is Do,
        persisting->Do_1.resumed(Reply::Output(Ok(output)), done),
    ensures
        hosts_writable(bdev) ==> runs_zfs(
            persisting,
            seq!["set"@] + share_settings(bdev) + seq![vol@.dataset],
        ),
        done is Done,
        done->Done_0.1 is Ok,
        done->Done_0.0@.lvol().share_uri == text_opt(bdev.share_uri),
        done->Done_0.0@.lvol().allowed_hosts == texts(bdev.allowed_hosts@),
        done->Done_0.0@.lvol().share == shared_with(bdev),
        done->Done_0.0@.allowed_hosts == texts(bdev.allowed_hosts@),
        follows(done->Done_0.0@, vol@, bdev),
{
    if hosts_writable(bdev) {
        lemma_share_set(vol@.dataset, bdev);
    }
}

/// Updating a replica hands the engine just what was asked for, for the bdev it is open as.
pub proof fn law_update(vol: ZfsVol, uri: String, props: Option<UpdateProps>, bdev: BdevInfo, next: Step<VolUpdate, Change<()>>)
    requires
        (VolUpdate::Reading { vol, uri, props }).resumed(Reply::Bdev(Some(bdev)), next),
    ensures
        next == Step::<VolUpdate, Change<()>>::Do(
            Effect::UpdateBdev { uri, update: props },
            VolUpdate::Updating { vol, name: bdev.name },
        ),
{
}

/// The replica while it is changed.
pub open spec fn share_subject(m: VolShare) -> ZfsVol {
    match m {
        VolShare::Reading { vol, .. }
        | VolShare::Sharing { vol }
        | VolShare::Updating { vol }
        | VolShare::Persisting { vol, .. } => vol,
    }
}

/// The replica while it is updated.
pub open spec fn update_subject(m: VolUpdate) -> ZfsVol {
    match m {
        VolUpdate::Reading { vol, .. }
        | VolUpdate::Updating { vol, .. }
        | VolUpdate::Persisting { vol } => vol,
    }
}

/// The replica while it is unshared.
pub open spec fn unshare_subject(m: VolUnshare) -> ZfsVol {
    match m {
        VolUnshare::Reading { vol, .. }
        | VolUnshare::Unsharing { vol, .. }
        | VolUnshare::Persisting { vol } => vol,
    }
}

/// What goes wrong is told, and the replica is left as it was at that point.
pub proof fn law_sharing_failures(
    share: VolShare,
    update: VolUpdate,
    unshare: VolUnshare,
    source: String,
    error: Error,
    a: Step<VolShare, Change<String>>,
    b: Step<VolUpdate, Change<()>>,
    c: Step<VolUnshare, Change<()>>,
)
    ensures
        share is Reading && share.resumed(Reply::Bdev(None), a) ==> a == Step::<
            VolShare,
            Change<String>,
        >::Done((share_subject(share), Err(Error::BdevMissing))),
        share is Sharing && share.resumed(Reply::Shared(Err(source)), a) ==> a == Step::<
            VolShare,
            Change<String>,
        >::Done((share_subject(share), Err(Error::BdevShare { source }))),
        share is Updating && share.resumed(Reply::Changed(Err(source)), a) ==> a == Step::<
            VolShare,
            Change<String>,
        >::Done((share_subject(share), Err(Error::BdevShare { source }))),
        !(share is Persisting) && share.resumed(Reply::Lost(error), a) ==> a == Step::<
            VolShare,
            Change<String>,
        >::Done((share_subject(share), Err(error))),
        share is Persisting && share.resumed(Reply::Output(Err(error)), a) ==> a == Step::<
            VolShare,
            Change<String>,
        >::Done((share_subject(share), Err(error))),
        update is Reading && update.resumed(Reply::Bdev(None), b) ==> b == Step::<
            VolUpdate,
            Change<()>,
        >::Done((update_subject(update), Err(Error::BdevMissing))),
        update is Updating && update.resumed(Reply::Changed(Err(source)), b) ==> b == Step::<
            VolUpdate,
            Change<()>,
        >::Done(
            (
                update_subject(update),
                Err(Error::UpdateProps { source, name: update->Updating_name }),
            ),
        ),
        !(update is Persisting) && update.resumed(Reply::Lost(error), b) ==> b == Step::<
            VolUpdate,
            Change<()>,
        >::Done((update_subject(update), Err(error))),
        update is Persisting && update.resumed(Reply::Output(Err(error)), b) ==> b == Step::<
            VolUpdate,
            Change<()>,
        >::Done((update_subject(update), Err(error))),
        unshare is Reading && unshare.resumed(Reply::Bdev(None), c) ==> c == Step::<
            VolUnshare,
            Change<()>,
        >::Done((unshare_subject(unshare), Err(Error::BdevMissing))),
        unshare is Unsharing && unshare.resumed(Reply::Changed(Err(source)), c) ==> c == Step::<
            VolUnshare,
            Change<()>,
        >::Done((unshare_subject(unshare), Err(Error::BdevUnshare { source }))),
        !(unshare is Persisting) && unshare.resumed(Reply::Lost(error), c) ==> c == Step::<
            VolUnshare,
            Change<()>,
        >::Done((unshare_subject(unshare), Err(error))),
        unshare is Persisting && unshare.resumed(Reply::Output(Err(error)), c) ==> c == Step::<
            VolUnshare,
            Change<()>,
        >::Done((unshare_subject(unshare), Err(error))),
{
}

/// The bdev of the replica is not shared by now: its protocol is off, and its share URI is what the
/// engine reports. All else of the bdev, and of the replica, is as before.
pub open spec fn no_longer_shared(after: VolView, before: VolView, uri: Option<String>) -> bool {
    &&& after.bdev is Some
    &&& before.bdev is Some
    &&& after.bdev->0.share == Protocol::Off
    &&& after.bdev->0.share_uri == text_opt(uri)
    &&& after.bdev->0.allowed_hosts == before.bdev->0.allowed_hosts
    &&& after.bdev->0.open_uri == before.bdev->0.open_uri
    &&& after.bdev->0.size == before.bdev->0.size
    &&& after == (VolView { bdev: after.bdev, ..before })
}

/// Unsharing a replica: the engine is asked to, only where the bdev is shared. Whether the replica
/// stays unshared is persisted only if that is asked for.
pub proof fn law_unshare(m: VolUnshare, reply: Reply, next: Step<VolUnshare, Change<()>>)
    requires
        m.wf(),
        m.awaits(reply),
        m.resumed(reply, next),
    ensures
        m matches VolUnshare::Reading { vol, uri, persist } ==> (reply matches Reply::Bdev(Some(bdev)) ==> (bdev.shared == Some(
            Protocol::Nvmf,
        ) ==> next == Step::<VolUnshare, Change<()>>::Do(
            Effect::UnshareBdev(uri),
            VolUnshare::Unsharing { vol, persist },
        ))),
        ({
            let settled = match (m, reply) {
                (VolUnshare::Reading { persist, .. }, Reply::Bdev(Some(bdev))) => if bdev.shared
                    == Some(Protocol::Nvmf) {
                    None
                } else {
                    Some((bdev, persist))
                },
                (VolUnshare::Unsharing { persist, .. }, Reply::Changed(Ok(bdev))) => Some(
                    (bdev, persist),
                ),
                _ => None,
            };
            settled matches Some((bdev, persist)) ==> {
                let vol = unshare_subject(m);
                &&& persist ==> next is Do && next->Do_1 is Persisting && no_longer_shared(
                    next->Do_1->Persisting_vol@,
                    vol@,
                    bdev.share_uri,
                ) && runs_zfs(
                    next,
                    seq!["set"@, "io.mayastor:share"@ + "="@ + "off"@, vol@.dataset],
                )
                &&& !persist ==> next is Done && next->Done_0.1 is Ok && no_longer_shared(
                    next->Done_0.0@,
                    vol@,
                    bdev.share_uri,
                )
            }
        }),
        m matches VolUnshare::Persisting { vol } ==> (reply matches Reply::Output(Ok(_)) ==> next is Done
            && next->Done_0.1 is Ok && next->Done_0.0@ == (VolView {
            share: Protocol::Off,
            ..vol@
        })),
{
    let own = seq![PropertyView::Share(Protocol::Off)];
    let vol = unshare_subject(m);
    reveal_strlit("off");
    assert(written(own[0]).1 == "off"@);
    assert(writable(own));
    law_set_command(vol@.dataset, own);
    assert(setting_args(all_written(own)) =~= seq!["io.mayastor:share"@ + "="@ + "off"@]);
    assert(set_cmd(vol@.dataset, own).argv =~= seq![
        "set"@,
        "io.mayastor:share"@ + "="@ + "off"@,
        vol@.dataset,
    ]);
}

/// How sharing, updating and unsharing start: with the bdev the replica is open as; a replica whose
/// bdev is not set up is refused.
pub proof fn law_sharing_starts(
    vol: ZfsVol,
    share: Option<NvmfShareProps>,
    update: Option<UpdateProps>,
    persist: bool,
    a: Step<VolShare, Change<String>>,
    b: Step<VolUpdate, Change<()>>,
    c: Step<VolUnshare, Change<()>>,
)
    requires
        call_ensures(ZfsVol::share_nvmf, (vol, share), a),
        call_ensures(ZfsVol::update_share_props, (vol, update), b),
        call_ensures(ZfsVol::unshare, (vol, persist), c),
    ensures
        vol@.bdev is None ==> a == Step::<VolShare, Change<String>>::Done(
            (vol, Err(Error::BdevMissing)),
        ) && b == Step::<VolUpdate, Change<()>>::Done((vol, Err(Error::BdevMissing))) && c
            == Step::<VolUnshare, Change<()>>::Done((vol, Err(Error::BdevMissing))),
        vol@.bdev matches Some(bdev) ==> {
            &&& a is Do && a->Do_0 is ReadBdev && a->Do_0->ReadBdev_0@ == bdev.open_uri
            &&& a->Do_1 == (VolShare::Reading { vol, uri: a->Do_0->ReadBdev_0, props: share })
            &&& b is Do && b->Do_0 is ReadBdev && b->Do_0->ReadBdev_0@ == bdev.open_uri
            &&& b->Do_1 == (VolUpdate::Reading { vol, uri: b->Do_0->ReadBdev_0, props: update })
            &&& c is Do && c->Do_0 is ReadBdev && c->Do_0->ReadBdev_0@ == bdev.open_uri
            &&& c->Do_1 == (VolUnshare::Reading { vol, uri: c->Do_0->ReadBdev_0, persist })
        },
{
}

/// Setting the owner of a replica persists it on the zvol, and only then takes note of it.
pub proof fn law_set_owner(
    vol: ZfsVol,
    id: String,
    step: Step<SetOwner, Change<()>>,
    reply: Reply,
    next: Step<SetOwner, Change<()>>,
)
    requires
        call_ensures(ZfsVol::set_entity_id, (vol, id), step),
        reply is Output,
        step is Do,
        step->Do_1.resumed(reply, next),
    ensures
        control_free(id@) ==> runs_zfs(
            step,
            seq!["set"@, "io.mayastor:entity_id"@ + "="@ + id@, vol@.dataset],
        ),
        reply matches Reply::Output(Ok(_)) ==> next is Done && next->Done_0.1 is Ok
            && next->Done_0.0@ == (VolView { entity_id: Some(id@), ..vol@ }),
        reply matches Reply::Output(Err(error)) ==> next == Step::<SetOwner, Change<()>>::Done(
            (vol, Err(error)),
        ),
{
    if control_free(id@) {
        let own = seq![PropertyView::EntityId(id@)];
        assert(written(own[0]).1 == id@);
        assert(writable(own));
        law_set_command(vol@.dataset, own);
        assert(setting_args(all_written(own)) =~= seq!["io.mayastor:entity_id"@ + "="@ + id@]);
        assert(step->Do_0->Run_0@.argv =~= seq![
            "set"@,
            "io.mayastor:entity_id"@ + "="@ + id@,
            vol@.dataset,
        ]);
    }
}

/// The parameters of a bdev are those that the engine reports.
pub proof fn law_bdev_parameters(bdev: BdevInfo, opts: BdevOpts)
    requires
        call_ensures(BdevOpts::from, (bdev,), opts),
    ensures
        opts@.share_uri == text_opt(bdev.share_uri),
        opts@.allowed_hosts == texts(bdev.allowed_hosts@),
        opts@.share == shared_with(bdev),
        opts@.size == bdev.size,
        bdev.open_uri matches Some(uri) ==> opts@.open_uri == uri@,
        bdev.open_uri is None ==> opts@.open_uri.len() == 0,
{
}

} // verus!
