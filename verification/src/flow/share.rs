//! Replicas: sharing them, and changing the properties which are persisted on the zvol.
use vstd::prelude::*;
use crate::cli::{property_views, CmdView, ZfsCmd};
use crate::engine::{BdevInfo, NvmfShareProps, Protocol, UpdateProps};
use crate::error::Error;
use crate::flow::resize::{changed, Change};
use crate::operation::{runs, Effect, Reply, Step};
use crate::property::{Property, PropertyView};
use crate::text::chars::{clone_texts, text_opt};
use crate::zvol_replica::{BdevOpts, BdevOptsView, VolView, ZfsVol};

verus! {

/// The command which persists properties on a zvol, in a single zfs set invocation.
pub open spec fn set_cmd(dataset: Seq<char>, properties: Seq<PropertyView>) -> CmdView {
    CmdView::zfs(seq!["set"@]).set_props(properties).arg(dataset)
}

/// Persist the given properties on the zvol as ZFS user properties.
fn set_properties(vol: &ZfsVol, properties: &Vec<Property>) -> (res: ZfsCmd)
    ensures
        res@ == set_cmd(vol@.dataset, property_views(properties@)),
{
    ZfsCmd::zfs("set").set_props(properties).arg(vol.dataset())
}

/// Persist the given property on the zvol as a ZFS user property.
fn set_property(vol: &ZfsVol, property: Property) -> (res: ZfsCmd)
    ensures
        res@ == set_cmd(vol@.dataset, seq![property@]),
{
    let mut properties: Vec<Property> = Vec::new();
    properties.push(property);
    assert(property_views(properties@) =~= seq![property@]);
    set_properties(vol, &properties)
}

/// The operation is done without a change of the replica.
pub open spec fn refused<S, T>(next: Step<S, Change<T>>, vol: ZfsVol, error: Error) -> bool {
    next matches Step::Done((v, Err(e))) && v == vol && e == error
}

/// Setting the owner of a replica.
#[derive(Debug)]
pub struct SetOwner {
    pub vol: ZfsVol,
    pub id: String,
}

impl SetOwner {
    /// How the change goes on.
    pub open spec fn resumed(self, reply: Reply, next: Step<SetOwner, Change<()>>) -> bool {
        match reply {
            Reply::Output(Ok(_)) => changed(
                next,
                VolView { entity_id: Some(self.id@), ..self.vol@ },
                Ok(()),
            ),
            Reply::Output(Err(error)) => refused(next, self.vol, error),
            _ => true,
        }
    }

    /// Go on with the reply.
    pub fn resume(self, reply: Reply) -> (res: Step<SetOwner, Change<()>>)
        requires
            reply is Output,
        ensures
            self.resumed(reply, res),
    {
        match reply {
            Reply::Output(output) => match output {
                Ok(_) => {
                    let mut vol = self.vol;
                    vol.set_owner(self.id);
                    Step::Done((vol, Ok(())))
                },
                Err(error) => Step::Done((self.vol, Err(error))),
            },
            _ => unreached(),
        }
    }
}

/// The properties which persist how the bdev is shared.
pub open spec fn share_properties(bdev: BdevOptsView) -> Seq<PropertyView> {
    seq![PropertyView::Share(bdev.share), PropertyView::AllowedHosts(bdev.allowed_hosts)]
}

/// The replica after the sharing of its bdev changed.
pub open spec fn reshared(vol: VolView, bdev: BdevInfo) -> VolView {
    VolView { bdev: Some(vol.bdev->0.updated(BdevOptsView::of(bdev))), ..vol }
}

/// The replica after the sharing of its bdev was persisted.
pub open spec fn persisted(vol: VolView) -> VolView {
    VolView { share: vol.bdev->0.share, allowed_hosts: vol.bdev->0.allowed_hosts, ..vol }
}

/// Take over how the bdev is shared.
fn take_over(vol: ZfsVol, bdev: BdevInfo) -> (res: ZfsVol)
    requires
        vol@.bdev is Some,
    ensures
        res@ == reshared(vol@, bdev),
{
    let mut vol = vol;
    if let Ok(opts) = vol.bdev_mut() {
        opts.update_from(BdevOpts::from(bdev));
    }
    vol
}

/// Persist the current bdev share protocol and allowed hosts.
fn sync_share_opts(vol: &ZfsVol) -> (res: ZfsCmd)
    requires
        vol@.bdev is Some,
    ensures
        res@ == set_cmd(vol@.dataset, share_properties(vol@.bdev->0)),
{
    let mut properties: Vec<Property> = Vec::new();
    if let Ok(opts) = vol.bdev_opts() {
        properties.push(Property::Share(opts.share()));
        properties.push(Property::AllowedHosts(clone_texts(opts.allowed_hosts())));
        assert(property_views(properties@) =~= share_properties(opts@));
    }
    set_properties(vol, &properties)
}

/// Take note that the sharing of the bdev was persisted.
fn synced(vol: ZfsVol) -> (res: ZfsVol)
    requires
        vol@.bdev is Some,
    ensures
        res@ == persisted(vol@),
{
    let mut hosts: Vec<String> = Vec::new();
    let mut share = Protocol::Off;
    if let Ok(opts) = vol.bdev_opts() {
        hosts = clone_texts(opts.allowed_hosts());
        share = opts.share();
    }
    let mut vol = vol;
    vol.set_share(share);
    vol.set_allowed_hosts(hosts);
    vol
}

/// What may be changed of a shared replica, of all that it is shared with.
pub open spec fn update_of(props: Option<NvmfShareProps>) -> Option<UpdateProps> {
    match props {
        Some(props) => Some(UpdateProps { allowed_hosts: props.allowed_hosts }),
        None => None,
    }
}

/// Sharing a replica via nvmf.
#[derive(Debug)]
pub enum VolShare {
    /// The bdev is read.
    Reading { vol: ZfsVol, uri: String, props: Option<NvmfShareProps> },
    /// The bdev is shared.
    Sharing { vol: ZfsVol },
    /// The bdev, which is shared already, is updated.
    Updating { vol: ZfsVol },
    /// The sharing is persisted.
    Persisting { vol: ZfsVol, nqn: String },
}

impl VolShare {
    /// The reply is of the kind that is awaited.
    pub open spec fn awaits(self, reply: Reply) -> bool {
        match self {
            VolShare::Reading { .. } => reply is Bdev || reply is Lost,
            VolShare::Sharing { .. } => reply is Shared || reply is Lost,
            VolShare::Updating { .. } => reply is Changed || reply is Lost,
            VolShare::Persisting { .. } => reply is Output,
        }
    }

    /// The bdev of the replica is set up.
    pub open spec fn wf(self) -> bool {
        match self {
            VolShare::Reading { vol, .. }
            | VolShare::Sharing { vol }
            | VolShare::Updating { vol }
            | VolShare::Persisting { vol, .. } => vol@.bdev is Some,
        }
    }

    /// The bdev is shared under the URI, which is then persisted.
    pub open spec fn persisting(
        vol: VolView,
        uri: Seq<char>,
        bdev: BdevInfo,
        next: Step<VolShare, Change<String>>,
    ) -> bool {
        let after = reshared(vol, bdev);
        next matches Step::Do(Effect::Run(cmd), VolShare::Persisting { vol: v, nqn }) && cmd@
            == set_cmd(vol.dataset, share_properties(after.bdev->0)) && v@ == after && nqn@ == uri
    }

    /// How the sharing goes on.
    pub open spec fn resumed(self, reply: Reply, next: Step<VolShare, Change<String>>) -> bool {
        match (self, reply) {
            (
                VolShare::Reading { vol, .. }
                | VolShare::Sharing { vol }
                | VolShare::Updating { vol },
                Reply::Lost(error),
            ) => refused(next, vol, error),
            (VolShare::Reading { vol, .. }, Reply::Bdev(None)) => refused(
                next,
                vol,
                Error::BdevMissing,
            ),
            (VolShare::Reading { vol, uri, props }, Reply::Bdev(Some(bdev))) => if bdev.nvmf() {
                next == Step::<VolShare, Change<String>>::Do(
                    Effect::UpdateBdev { uri, update: update_of(props) },
                    VolShare::Updating { vol },
                )
            } else {
                next == Step::<VolShare, Change<String>>::Do(
                    Effect::ShareBdev { uri, share: props },
                    VolShare::Sharing { vol },
                )
            },
            (VolShare::Sharing { vol }, Reply::Shared(Ok((nqn, bdev)))) => VolShare::persisting(
                vol@,
                nqn@,
                bdev,
                next,
            ),
            (VolShare::Sharing { vol }, Reply::Shared(Err(source))) => refused(
                next,
                vol,
                Error::BdevShare { source },
            ),
            (VolShare::Updating { vol }, Reply::Changed(Ok(bdev))) => match bdev.share_uri {
                Some(nqn) => VolShare::persisting(vol@, nqn@, bdev, next),
                None => refused(next, vol, Error::BdevShareUri),
            },
            (VolShare::Updating { vol }, Reply::Changed(Err(source))) => refused(
                next,
                vol,
                Error::BdevShare { source },
            ),
            (VolShare::Persisting { vol, nqn }, Reply::Output(Ok(_))) => changed(
                next,
                persisted(vol@),
                Ok(nqn),
            ),
            (VolShare::Persisting { vol, .. }, Reply::Output(Err(error))) => refused(
                next,
                vol,
                error,
            ),
            _ => true,
        }
    }

    /// Persist that the bdev is shared.
    fn persist(vol: ZfsVol, nqn: String, bdev: BdevInfo) -> (res: Step<VolShare, Change<String>>)
        requires
            vol@.bdev is Some,
        ensures
            VolShare::persisting(vol@, nqn@, bdev, res),
            res matches Step::Do(_, next) ==> next.wf(),
    {
        let vol = take_over(vol, bdev);
        let cmd = sync_share_opts(&vol);
        Step::Do(Effect::Run(cmd), VolShare::Persisting { vol, nqn })
    }

    /// Go on with the reply. A replica which is shared already is updated instead.
    pub fn resume(self, reply: Reply) -> (res: Step<VolShare, Change<String>>)
        requires
            self.wf(),
            self.awaits(reply),
        ensures
            self.resumed(reply, res),
            res matches Step::Do(_, next) ==> next.wf(),
    {
        match (self, reply) {
            (VolShare::Reading { vol, .. }, Reply::Lost(error)) => Step::Done((vol, Err(error))),
            (VolShare::Sharing { vol }, Reply::Lost(error)) => Step::Done((vol, Err(error))),
            (VolShare::Updating { vol }, Reply::Lost(error)) => Step::Done((vol, Err(error))),
            (VolShare::Reading { vol, uri, props }, Reply::Bdev(found)) => {
                match ZfsVol::bdev(found) {
                    Err(error) => Step::Done((vol, Err(error))),
                    Ok(bdev) => {
                        if bdev.is_nvmf() {
                            let props = match props {
                                Some(props) => Some(
                                    UpdateProps { allowed_hosts: props.allowed_hosts },
                                ),
                                None => None,
                            };
                            Step::Do(Effect::UpdateBdev { uri, update: props }, VolShare::Updating { vol })
                        } else {
                            Step::Do(Effect::ShareBdev { uri, share: props }, VolShare::Sharing { vol })
                        }
                    },
                }
            },
            (VolShare::Sharing { vol }, Reply::Shared(shared)) => match shared {
                Ok((nqn, bdev)) => VolShare::persist(vol, nqn, bdev),
                Err(source) => Step::Done((vol, Err(Error::BdevShare { source }))),
            },
            (VolShare::Updating { vol }, Reply::Changed(updated)) => match updated {
                Ok(bdev) => match &bdev.share_uri {
                    Some(nqn) => {
                        let nqn = nqn.clone();
                        VolShare::persist(vol, nqn, bdev)
                    },
                    None => Step::Done((vol, Err(Error::BdevShareUri))),
                },
                Err(source) => Step::Done((vol, Err(Error::BdevShare { source }))),
            },
            (VolShare::Persisting { vol, nqn }, Reply::Output(output)) => match output {
                Ok(_) => Step::Done((synced(vol), Ok(nqn))),
                Err(error) => Step::Done((vol, Err(error))),
            },
            _ => unreached(),
        }
    }
}

/// Updating the share properties of a replica.
#[derive(Debug)]
pub enum VolUpdate {
    /// The bdev is read.
    Reading { vol: ZfsVol, uri: String, props: Option<UpdateProps> },
    /// The bdev with the given name is updated.
    Updating { vol: ZfsVol, name: String },
    /// The sharing is persisted.
    Persisting { vol: ZfsVol },
}

impl VolUpdate {
    /// The reply is of the kind that is awaited.
    pub open spec fn awaits(self, reply: Reply) -> bool {
        match self {
            VolUpdate::Reading { .. } => reply is Bdev || reply is Lost,
            VolUpdate::Updating { .. } => reply is Changed || reply is Lost,
            VolUpdate::Persisting { .. } => reply is Output,
        }
    }

    /// The bdev of the replica is set up.
    pub open spec fn wf(self) -> bool {
        match self {
            VolUpdate::Reading { vol, .. }
            | VolUpdate::Updating { vol, .. }
            | VolUpdate::Persisting { vol } => vol@.bdev is Some,
        }
    }

    /// How the update goes on.
    pub open spec fn resumed(self, reply: Reply, next: Step<VolUpdate, Change<()>>) -> bool {
        match (self, reply) {
            (
                VolUpdate::Reading { vol, .. } | VolUpdate::Updating { vol, .. },
                Reply::Lost(error),
            ) => refused(next, vol, error),
            (VolUpdate::Reading { vol, .. }, Reply::Bdev(None)) => refused(
                next,
                vol,
                Error::BdevMissing,
            ),
            (VolUpdate::Reading { vol, uri, props }, Reply::Bdev(Some(bdev))) => next == Step::<
                VolUpdate,
                Change<()>,
            >::Do(Effect::UpdateBdev { uri, update: props }, VolUpdate::Updating { vol, name: bdev.name }),
            (VolUpdate::Updating { vol, .. }, Reply::Changed(Ok(bdev))) => {
                let after = reshared(vol@, bdev);
                next matches Step::Do(Effect::Run(cmd), VolUpdate::Persisting { vol: v }) && cmd@
                    == set_cmd(vol@.dataset, share_properties(after.bdev->0)) && v@ == after
            },
            (VolUpdate::Updating { vol, name }, Reply::Changed(Err(source))) => refused(
                next,
                vol,
                Error::UpdateProps { source, name },
            ),
            (VolUpdate::Persisting { vol }, Reply::Output(Ok(_))) => changed(
                next,
                persisted(vol@),
                Ok(()),
            ),
            (VolUpdate::Persisting { vol }, Reply::Output(Err(error))) => refused(
                next,
                vol,
                error,
            ),
            _ => true,
        }
    }

    /// Go on with the reply.
    pub fn resume(self, reply: Reply) -> (res: Step<VolUpdate, Change<()>>)
        requires
            self.wf(),
            self.awaits(reply),
        ensures
            self.resumed(reply, res),
            res matches Step::Do(_, next) ==> next.wf(),
    {
        match (self, reply) {
            (VolUpdate::Reading { vol, .. }, Reply::Lost(error)) => Step::Done((vol, Err(error))),
            (VolUpdate::Updating { vol, .. }, Reply::Lost(error)) => Step::Done((vol, Err(error))),
            (VolUpdate::Reading { vol, uri, props }, Reply::Bdev(found)) => {
                match ZfsVol::bdev(found) {
                    Err(error) => Step::Done((vol, Err(error))),
                    Ok(bdev) => Step::Do(
                        Effect::UpdateBdev { uri, update: props },
                        VolUpdate::Updating { vol, name: bdev.name },
                    ),
                }
            },
            (VolUpdate::Updating { vol, name }, Reply::Changed(updated)) => match updated {
                Ok(bdev) => {
                    let vol = take_over(vol, bdev);
                    let cmd = sync_share_opts(&vol);
                    Step::Do(Effect::Run(cmd), VolUpdate::Persisting { vol })
                },
                Err(source) => Step::Done((vol, Err(Error::UpdateProps { source, name }))),
            },
            (VolUpdate::Persisting { vol }, Reply::Output(output)) => match output {
                Ok(_) => Step::Done((synced(vol), Ok(()))),
                Err(error) => Step::Done((vol, Err(error))),
            },
            _ => unreached(),
        }
    }
}

/// The replica after its bdev was unshared.
pub open spec fn unshared(vol: VolView, uri: Option<Seq<char>>) -> VolView {
    VolView {
        bdev: Some(
            BdevOptsView { share_uri: uri, share: Protocol::Off, ..vol.bdev->0 },
        ),
        ..vol
    }
}

/// Unsharing a replica.
#[derive(Debug)]
pub enum VolUnshare {
    /// The bdev is read.
    Reading { vol: ZfsVol, uri: String, persist: bool },
    /// The bdev is no longer shared.
    Unsharing { vol: ZfsVol, persist: bool },
    /// The sharing is persisted.
    Persisting { vol: ZfsVol },
}

impl VolUnshare {
    /// The reply is of the kind that is awaited.
    pub open spec fn awaits(self, reply: Reply) -> bool {
        match self {
            VolUnshare::Reading { .. } => reply is Bdev || reply is Lost,
            VolUnshare::Unsharing { .. } => reply is Changed || reply is Lost,
            VolUnshare::Persisting { .. } => reply is Output,
        }
    }

    /// The bdev of the replica is set up.
    pub open spec fn wf(self) -> bool {
        match self {
            VolUnshare::Reading { vol, .. }
            | VolUnshare::Unsharing { vol, .. }
            | VolUnshare::Persisting { vol } => vol@.bdev is Some,
        }
    }

    /// The bdev is not shared any more, which is persisted if it is asked for.
    pub open spec fn settled(
        vol: VolView,
        uri: Option<Seq<char>>,
        persist: bool,
        next: Step<VolUnshare, Change<()>>,
    ) -> bool {
        let after = unshared(vol, uri);
        if persist {
            next matches Step::Do(Effect::Run(cmd), VolUnshare::Persisting { vol: v }) && cmd@
                == set_cmd(vol.dataset, seq![PropertyView::Share(Protocol::Off)]) && v@ == after
        } else {
            changed(next, after, Ok(()))
        }
    }

    /// How the change goes on.
    pub open spec fn resumed(self, reply: Reply, next: Step<VolUnshare, Change<()>>) -> bool {
        match (self, reply) {
            (
                VolUnshare::Reading { vol, .. } | VolUnshare::Unsharing { vol, .. },
                Reply::Lost(error),
            ) => refused(next, vol, error),
            (VolUnshare::Reading { vol, .. }, Reply::Bdev(None)) => refused(
                next,
                vol,
                Error::BdevMissing,
            ),
            (VolUnshare::Reading { vol, uri, persist }, Reply::Bdev(Some(bdev))) => {
                if bdev.nvmf() {
                    next == Step::<VolUnshare, Change<()>>::Do(
                        Effect::UnshareBdev(uri),
                        VolUnshare::Unsharing { vol, persist },
                    )
                } else {
                    VolUnshare::settled(vol@, text_opt(bdev.share_uri), persist, next)
                }
            },
            (VolUnshare::Unsharing { vol, persist }, Reply::Changed(Ok(bdev))) => {
                VolUnshare::settled(vol@, text_opt(bdev.share_uri), persist, next)
            },
            (VolUnshare::Unsharing { vol, .. }, Reply::Changed(Err(source))) => refused(
                next,
                vol,
                Error::BdevUnshare { source },
            ),
            (VolUnshare::Persisting { vol }, Reply::Output(Ok(_))) => changed(
                next,
                VolView { share: Protocol::Off, ..vol@ },
                Ok(()),
            ),
            (VolUnshare::Persisting { vol }, Reply::Output(Err(error))) => refused(
                next,
                vol,
                error,
            ),
            _ => true,
        }
    }

    /// Take note that the bdev is not shared any more, and persist it if it is asked for.
    fn settle(vol: ZfsVol, share_uri: Option<String>, persist: bool) -> (res: Step<
        VolUnshare,
        Change<()>,
    >)
        requires
            vol@.bdev is Some,
        ensures
            VolUnshare::settled(vol@, text_opt(share_uri), persist, res),
            res matches Step::Do(_, next) ==> next.wf(),
    {
        let mut vol = vol;
        if let Ok(bdev) = vol.bdev_mut() {
            bdev.set_unshared(share_uri);
        }
        if persist {
            let cmd = set_property(&vol, Property::Share(Protocol::Off));
            Step::Do(Effect::Run(cmd), VolUnshare::Persisting { vol })
        } else {
            Step::Done((vol, Ok(())))
        }
    }

    /// Go on with the reply.
    pub fn resume(self, reply: Reply) -> (res: Step<VolUnshare, Change<()>>)
        requires
            self.wf(),
            self.awaits(reply),
        ensures
            self.resumed(reply, res),
            res matches Step::Do(_, next) ==> next.wf(),
    {
        match (self, reply) {
            (VolUnshare::Reading { vol, .. }, Reply::Lost(error)) => Step::Done((vol, Err(error))),
            (VolUnshare::Unsharing { vol, .. }, Reply::Lost(error)) => Step::Done(
                (vol, Err(error)),
            ),
            (VolUnshare::Reading { vol, uri, persist }, Reply::Bdev(found)) => {
                match ZfsVol::bdev(found) {
                    Err(error) => Step::Done((vol, Err(error))),
                    Ok(bdev) => {
                        if bdev.is_nvmf() {
                            Step::Do(
                                Effect::UnshareBdev(uri),
                                VolUnshare::Unsharing { vol, persist },
                            )
                        } else {
                            VolUnshare::settle(vol, bdev.share_uri, persist)
                        }
                    },
                }
            },
            (VolUnshare::Unsharing { vol, persist }, Reply::Changed(done)) => match done {
                Ok(bdev) => VolUnshare::settle(vol, bdev.share_uri, persist),
                Err(source) => Step::Done((vol, Err(Error::BdevUnshare { source }))),
            },
            (VolUnshare::Persisting { vol }, Reply::Output(output)) => match output {
                Ok(_) => {
                    let mut vol = vol;
                    vol.set_share(Protocol::Off);
                    Step::Done((vol, Ok(())))
                },
                Err(error) => Step::Done((vol, Err(error))),
            },
            _ => unreached(),
        }
    }
}

impl ZfsVol {
    /// Set the entity id of the resource which owns this zvol.
    pub fn set_entity_id(self, id: String) -> (res: Step<SetOwner, Change<()>>)
        ensures
            runs(
                res,
                set_cmd(self@.dataset, seq![PropertyView::EntityId(id@)]),
                SetOwner { vol: self, id },
            ),
    {
        let cmd = set_property(&self, Property::EntityId(id.clone()));
        Step::Do(Effect::Run(cmd), SetOwner { vol: self, id })
    }

    /// Share the zvol via nvmf.
    pub fn share_nvmf(self, props: Option<NvmfShareProps>) -> (res: Step<VolShare, Change<String>>)
        ensures
            match self@.bdev {
                Some(bdev) => res matches Step::Do(
                    Effect::ReadBdev(name),
                    VolShare::Reading { vol, uri, props: p },
                ) && name == uri && uri@ == bdev.open_uri && vol == self && p == props,
                None => refused(res, self, Error::BdevMissing),
            },
            res matches Step::Do(_, next) ==> next.wf(),
    {
        match self.open_uri() {
            Ok(uri) => Step::Do(
                Effect::ReadBdev(uri.clone()),
                VolShare::Reading { vol: self, uri, props },
            ),
            Err(error) => Step::Done((self, Err(error))),
        }
    }

    /// Update the zvol share properties.
    pub fn update_share_props(self, props: Option<UpdateProps>) -> (res: Step<
        VolUpdate,
        Change<()>,
    >)
        ensures
            match self@.bdev {
                Some(bdev) => res matches Step::Do(
                    Effect::ReadBdev(name),
                    VolUpdate::Reading { vol, uri, props: p },
                ) && name == uri && uri@ == bdev.open_uri && vol == self && p == props,
                None => refused(res, self, Error::BdevMissing),
            },
            res matches Step::Do(_, next) ==> next.wf(),
    {
        match self.open_uri() {
            Ok(uri) => Step::Do(
                Effect::ReadBdev(uri.clone()),
                VolUpdate::Reading { vol: self, uri, props },
            ),
            Err(error) => Step::Done((self, Err(error))),
        }
    }

    /// Unshare the nvmf target, persistently or not.
    pub fn unshare(self, persist: bool) -> (res: Step<VolUnshare, Change<()>>)
        ensures
            match self@.bdev {
                Some(bdev) => res matches Step::Do(
                    Effect::ReadBdev(name),
                    VolUnshare::Reading { vol, uri, persist: p },
                ) && name == uri && uri@ == bdev.open_uri && vol == self && p == persist,
                None => refused(res, self, Error::BdevMissing),
            },
            res matches Step::Do(_, next) ==> next.wf(),
    {
        match self.open_uri() {
            Ok(uri) => Step::Do(
                Effect::ReadBdev(uri.clone()),
                VolUnshare::Reading { vol: self, uri, persist },
            ),
            Err(error) => Step::Done((self, Err(error))),
        }
    }
}

} // verus!
