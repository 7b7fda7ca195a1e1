//! Devices and bdevs: waiting for the device of a zvol, opening it as a bdev and closing the bdev.
use vstd::prelude::*;
use crate::engine::{BdevInfo, NvmfShareProps, Protocol, UpdateProps};
use crate::error::Error;
use crate::flow::resize::{changed, Change};
use crate::operation::{BdevGone, Effect, Reply, Step};
use crate::zvol_replica::{disk_uri_of, BdevOpts, BdevOptsView, VolDevice, VolView, ZfsVol};

verus! {

/// How often the device is looked for, in milliseconds.
pub const DEVICE_POLL_MS: u64 = 100;

/// How long the device is waited for, in milliseconds.
pub const DEVICE_TIMEOUT_MS: u64 = 10_000;

/// Waiting for a zvol device.
#[derive(Debug)]
pub struct DeviceWait {
    pub path: String,
}

/// Wait for the udev-created /dev/zvol symlink to appear after a zfs create/clone, polling every
/// 100ms with a 10s timeout.
pub fn wait_for_zvol_device(path: String) -> (res: Step<DeviceWait, ()>)
    ensures
        res == Step::<DeviceWait, ()>::Do(
            Effect::Probe { path, delay_ms: 0 },
            DeviceWait { path },
        ),
{
    Step::Do(Effect::Probe { path: path.clone(), delay_ms: 0 }, DeviceWait { path })
}

impl DeviceWait {
    /// How the wait goes on.
    pub open spec fn resumed(self, reply: Reply) -> Step<DeviceWait, ()> {
        match reply {
            Reply::Probed { exists, elapsed_ms } => if exists {
                Step::Done(())
            } else if elapsed_ms >= DEVICE_TIMEOUT_MS {
                Step::Failed(Error::DeviceWait { path: self.path })
            } else {
                Step::Do(Effect::Probe { path: self.path, delay_ms: DEVICE_POLL_MS }, self)
            },
            _ => Step::Done(()),
        }
    }

    /// Go on with the reply.
    pub fn resume(self, reply: Reply) -> (res: Step<DeviceWait, ()>)
        requires
            reply is Probed,
        ensures
            res == self.resumed(reply),
    {
        match reply {
            Reply::Probed { exists, elapsed_ms } => {
                if exists {
                    Step::Done(())
                } else if elapsed_ms >= DEVICE_TIMEOUT_MS {
                    Step::Failed(Error::DeviceWait { path: self.path })
                } else {
                    Step::Do(
                        Effect::Probe { path: self.path.clone(), delay_ms: DEVICE_POLL_MS },
                        self,
                    )
                }
            },
            _ => unreached(),
        }
    }
}

/// Opening a zvol as an aio bdev, which is then shared or not as the replica persists it.
#[derive(Debug)]
pub enum BdevOpen {
    /// The device is probed for fallocate punch-hole.
    Probing { device: VolDevice },
    /// The bdev may be there already.
    Finding { device: VolDevice, uri: String },
    /// The bdev is created.
    Creating { device: VolDevice, uri: String },
    /// The bdev is read.
    Reading { device: VolDevice, uri: String },
    /// The persist through power loss file is created.
    Preparing { hosts: Vec<String>, uri: String, bdev: BdevInfo },
    /// The bdev is shared.
    Sharing,
    /// The bdev, which is shared already, is updated.
    Updating,
    /// The bdev is no longer shared.
    Unsharing,
}

/// The operation is done with the parameters of the bdev.
pub open spec fn opened<S>(step: Step<S, BdevOpts>, bdev: BdevInfo) -> bool {
    step matches Step::Done(opts) && opts@ == BdevOptsView::of(bdev)
}

impl BdevOpen {
    /// The reply is of the kind that is awaited.
    pub open spec fn awaits(self, reply: Reply) -> bool {
        match self {
            BdevOpen::Probing { .. } => reply is Flag,
            BdevOpen::Finding { .. } => reply is Flag || reply is Lost,
            BdevOpen::Creating { .. } => reply is Engine || reply is Lost,
            BdevOpen::Reading { .. } => reply is Bdev || reply is Lost,
            BdevOpen::Preparing { .. } => reply is Ptpl,
            BdevOpen::Sharing => reply is Shared || reply is Lost,
            BdevOpen::Updating | BdevOpen::Unsharing => reply is Changed || reply is Lost,
        }
    }

    /// How the opening goes on once the bdev is read: its sharing is brought in line with what is
    /// persisted.
    pub open spec fn synced(
        device: VolDevice,
        uri: String,
        bdev: BdevInfo,
        next: Step<BdevOpen, BdevOpts>,
    ) -> bool {
        match device.share {
            Protocol::Nvmf => next == Step::<BdevOpen, BdevOpts>::Do(
                Effect::CreatePtpl(device.ptpl),
                BdevOpen::Preparing { hosts: device.allowed_hosts, uri, bdev },
            ),
            Protocol::Off => if bdev.nvmf() {
                next == Step::<BdevOpen, BdevOpts>::Do(
                    Effect::UnshareBdev(uri),
                    BdevOpen::Unsharing,
                )
            } else {
                opened(next, bdev)
            },
        }
    }

    /// How the opening goes on.
    pub open spec fn resumed(self, reply: Reply, next: Step<BdevOpen, BdevOpts>) -> bool {
        match (self, reply) {
            (_, Reply::Lost(error)) => next == Step::<BdevOpen, BdevOpts>::Failed(error),
            (BdevOpen::Probing { device }, Reply::Flag(punch_hole)) => {
                next matches Step::Do(Effect::FindBdev(name), BdevOpen::Finding { device: d, uri })
                    && name == uri && d == device && uri@ == disk_uri_of(
                    device.path@,
                    device.uuid@,
                    punch_hole,
                )
            },
            (BdevOpen::Finding { device, uri }, Reply::Flag(found)) => if found {
                next == Step::<BdevOpen, BdevOpts>::Do(
                    Effect::ReadBdev(uri),
                    BdevOpen::Reading { device, uri },
                )
            } else {
                next == Step::<BdevOpen, BdevOpts>::Do(
                    Effect::CreateBdev(uri),
                    BdevOpen::Creating { device, uri },
                )
            },
            (BdevOpen::Creating { device, uri }, Reply::Engine(Ok(_))) => next == Step::<
                BdevOpen,
                BdevOpts,
            >::Do(Effect::ReadBdev(uri), BdevOpen::Reading { device, uri }),
            (BdevOpen::Creating { .. }, Reply::Engine(Err(source))) => next == Step::<
                BdevOpen,
                BdevOpts,
            >::Failed(Error::BdevImport { source }),
            (BdevOpen::Reading { .. }, Reply::Bdev(None)) => next == Step::<
                BdevOpen,
                BdevOpts,
            >::Failed(Error::BdevMissing),
            (BdevOpen::Reading { device, uri }, Reply::Bdev(Some(bdev))) => BdevOpen::synced(
                device,
                uri,
                bdev,
                next,
            ),
            (BdevOpen::Preparing { .. }, Reply::Ptpl(Err(source))) => next == Step::<
                BdevOpen,
                BdevOpts,
            >::Failed(Error::BdevShare { source }),
            (BdevOpen::Preparing { hosts, uri, bdev }, Reply::Ptpl(Ok(ptpl))) => if bdev.nvmf() {
                next == Step::<BdevOpen, BdevOpts>::Do(
                    Effect::UpdateBdev { uri, update: Some(UpdateProps { allowed_hosts: hosts }) },
                    BdevOpen::Updating,
                )
            } else {
                next == Step::<BdevOpen, BdevOpts>::Do(
                    Effect::ShareBdev {
                        uri,
                        share: Some(NvmfShareProps { allowed_hosts: hosts, ptpl }),
                    },
                    BdevOpen::Sharing,
                )
            },
            (BdevOpen::Sharing, Reply::Shared(Ok((_, bdev)))) => opened(next, bdev),
            (BdevOpen::Sharing, Reply::Shared(Err(source))) => next == Step::<
                BdevOpen,
                BdevOpts,
            >::Failed(Error::BdevShare { source }),
            (BdevOpen::Updating, Reply::Changed(Ok(bdev))) => if bdev.share_uri is Some {
                opened(next, bdev)
            } else {
                next == Step::<BdevOpen, BdevOpts>::Failed(Error::BdevShareUri)
            },
            (BdevOpen::Updating, Reply::Changed(Err(source))) => next == Step::<
                BdevOpen,
                BdevOpts,
            >::Failed(Error::BdevShare { source }),
            (BdevOpen::Unsharing, Reply::Changed(Ok(bdev))) => opened(next, bdev),
            (BdevOpen::Unsharing, Reply::Changed(Err(source))) => next == Step::<
                BdevOpen,
                BdevOpts,
            >::Failed(Error::BdevUnshare { source }),
            _ => true,
        }
    }

    /// Open the device.
    pub fn start(device: VolDevice) -> (res: Step<BdevOpen, BdevOpts>)
        ensures
            res == Step::<BdevOpen, BdevOpts>::Do(
                Effect::PunchHole(device.path),
                BdevOpen::Probing { device },
            ),
    {
        Step::Do(Effect::PunchHole(device.path.clone()), BdevOpen::Probing { device })
    }

    /// Bring the sharing of the bdev in line with what is persisted.
    fn bdev_sync_props(device: VolDevice, uri: String, bdev: BdevInfo) -> (res: Step<
        BdevOpen,
        BdevOpts,
    >)
        ensures
            BdevOpen::synced(device, uri, bdev, res),
    {
        match device.share {
            Protocol::Nvmf => Step::Do(
                Effect::CreatePtpl(device.ptpl),
                BdevOpen::Preparing { hosts: device.allowed_hosts, uri, bdev },
            ),
            Protocol::Off => {
                if bdev.is_nvmf() {
                    Step::Do(Effect::UnshareBdev(uri), BdevOpen::Unsharing)
                } else {
                    Step::Done(BdevOpts::from(bdev))
                }
            },
        }
    }

    /// Go on with the reply.
    pub fn resume(self, reply: Reply) -> (res: Step<BdevOpen, BdevOpts>)
        requires
            self.awaits(reply),
        ensures
            self.resumed(reply, res),
    {
        match (self, reply) {
            (_, Reply::Lost(error)) => Step::Failed(error),
            (BdevOpen::Probing { device }, Reply::Flag(punch_hole)) => {
                let uri = device.disk_uri(punch_hole);
                Step::Do(Effect::FindBdev(uri.clone()), BdevOpen::Finding { device, uri })
            },
            (BdevOpen::Finding { device, uri }, Reply::Flag(found)) => {
                if found {
                    Step::Do(Effect::ReadBdev(uri.clone()), BdevOpen::Reading { device, uri })
                } else {
                    Step::Do(Effect::CreateBdev(uri.clone()), BdevOpen::Creating { device, uri })
                }
            },
            (BdevOpen::Creating { device, uri }, Reply::Engine(created)) => match created {
                Ok(_) => Step::Do(Effect::ReadBdev(uri.clone()), BdevOpen::Reading { device, uri }),
                Err(source) => Step::Failed(Error::BdevImport { source }),
            },
            (BdevOpen::Reading { device, uri }, Reply::Bdev(found)) => match ZfsVol::bdev(found) {
                Ok(bdev) => BdevOpen::bdev_sync_props(device, uri, bdev),
                Err(error) => Step::Failed(error),
            },
            (BdevOpen::Preparing { hosts, uri, bdev }, Reply::Ptpl(created)) => {
                match ZfsVol::create_ptpl(created) {
                    Ok(ptpl) => {
                        if bdev.is_nvmf() {
                            let props = Some(UpdateProps { allowed_hosts: hosts });
                            Step::Do(Effect::UpdateBdev { uri, update: props }, BdevOpen::Updating)
                        } else {
                            let props = Some(NvmfShareProps { allowed_hosts: hosts, ptpl });
                            Step::Do(Effect::ShareBdev { uri, share: props }, BdevOpen::Sharing)
                        }
                    },
                    Err(error) => Step::Failed(error),
                }
            },
            (BdevOpen::Sharing, Reply::Shared(shared)) => match shared {
                Ok((_, bdev)) => Step::Done(BdevOpts::from(bdev)),
                Err(source) => Step::Failed(Error::BdevShare { source }),
            },
            (BdevOpen::Updating, Reply::Changed(updated)) => match updated {
                Ok(bdev) => {
                    if bdev.share_uri.is_some() {
                        Step::Done(BdevOpts::from(bdev))
                    } else {
                        Step::Failed(Error::BdevShareUri)
                    }
                },
                Err(source) => Step::Failed(Error::BdevShare { source }),
            },
            (BdevOpen::Unsharing, Reply::Changed(unshared)) => match unshared {
                Ok(bdev) => Step::Done(BdevOpts::from(bdev)),
                Err(source) => Step::Failed(Error::BdevUnshare { source }),
            },
            _ => unreached(),
        }
    }
}

/// Closing a bdev, which is unshared first, if it is shared. A zvol can only be destroyed once its
/// bdev is closed.
#[derive(Debug)]
pub enum BdevClose {
    /// The bdev is read.
    Reading { uri: String },
    /// The bdev is no longer shared.
    Unsharing { uri: String },
    /// The bdev is destroyed.
    Destroying,
}

impl BdevClose {
    /// The reply is of the kind that is awaited.
    pub open spec fn awaits(self, reply: Reply) -> bool {
        match self {
            BdevClose::Reading { .. } => reply is Bdev || reply is Lost,
            BdevClose::Unsharing { .. } => reply is Changed || reply is Lost,
            BdevClose::Destroying => reply is Gone || reply is Lost,
        }
    }

    /// How the closing goes on.
    pub open spec fn resumed(self, reply: Reply) -> Step<BdevClose, ()> {
        match (self, reply) {
            (_, Reply::Lost(error)) => Step::Failed(error),
            (BdevClose::Reading { uri }, Reply::Bdev(Some(bdev))) => if bdev.nvmf() {
                Step::Do(Effect::UnshareBdev(uri), BdevClose::Unsharing { uri })
            } else {
                Step::Do(Effect::DestroyBdev(uri), BdevClose::Destroying)
            },
            (BdevClose::Reading { uri }, _) => Step::Do(
                Effect::DestroyBdev(uri),
                BdevClose::Destroying,
            ),
            (BdevClose::Unsharing { .. }, Reply::Changed(Err(source))) => Step::Failed(
                Error::BdevUnshare { source },
            ),
            (BdevClose::Unsharing { uri }, _) => Step::Do(
                Effect::DestroyBdev(uri),
                BdevClose::Destroying,
            ),
            (BdevClose::Destroying, Reply::Gone(BdevGone::Failed(source))) => Step::Failed(
                Error::BdevExport { source },
            ),
            (BdevClose::Destroying, _) => Step::Done(()),
        }
    }

    /// Close the bdev with the given URI.
    pub fn start(uri: String) -> (res: Step<BdevClose, ()>)
        ensures
            res == Step::<BdevClose, ()>::Do(Effect::ReadBdev(uri), BdevClose::Reading { uri }),
    {
        Step::Do(Effect::ReadBdev(uri.clone()), BdevClose::Reading { uri })
    }

    /// Go on with the reply.
    pub fn resume(self, reply: Reply) -> (res: Step<BdevClose, ()>)
        requires
            self.awaits(reply),
        ensures
            res == self.resumed(reply),
    {
        match (self, reply) {
            (_, Reply::Lost(error)) => Step::Failed(error),
            (BdevClose::Reading { uri }, Reply::Bdev(found)) => match found {
                Some(bdev) => {
                    if bdev.is_nvmf() {
                        Step::Do(Effect::UnshareBdev(uri.clone()), BdevClose::Unsharing { uri })
                    } else {
                        Step::Do(Effect::DestroyBdev(uri), BdevClose::Destroying)
                    }
                },
                None => Step::Do(Effect::DestroyBdev(uri), BdevClose::Destroying),
            },
            (BdevClose::Unsharing { uri }, Reply::Changed(unshared)) => match unshared {
                Ok(_) => Step::Do(Effect::DestroyBdev(uri), BdevClose::Destroying),
                Err(source) => Step::Failed(Error::BdevUnshare { source }),
            },
            (BdevClose::Destroying, Reply::Gone(gone)) => match gone {
                BdevGone::Destroyed | BdevGone::NotFound => Step::Done(()),
                BdevGone::Failed(source) => Step::Failed(Error::BdevExport { source }),
            },
            _ => unreached(),
        }
    }
}

/// Importing a replica, whose zvol is opened as a bdev.
#[derive(Debug)]
pub struct VolImport {
    pub vol: ZfsVol,
}

impl VolImport {
    /// How the import goes on: the replica holds the bdev once it is open.
    pub open spec fn resumed(self, reply: Reply, next: Step<VolImport, Change<()>>) -> bool {
        match reply {
            Reply::Opened(Ok(bdev)) => changed(
                next,
                VolView { bdev: Some(bdev@), ..self.vol@ },
                Ok(()),
            ),
            Reply::Opened(Err(error)) => changed(next, self.vol@, Err(error)),
            _ => true,
        }
    }

    /// Go on with the reply.
    pub fn resume(self, reply: Reply) -> (res: Step<VolImport, Change<()>>)
        requires
            reply is Opened,
        ensures
            self.resumed(reply, res),
    {
        let mut vol = self.vol;
        match reply {
            Reply::Opened(opened) => match opened {
                Ok(bdev) => {
                    vol.set_bdev(Some(bdev));
                    Step::Done((vol, Ok(())))
                },
                Err(error) => Step::Done((vol, Err(error))),
            },
            _ => unreached(),
        }
    }
}

/// Exporting a replica, whose bdev is closed.
#[derive(Debug)]
pub struct VolExport {
    pub vol: ZfsVol,
}

impl VolExport {
    /// How the export goes on: the replica holds no bdev once it is closed.
    pub open spec fn resumed(self, reply: Reply, next: Step<VolExport, Change<()>>) -> bool {
        match reply {
            Reply::Finished(Ok(_)) => changed(next, VolView { bdev: None, ..self.vol@ }, Ok(())),
            Reply::Finished(Err(error)) => changed(next, self.vol@, Err(error)),
            _ => true,
        }
    }

    /// Go on with the reply.
    pub fn resume(self, reply: Reply) -> (res: Step<VolExport, Change<()>>)
        requires
            reply is Finished,
        ensures
            self.resumed(reply, res),
    {
        let mut vol = self.vol;
        match reply {
            Reply::Finished(closed) => match closed {
                Ok(_) => {
                    vol.set_bdev(None);
                    Step::Done((vol, Ok(())))
                },
                Err(error) => Step::Done((vol, Err(error))),
            },
            _ => unreached(),
        }
    }
}

impl ZfsVol {
    /// Import the zvol. The zvol is imported as a bdev, which allows it to be shared via nvmf or
    /// open locally (ex: by the nexus).
    pub fn import(self) -> (res: Step<VolImport, Change<()>>)
        ensures
            res matches Step::Do(Effect::OpenVol(device), VolImport { vol }) && device.device_of(
                self@,
            ) && vol == self,
    {
        self.import_bdev()
    }

    /// Import the zvol by loading it via a bdev using AIO.
    pub fn import_bdev(self) -> (res: Step<VolImport, Change<()>>)
        ensures
            res matches Step::Do(Effect::OpenVol(device), VolImport { vol }) && device.device_of(
                self@,
            ) && vol == self,
    {
        Step::Do(Effect::OpenVol(self.device()), VolImport { vol: self })
    }

    /// Export out the bdev. The bdev is unshared (if shared) and closed, allowing the zvol to be
    /// destroyed.
    pub fn export_bdev(self) -> (res: Step<VolExport, Change<()>>)
        ensures
            match self@.bdev {
                Some(bdev) => res matches Step::Do(Effect::CloseBdev(uri), VolExport { vol })
                    && uri@ == bdev.open_uri && vol == self,
                None => res == Step::<VolExport, Change<()>>::Done((self, Ok(()))),
            },
    {
        match self.open_uri() {
            Ok(uri) => Step::Do(Effect::CloseBdev(uri), VolExport { vol: self }),
            // Nothing to do if the bdev was not setup.
            Err(_) => Step::Done((self, Ok(()))),
        }
    }
}

} // verus!
