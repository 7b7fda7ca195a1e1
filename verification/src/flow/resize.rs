//! Replicas: resizing them.
use vstd::prelude::*;
use crate::cli::{CmdView, ZfsCmd};
use crate::error::{Error, ErrorView};
use crate::operation::{runs, Effect, Reply, Step};
use crate::options::{round_up, rounded_up};
use crate::text::decimal::{decimal, decimal_text};
use crate::zvol_replica::{BdevOptsView, VolView, ZfsVol};

verus! {

/// The command which sets the size of a zvol.
pub open spec fn volsize_cmd(dataset: Seq<char>, size: u64) -> CmdView {
    CmdView::zfs(seq!["set"@, "volsize="@ + decimal(size as nat), dataset])
}

/// What comes of changing a replica: the replica as it is by then, and the outcome.
pub type Change<T> = (ZfsVol, Result<T, Error>);

/// Resizing a replica.
#[derive(Debug)]
pub enum VolResize {
    /// The size of the zvol is set.
    Setting { vol: ZfsVol, size: u64 },
    /// The bdev is read.
    Reading { vol: ZfsVol, uri: String, prev: u64 },
    /// The bdev is told its new number of blocks.
    Notifying { vol: ZfsVol, prev: u64 },
    /// The size of the zvol is set back, after a failure.
    Reverting { vol: ZfsVol, prev: u64, error: Error },
}

/// The operation is done with the replica and the outcome.
pub open spec fn changed<S, T>(
    next: Step<S, Change<T>>,
    vol: VolView,
    outcome: Result<T, Error>,
) -> bool {
    next matches Step::Done((v, res)) && v@ == vol && res == outcome
}

impl VolResize {
    /// The reply is of the kind that is awaited, and the blocks of a bdev are not empty.
    pub open spec fn awaits(self, reply: Reply) -> bool {
        match self {
            VolResize::Setting { .. } | VolResize::Reverting { .. } => reply is Output,
            VolResize::Reading { .. } => match reply {
                Reply::Bdev(Some(bdev)) => bdev.block_len > 0,
                Reply::Bdev(None) | Reply::Lost(_) => true,
                _ => false,
            },
            VolResize::Notifying { .. } => reply is Notified || reply is Lost,
        }
    }

    /// The bdev of the replica is being resized.
    pub open spec fn wf(self) -> bool {
        match self {
            VolResize::Reading { vol, .. } | VolResize::Notifying { vol, .. } => vol@.bdev is Some,
            _ => true,
        }
    }

    /// The size of the zvol is set back.
    pub open spec fn reverting(
        vol: ZfsVol,
        prev: u64,
        error: Error,
        next: Step<VolResize, Change<()>>,
    ) -> bool {
        runs(next, volsize_cmd(vol@.dataset, prev), VolResize::Reverting { vol, prev, error })
    }

    /// How the resizing starts.
    pub open spec fn started(vol: ZfsVol, size: u64, next: Step<VolResize, Change<()>>) -> bool {
        let size = rounded_up(size, vol@.volblocksize);
        if size < vol@.size {
            next matches Step::Done((v, Err(error))) && v == vol && error@
                == (ErrorView::ShrinkNotSup { volume: vol@.uuid })
        } else {
            runs(
                next,
                volsize_cmd(vol@.dataset, size as u64),
                VolResize::Setting { vol, size: size as u64 },
            )
        }
    }

    /// How the resizing goes on.
    pub open spec fn resumed(self, reply: Reply, next: Step<VolResize, Change<()>>) -> bool {
        match (self, reply) {
            (VolResize::Setting { vol, .. }, Reply::Output(Err(error))) => changed(
                next,
                vol@,
                Err(error),
            ),
            (VolResize::Setting { vol, size }, Reply::Output(Ok(_))) => {
                let after = VolView { size, ..vol@ };
                match vol@.bdev {
                    None => changed(next, after, Ok(())),
                    Some(bdev) => next matches Step::Do(
                        Effect::ReadBdev(name),
                        VolResize::Reading { vol: v, uri, prev },
                    ) && name == uri && uri@ == bdev.open_uri && v@ == after && prev == vol@.size,
                }
            },
            (VolResize::Reading { vol, prev, .. }, Reply::Bdev(None)) => VolResize::reverting(
                vol,
                prev,
                Error::BdevMissing,
                next,
            ),
            (
                VolResize::Reading { vol, prev, .. } | VolResize::Notifying { vol, prev },
                Reply::Lost(error),
            ) => VolResize::reverting(vol, prev, error, next),
            (VolResize::Reading { vol, uri, prev }, Reply::Bdev(Some(bdev))) => next == Step::<
                VolResize,
                Change<()>,
            >::Do(
                Effect::NotifyBlocks { uri, blocks: vol@.size / bdev.block_len as u64 },
                VolResize::Notifying { vol, prev },
            ),
            (VolResize::Notifying { vol, prev }, Reply::Notified { rc, size }) => if rc != 0 {
                VolResize::reverting(vol, prev, Error::BdevShareUri, next)
            } else {
                changed(
                    next,
                    VolView { bdev: Some(BdevOptsView { size, ..vol@.bdev->0 }), ..vol@ },
                    Ok(()),
                )
            },
            (VolResize::Reverting { vol, prev, error }, Reply::Output(_)) => changed(
                next,
                VolView { size: prev, ..vol@ },
                Err(error),
            ),
            _ => true,
        }
    }

    /// Set only the zvol volsize to the given size (not the bdev).
    fn set_volsize(vol: &ZfsVol, size: u64) -> (res: ZfsCmd)
        ensures
            res@ == volsize_cmd(vol@.dataset, size),
    {
        let arg = "volsize=".to_owned().concat(decimal_text(size).as_str());
        let cmd = ZfsCmd::zfs("set").arg(arg.as_str()).arg(vol.dataset());
        assert(cmd@ =~= volsize_cmd(vol@.dataset, size));
        cmd
    }

    /// Set the size of the zvol back.
    fn revert(vol: ZfsVol, prev: u64, error: Error) -> (res: Step<VolResize, Change<()>>)
        ensures
            VolResize::reverting(vol, prev, error, res),
    {
        let cmd = VolResize::set_volsize(&vol, prev);
        Step::Do(Effect::Run(cmd), VolResize::Reverting { vol, prev, error })
    }

    /// Go on with the reply.
    pub fn resume(self, reply: Reply) -> (res: Step<VolResize, Change<()>>)
        requires
            self.wf(),
            self.awaits(reply),
        ensures
            self.resumed(reply, res),
            res matches Step::Do(_, next) ==> next.wf(),
    {
        match (self, reply) {
            (VolResize::Setting { vol, size }, Reply::Output(output)) => match output {
                Err(error) => Step::Done((vol, Err(error))),
                Ok(_) => {
                    let prev = vol.size();
                    let mut vol = vol;
                    vol.set_size(size);
                    match vol.open_uri() {
                        Ok(uri) => Step::Do(
                            Effect::ReadBdev(uri.clone()),
                            VolResize::Reading { vol, uri, prev },
                        ),
                        // If the bdev is not open, it does not have to be resized.
                        Err(_) => Step::Done((vol, Ok(()))),
                    }
                },
            },
            (VolResize::Reading { vol, uri, prev }, Reply::Bdev(found)) => match found {
                None => VolResize::revert(vol, prev, Error::BdevMissing),
                Some(bdev) => {
                    let blocks = vol.size() / bdev.block_len as u64;
                    Step::Do(
                        Effect::NotifyBlocks { uri, blocks },
                        VolResize::Notifying { vol, prev },
                    )
                },
            },
            (VolResize::Reading { vol, prev, .. }, Reply::Lost(error)) => VolResize::revert(
                vol,
                prev,
                error,
            ),
            (VolResize::Notifying { vol, prev }, Reply::Lost(error)) => VolResize::revert(
                vol,
                prev,
                error,
            ),
            (VolResize::Notifying { vol, prev }, Reply::Notified { rc, size }) => {
                if rc != 0 {
                    return VolResize::revert(vol, prev, Error::BdevShareUri);
                }
                let mut vol = vol;
                if let Ok(bdev) = vol.bdev_mut() {
                    bdev.set_size(size);
                }
                Step::Done((vol, Ok(())))
            },
            (VolResize::Reverting { vol, prev, error }, Reply::Output(_)) => {
                let mut vol = vol;
                vol.set_size(prev);
                Step::Done((vol, Err(error)))
            },
            _ => unreached(),
        }
    }
}

impl ZfsVol {
    /// Resize the zvol and its bdev to the given size (expand only). If the bdev fails to be
    /// resized, then the volsize is reverted back.
    pub fn resize(self, size: u64) -> (res: Step<VolResize, Change<()>>)
        requires
            self@.volblocksize > 0,
            rounded_up(size, self@.volblocksize) <= u64::MAX,
        ensures
            VolResize::started(self, size, res),
            res matches Step::Do(_, next) ==> next.wf(),
    {
        let size = round_up(size, self.volblocksize());
        if size < self.size() {
            let error = Error::ShrinkNotSup { volume: self.uuid().to_owned() };
            return Step::Done((self, Err(error)));
        }
        let cmd = VolResize::set_volsize(&self, size);
        Step::Do(Effect::Run(cmd), VolResize::Setting { vol: self, size })
    }
}

} // verus!
