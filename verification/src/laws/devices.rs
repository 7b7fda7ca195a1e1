//! The devices of replicas, and the bdevs which they are opened as.
use vstd::prelude::*;
use crate::engine::{BdevInfo, Protocol};
use crate::error::Error;
use crate::flow::device::{wait_for_zvol_device, BdevClose, BdevOpen, DeviceWait, VolExport, VolImport};
use crate::flow::resize::Change;
use crate::flow::volume::VolList;
use crate::laws::sharing::shared_with;
use crate::operation::{BdevGone, Effect, Reply, Step};
use crate::text::chars::{text_opt, texts};
use crate::zvol_replica::{vol_views, BdevOpts, VolDevice, VolView, ZfsVol};

verus! {

/// A device is looked for at once, and then every 100 milliseconds until it is there, or until 10
/// seconds have passed.
pub proof fn law_device_polled(
    path: String,
    first: Step<DeviceWait, ()>,
    m: DeviceWait,
    exists: bool,
    elapsed_ms: u64,
)
    requires
        call_ensures(wait_for_zvol_device, (path,), first),
    ensures
        first is Do,
        first->Do_0 is Probe,
        first->Do_0->Probe_path == path,
        first->Do_0->Probe_delay_ms == 0,
        first->Do_1.path == path,
        ({
            let next = m.resumed(Reply::Probed { exists, elapsed_ms });
            &&& exists ==> next is Done
            &&& !exists && elapsed_ms >= 10000 ==> next is Failed && next->Failed_0 is DeviceWait
                && next->Failed_0->DeviceWait_path == m.path
            &&& !exists && elapsed_ms < 10000 ==> next is Do && next->Do_0 is Probe
                && next->Do_0->Probe_path == m.path && next->Do_0->Probe_delay_ms == 100
                && next->Do_1 == m
        }),
{
}

/// The device is that of the replica, with what it persists of its sharing.
pub open spec fn is_device(device: VolDevice, vol: VolView) -> bool {
    &&& device.path@ == "/dev/zvol/"@ + vol.dataset
    &&& device.uuid@ == vol.uuid
    &&& device.share == vol.share
    &&& texts(device.allowed_hosts@) == vol.allowed_hosts
    &&& device.ptpl.pool_name() == vol.pool_name
    &&& device.ptpl.replica() == vol.uuid
}

/// Importing a replica opens its own device; exporting it closes the bdev that it holds, if any.
pub proof fn law_import_export_start(
    vol: ZfsVol,
    a: Step<VolImport, Change<()>>,
    b: Step<VolImport, Change<()>>,
    c: Step<VolExport, Change<()>>,
)
    requires
        call_ensures(ZfsVol::import, (vol,), a),
        call_ensures(ZfsVol::import_bdev, (vol,), b),
        call_ensures(ZfsVol::export_bdev, (vol,), c),
    ensures
        a is Do && a->Do_0 is OpenVol && is_device(a->Do_0->OpenVol_0, vol@) && a->Do_1.vol == vol,
        b is Do && b->Do_0 is OpenVol && is_device(b->Do_0->OpenVol_0, vol@) && b->Do_1.vol == vol,
        vol@.bdev matches Some(bdev) ==> c is Do && c->Do_0 is CloseBdev && c->Do_0->CloseBdev_0@
            == bdev.open_uri && c->Do_1.vol == vol,
        vol@.bdev is None ==> c == Step::<VolExport, Change<()>>::Done((vol, Ok(()))),
{
}

/// Nothing but the bdev of a replica changes when it is imported or exported, and nothing at all
/// when that fails.
pub proof fn law_import_export_end(
    vol: ZfsVol,
    bdev: BdevOpts,
    error: Error,
    a: Step<VolImport, Change<()>>,
    b: Step<VolExport, Change<()>>,
)
    ensures
        (VolImport { vol }).resumed(Reply::Opened(Ok(bdev)), a) ==> a is Done && a->Done_0.1 is Ok
            && a->Done_0.0@ == (VolView { bdev: Some(bdev@), ..vol@ }),
        (VolImport { vol }).resumed(Reply::Opened(Err(error)), a) ==> a is Done && a->Done_0.1
            == Err::<(), Error>(error) && a->Done_0.0@ == vol@,
        (VolExport { vol }).resumed(Reply::Finished(Ok(())), b) ==> b is Done && b->Done_0.1 is Ok
            && b->Done_0.0@ == (VolView { bdev: None, ..vol@ }),
        (VolExport { vol }).resumed(Reply::Finished(Err(error)), b) ==> b is Done && b->Done_0.1
            == Err::<(), Error>(error) && b->Done_0.0@ == vol@,
{
}

/// The bdev of a device is named by the path of the device and by the uuid of the replica, and
/// passes trims on only where the device can.
pub proof fn law_bdev_name(
    device: VolDevice,
    first: Step<BdevOpen, BdevOpts>,
    punch_hole: bool,
    next: Step<BdevOpen, BdevOpts>,
)
    requires
        call_ensures(BdevOpen::start, (device,), first),
        (BdevOpen::Probing { device }).resumed(Reply::Flag(punch_hole), next),
    ensures
        first == Step::<BdevOpen, BdevOpts>::Do(
            Effect::PunchHole(device.path),
            BdevOpen::Probing { device },
        ),
        next is Do,
        next->Do_0 is FindBdev,
        next->Do_1 is Finding,
        next->Do_1->Finding_device == device,
        next->Do_0->FindBdev_0 == next->Do_1->Finding_uri,
        punch_hole ==> next->Do_0->FindBdev_0@ == "aio://"@ + device.path@ + "?uuid="@
            + device.uuid@ + "&fallocate=true"@,
        !punch_hole ==> next->Do_0->FindBdev_0@ == "aio://"@ + device.path@ + "?uuid="@
            + device.uuid@,
{
}

/// A bdev that is not there yet is created; then it is read.
pub proof fn law_bdev_found(
    device: VolDevice,
    uri: String,
    found: bool,
    a: Step<BdevOpen, BdevOpts>,
    b: Step<BdevOpen, BdevOpts>,
)
    requires
        (BdevOpen::Finding { device, uri }).resumed(Reply::Flag(found), a),
        (BdevOpen::Creating { device, uri }).resumed(Reply::Engine(Ok(())), b),
    ensures
        found ==> a == Step::<BdevOpen, BdevOpts>::Do(
            Effect::ReadBdev(uri),
            BdevOpen::Reading { device, uri },
        ),
        !found ==> a == Step::<BdevOpen, BdevOpts>::Do(
            Effect::CreateBdev(uri),
            BdevOpen::Creating { device, uri },
        ),
        b == Step::<BdevOpen, BdevOpts>::Do(
            Effect::ReadBdev(uri),
            BdevOpen::Reading { device, uri },
        ),
{
}

/// The parameters are what the engine reports of the bdev.
pub open spec fn are_parameters(opts: BdevOpts, bdev: BdevInfo) -> bool {
    &&& opts@.share_uri == text_opt(bdev.share_uri)
    &&& opts@.allowed_hosts == texts(bdev.allowed_hosts@)
    &&& opts@.share == shared_with(bdev)
    &&& opts@.size == bdev.size
    &&& bdev.open_uri is Some ==> opts@.open_uri == bdev.open_uri->0@
}

/// The sharing of an opened bdev is brought in line with what the replica persists: a replica that
/// is to be shared is, for the hosts that it allows, whether its bdev is shared already or not; one
/// that is not to be shared is no longer. Otherwise the bdev is left alone.
pub proof fn law_bdev_synced(
    device: VolDevice,
    uri: String,
    bdev: BdevInfo,
    ptpl: Option<String>,
    a: Step<BdevOpen, BdevOpts>,
    b: Step<BdevOpen, BdevOpts>,
)
    requires
        (BdevOpen::Reading { device, uri }).resumed(Reply::Bdev(Some(bdev)), a),
        device.share == Protocol::Nvmf ==> a is Do && a->Do_1.resumed(Reply::Ptpl(Ok(ptpl)), b),
    ensures
        device.share == Protocol::Nvmf ==> {
            &&& a->Do_0 == Effect::CreatePtpl(device.ptpl)
            &&& b is Do
            &&& bdev.shared == Some(Protocol::Nvmf) ==> {
                &&& b->Do_0 is UpdateBdev
                &&& b->Do_0->UpdateBdev_uri == uri
                &&& b->Do_0->UpdateBdev_update is Some
                &&& b->Do_0->UpdateBdev_update->0.allowed_hosts == device.allowed_hosts
                &&& b->Do_1 is Updating
            }
            &&& bdev.shared != Some(Protocol::Nvmf) ==> {
                &&& b->Do_0 is ShareBdev
                &&& b->Do_0->ShareBdev_uri == uri
                &&& b->Do_0->ShareBdev_share is Some
                &&& b->Do_0->ShareBdev_share->0.allowed_hosts == device.allowed_hosts
                &&& b->Do_0->ShareBdev_share->0.ptpl == ptpl
                &&& b->Do_1 is Sharing
            }
        },
        device.share == Protocol::Off && bdev.shared == Some(Protocol::Nvmf) ==> a == Step::<
            BdevOpen,
            BdevOpts,
        >::Do(Effect::UnshareBdev(uri), BdevOpen::Unsharing),
        device.share == Protocol::Off && bdev.shared != Some(Protocol::Nvmf) ==> a is Done
            && are_parameters(a->Done_0, bdev),
{
}

/// What is known of an opened bdev is what the engine reported of it last; an updated bdev must be
/// shared under some URI.
pub proof fn law_bdev_opened(
    nqn: String,
    bdev: BdevInfo,
    a: Step<BdevOpen, BdevOpts>,
    b: Step<BdevOpen, BdevOpts>,
    c: Step<BdevOpen, BdevOpts>,
)
    requires
        BdevOpen::Sharing.resumed(Reply::Shared(Ok((nqn, bdev))), a),
        BdevOpen::Updating.resumed(Reply::Changed(Ok(bdev)), b),
        BdevOpen::Unsharing.resumed(Reply::Changed(Ok(bdev)), c),
    ensures
        a is Done && are_parameters(a->Done_0, bdev),
        bdev.share_uri is Some ==> b is Done && are_parameters(b->Done_0, bdev),
        bdev.share_uri is None ==> b is Failed && b->Failed_0 is BdevShareUri,
        c is Done && are_parameters(c->Done_0, bdev),
{
}

/// Opening a bdev ends with the first failure, which is told.
pub proof fn law_bdev_open_failures(
    m: BdevOpen,
    source: String,
    error: Error,
    next: Step<BdevOpen, BdevOpts>,
)
    ensures
        m.resumed(Reply::Lost(error), next) ==> next == Step::<BdevOpen, BdevOpts>::Failed(error),
        m is Creating && m.resumed(Reply::Engine(Err(source)), next) ==> next == Step::<
            BdevOpen,
            BdevOpts,
        >::Failed(Error::BdevImport { source }),
        m is Reading && m.resumed(Reply::Bdev(None), next) ==> next == Step::<
            BdevOpen,
            BdevOpts,
        >::Failed(Error::BdevMissing),
        m is Preparing && m.resumed(Reply::Ptpl(Err(source)), next) ==> next == Step::<
            BdevOpen,
            BdevOpts,
        >::Failed(Error::BdevShare { source }),
        m is Sharing && m.resumed(Reply::Shared(Err(source)), next) ==> next == Step::<
            BdevOpen,
            BdevOpts,
        >::Failed(Error::BdevShare { source }),
        m is Updating && m.resumed(Reply::Changed(Err(source)), next) ==> next == Step::<
            BdevOpen,
            BdevOpts,
        >::Failed(Error::BdevShare { source }),
        m is Unsharing && m.resumed(Reply::Changed(Err(source)), next) ==> next == Step::<
            BdevOpen,
            BdevOpts,
        >::Failed(Error::BdevUnshare { source }),
{
}

/// Closing a bdev unshares it first, where it is shared, and then destroys it. It does not matter if
/// it is gone already.
pub proof fn law_bdev_closed(
    uri: String,
    first: Step<BdevClose, ()>,
    found: Option<BdevInfo>,
    bdev: BdevInfo,
    source: String,
    error: Error,
    m: BdevClose,
)
    requires
        call_ensures(BdevClose::start, (uri,), first),
    ensures
        first == Step::<BdevClose, ()>::Do(Effect::ReadBdev(uri), BdevClose::Reading { uri }),
        found is Some && found->0.shared == Some(Protocol::Nvmf) ==> (BdevClose::Reading {
            uri,
        }).resumed(Reply::Bdev(found)) == Step::<BdevClose, ()>::Do(
            Effect::UnshareBdev(uri),
            BdevClose::Unsharing { uri },
        ),
        found is None || found->0.shared != Some(Protocol::Nvmf) ==> (BdevClose::Reading {
            uri,
        }).resumed(Reply::Bdev(found)) == Step::<BdevClose, ()>::Do(
            Effect::DestroyBdev(uri),
            BdevClose::Destroying,
        ),
        (BdevClose::Unsharing { uri }).resumed(Reply::Changed(Ok(bdev))) == Step::<
            BdevClose,
            (),
        >::Do(Effect::DestroyBdev(uri), BdevClose::Destroying),
        (BdevClose::Unsharing { uri }).resumed(Reply::Changed(Err(source))) == Step::<
            BdevClose,
            (),
        >::Failed(Error::BdevUnshare { source }),
        BdevClose::Destroying.resumed(Reply::Gone(BdevGone::Destroyed)) is Done,
        BdevClose::Destroying.resumed(Reply::Gone(BdevGone::NotFound)) is Done,
        BdevClose::Destroying.resumed(Reply::Gone(BdevGone::Failed(source))) == Step::<
            BdevClose,
            (),
        >::Failed(Error::BdevExport { source }),
        m.resumed(Reply::Lost(error)) == Step::<BdevClose, ()>::Failed(error),
{
}

/// Listed replicas are opened one after the other, each by its own device; each is told with the
/// bdev that it was opened as. One which cannot be opened does not keep the next from being opened,
/// but fails the listing in the end.
pub proof fn law_list_opens(
    vols: Vec<ZfsVol>,
    at: usize,
    before: Option<Error>,
    opened: Result<BdevOpts, Error>,
    next: Step<VolList, Vec<ZfsVol>>,
)
    requires
        at < vols@.len(),
        (VolList::Opening { vols, at, error: before }).resumed(Reply::Opened(opened), next),
    ensures
        ({
            let error = match opened {
                Ok(_) => before,
                Err(error) => Some(error),
            };
            let after = match next {
                Step::Do(_, VolList::Opening { vols, .. }) => vols@,
                Step::Done(vols) => vols@,
                _ => Seq::empty(),
            };
            &&& at + 1 < vols@.len() ==> next is Do && next->Do_0 is OpenVol && is_device(
                next->Do_0->OpenVol_0,
                vols@[at + 1]@,
            ) && next->Do_1 is Opening && next->Do_1->Opening_at == at + 1
                && next->Do_1->Opening_error == error
            &&& at + 1 == vols@.len() && error is Some ==> next == Step::<
                VolList,
                Vec<ZfsVol>,
            >::Failed(error->0)
            &&& at + 1 == vols@.len() && error is None ==> next is Done
            &&& !(next is Failed) ==> {
                &&& after.len() == vols@.len()
                &&& forall|i: int|
                    0 <= i < after.len() && i != at ==> (#[trigger] after[i])@ == vols@[i]@
                &&& opened matches Ok(bdev) ==> after[at as int]@ == (VolView {
                    bdev: Some(bdev@),
                    ..vols@[at as int]@
                })
                &&& opened is Err ==> after[at as int]@ == vols@[at as int]@
            }
        }),
{
    let views = vol_views(vols@);
    assert forall|i: int| 0 <= i < views.len() implies #[trigger] views[i] == vols@[i]@ by {}
    assert(views[at as int] == vols@[at as int]@);
    if at + 1 < vols@.len() {
        assert(views[at + 1] == vols@[at + 1]@);
    }
    let after = match next {
        Step::Do(_, VolList::Opening { vols, .. }) => vols@,
        Step::Done(vols) => vols@,
        _ => Seq::empty(),
    };
    assert(vol_views(after).len() == after.len());
    assert forall|i: int| 0 <= i < after.len() implies #[trigger] after[i]@ == vol_views(after)[i] by {}
}

} // verus!
