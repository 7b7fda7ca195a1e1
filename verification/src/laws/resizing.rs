//! Resizing replicas.
use vstd::prelude::*;
use crate::cli::DsProps;
use crate::engine::BdevInfo;
use crate::error::Error;
use crate::flow::resize::{Change, VolResize};
use crate::laws::commands::runs_zfs;
use crate::laws::reported::{counts, law_replica_reported};
use crate::operation::{Reply, Step};
use crate::options::{law_round_up, rounded_up};
use crate::text::decimal::decimal;
use crate::zvol_replica::{BdevOptsView, VolView, ZfsVol};

verus! {

/// The size that a replica is given: the least multiple of its blocks which holds what is asked for.
pub open spec fn fits_blocks(given: u64, asked: u64, block: u64) -> bool {
    &&& given % block == 0
    &&& asked <= given
    &&& given < asked + block
}

proof fn lemma_one_multiple(a: int, b: int, size: int, block: int)
    requires
        block > 0,
        a % block == 0,
        b % block == 0,
        size <= a < size + block,
        size <= b < size + block,
    ensures
        a == b,
{
    vstd::arithmetic::div_mod::lemma_fundamental_div_mod(a, block);
    vstd::arithmetic::div_mod::lemma_fundamental_div_mod(b, block);
    let p = a / block;
    let q = b / block;
    assert(p == q) by (nonlinear_arith)
        requires
            block > 0,
            a == block * p,
            b == block * q,
            -block < a - b < block,
    ;
}

/// A replica only grows. The size that is set on the zvol is the least multiple of the blocks of
/// the replica which holds the size asked for.
pub proof fn law_resize_start(
    vol: ZfsVol,
    size: u64,
    given: u64,
    step: Step<VolResize, Change<()>>,
)
    requires
        vol@.volblocksize > 0,
        fits_blocks(given, size, vol@.volblocksize),
        call_ensures(ZfsVol::resize, (vol, size), step),
    ensures
        given >= vol@.size ==> {
            &&& runs_zfs(step, seq!["set"@, "volsize="@ + decimal(given as nat), vol@.dataset])
            &&& step->Do_1 == (VolResize::Setting { vol, size: given })
        },
        given < vol@.size ==> {
            &&& step is Done
            &&& step->Done_0.0 == vol
            &&& step->Done_0.1 is Err
            &&& step->Done_0.1->Err_0 is ShrinkNotSup
            &&& step->Done_0.1->Err_0->ShrinkNotSup_volume@ == vol@.uuid
        },
{
    law_round_up(size, vol@.volblocksize);
    lemma_one_multiple(
        given as int,
        rounded_up(size, vol@.volblocksize),
        size as int,
        vol@.volblocksize as int,
    );
}

/// A replica that was read of its properties is resized to a multiple of the very block size which
/// these report.
pub proof fn law_resize_reported(
    props: DsProps,
    block: u64,
    vol: ZfsVol,
    size: u64,
    given: u64,
    step: Step<VolResize, Change<()>>,
)
    requires
        block > 0,
        counts(props@, "volblocksize"@, block),
        call_ensures(ZfsVol::from_props, (&props,), Some(vol)),
        fits_blocks(given, size, block),
        given >= vol@.size,
        call_ensures(ZfsVol::resize, (vol, size), step),
    ensures
        given % block == 0,
        runs_zfs(step, seq!["set"@, "volsize="@ + decimal(given as nat), props@.name]),
        step->Do_1 == (VolResize::Setting { vol, size: given }),
{
    law_replica_reported(props@, vol@);
    law_resize_start(vol, size, given, step);
}

/// Nothing but the size changes: the zvol first, then its bdev, if there is one, which is told of
/// as many of its own blocks as the new size holds.
pub proof fn law_resize_steps(
    vol: ZfsVol,
    size: u64,
    prev: u64,
    uri: String,
    output: String,
    bdev: BdevInfo,
    told: u64,
    a: Step<VolResize, Change<()>>,
    b: Step<VolResize, Change<()>>,
    c: Step<VolResize, Change<()>>,
)
    requires
        bdev.block_len > 0,
        (VolResize::Setting { vol, size }).resumed(Reply::Output(Ok(output)), a),
        (VolResize::Reading { vol, uri, prev }).resumed(Reply::Bdev(Some(bdev)), b),
        (VolResize::Notifying { vol, prev }).resumed(Reply::Notified { rc: 0, size: told }, c),
    ensures
        vol@.bdev is None ==> a is Done && a->Done_0.1 is Ok && a->Done_0.0@ == (VolView {
            size,
            ..vol@
        }),
        vol@.bdev matches Some(opts) ==> {
            &&& a is Do
            &&& a->Do_0 is ReadBdev
            &&& a->Do_0->ReadBdev_0@ == opts.open_uri
            &&& a->Do_1 is Reading
            &&& a->Do_1->Reading_uri@ == opts.open_uri
            &&& a->Do_1->Reading_prev == vol@.size
            &&& a->Do_1->Reading_vol@ == (VolView { size, ..vol@ })
        },
        b is Do,
        b->Do_0 is NotifyBlocks,
        b->Do_0->NotifyBlocks_uri == uri,
        b->Do_0->NotifyBlocks_blocks as int == vol@.size as int / bdev.block_len as int,
        b->Do_1 == (VolResize::Notifying { vol, prev }),
        vol@.bdev matches Some(opts) ==> c is Done && c->Done_0.1 is Ok && c->Done_0.0@ == (VolView {
            bdev: Some(BdevOptsView { size: told, ..opts }),
            ..vol@
        }),
{
}

/// The reason why a resize failed on the bdev, if it did.
pub open spec fn bdev_failure(m: VolResize, reply: Reply) -> Option<Error> {
    match (m, reply) {
        (VolResize::Reading { .. }, Reply::Bdev(None)) => Some(Error::BdevMissing),
        (VolResize::Reading { .. } | VolResize::Notifying { .. }, Reply::Lost(error)) => Some(error),
        (VolResize::Notifying { .. }, Reply::Notified { rc, .. }) => if rc != 0 {
            Some(Error::BdevShareUri)
        } else {
            None
        },
        _ => None,
    }
}

/// A failed resize leaves the replica at the size that it had: the size of the zvol is set back
/// where it had been set already, whatever comes of that, and the failure is told.
pub proof fn law_resize_failures(
    m: VolResize,
    reply: Reply,
    back: Step<VolResize, Change<()>>,
    reverted: Result<String, Error>,
    done: Step<VolResize, Change<()>>,
    first: VolResize,
    error: Error,
    refused: Step<VolResize, Change<()>>,
)
    requires
        bdev_failure(m, reply) is Some,
        m.resumed(reply, back),
        back is Do,
        back->Do_1.resumed(Reply::Output(reverted), done),
    ensures
        ({
            let (vol, prev) = match m {
                VolResize::Reading { vol, prev, .. } | VolResize::Notifying { vol, prev } => (vol, prev),
                VolResize::Setting { vol, .. } | VolResize::Reverting { vol, .. } => (vol, 0),
            };
            &&& runs_zfs(back, seq!["set"@, "volsize="@ + decimal(prev as nat), vol@.dataset])
            &&& done is Done
            &&& done->Done_0.0@ == (VolView { size: prev, ..vol@ })
            &&& done->Done_0.1 is Err
            &&& done->Done_0.1->Err_0 == bdev_failure(m, reply)->0
        }),
        first is Setting && first.resumed(Reply::Output(Err(error)), refused) ==> refused is Done
            && refused->Done_0.0@ == first->Setting_vol@ && refused->Done_0.1 is Err
            && refused->Done_0.1->Err_0 == error,
{
}

} // verus!
