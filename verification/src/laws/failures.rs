//! Failures: how they are told apart, and how they are told.
use vstd::prelude::*;
use vstd::utf8::is_ascii_chars;
use crate::cli::{CmdOutput, ZfsCmd};
use crate::engine::{Errno, Status, StatusCode};
use crate::error::Error;
use crate::outside::{debug_list, utf8_lossy};
use crate::text::chars::{ascii_lower, texts};
use crate::text::search::{contains_text, occurs_at, trim};

verus! {

/// The message of a failure names what failed, and carries all that is known of it.
pub proof fn law_messages(error: Error, text: String, status: Status)
    requires
        call_ensures(Error::message, (&error,), text),
        call_ensures(Error::status, (&error,), status),
    ensures
        status.message@ == text@,
        match error {
            Error::OutputParsing { command, error } => text@ == "Failed to parse "@ + command@ + " output: "@ + error@,
            Error::ZfsBinErr { command, error } => text@ == command@ + " command failed: "@ + error@,
            Error::ZfsBinSpawnErr { command, source } => text@ == "Failed to spawn/wait for "@ + command@ + " command: "@ + source@,
            Error::DisksMismatch { args, pool } => text@ == "ZFS pool parent dataset mismatch, args:"@ + args@ + ", pool:"@ + pool@,
            Error::UuidMismatch { args, pool } => text@ == "ZFS pool uuid mismatch, args:"@ + args@ + ", pool:"@ + pool@,
            Error::InvalidDisks { error } => text@ == "Invalid pool disks: "@ + error@,
            Error::InvalidOption { error } => text@ == "Invalid option: "@ + error@,
            Error::InvalidName { name, error } => text@ == "Invalid dataset name '"@ + name@ + "': "@ + error@,
            Error::InvalidPropertyValue { key, error } => text@ == "Invalid value for property '"@ + key@ + "': "@ + error@,
            Error::NotFound { query } => text@ == "ZFS pool "@ + query@ + " not found"@,
            Error::VolNotFound { query } => text@ == "ZFS volume with "@ + query@ + " not found"@,
            Error::SnapNotFound { query } => text@ == "ZFS snapshot with "@ + query@ + " not found"@,
            Error::ForeignDatasets { datasets } => text@ == "ZFS pool contains foreign datasets: "@ + debug_list(texts(datasets@)),
            Error::DeviceWait { path } => text@ == "Timed out waiting for the zvol device "@ + path@ + " to appear"@,
            Error::ReactorSpawn => text@ == "Failed to spawn reactor task"@,
            Error::ReactorSpawnChannel => text@ == "Failed to collect result of reactor spawn"@,
            Error::BdevImport { source } => text@ == "Failed to import the zvol as an spdk bdev: "@ + source@,
            Error::BdevExport { source } => text@ == "Failed to export the zvol's spdk bdev: "@ + source@,
            Error::BdevShare { source } => text@ == source@,
            Error::BdevShareUri => text@ == "Bdev is shared but no uri is found"@,
            Error::BdevUnshare { source } => text@ == source@,
            Error::BdevMissing => text@ == "Bdev cannot be found after successful creation"@,
            Error::UpdateProps { source, name } => text@ == "Failed to update bdev's "@ + name@ + " properties: "@ + source@,
            Error::NoSpace { error } => text@ == error@,
            Error::Exists { error } => text@ == error@,
            Error::HasClones { error } => text@ == error@,
            Error::HasLiveSnapshots { volume } => text@ == "Volume "@ + volume@ + " has live snapshots and cannot be destroyed"@,
            Error::ShrinkNotSup { volume } => text@ == "Cannot shrink volume "@ + volume@,
            Error::GrowNotSup => text@ == "Pool expansion is not currently supported for ZFS pools"@,
            Error::EncryptionNotSup => text@ == "Encryption is not currently supported for ZFS pools"@,
            Error::Internal { error } => text@ == error@,
        },
{
}

/// A failure is reported to a remote caller as one of the request where the request is at fault, as
/// one of the state where that is, as a lack of what was asked for or of space, and as an internal
/// one otherwise.
pub proof fn law_status(error: Error, status: Status)
    requires
        call_ensures(Error::status, (&error,), status),
    ensures
        status.code == StatusCode::InvalidArgument <==> error is DisksMismatch
            || error is UuidMismatch || error is InvalidDisks || error is InvalidOption
            || error is InvalidName || error is InvalidPropertyValue,
        status.code == StatusCode::NotFound <==> error is NotFound || error is VolNotFound
            || error is SnapNotFound,
        status.code == StatusCode::FailedPrecondition <==> error is ForeignDatasets
            || error is HasClones || error is HasLiveSnapshots || error is ShrinkNotSup
            || error is GrowNotSup || error is EncryptionNotSup,
        status.code == StatusCode::ResourceExhausted <==> error is NoSpace,
        status.code == StatusCode::AlreadyExists <==> error is Exists,
        status.code == StatusCode::Internal <==> error is OutputParsing || error is ZfsBinErr
            || error is ZfsBinSpawnErr || error is DeviceWait || error is ReactorSpawn
            || error is ReactorSpawnChannel || error is BdevImport || error is BdevExport
            || error is BdevShare || error is BdevShareUri || error is BdevUnshare
            || error is BdevMissing || error is UpdateProps || error is Internal,
{
}

/// The system error number of a failure tells its kind.
pub proof fn law_errno(error: Error, errno: Errno)
    requires
        call_ensures(Error::to_errno, (&error,), errno),
    ensures
        errno == Errno::EINVAL <==> error is DisksMismatch || error is UuidMismatch
            || error is InvalidDisks || error is InvalidOption || error is InvalidName
            || error is InvalidPropertyValue,
        errno == Errno::ENOENT <==> error is NotFound || error is VolNotFound
            || error is SnapNotFound,
        errno == Errno::EBUSY <==> error is ForeignDatasets || error is HasClones
            || error is HasLiveSnapshots,
        errno == Errno::ETIMEDOUT <==> error is DeviceWait,
        errno == Errno::EXFULL <==> error is ReactorSpawn,
        errno == Errno::EPIPE <==> error is ReactorSpawnChannel || error is Internal,
        errno == Errno::EFAULT <==> error is BdevShare || error is BdevShareUri
            || error is BdevUnshare,
        errno == Errno::ENODEV <==> error is BdevMissing,
        errno == Errno::ENOSPC <==> error is NoSpace,
        errno == Errno::EEXIST <==> error is Exists,
        errno == Errno::ENOTSUP <==> error is ShrinkNotSup || error is GrowNotSup
            || error is EncryptionNotSup,
        errno == Errno::EIO <==> error is OutputParsing || error is ZfsBinErr
            || error is ZfsBinSpawnErr || error is BdevImport || error is BdevExport
            || error is UpdateProps,
{
}

/// The text occurs in the other, wherever.
pub open spec fn says(text: Seq<char>, words: Seq<char>) -> bool {
    exists|before: Seq<char>, after: Seq<char>| text == #[trigger] (before + words + after)
}

proof fn lemma_says(text: Seq<char>, words: Seq<char>)
    ensures
        contains_text(text, words) <==> says(text, words),
{
    if contains_text(text, words) {
        let at = choose|at: int| occurs_at(text, words, at);
        assert(text =~= text.take(at) + words + text.skip(at + words.len()));
    }
    if says(text, words) {
        let (before, after) = choose|before: Seq<char>, after: Seq<char>|
            text == #[trigger] (before + words + after);
        assert(text.subrange(before.len() as int, (before.len() + words.len()) as int) =~= words);
        assert(occurs_at(text, words, before.len() as int));
    }
}

/// A failed command is told apart by the words of its error output, whatever their case: a lack of
/// the dataset first, then one that is there already, then a lack of space, then clones. The error
/// output is kept as it is.
pub proof fn law_classified(command: &str, error: String, lower: &str, res: Error)
    requires
        call_ensures(Error::classify, (command, error, lower), res) || (is_ascii_chars(error@)
            && lower@ == ascii_lower(error@) && call_ensures(
            Error::from_zfs_stderr,
            (command, error),
            res,
        )),
    ensures
        res is NotFound <==> says(lower@, "does not exist"@),
        res is Exists <==> !says(lower@, "does not exist"@) && says(lower@, "already exists"@),
        res is NoSpace <==> !says(lower@, "does not exist"@) && !says(lower@, "already exists"@) && (
        says(lower@, "out of space"@) || says(lower@, "no space"@) || says(
            lower@,
            "quota exceeded"@,
        )),
        res is HasClones <==> !says(lower@, "does not exist"@) && !says(lower@, "already exists"@)
            && !says(lower@, "out of space"@) && !says(lower@, "no space"@) && !says(
            lower@,
            "quota exceeded"@,
        ) && says(lower@, "has dependent clones"@),
        match res {
            Error::NotFound { query } => query@ == error@,
            Error::Exists { error: e } => e@ == error@,
            Error::NoSpace { error: e } => e@ == error@,
            Error::HasClones { error: e } => e@ == error@,
            Error::ZfsBinErr { command: c, error: e } => c@ == command@ && e@ == error@,
            _ => false,
        },
{
    lemma_says(lower@, "does not exist"@);
    lemma_says(lower@, "already exists"@);
    lemma_says(lower@, "out of space"@);
    lemma_says(lower@, "no space"@);
    lemma_says(lower@, "quota exceeded"@);
    lemma_says(lower@, "has dependent clones"@);
}

/// A command which exits well gives its output. One which does not gives the failure that its error
/// output tells of, without the white space around it; one which could not be run gives just that.
pub proof fn law_outcome(
    cmd: &str,
    stdout: Vec<u8>,
    stderr: Vec<u8>,
    source: String,
    good: Result<String, Error>,
    bad: Result<String, Error>,
    none: Result<String, Error>,
    told: String,
    failure: Error,
)
    requires
        call_ensures(
            ZfsCmd::outcome,
            (cmd, CmdOutput::Exited { success: true, stdout, stderr }),
            good,
        ),
        call_ensures(
            ZfsCmd::outcome,
            (cmd, CmdOutput::Exited { success: false, stdout, stderr }),
            bad,
        ),
        call_ensures(ZfsCmd::outcome, (cmd, CmdOutput::SpawnFailed(source)), none),
        told@ == trim(utf8_lossy(stderr@)),
        call_ensures(Error::from_zfs_stderr, (cmd, told), failure),
    ensures
        good is Ok,
        good->Ok_0@ == utf8_lossy(stdout@),
        bad is Err,
        bad->Err_0@ == failure@,
        none is Err,
        none->Err_0 is ZfsBinSpawnErr,
        none->Err_0->ZfsBinSpawnErr_command@ == cmd@,
        none->Err_0->ZfsBinSpawnErr_source@ == source@,
{
}

/// A command which was refused while it was built is not run.
pub proof fn law_ready(cmd: ZfsCmd, res: Result<ZfsCmd, Error>)
    requires
        call_ensures(ZfsCmd::ready, (cmd,), res),
    ensures
        cmd.deferred is None ==> res == Ok::<ZfsCmd, Error>(cmd),
        cmd.deferred matches Some(error) ==> res == Err::<ZfsCmd, Error>(error),
{
}

} // verus!
