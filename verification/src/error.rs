//! The errors of the backend.
use vstd::prelude::*;
use vstd::utf8::is_ascii_chars;
use crate::engine::{Errno, Status, StatusCode};
use crate::outside::{debug_list, format_debug, lowercase, to_lowercase};
use crate::text::chars::{ascii_lower, texts};
use crate::text::search::{contains, contains_text};

verus! {

/// Errors which can be encountered whilst using the backend. Failures of the engine are carried as
/// the text that describes them.
#[derive(Debug, Clone, PartialEq, Eq)]
pub enum Error {
    OutputParsing { command: String, error: String },
    ZfsBinErr { command: String, error: String },
    ZfsBinSpawnErr { command: String, source: String },
    DisksMismatch { args: String, pool: String },
    UuidMismatch { args: String, pool: String },
    InvalidDisks { error: String },
    InvalidOption { error: String },
    InvalidName { name: String, error: String },
    InvalidPropertyValue { key: String, error: String },
    NotFound { query: String },
    VolNotFound { query: String },
    SnapNotFound { query: String },
    ForeignDatasets { datasets: Vec<String> },
    DeviceWait { path: String },
    ReactorSpawn,
    ReactorSpawnChannel,
    BdevImport { source: String },
    BdevExport { source: String },
    BdevShare { source: String },
    BdevShareUri,
    BdevUnshare { source: String },
    BdevMissing,
    UpdateProps { source: String, name: String },
    NoSpace { error: String },
    Exists { error: String },
    HasClones { error: String },
    HasLiveSnapshots { volume: String },
    ShrinkNotSup { volume: String },
    GrowNotSup,
    EncryptionNotSup,
    Internal { error: String },
}

/// The mathematical view of an error.
#[verifier::ext_equal]
pub enum ErrorView {
    OutputParsing { command: Seq<char>, error: Seq<char> },
    ZfsBinErr { command: Seq<char>, error: Seq<char> },
    ZfsBinSpawnErr { command: Seq<char>, source: Seq<char> },
    DisksMismatch { args: Seq<char>, pool: Seq<char> },
    UuidMismatch { args: Seq<char>, pool: Seq<char> },
    InvalidDisks { error: Seq<char> },
    InvalidOption { error: Seq<char> },
    InvalidName { name: Seq<char>, error: Seq<char> },
    InvalidPropertyValue { key: Seq<char>, error: Seq<char> },
    NotFound { query: Seq<char> },
    VolNotFound { query: Seq<char> },
    SnapNotFound { query: Seq<char> },
    ForeignDatasets { datasets: Seq<Seq<char>> },
    DeviceWait { path: Seq<char> },
    ReactorSpawn,
    ReactorSpawnChannel,
    BdevImport { source: Seq<char> },
    BdevExport { source: Seq<char> },
    BdevShare { source: Seq<char> },
    BdevShareUri,
    BdevUnshare { source: Seq<char> },
    BdevMissing,
    UpdateProps { source: Seq<char>, name: Seq<char> },
    NoSpace { error: Seq<char> },
    Exists { error: Seq<char> },
    HasClones { error: Seq<char> },
    HasLiveSnapshots { volume: Seq<char> },
    ShrinkNotSup { volume: Seq<char> },
    GrowNotSup,
    EncryptionNotSup,
    Internal { error: Seq<char> },
}

impl View for Error {
    type V = ErrorView;

    open spec fn view(&self) -> ErrorView {
        match self {
            Error::OutputParsing { command, error } => ErrorView::OutputParsing { command: command@, error: error@ },
            Error::ZfsBinErr { command, error } => ErrorView::ZfsBinErr { command: command@, error: error@ },
            Error::ZfsBinSpawnErr { command, source } => ErrorView::ZfsBinSpawnErr { command: command@, source: source@ },
            Error::DisksMismatch { args, pool } => ErrorView::DisksMismatch { args: args@, pool: pool@ },
            Error::UuidMismatch { args, pool } => ErrorView::UuidMismatch { args: args@, pool: pool@ },
            Error::InvalidDisks { error } => ErrorView::InvalidDisks { error: error@ },
            Error::InvalidOption { error } => ErrorView::InvalidOption { error: error@ },
            Error::InvalidName { name, error } => ErrorView::InvalidName { name: name@, error: error@ },
            Error::InvalidPropertyValue { key, error } => ErrorView::InvalidPropertyValue { key: key@, error: error@ },
            Error::NotFound { query } => ErrorView::NotFound { query: query@ },
            Error::VolNotFound { query } => ErrorView::VolNotFound { query: query@ },
            Error::SnapNotFound { query } => ErrorView::SnapNotFound { query: query@ },
            Error::ForeignDatasets { datasets } => ErrorView::ForeignDatasets { datasets: texts(datasets@) },
            Error::DeviceWait { path } => ErrorView::DeviceWait { path: path@ },
            Error::ReactorSpawn => ErrorView::ReactorSpawn,
            Error::ReactorSpawnChannel => ErrorView::ReactorSpawnChannel,
            Error::BdevImport { source } => ErrorView::BdevImport { source: source@ },
            Error::BdevExport { source } => ErrorView::BdevExport { source: source@ },
            Error::BdevShare { source } => ErrorView::BdevShare { source: source@ },
            Error::BdevShareUri => ErrorView::BdevShareUri,
            Error::BdevUnshare { source } => ErrorView::BdevUnshare { source: source@ },
            Error::BdevMissing => ErrorView::BdevMissing,
            Error::UpdateProps { source, name } => ErrorView::UpdateProps { source: source@, name: name@ },
            Error::NoSpace { error } => ErrorView::NoSpace { error: error@ },
            Error::Exists { error } => ErrorView::Exists { error: error@ },
            Error::HasClones { error } => ErrorView::HasClones { error: error@ },
            Error::HasLiveSnapshots { volume } => ErrorView::HasLiveSnapshots { volume: volume@ },
            Error::ShrinkNotSup { volume } => ErrorView::ShrinkNotSup { volume: volume@ },
            Error::GrowNotSup => ErrorView::GrowNotSup,
            Error::EncryptionNotSup => ErrorView::EncryptionNotSup,
            Error::Internal { error } => ErrorView::Internal { error: error@ },
        }
    }
}

/// The view of a result.
pub open spec fn result_view<T>(res: Result<T, Error>) -> Result<T, ErrorView> {
    match res {
        Ok(value) => Ok(value),
        Err(error) => Err(error@),
    }
}

impl ErrorView {
    /// The message of the error.
    pub open spec fn message(self) -> Seq<char> {
        match self {
            ErrorView::OutputParsing { command, error } => "Failed to parse "@ + command + " output: "@ + error,
            ErrorView::ZfsBinErr { command, error } => command + " command failed: "@ + error,
            ErrorView::ZfsBinSpawnErr { command, source } => "Failed to spawn/wait for "@ + command + " command: "@ + source,
            ErrorView::DisksMismatch { args, pool } => "ZFS pool parent dataset mismatch, args:"@ + args + ", pool:"@ + pool,
            ErrorView::UuidMismatch { args, pool } => "ZFS pool uuid mismatch, args:"@ + args + ", pool:"@ + pool,
            ErrorView::InvalidDisks { error } => "Invalid pool disks: "@ + error,
            ErrorView::InvalidOption { error } => "Invalid option: "@ + error,
            ErrorView::InvalidName { name, error } => "Invalid dataset name '"@ + name + "': "@ + error,
            ErrorView::InvalidPropertyValue { key, error } => "Invalid value for property '"@ + key + "': "@ + error,
            ErrorView::NotFound { query } => "ZFS pool "@ + query + " not found"@,
            ErrorView::VolNotFound { query } => "ZFS volume with "@ + query + " not found"@,
            ErrorView::SnapNotFound { query } => "ZFS snapshot with "@ + query + " not found"@,
            ErrorView::ForeignDatasets { datasets } => "ZFS pool contains foreign datasets: "@ + debug_list(datasets),
            ErrorView::DeviceWait { path } => "Timed out waiting for the zvol device "@ + path + " to appear"@,
            ErrorView::ReactorSpawn => "Failed to spawn reactor task"@,
            ErrorView::ReactorSpawnChannel => "Failed to collect result of reactor spawn"@,
            ErrorView::BdevImport { source } => "Failed to import the zvol as an spdk bdev: "@ + source,
            ErrorView::BdevExport { source } => "Failed to export the zvol's spdk bdev: "@ + source,
            ErrorView::BdevShare { source } => source,
            ErrorView::BdevShareUri => "Bdev is shared but no uri is found"@,
            ErrorView::BdevUnshare { source } => source,
            ErrorView::BdevMissing => "Bdev cannot be found after successful creation"@,
            ErrorView::UpdateProps { source, name } => "Failed to update bdev's "@ + name + " properties: "@ + source,
            ErrorView::NoSpace { error } => error,
            ErrorView::Exists { error } => error,
            ErrorView::HasClones { error } => error,
            ErrorView::HasLiveSnapshots { volume } => "Volume "@ + volume + " has live snapshots and cannot be destroyed"@,
            ErrorView::ShrinkNotSup { volume } => "Cannot shrink volume "@ + volume,
            ErrorView::GrowNotSup => "Pool expansion is not currently supported for ZFS pools"@,
            ErrorView::EncryptionNotSup => "Encryption is not currently supported for ZFS pools"@,
            ErrorView::Internal { error } => error,
        }
    }

    /// The code under which the error is reported to a remote caller.
    pub open spec fn status_code(self) -> StatusCode {
        match self {
            ErrorView::DisksMismatch { .. }
            | ErrorView::UuidMismatch { .. }
            | ErrorView::InvalidDisks { .. }
            | ErrorView::InvalidOption { .. }
            | ErrorView::InvalidName { .. }
            | ErrorView::InvalidPropertyValue { .. } => StatusCode::InvalidArgument,
            ErrorView::NotFound { .. }
            | ErrorView::VolNotFound { .. }
            | ErrorView::SnapNotFound { .. } => StatusCode::NotFound,
            ErrorView::ForeignDatasets { .. }
            | ErrorView::HasClones { .. }
            | ErrorView::HasLiveSnapshots { .. }
            | ErrorView::ShrinkNotSup { .. }
            | ErrorView::GrowNotSup
            | ErrorView::EncryptionNotSup => StatusCode::FailedPrecondition,
            ErrorView::NoSpace { .. } => StatusCode::ResourceExhausted,
            ErrorView::Exists { .. } => StatusCode::AlreadyExists,
            _ => StatusCode::Internal,
        }
    }

    /// The system error number of the error.
    pub open spec fn errno(self) -> Errno {
        match self {
            ErrorView::OutputParsing { .. } => Errno::EIO,
            ErrorView::ZfsBinErr { .. } => Errno::EIO,
            ErrorView::ZfsBinSpawnErr { .. } => Errno::EIO,
            ErrorView::DisksMismatch { .. } => Errno::EINVAL,
            ErrorView::UuidMismatch { .. } => Errno::EINVAL,
            ErrorView::InvalidDisks { .. } => Errno::EINVAL,
            ErrorView::InvalidOption { .. } => Errno::EINVAL,
            ErrorView::InvalidName { .. } => Errno::EINVAL,
            ErrorView::InvalidPropertyValue { .. } => Errno::EINVAL,
            ErrorView::NotFound { .. } => Errno::ENOENT,
            ErrorView::VolNotFound { .. } => Errno::ENOENT,
            ErrorView::SnapNotFound { .. } => Errno::ENOENT,
            ErrorView::ForeignDatasets { .. } => Errno::EBUSY,
            ErrorView::DeviceWait { .. } => Errno::ETIMEDOUT,
            ErrorView::ReactorSpawn => Errno::EXFULL,
            ErrorView::ReactorSpawnChannel => Errno::EPIPE,
            ErrorView::BdevImport { .. } => Errno::EIO,
            ErrorView::BdevExport { .. } => Errno::EIO,
            ErrorView::BdevShare { .. } => Errno::EFAULT,
            ErrorView::BdevShareUri => Errno::EFAULT,
            ErrorView::BdevUnshare { .. } => Errno::EFAULT,
            ErrorView::BdevMissing => Errno::ENODEV,
            ErrorView::UpdateProps { .. } => Errno::EIO,
            ErrorView::NoSpace { .. } => Errno::ENOSPC,
            ErrorView::Exists { .. } => Errno::EEXIST,
            ErrorView::HasClones { .. } => Errno::EBUSY,
            ErrorView::HasLiveSnapshots { .. } => Errno::EBUSY,
            ErrorView::ShrinkNotSup { .. } => Errno::ENOTSUP,
            ErrorView::GrowNotSup => Errno::ENOTSUP,
            ErrorView::EncryptionNotSup => Errno::ENOTSUP,
            ErrorView::Internal { .. } => Errno::EPIPE,
        }
    }
}

/// The error that a failed command stands for, given its error output and that output in lower
/// case.
pub open spec fn classified(command: Seq<char>, error: Seq<char>, lower: Seq<char>) -> ErrorView {
    if contains_text(lower, "does not exist"@) {
        ErrorView::NotFound { query: error }
    } else if contains_text(lower, "already exists"@) {
        ErrorView::Exists { error }
    } else if contains_text(lower, "out of space"@) || contains_text(lower, "no space"@)
        || contains_text(lower, "quota exceeded"@) {
        ErrorView::NoSpace { error }
    } else if contains_text(lower, "has dependent clones"@) {
        ErrorView::HasClones { error }
    } else {
        ErrorView::ZfsBinErr { command, error }
    }
}

impl Error {
    /// Fails with the error.
    pub fn fail<T>(self) -> (res: Result<T, Self>)
        ensures
            res == Err::<T, Self>(self),
    {
        Err(self)
    }

    /// Map a zfs binary failure to a more specific error, based on well known error output,
    /// falling back to `Error::ZfsBinErr`.
    pub fn from_zfs_stderr(command: &str, error: String) -> (res: Self)
        ensures
            res@ == classified(command@, error@, lowercase(error@)),
            is_ascii_chars(error@) ==> res@ == classified(command@, error@, ascii_lower(error@)),
    {
        let lower = to_lowercase(error.as_str());
        Self::classify(command, error, lower.as_str())
    }

    /// Map a zfs binary failure to a more specific error, given its error output in lower case.
    pub fn classify(command: &str, error: String, lower: &str) -> (res: Self)
        ensures
            res@ == classified(command@, error@, lower@),
    {
        if contains(lower, "does not exist") {
            Error::NotFound { query: error }
        } else if contains(lower, "already exists") {
            Error::Exists { error }
        } else if contains(lower, "out of space") || contains(lower, "no space") || contains(
            lower,
            "quota exceeded",
        ) {
            Error::NoSpace { error }
        } else if contains(lower, "has dependent clones") {
            Error::HasClones { error }
        } else {
            Error::ZfsBinErr { command: command.to_owned(), error }
        }
    }

    /// The message of the error.
    pub fn message(&self) -> (res: String)
        ensures
            res@ == self@.message(),
    {
        match self {
            Error::OutputParsing { command, error } => "Failed to parse ".to_owned().concat(command.as_str()).concat(" output: ").concat(error.as_str()),
            Error::ZfsBinErr { command, error } => command.clone().concat(" command failed: ").concat(error.as_str()),
            Error::ZfsBinSpawnErr { command, source } => "Failed to spawn/wait for ".to_owned().concat(command.as_str()).concat(" command: ").concat(source.as_str()),
            Error::DisksMismatch { args, pool } => "ZFS pool parent dataset mismatch, args:".to_owned().concat(args.as_str()).concat(", pool:").concat(pool.as_str()),
            Error::UuidMismatch { args, pool } => "ZFS pool uuid mismatch, args:".to_owned().concat(args.as_str()).concat(", pool:").concat(pool.as_str()),
            Error::InvalidDisks { error } => "Invalid pool disks: ".to_owned().concat(error.as_str()),
            Error::InvalidOption { error } => "Invalid option: ".to_owned().concat(error.as_str()),
            Error::InvalidName { name, error } => "Invalid dataset name '".to_owned().concat(name.as_str()).concat("': ").concat(error.as_str()),
            Error::InvalidPropertyValue { key, error } => "Invalid value for property '".to_owned().concat(key.as_str()).concat("': ").concat(error.as_str()),
            Error::NotFound { query } => "ZFS pool ".to_owned().concat(query.as_str()).concat(" not found"),
            Error::VolNotFound { query } => "ZFS volume with ".to_owned().concat(query.as_str()).concat(" not found"),
            Error::SnapNotFound { query } => "ZFS snapshot with ".to_owned().concat(query.as_str()).concat(" not found"),
            Error::ForeignDatasets { datasets } => "ZFS pool contains foreign datasets: ".to_owned().concat(format_debug(datasets).as_str()),
            Error::DeviceWait { path } => "Timed out waiting for the zvol device ".to_owned().concat(path.as_str()).concat(" to appear"),
            Error::ReactorSpawn => "Failed to spawn reactor task".to_owned(),
            Error::ReactorSpawnChannel => "Failed to collect result of reactor spawn".to_owned(),
            Error::BdevImport { source } => "Failed to import the zvol as an spdk bdev: ".to_owned().concat(source.as_str()),
            Error::BdevExport { source } => "Failed to export the zvol's spdk bdev: ".to_owned().concat(source.as_str()),
            Error::BdevShare { source } => source.clone(),
            Error::BdevShareUri => "Bdev is shared but no uri is found".to_owned(),
            Error::BdevUnshare { source } => source.clone(),
            Error::BdevMissing => "Bdev cannot be found after successful creation".to_owned(),
            Error::UpdateProps { source, name } => "Failed to update bdev's ".to_owned().concat(name.as_str()).concat(" properties: ").concat(source.as_str()),
            Error::NoSpace { error } => error.clone(),
            Error::Exists { error } => error.clone(),
            Error::HasClones { error } => error.clone(),
            Error::HasLiveSnapshots { volume } => "Volume ".to_owned().concat(volume.as_str()).concat(" has live snapshots and cannot be destroyed"),
            Error::ShrinkNotSup { volume } => "Cannot shrink volume ".to_owned().concat(volume.as_str()),
            Error::GrowNotSup => "Pool expansion is not currently supported for ZFS pools".to_owned(),
            Error::EncryptionNotSup => "Encryption is not currently supported for ZFS pools".to_owned(),
            Error::Internal { error } => error.clone(),
        }
    }

    /// The status under which the error is reported to a remote caller.
    pub fn status(&self) -> (res: Status)
        ensures
            res.code == self@.status_code(),
            res.message@ == self@.message(),
    {
        let code = match self {
            Error::DisksMismatch { .. }
            | Error::UuidMismatch { .. }
            | Error::InvalidDisks { .. }
            | Error::InvalidOption { .. }
            | Error::InvalidName { .. }
            | Error::InvalidPropertyValue { .. } => StatusCode::InvalidArgument,
            Error::NotFound { .. }
            | Error::VolNotFound { .. }
            | Error::SnapNotFound { .. } => StatusCode::NotFound,
            Error::ForeignDatasets { .. }
            | Error::HasClones { .. }
            | Error::HasLiveSnapshots { .. }
            | Error::ShrinkNotSup { .. }
            | Error::GrowNotSup
            | Error::EncryptionNotSup => StatusCode::FailedPrecondition,
            Error::NoSpace { .. } => StatusCode::ResourceExhausted,
            Error::Exists { .. } => StatusCode::AlreadyExists,
            _ => StatusCode::Internal,
        };
        Status { code, message: self.message() }
    }

    /// The system error number of the error.
    pub fn to_errno(&self) -> (res: Errno)
        ensures
            res == self@.errno(),
    {
        match self {
            Error::OutputParsing { .. } => Errno::EIO,
            Error::ZfsBinErr { .. } => Errno::EIO,
            Error::ZfsBinSpawnErr { .. } => Errno::EIO,
            Error::DisksMismatch { .. } => Errno::EINVAL,
            Error::UuidMismatch { .. } => Errno::EINVAL,
            Error::InvalidDisks { .. } => Errno::EINVAL,
            Error::InvalidOption { .. } => Errno::EINVAL,
            Error::InvalidName { .. } => Errno::EINVAL,
            Error::InvalidPropertyValue { .. } => Errno::EINVAL,
            Error::NotFound { .. } => Errno::ENOENT,
            Error::VolNotFound { .. } => Errno::ENOENT,
            Error::SnapNotFound { .. } => Errno::ENOENT,
            Error::ForeignDatasets { .. } => Errno::EBUSY,
            Error::DeviceWait { .. } => Errno::ETIMEDOUT,
            Error::ReactorSpawn => Errno::EXFULL,
            Error::ReactorSpawnChannel => Errno::EPIPE,
            Error::BdevImport { .. } => Errno::EIO,
            Error::BdevExport { .. } => Errno::EIO,
            Error::BdevShare { .. } => Errno::EFAULT,
            Error::BdevShareUri => Errno::EFAULT,
            Error::BdevUnshare { .. } => Errno::EFAULT,
            Error::BdevMissing => Errno::ENODEV,
            Error::UpdateProps { .. } => Errno::EIO,
            Error::NoSpace { .. } => Errno::ENOSPC,
            Error::Exists { .. } => Errno::EEXIST,
            Error::HasClones { .. } => Errno::EBUSY,
            Error::HasLiveSnapshots { .. } => Errno::EBUSY,
            Error::ShrinkNotSup { .. } => Errno::ENOTSUP,
            Error::GrowNotSup => Errno::ENOTSUP,
            Error::EncryptionNotSup => Errno::ENOTSUP,
            Error::Internal { .. } => Errno::EPIPE,
        }
    }
}

} // verus!
