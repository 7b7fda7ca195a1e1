use zfs_backend::engine::{Errno, StatusCode};
use zfs_backend::Error;

fn s(text: &str) -> String {
    text.to_string()
}

#[test]
fn messages_and_codes() {
    let cases = vec![
        (
            Error::OutputParsing { command: s("zfs"), error: s("e") },
            "Failed to parse zfs output: e",
            StatusCode::Internal,
            Errno::EIO,
        ),
        (
            Error::ZfsBinErr { command: s("zfs"), error: s("e") },
            "zfs command failed: e",
            StatusCode::Internal,
            Errno::EIO,
        ),
        (
            Error::ZfsBinSpawnErr { command: s("zfs"), source: s("e") },
            "Failed to spawn/wait for zfs command: e",
            StatusCode::Internal,
            Errno::EIO,
        ),
        (
            Error::DisksMismatch { args: s("a"), pool: s("p") },
            "ZFS pool parent dataset mismatch, args:a, pool:p",
            StatusCode::InvalidArgument,
            Errno::EINVAL,
        ),
        (
            Error::UuidMismatch { args: s("a"), pool: s("p") },
            "ZFS pool uuid mismatch, args:a, pool:p",
            StatusCode::InvalidArgument,
            Errno::EINVAL,
        ),
        (
            Error::InvalidDisks { error: s("e") },
            "Invalid pool disks: e",
            StatusCode::InvalidArgument,
            Errno::EINVAL,
        ),
        (
            Error::InvalidOption { error: s("e") },
            "Invalid option: e",
            StatusCode::InvalidArgument,
            Errno::EINVAL,
        ),
        (
            Error::InvalidName { name: s("n"), error: s("e") },
            "Invalid dataset name 'n': e",
            StatusCode::InvalidArgument,
            Errno::EINVAL,
        ),
        (
            Error::InvalidPropertyValue { key: s("k"), error: s("e") },
            "Invalid value for property 'k': e",
            StatusCode::InvalidArgument,
            Errno::EINVAL,
        ),
        (
            Error::NotFound { query: s("q") },
            "ZFS pool q not found",
            StatusCode::NotFound,
            Errno::ENOENT,
        ),
        (
            Error::VolNotFound { query: s("q") },
            "ZFS volume with q not found",
            StatusCode::NotFound,
            Errno::ENOENT,
        ),
        (
            Error::SnapNotFound { query: s("q") },
            "ZFS snapshot with q not found",
            StatusCode::NotFound,
            Errno::ENOENT,
        ),
        (
            Error::ForeignDatasets { datasets: vec![s("a"), s("b")] },
            "ZFS pool contains foreign datasets: [\"a\", \"b\"]",
            StatusCode::FailedPrecondition,
            Errno::EBUSY,
        ),
        (
            Error::DeviceWait { path: s("/dev/x") },
            "Timed out waiting for the zvol device /dev/x to appear",
            StatusCode::Internal,
            Errno::ETIMEDOUT,
        ),
        (
            Error::ReactorSpawn,
            "Failed to spawn reactor task",
            StatusCode::Internal,
            Errno::EXFULL,
        ),
        (
            Error::ReactorSpawnChannel,
            "Failed to collect result of reactor spawn",
            StatusCode::Internal,
            Errno::EPIPE,
        ),
        (
            Error::BdevImport { source: s("e") },
            "Failed to import the zvol as an spdk bdev: e",
            StatusCode::Internal,
            Errno::EIO,
        ),
        (
            Error::BdevExport { source: s("e") },
            "Failed to export the zvol's spdk bdev: e",
            StatusCode::Internal,
            Errno::EIO,
        ),
        (Error::BdevShare { source: s("e") }, "e", StatusCode::Internal, Errno::EFAULT),
        (
            Error::BdevShareUri,
            "Bdev is shared but no uri is found",
            StatusCode::Internal,
            Errno::EFAULT,
        ),
        (Error::BdevUnshare { source: s("e") }, "e", StatusCode::Internal, Errno::EFAULT),
        (
            Error::BdevMissing,
            "Bdev cannot be found after successful creation",
            StatusCode::Internal,
            Errno::ENODEV,
        ),
        (
            Error::UpdateProps { source: s("e"), name: s("n") },
            "Failed to update bdev's n properties: e",
            StatusCode::Internal,
            Errno::EIO,
        ),
        (Error::NoSpace { error: s("e") }, "e", StatusCode::ResourceExhausted, Errno::ENOSPC),
        (Error::Exists { error: s("e") }, "e", StatusCode::AlreadyExists, Errno::EEXIST),
        (Error::HasClones { error: s("e") }, "e", StatusCode::FailedPrecondition, Errno::EBUSY),
        (
            Error::HasLiveSnapshots { volume: s("v") },
            "Volume v has live snapshots and cannot be destroyed",
            StatusCode::FailedPrecondition,
            Errno::EBUSY,
        ),
        (
            Error::ShrinkNotSup { volume: s("v") },
            "Cannot shrink volume v",
            StatusCode::FailedPrecondition,
            Errno::ENOTSUP,
        ),
        (
            Error::GrowNotSup,
            "Pool expansion is not currently supported for ZFS pools",
            StatusCode::FailedPrecondition,
            Errno::ENOTSUP,
        ),
        (
            Error::EncryptionNotSup,
            "Encryption is not currently supported for ZFS pools",
            StatusCode::FailedPrecondition,
            Errno::ENOTSUP,
        ),
        (Error::Internal { error: s("e") }, "e", StatusCode::Internal, Errno::EPIPE),
    ];
    for (error, message, code, errno) in cases {
        assert_eq!(error.message(), message);
        let status = error.status();
        assert_eq!(status.code, code, "{message}");
        assert_eq!(status.message, message);
        assert_eq!(error.to_errno(), errno, "{message}");
        let failed: Result<(), Error> = error.clone().fail();
        assert_eq!(failed, Err(error));
    }
}

#[test]
fn foreign_datasets_are_escaped() {
    let datasets = vec![s("a\"b"), s("tab\t"), s("é"), s("back\\slash")];
    let error = Error::ForeignDatasets { datasets: datasets.clone() };
    assert_eq!(
        error.message(),
        format!("ZFS pool contains foreign datasets: {datasets:?}")
    );
    assert_eq!(
        Error::ForeignDatasets { datasets: vec![] }.message(),
        "ZFS pool contains foreign datasets: []"
    );
}

#[test]
fn failures_are_classified() {
    let class = |text: &str| Error::from_zfs_stderr("zfs", s(text));
    assert_eq!(
        class("cannot open 'x': dataset does not exist"),
        Error::NotFound { query: s("cannot open 'x': dataset does not exist") }
    );
    assert_eq!(
        class("Dataset ALREADY Exists"),
        Error::Exists { error: s("Dataset ALREADY Exists") }
    );
    for text in ["out of space", "No Space left", "Quota exceeded"] {
        assert_eq!(class(text), Error::NoSpace { error: s(text) });
    }
    assert_eq!(
        class("filesystem has dependent clones"),
        Error::HasClones { error: s("filesystem has dependent clones") }
    );
    assert_eq!(
        class("boom"),
        Error::ZfsBinErr { command: s("zfs"), error: s("boom") }
    );
    // The first of the known texts counts.
    assert!(matches!(class("already exists, does not exist"), Error::NotFound { .. }));
    // The lower case of text beyond ASCII: a capital letter whose lower case is an ASCII letter.
    assert!(matches!(class("out of \u{17f}pace"), Error::ZfsBinErr { .. }));
    assert!(matches!(class("\u{212a}: quota exceeded"), Error::NoSpace { .. }));
    assert!(matches!(
        Error::classify("zfs", s("X"), "no space"),
        Error::NoSpace { .. }
    ));
}
