use zfs_backend::options::{
    can_round_up, parse_size, round_up, validate_prop_value, validate_volblocksize, ZfsPoolOpts,
    ZvolCreateOpts,
};
use zfs_backend::Error;

fn disks(disk: &str) -> Vec<String> {
    vec![disk.to_string()]
}

#[test]
fn pool_opts_parse_matrix() {
    let opts = ZfsPoolOpts::try_from_disks(&disks("tank/data")).unwrap();
    assert_eq!(opts.parent(), "tank/data");
    assert_eq!(opts.disks(), "tank/data");
    assert_eq!(opts.volblocksize(), None);
    assert_eq!(opts.quota(), None);
    assert!(opts.props().is_empty());

    let opts = ZfsPoolOpts::try_from_disks(&disks(
        "tank/data?compression=zstd&volblocksize=16k&quota=200GiB",
    ))
    .unwrap();
    assert_eq!(opts.parent(), "tank/data");
    assert_eq!(
        opts.disks(),
        "tank/data?compression=zstd&volblocksize=16k&quota=200GiB"
    );
    assert_eq!(opts.volblocksize(), Some(16 * 1024));
    assert_eq!(opts.quota(), Some(200 * 1024 * 1024 * 1024));
    assert_eq!(
        opts.props(),
        [("compression".to_string(), "zstd".to_string())]
    );

    let opts =
        ZfsPoolOpts::try_from_disks(&disks("tank?dedup=on&logbias=throughput&sync=disabled"))
            .unwrap();
    assert_eq!(opts.parent(), "tank");
    assert_eq!(
        opts.props(),
        [
            ("dedup".to_string(), "on".to_string()),
            ("logbias".to_string(), "throughput".to_string()),
            ("sync".to_string(), "disabled".to_string()),
        ]
    );

    // Errors.
    assert!(ZfsPoolOpts::try_from_disks(&[]).is_err());
    assert!(ZfsPoolOpts::try_from_disks(&["a".to_string(), "b".to_string()]).is_err());
    assert!(ZfsPoolOpts::try_from_disks(&disks("tank/data?unknown=1")).is_err());
    assert!(ZfsPoolOpts::try_from_disks(&disks("tank/data?compression")).is_err());
    assert!(ZfsPoolOpts::try_from_disks(&disks("tank/data?volblocksize=3000")).is_err());
    assert!(ZfsPoolOpts::try_from_disks(&disks("tank/data?volblocksize=256")).is_err());
    assert!(ZfsPoolOpts::try_from_disks(&disks("tank/data?volblocksize=256KiB")).is_err());
    assert!(ZfsPoolOpts::try_from_disks(&disks("/dev/sda")).is_err());
    assert!(ZfsPoolOpts::try_from_disks(&disks("aio:///dev/sda")).is_err());
    assert!(ZfsPoolOpts::try_from_disks(&disks("")).is_err());
}

#[test]
fn zvol_opts_parse_matrix() {
    let opts = ZvolCreateOpts::try_from_properties(&[]).unwrap();
    assert_eq!(opts, ZvolCreateOpts::default());

    let opts = ZvolCreateOpts::try_from_properties(&[
        ("volblocksize".to_string(), "8K".to_string()),
        ("compression".to_string(), "lz4".to_string()),
        ("sync".to_string(), "always".to_string()),
    ])
    .unwrap();
    assert_eq!(opts.volblocksize(), Some(8 * 1024));
    assert_eq!(
        opts.props(),
        [
            ("compression".to_string(), "lz4".to_string()),
            ("sync".to_string(), "always".to_string()),
        ]
    );

    // Unknown keys and invalid values must be rejected.
    assert!(
        ZvolCreateOpts::try_from_properties(&[("quota".to_string(), "1G".to_string())]).is_err()
    );
    assert!(ZvolCreateOpts::try_from_properties(&[(
        "volblocksize".to_string(),
        "12345".to_string()
    )])
    .is_err());
    assert!(ZvolCreateOpts::try_from_properties(&[(
        "compression".to_string(),
        "zstd fast".to_string()
    )])
    .is_err());
}

#[test]
fn size_parsing() {
    assert_eq!(parse_size("512").unwrap(), 512);
    assert_eq!(parse_size("16k").unwrap(), 16 * 1024);
    assert_eq!(parse_size("16K").unwrap(), 16 * 1024);
    assert_eq!(parse_size("16KiB").unwrap(), 16 * 1024);
    assert_eq!(parse_size("16KB").unwrap(), 16 * 1024);
    assert_eq!(parse_size("4m").unwrap(), 4 * 1024 * 1024);
    assert_eq!(parse_size("200GiB").unwrap(), 200 * 1024 * 1024 * 1024);
    assert_eq!(parse_size("2T").unwrap(), 2u64 << 40);
    assert!(parse_size("").is_err());
    assert!(parse_size("k").is_err());
    assert!(parse_size("1.5G").is_err());
    assert!(parse_size("16x").is_err());
}

#[test]
fn size_round_up() {
    assert_eq!(round_up(0, 16384), 0);
    assert_eq!(round_up(1, 16384), 16384);
    assert_eq!(round_up(16384, 16384), 16384);
    assert_eq!(round_up(16385, 16384), 32768);
}

fn option_error(error: &str) -> Error {
    Error::InvalidOption {
        error: error.to_string(),
    }
}

#[test]
fn size_errors() {
    assert_eq!(parse_size(" \t").unwrap_err(), option_error("empty size value"));
    let empty = "".parse::<u64>().unwrap_err();
    assert_eq!(
        parse_size("k").unwrap_err(),
        option_error(&format!("'k' is not a valid size: {empty}"))
    );
    let large = "18446744073709551616".parse::<u64>().unwrap_err();
    assert_eq!(
        parse_size("18446744073709551616").unwrap_err(),
        option_error(&format!("'18446744073709551616' is not a valid size: {large}"))
    );
    assert_eq!(
        parse_size("16x").unwrap_err(),
        option_error("'16x' has an unknown size suffix")
    );
    assert_eq!(
        parse_size("16384P").unwrap_err(),
        option_error("'16384P' overflows")
    );
    assert_eq!(parse_size("16383P").unwrap(), 16383u64 << 50);
    assert_eq!(parse_size("18446744073709551615").unwrap(), u64::MAX);
    assert_eq!(parse_size(" 2\u{3000}").unwrap(), 2);
    assert_eq!(parse_size("3piB").unwrap(), 3u64 << 50);
}

#[test]
fn size_suffixes() {
    // A unit letter, as well as plain bytes, is followed by one "iB" or "B" at most.
    for value in [
        "16KBB", "16KiBB", "16KiBiB", "16KBiB", "16Ki", "16KK", "16bK", "3BB", "3biB", "3iBB",
        "3iBiB", "3i",
    ] {
        assert_eq!(
            parse_size(value).unwrap_err(),
            option_error(&format!("'{value}' has an unknown size suffix"))
        );
    }
    for (unit, shift) in [("", 0), ("k", 10), ("m", 20), ("g", 30), ("t", 40), ("p", 50)] {
        for tail in ["", "b", "B", "ib", "iB", "Ib", "IB"] {
            assert_eq!(parse_size(&format!("3{unit}{tail}")).unwrap(), 3u64 << shift);
            let unit = unit.to_uppercase();
            assert_eq!(parse_size(&format!("3{unit}{tail}")).unwrap(), 3u64 << shift);
        }
    }
    assert_eq!(
        ZfsPoolOpts::try_from_disks(&disks("tank?quota=1GBB")).unwrap_err(),
        option_error("'1GBB' has an unknown size suffix")
    );
    assert_eq!(
        ZvolCreateOpts::try_from_properties(&[("volblocksize".to_string(), "16KBB".to_string())])
            .unwrap_err(),
        option_error("'16KBB' has an unknown size suffix")
    );
}

#[test]
fn rounding_limits() {
    assert!(!can_round_up(1, 0));
    assert!(can_round_up(u64::MAX, 1));
    assert!(!can_round_up(u64::MAX, 512));
    assert!(can_round_up(u64::MAX - 511, 512));
    assert_eq!(round_up(u64::MAX - 511, 512), u64::MAX - 511);
}

#[test]
fn block_sizes() {
    let mut valid = Vec::new();
    for shift in 0..64 {
        if validate_volblocksize(1u64 << shift).is_ok() {
            valid.push(1u64 << shift);
        }
    }
    assert_eq!(
        valid,
        vec![512, 1024, 2048, 4096, 8192, 16384, 32768, 65536, 131072]
    );
    assert_eq!(
        validate_volblocksize(0).unwrap_err(),
        option_error("volblocksize 0 must be a power of two between 512 and 131072")
    );
    assert!(validate_volblocksize(1536).is_err());
}

#[test]
fn option_errors() {
    let parse = |disk: &str| ZfsPoolOpts::try_from_disks(&disks(disk)).unwrap_err();
    assert_eq!(
        ZfsPoolOpts::try_from_disks(&[]).unwrap_err(),
        Error::InvalidDisks {
            error: "a ZFS pool requires exactly one disks entry, none given".to_string()
        }
    );
    assert_eq!(
        ZfsPoolOpts::try_from_disks(&["a".to_string(), "b".to_string()]).unwrap_err(),
        Error::InvalidDisks {
            error: "a ZFS pool requires exactly one disks entry, 2 given".to_string()
        }
    );
    assert_eq!(
        parse("tank?compression"),
        option_error("'compression' is not a key=value pair")
    );
    assert_eq!(
        parse("tank?unknown=1"),
        option_error("'unknown' is not a supported ZFS pool option")
    );
    assert_eq!(
        parse("tank?sync="),
        option_error("'' is not a valid value for 'sync'")
    );
    assert_eq!(
        validate_prop_value("sync", "a b").unwrap_err(),
        option_error("'a b' is not a valid value for 'sync'")
    );
    assert_eq!(
        ZvolCreateOpts::try_from_properties(&[("quota".to_string(), "1G".to_string())])
            .unwrap_err(),
        option_error("'quota' is not a supported ZFS replica property")
    );
    // Empty pairs are skipped, the last of two values counts, and only the first question mark
    // starts the parameters.
    let opts = ZfsPoolOpts::try_from_disks(&disks("tank?&quota=1&&quota=2k&")).unwrap();
    assert_eq!(opts.quota(), Some(2048));
    assert!(ZfsPoolOpts::try_from_disks(&disks("tank?sync=a?b")).is_err());
}

#[test]
fn options_read_from_their_own_entry() {
    let entry = "tank/data?compression=zstd&volblocksize=16k&quota=200GiB";
    let opts = ZfsPoolOpts::try_from_disks(&disks(entry)).unwrap();
    let again = ZfsPoolOpts::try_from_disks(&[opts.disks().to_string()]).unwrap();
    assert_eq!(opts, again);
}
