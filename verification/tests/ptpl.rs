use std::path::PathBuf;
use zfs_backend::ptpl::{ZfsPoolPtpl, ZvolPtpl};

#[test]
fn pool_paths() {
    for name in ["p1", "", "/abs", "a/b", ".", ".."] {
        assert_eq!(
            PathBuf::from(ZfsPoolPtpl::new(name).subpath()).into_os_string(),
            PathBuf::from("pool/zfs/").join(name).into_os_string()
        );
    }
    assert_eq!(ZfsPoolPtpl::new("p1").subpath(), "pool/zfs/p1");
}

#[test]
fn replica_paths() {
    let names = [
        "r1", "", ".", "..", "a.b", ".hidden", ".a.b", "a.", "a..", "/abs", "/abs.x/", "a/b.c", "a/.",
        "a/./", "a//", "x.y/.", "a/..", "...",
    ];
    for pool in ["p1", "", "/", "/p", "p.q"] {
        for uuid in names {
            let expected = PathBuf::from("pool/zfs/")
                .join(pool)
                .join("vol/")
                .join(uuid)
                .with_extension("json");
            assert_eq!(
                PathBuf::from(ZvolPtpl::new(pool, uuid).subpath()).into_os_string(),
                expected.into_os_string(),
                "{pool:?} {uuid:?}"
            );
        }
    }
    let ptpl = ZvolPtpl::new("p1", "r1");
    assert_eq!(ptpl.subpath(), "pool/zfs/p1/vol/r1.json");
    assert_eq!(ptpl.uuid(), "r1");
    assert_eq!(ptpl.pool().subpath(), "pool/zfs/p1");
    assert_eq!(ptpl.copy().subpath(), "pool/zfs/p1/vol/r1.json");
}
