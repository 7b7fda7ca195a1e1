use zfs_backend::engine::Protocol;
use zfs_backend::property::{protocol_from, protocol_str, Property, PropertyType};

#[test]
fn property_round_trip() {
    let props = vec![
        Property::PoolUuid("11ec0357-7a54-4837-b655-38a410f4f75e".to_string()),
        Property::PoolDisks("tank/data?compression=zstd".to_string()),
        Property::PoolVolBlockSize(16384),
        Property::VolUuid("22ec0357-7a54-4837-b655-38a410f4f75e".to_string()),
        Property::Name("replica-1".to_string()),
        Property::Share(Protocol::Nvmf),
        Property::AllowedHosts(vec!["nqn-1".to_string(), "nqn-2".to_string()]),
        Property::EntityId("volume-1".to_string()),
        Property::SnapshotUuid("33ec0357-7a54-4837-b655-38a410f4f75e".to_string()),
        Property::ParentId("44ec0357-7a54-4837-b655-38a410f4f75e".to_string()),
        Property::TxnId("1".to_string()),
        Property::CreateTime("2026-01-01T00:00:00Z".to_string()),
        Property::Discarded(true),
    ];
    for prop in props {
        let key = prop.key().to_string();
        let value = prop.value().unwrap();
        assert_eq!(Property::from_kv(&key, &value), prop);
        assert_eq!(Property::new(&prop.set_arg()), prop);
    }
}

#[test]
fn property_unknown() {
    assert_eq!(
        Property::from_kv("io.unknown:key", "value"),
        Property::Unknown("io.unknown:key".to_string(), "value".to_string())
    );
    assert_eq!(
        Property::new("io.mayastor:share=off"),
        Property::Share(Protocol::Off)
    );
    assert_eq!(
        Property::new("io.mayastor:share=nvmf"),
        Property::Share(Protocol::Nvmf)
    );
}

#[test]
fn property_args() {
    let prop = Property::VolUuid("uuid-1".to_string());
    assert_eq!(prop.set_arg(), "io.mayastor:uuid=uuid-1");
    assert_eq!(
        prop.create_arg(),
        ["-o".to_string(), "io.mayastor:uuid=uuid-1".to_string()]
    );
    assert_eq!(prop.inherit_arg(), "io.mayastor:uuid");
    assert_eq!(
        Property::Discarded(false).set_arg(),
        "io.mayastor:discarded=false"
    );
}

#[test]
fn property_edges() {
    // Only the first equals sign separates the value.
    assert_eq!(
        Property::new("io.mayastor:name=a=b"),
        Property::Name("a=b".to_string())
    );
    assert_eq!(
        Property::new("io.mayastor:volblocksize=16k"),
        Property::Unknown("io.mayastor:volblocksize".to_string(), "16k".to_string())
    );
    assert_eq!(Property::new("io.mayastor"), Property::Zfs);
    assert_eq!(Property::Zfs.value(), None);
    assert_eq!(Property::Zfs.set_arg(), "io.mayastor");
    // Empty hosts are dropped, so such a list does not come back as it was.
    assert_eq!(
        Property::new("io.mayastor:allowed_hosts=a,,b,"),
        Property::AllowedHosts(vec!["a".to_string(), "b".to_string()])
    );
    assert_eq!(
        Property::from_kv("io.mayastor:discarded", "on"),
        Property::Discarded(true)
    );
    assert_eq!(
        Property::from_kv("io.mayastor:discarded", "yes"),
        Property::Discarded(false)
    );
    assert_eq!(protocol_from("other"), Protocol::Off);
    assert_eq!(protocol_str(&Protocol::Nvmf), "nvmf");
    assert_eq!(
        PropertyType::from_key("io.mayastor:txn_id"),
        Some(PropertyType::TxnId)
    );
    assert_eq!(PropertyType::from_key("io.mayastor:"), None);
}
