use zfs_backend::cli::{
    parse_pairs, parse_props, parse_rows, CmdOutput, PropSource, ZfsCmd, ZfsQueryArgs,
};
use zfs_backend::property::Property;
use zfs_backend::Error;

#[test]
fn cmd_argv_building() {
    let cmd = ZfsCmd::zfs("create")
        .arg_if(true, "-s")
        .args(&["-V", "1073741824", "-b", "16384"])
        .prop(Property::VolUuid("uuid-1".to_string()))
        .prop_if(false, Property::EntityId("e-1".to_string()))
        .arg("tank/data/pool-1/uuid-1");
    assert_eq!(
        cmd.argv(),
        vec![
            "zfs",
            "create",
            "-s",
            "-V",
            "1073741824",
            "-b",
            "16384",
            "-o",
            "io.mayastor:uuid=uuid-1",
            "tank/data/pool-1/uuid-1",
        ]
    );

    let cmd = ZfsCmd::zpool_get()
        .args(&["-Hp", "-o", "name,value", "size"])
        .arg("tank");
    assert_eq!(
        cmd.argv(),
        vec!["zpool", "get", "-Hp", "-o", "name,value", "size", "tank"]
    );
}

#[test]
fn prop_source_parsing() {
    assert_eq!(PropSource::parse("local"), PropSource::Local);
    assert_eq!(PropSource::parse("default"), PropSource::Default);
    assert_eq!(PropSource::parse("received"), PropSource::Received);
    assert_eq!(
        PropSource::parse("inherited from tank/data"),
        PropSource::Inherited
    );
    assert_eq!(PropSource::parse("-"), PropSource::Unset);
    assert_eq!(PropSource::parse("none"), PropSource::Unset);
}

#[test]
fn ds_props_local_vs_inherited() {
    let output = "tank/data/p1\tio.mayastor:pool\t11ec0357\tlocal\n\
                  tank/data/p1\tused\t2048\t-\n\
                  tank/data/p1/r1\tio.mayastor:pool\t11ec0357\tinherited from tank/data/p1\n\
                  tank/data/p1/r1\tio.mayastor:uuid\tr1-uuid\tlocal\n\
                  tank/data/p1/r1\tvolsize\t1073741824\tlocal\n\
                  tank/data/p1/r1\torigin\t-\t-\n";
    let props = parse_props("zfs", output).unwrap();
    assert_eq!(props.len(), 2);

    let pool = &props[0];
    assert_eq!(pool.name(), "tank/data/p1");
    assert_eq!(pool.local("io.mayastor:pool"), Some("11ec0357"));
    assert_eq!(pool.u64("used"), Some(2048));

    let vol = &props[1];
    assert_eq!(vol.name(), "tank/data/p1/r1");
    // The pool uuid is visible as a value but is not local.
    assert_eq!(vol.value("io.mayastor:pool"), Some("11ec0357"));
    assert_eq!(vol.local("io.mayastor:pool"), None);
    assert_eq!(vol.local("io.mayastor:uuid"), Some("r1-uuid"));
    assert_eq!(vol.u64("volsize"), Some(1073741824));
    // Unset native properties ("-") yield None.
    assert_eq!(vol.value("origin"), None);
    assert_eq!(vol.value("missing"), None);
}

#[test]
fn rows_parsing() {
    let rows = parse_rows("zfs", "a\tb\nc\td\n", 2).unwrap();
    assert_eq!(rows, vec![vec!["a", "b"], vec!["c", "d"]]);
    assert!(parse_rows("zfs", "a\tb\tc\n", 2).is_err());
    assert!(parse_rows("zfs", "", 2).unwrap().is_empty());
}

#[test]
fn prop_rejects_control_characters() {
    // A tab, newline or other control character in a free-form value would corrupt the -Hp output
    // parser, so it is rejected before the command is run.
    for bad in ["foo\tbar", "foo\nbar", "foo\rbar"] {
        let cmd = ZfsCmd::zfs("create").prop(Property::Name(bad.to_string()));
        assert!(
            matches!(cmd.ready(), Err(Error::InvalidPropertyValue { .. })),
            "value {:?} must be rejected",
            bad
        );
    }
    // The first offending property short-circuits the whole command.
    let cmd = ZfsCmd::zfs("create")
        .prop(Property::EntityId("bad\nid".to_string()))
        .prop(Property::Name("good".to_string()));
    assert!(matches!(
        cmd.ready(),
        Err(Error::InvalidPropertyValue { .. })
    ));
}

#[test]
fn prop_accepts_ordinary_values() {
    // A well-formed value is not deferred: it is placed on the argv.
    let cmd = ZfsCmd::zfs("create").prop(Property::Name("replica-1".to_string()));
    assert!(cmd.deferred.is_none());
    assert!(cmd
        .argv()
        .contains(&"io.mayastor:name=replica-1".to_string()));
}

#[test]
fn refused_values_name_the_property_and_the_character() {
    let cmd = ZfsCmd::zfs("set").set_prop(&Property::Name("a\tb".to_string()));
    assert_eq!(
        cmd.ready().unwrap_err(),
        Error::InvalidPropertyValue {
            key: "io.mayastor:name".to_string(),
            error: "value contains a control character (0x09)".to_string(),
        }
    );
    let cmd = ZfsCmd::zfs("set").set_prop(&Property::Name("\u{9f}".to_string()));
    assert_eq!(
        cmd.ready().unwrap_err(),
        Error::InvalidPropertyValue {
            key: "io.mayastor:name".to_string(),
            error: "value contains a control character (0x9f)".to_string(),
        }
    );
    // The first refusal is kept.
    let cmd = ZfsCmd::zfs("set").set_props(&vec![
        Property::EntityId("\u{0}".to_string()),
        Property::Name("\u{1}".to_string()),
    ]);
    assert!(matches!(
        cmd.ready(),
        Err(Error::InvalidPropertyValue { key, .. }) if key == "io.mayastor:entity_id"
    ));
}

#[test]
fn command_input_and_lists() {
    let cmd = ZfsCmd::zfs("load-key").input("secret".to_string());
    assert_eq!(cmd.input, Some("secret".to_string()));
    assert_eq!(cmd.cmd, "zfs");
    let cmd = ZfsCmd::zfs("list").arg_list(&vec!["a".to_string(), "b".to_string()]);
    assert_eq!(cmd.argv(), vec!["zfs", "list", "a", "b"]);
    let cmd = ZfsCmd::zfs("create").pairs(&[("sync".to_string(), "always".to_string())]);
    assert_eq!(cmd.argv(), vec!["zfs", "create", "-o", "sync=always"]);
    let ready = cmd.ready().unwrap();
    assert_eq!(ready.argv(), vec!["zfs", "create", "-o", "sync=always"]);
}

#[test]
fn command_outcomes() {
    let exited = |success: bool, stdout: &[u8], stderr: &[u8]| CmdOutput::Exited {
        success,
        stdout: stdout.to_vec(),
        stderr: stderr.to_vec(),
    };
    assert_eq!(
        ZfsCmd::outcome("zfs", exited(true, "tank\tü\n".as_bytes(), b"ignored")),
        Ok("tank\tü\n".to_string())
    );
    assert_eq!(
        ZfsCmd::outcome("zfs", exited(true, b"a\xff\xfeb\xc3", b"")),
        Ok(String::from_utf8_lossy(b"a\xff\xfeb\xc3").to_string())
    );
    assert_eq!(
        ZfsCmd::outcome("zfs", exited(false, b"ignored", b"  Dataset Does Not Exist\n")),
        Err(Error::NotFound {
            query: "Dataset Does Not Exist".to_string()
        })
    );
    assert_eq!(
        ZfsCmd::outcome("zfs", exited(false, b"", b"cannot open 'x'\xff\n")),
        Err(Error::ZfsBinErr {
            command: "zfs".to_string(),
            error: "cannot open 'x'\u{fffd}".to_string()
        })
    );
    assert_eq!(
        ZfsCmd::outcome("zpool", CmdOutput::SpawnFailed("no such file".to_string())),
        Err(Error::ZfsBinSpawnErr {
            command: "zpool".to_string(),
            source: "no such file".to_string()
        })
    );
}

#[test]
fn rows_errors_and_edges() {
    assert_eq!(
        parse_rows("zfs", "a\tb\nc\n", 2).unwrap_err(),
        Error::OutputParsing {
            command: "zfs".to_string(),
            error: "expected 2 columns, got 1: 'c'".to_string()
        }
    );
    // Empty lines are skipped, a carriage return belongs to the line end, and the last line needs
    // no line end.
    assert_eq!(
        parse_rows("zfs", "\n\na\tb\r\n\nc\t", 2).unwrap(),
        vec![vec!["a", "b"], vec!["c", ""]]
    );
    assert_eq!(parse_rows("zfs", "a\rb\n", 1).unwrap(), vec![vec!["a\rb"]]);
    assert_eq!(
        parse_pairs("zfs", "a\t1\nb\t2\n").unwrap(),
        vec![
            ("a".to_string(), "1".to_string()),
            ("b".to_string(), "2".to_string())
        ]
    );
    assert!(parse_pairs("zfs", "a\n").is_err());
}

#[test]
fn props_keep_order_and_last_value() {
    let output = "b\tk\t1\tlocal\na\tk\t2\tlocal\nb\tk\t3\t-\nb\tx\ton\tdefault\n";
    let props = parse_props("zfs", output).unwrap();
    assert_eq!(props.len(), 2);
    assert_eq!(props[0].name(), "b");
    assert_eq!(props[0].value("k"), Some("3"));
    assert_eq!(props[0].local("k"), None);
    assert!(props[0].bool_on("x"));
    assert!(!props[0].bool_on("k"));
    assert_eq!(props[1].name(), "a");
    assert_eq!(props[1].local("k"), Some("2"));
    assert_eq!(props[1].u64("k"), Some(2));
    assert!(parse_props("zfs", "a\tb\tc\n").is_err());
}

#[test]
fn numbers_of_properties() {
    let output = "d\ta\t+7\t-\nd\tb\t18446744073709551615\t-\nd\tc\t18446744073709551616\t-\n\
                  d\te\t\t-\nd\tf\t-1\t-\nd\tg\t1 \t-\n";
    let props = parse_props("zfs", output).unwrap();
    for key in ["a", "b", "c", "e", "f", "g"] {
        let expected = props[0].value(key).unwrap().parse::<u64>().ok();
        assert_eq!(props[0].u64(key), expected, "{key}");
    }
    assert_eq!(props[0].u64("a"), Some(7));
    assert_eq!(props[0].u64_or_zero("c"), 0);
}

#[test]
fn query_display() {
    let any = ZfsQueryArgs::any();
    assert_eq!(any.query(), "");
    assert!(any.admits_entry("a", "b"));
    let both = ZfsQueryArgs::any().named("n").uuid("u");
    assert_eq!(both.query(), "name=n,uuid=u");
    assert!(both.admits_entry("n", "u"));
    assert!(!both.admits_entry("n", "x"));
    assert!(!both.admits_entry("x", "u"));
    // Commas at the end of the display are cut off, also those of the values.
    let commas = ZfsQueryArgs::any().uuid_opt(&Some("u,,".to_string()));
    assert_eq!(commas.query(), "uuid=u");
    assert_eq!(
        ZfsQueryArgs::any()
            .named_opt(&Some("n".to_string()))
            .named_opt(&None)
            .query(),
        "name=n"
    );
}
