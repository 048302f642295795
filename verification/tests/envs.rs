use adbr::envs::{
    AdbEnvs, AdbLibusb, AdbLocalTransportMaxPort, AdbMdnsAutoConnect, AdbMdnsOpenScreen, AdbTrace,
    AdbTraceEnum, AdbVendorKeys, AndroidLogTags, AndroidSerial,
};
use adbr::error::AdbError;
use adbr::Adb;

fn env(pairs: &[(&str, &str)]) -> Vec<(String, String)> {
    pairs
        .iter()
        .map(|(k, v)| (k.to_string(), v.to_string()))
        .collect()
}

#[test]
fn trace_words() {
    let all = [
        (AdbTraceEnum::All, "all"),
        (AdbTraceEnum::Adb, "adb"),
        (AdbTraceEnum::Sockets, "sockets"),
        (AdbTraceEnum::Packets, "packets"),
        (AdbTraceEnum::Rwx, "rwx"),
        (AdbTraceEnum::Usb, "usb"),
        (AdbTraceEnum::Sync, "sync"),
        (AdbTraceEnum::Sysdeps, "sysdeps"),
        (AdbTraceEnum::Transport, "transport"),
        (AdbTraceEnum::Jdwp, "jdwp"),
        (AdbTraceEnum::Services, "services"),
        (AdbTraceEnum::Auth, "auth"),
        (AdbTraceEnum::Fdevent, "fdevent"),
        (AdbTraceEnum::Shell, "shell"),
        (AdbTraceEnum::Incremental, "incremental"),
        (AdbTraceEnum::Mdns, "mdns"),
    ];
    for (v, word) in all {
        assert_eq!(v.as_ref(), word);
        assert_eq!(v.to_string(), word);
        assert_eq!(AdbTraceEnum::from_str(word).unwrap(), v);
    }
    assert!(AdbTraceEnum::from_str("ALL").is_err());
    assert!(AdbTraceEnum::from_str("").is_err());
}

#[test]
fn trace_list_text() {
    let t = AdbTrace::from_str("adb,usb sync").unwrap();
    assert_eq!(
        t,
        AdbTrace(vec![
            AdbTraceEnum::Adb,
            AdbTraceEnum::Usb,
            AdbTraceEnum::Sync
        ])
    );
    assert_eq!(t.to_string(), "adb,usb,sync");
    assert_eq!(AdbTrace(vec![]).to_string(), "");
    assert!(AdbTrace::from_str("").is_err());
    assert!(AdbTrace::from_str("adb,,usb").is_err());
    match AdbTrace::from_str("adb,nope,also").unwrap_err() {
        AdbError::Parse(p) => {
            assert_eq!(p.value, "nope");
            assert_eq!(p.target, "AdbTrace");
            assert_eq!(p.description, "Unknown adb trace");
        }
        AdbError::Io(_) => panic!("not a parse error"),
    }
}

#[test]
fn list_variables() {
    let keys = AdbVendorKeys::from_str("/a:/b::/c").unwrap();
    assert_eq!(
        keys,
        AdbVendorKeys(vec![
            "/a".to_string(),
            "/b".to_string(),
            "".to_string(),
            "/c".to_string()
        ])
    );
    assert_eq!(keys.to_string(), "/a:/b::/c");
    assert_eq!(
        AdbVendorKeys::from_str("").unwrap(),
        AdbVendorKeys(vec!["".to_string()])
    );
    let services = AdbMdnsAutoConnect::from_str("adb-tls-connect,adb").unwrap();
    assert_eq!(
        services,
        AdbMdnsAutoConnect(vec!["adb-tls-connect".to_string(), "adb".to_string()])
    );
    assert_eq!(services.to_string(), "adb-tls-connect,adb");
}

#[test]
fn plain_variables() {
    assert_eq!(
        AndroidSerial::from_str("emulator-5554").unwrap(),
        AndroidSerial("emulator-5554".to_string())
    );
    assert_eq!(
        AndroidSerial("emulator-5554".to_string()).to_string(),
        "emulator-5554"
    );
    assert_eq!(
        AndroidLogTags::from_str("*:s").unwrap().to_string(),
        "*:s"
    );
    assert_eq!(
        AdbLocalTransportMaxPort::from_str("5585").unwrap(),
        AdbLocalTransportMaxPort(5585)
    );
    assert_eq!(AdbLocalTransportMaxPort::default(), AdbLocalTransportMaxPort(5585));
    assert_eq!(AdbLocalTransportMaxPort(65535).to_string(), "65535");
    assert!(AdbLocalTransportMaxPort::from_str("65536").is_err());
    assert!(AdbLocalTransportMaxPort::from_str("").is_err());
    assert!(AdbLocalTransportMaxPort::from_str(" 1").is_err());
    assert_eq!(
        AdbMdnsOpenScreen::from_str("1").unwrap(),
        AdbMdnsOpenScreen(true)
    );
    assert_eq!(
        AdbMdnsOpenScreen::from_str("yes").unwrap(),
        AdbMdnsOpenScreen(false)
    );
    assert_eq!(AdbMdnsOpenScreen(true).to_string(), "1");
    assert_eq!(AdbMdnsOpenScreen(false).to_string(), "0");
    assert_eq!(AdbLibusb::from_str("1").unwrap(), AdbLibusb(true));
    assert_eq!(AdbLibusb::from_str("0").unwrap(), AdbLibusb(false));
    assert!(AdbLibusb::from_str("2").is_err());
    assert_eq!(AdbLibusb(false).to_string(), "0");
    assert_eq!(AdbTrace::NAME, "ADB_TRACE");
    assert_eq!(AdbVendorKeys::NAME, "ADB_VENDOR_KEYS");
    assert_eq!(AndroidSerial::NAME, "ANDROID_SERIAL");
    assert_eq!(AndroidLogTags::NAME, "ANDROID_LOG_TAGS");
    assert_eq!(
        AdbLocalTransportMaxPort::NAME,
        "ADB_LOCAL_TRANSPORT_MAX_PORT"
    );
    assert_eq!(AdbMdnsAutoConnect::NAME, "ADB_MDNS_AUTO_CONNECT");
    assert_eq!(AdbMdnsOpenScreen::NAME, "ADB_MDNS_OPENSCREEN");
    assert_eq!(AdbLibusb::NAME, "ADB_LIBUSB");
}

#[test]
fn envs_from_an_environment() {
    let e = AdbEnvs::new(&env(&[
        ("PATH", "/bin"),
        ("ADB_TRACE", "all"),
        ("ANDROID_SERIAL", "first"),
        ("ANDROID_SERIAL", "second"),
        ("ADB_LOCAL_TRANSPORT_MAX_PORT", "5600"),
        ("ADB_VENDOR_KEYS", "/k1:/k2"),
        ("ADB_MDNS_OPENSCREEN", "0"),
        ("ADB_LIBUSB", "1"),
    ]))
    .unwrap();
    assert_eq!(e.adb_trace(), Some(&[AdbTraceEnum::All][..]));
    assert_eq!(e.android_serial(), Some("first"));
    assert_eq!(e.android_log_tags(), None);
    assert_eq!(e.adb_local_transport_max_port(), Some(5600));
    assert_eq!(
        e.adb_vendor_keys(),
        Some(&["/k1".to_string(), "/k2".to_string()][..])
    );
    assert_eq!(e.adb_mdns_auto_connect(), None);
    assert_eq!(e.adb_mdns_openscreen(), Some(false));
    assert_eq!(e.adb_libusb(), Some(true));

    assert_eq!(AdbEnvs::new(&[]).unwrap(), AdbEnvs::default());
    assert!(AdbEnvs::new(&env(&[("ADB_LIBUSB", "x")])).is_err());
    assert!(AdbEnvs::new(&env(&[("ADB_TRACE", "x")])).is_err());
    assert!(AdbEnvs::new(&env(&[("ADB_LOCAL_TRANSPORT_MAX_PORT", "-1")])).is_err());
    // the first variable that fails, in the order of the fields, is reported
    match AdbEnvs::new(&env(&[("ADB_LIBUSB", "x"), ("ADB_TRACE", "y")])).unwrap_err() {
        AdbError::Parse(p) => assert_eq!(p.value, "y"),
        AdbError::Io(_) => panic!("not a parse error"),
    }
}

#[test]
fn envs_set_get_remove() {
    let mut e = AdbEnvs::default();
    assert_eq!(e.adb_trace(), None);
    assert_eq!(e.set_adb_trace(vec![AdbTraceEnum::Adb]), None);
    assert_eq!(
        e.set_adb_trace(vec![AdbTraceEnum::Usb]),
        Some(AdbTrace(vec![AdbTraceEnum::Adb]))
    );
    assert_eq!(e.adb_trace(), Some(&[AdbTraceEnum::Usb][..]));
    assert_eq!(
        e.remove_adb_trace(),
        Some(AdbTrace(vec![AdbTraceEnum::Usb]))
    );
    assert_eq!(e.adb_trace(), None);
    assert_eq!(e.remove_adb_trace(), None);

    assert_eq!(e.set_adb_vendor_keys(vec!["k".to_string()]), None);
    assert_eq!(e.adb_vendor_keys(), Some(&["k".to_string()][..]));
    assert_eq!(
        e.remove_adb_vendor_keys(),
        Some(AdbVendorKeys(vec!["k".to_string()]))
    );

    assert_eq!(e.set_android_serial("S".to_string()), None);
    assert_eq!(e.android_serial(), Some("S"));
    assert_eq!(
        e.remove_android_serial(),
        Some(AndroidSerial("S".to_string()))
    );

    assert_eq!(e.set_android_log_tags("*:v".to_string()), None);
    assert_eq!(e.android_log_tags(), Some("*:v"));
    assert_eq!(
        e.remove_android_log_tags(),
        Some(AndroidLogTags("*:v".to_string()))
    );

    assert_eq!(e.set_adb_local_transport_max_port(1234), None);
    assert_eq!(e.adb_local_transport_max_port(), Some(1234));
    assert_eq!(
        e.remove_adb_local_transport_max_port(),
        Some(AdbLocalTransportMaxPort(1234))
    );

    assert_eq!(e.set_adb_mdns_auto_connect(vec!["s".to_string()]), None);
    assert_eq!(e.adb_mdns_auto_connect(), Some(&["s".to_string()][..]));
    assert_eq!(
        e.remove_adb_mdns_auto_connect(),
        Some(AdbMdnsAutoConnect(vec!["s".to_string()]))
    );

    assert_eq!(e.set_adb_mdns_openscreen(true), None);
    assert_eq!(e.adb_mdns_openscreen(), Some(true));
    assert_eq!(e.remove_adb_mdns_openscreen(), Some(AdbMdnsOpenScreen(true)));

    assert_eq!(e.set_adb_libusb(false), None);
    assert_eq!(e.adb_libusb(), Some(false));
    assert_eq!(e.remove_adb_libusb(), Some(AdbLibusb(false)));
    assert_eq!(e, AdbEnvs::default());
}

#[test]
fn envs_applied_to_a_command() {
    let mut e = AdbEnvs::default();
    e.set_adb_trace(vec![AdbTraceEnum::Adb, AdbTraceEnum::Usb]);
    e.set_adb_local_transport_max_port(5600);
    e.set_adb_libusb(true);
    e.set_adb_vendor_keys(vec!["/a".to_string(), "/b".to_string()]);
    assert_eq!(
        e.apply(),
        vec![
            ("ADB_TRACE", Some("adb,usb".to_string())),
            ("ADB_VENDOR_KEYS", Some("/a:/b".to_string())),
            ("ANDROID_SERIAL", None),
            ("ANDROID_LOG_TAGS", None),
            ("ADB_LOCAL_TRANSPORT_MAX_PORT", Some("5600".to_string())),
            ("ADB_MDNS_AUTO_CONNECT", None),
            ("ADB_MDNS_OPENSCREEN", None),
            ("ADB_LIBUSB", Some("1".to_string())),
        ]
    );
}

#[test]
fn adb_holds_directory_and_variables() {
    let mut adb = Adb::new(&env(&[("ANDROID_SERIAL", "S")])).unwrap();
    assert_eq!(adb.working_directory(), None);
    assert_eq!(adb.envs().android_serial(), Some("S"));
    adb.envs_mut().set_adb_local_transport_max_port(1234);
    assert_eq!(adb.envs().adb_local_transport_max_port(), Some(1234));
    adb.set_working_directory("/opt/platform-tools".to_string());
    assert_eq!(adb.working_directory(), Some("/opt/platform-tools"));
    adb.reset_working_directory();
    assert_eq!(adb.working_directory(), None);
    assert_eq!(
        adb.set_working_directory("/a".to_string())
            .reset_working_directory()
            .set_working_directory("/b".to_string())
            .working_directory(),
        Some("/b")
    );
    assert_eq!(adb.working_directory(), Some("/b"));
    let variables = adb.envs().clone();
    assert_eq!(adb.reset_working_directory().working_directory(), None);
    assert_eq!(adb.reset_working_directory().envs(), &variables);
    assert_eq!(adb.working_directory(), None);
    let other = Adb::with_working_directory(&[], "/sdk".to_string()).unwrap();
    assert_eq!(other.working_directory(), Some("/sdk"));
    assert_eq!(other.envs(), &AdbEnvs::default());
    assert!(Adb::new(&env(&[("ADB_LIBUSB", "maybe")])).is_err());
    assert_eq!(Adb::default().envs(), &AdbEnvs::default());
}
