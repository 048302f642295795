use adbr::command::{
    AdbCommand, AdbCompressionAlgorithm, AdbRebootTarget, AdbSyncTarget, AdbWaitForState, AdbWaitForTransport,
};
use adbr::error::ParseErrorKind;
use adbr::ip::{IpAddr, Ipv4Addr};
use adbr::socket::{AdbSocketFamily, LocalAbstract, Tcp};
use adbr::Adb;

fn strings(v: &[&str]) -> Vec<String> {
    v.iter().map(|s| s.to_string()).collect()
}

#[test]
fn install_arguments_in_order() {
    let adb = Adb::default();
    let args = adb
        .install("/path/to/app.apk")
        .local_agent()
        .r()
        .abi("arm64-v8a")
        .instant()
        .g()
        .command_line();
    assert_eq!(
        args,
        strings(&[
            "install",
            "-r",
            "-g",
            "--abi",
            "arm64-v8a",
            "--instant",
            "--local-agent",
            "/path/to/app.apk"
        ])
    );
    assert_eq!(adb.install("a.apk").command_line(), strings(&["install", "a.apk"]));
    let all = adb
        .install("a.apk")
        .l()
        .r()
        .t()
        .s()
        .d()
        .g()
        .no_streaming()
        .streaming()
        .fastdeploy()
        .no_fastdeploy()
        .force_agent()
        .date_check_agent()
        .version_check_agent()
        .package("b.apk")
        .command_line();
    assert_eq!(
        all,
        strings(&[
            "install",
            "-l",
            "-r",
            "-t",
            "-s",
            "-d",
            "-g",
            "--no-streaming",
            "--streaming",
            "--fastdeploy",
            "-no-fastdeploy",
            "-force-agent",
            "-date-check-agent",
            "--version-check-agent",
            "b.apk"
        ])
    );
}

#[test]
fn install_multiple_and_multi_package() {
    let adb = Adb::default();
    assert_eq!(
        adb.install_multiple(strings(&["a.apk", "b.apk"])).t().command_line(),
        strings(&["install-multiple", "-t", "a.apk", "b.apk"])
    );
    assert_eq!(
        adb.install_multi_package(strings(&["a.apk"]))
            .packages(strings(&["c.apk", "d.apk"]))
            .command_line(),
        strings(&["install-multi-package", "c.apk", "d.apk"])
    );
    assert_eq!(
        adb.uninstall("com.example").k().command_line(),
        strings(&["uninstall", "-k", "com.example"])
    );
}

#[test]
fn global_options_come_first_one_argument_each() {
    let adb = Adb::default();
    let args = adb
        .serial("A")
        .port(5037)
        .serial("B")
        .listen_all()
        .devices()
        .l()
        .command_line();
    assert_eq!(args, strings(&["-a", "-s B", "-P 5037", "devices", "-l"]));
    let args = adb
        .host(IpAddr::V4(Ipv4Addr::new(10, 0, 0, 2)))
        .listen(Tcp::with_port(5038))
        .one_device("usb:1-1")
        .exit_on_write_error()
        .transport_id("3")
        .usb()
        .tcp_ip()
        .version()
        .command_line();
    assert_eq!(
        args,
        strings(&[
            "-d",
            "-e",
            "-t 3",
            "-H 10.0.0.2",
            "-L tcp:5038",
            "--one-device usb:1-1",
            "--exit-on-write-error",
            "version"
        ])
    );
}

#[test]
fn builders_are_equal_whatever_the_order_of_adding() {
    let adb = Adb::default();
    let one = adb.serial("A").port(5037).listen_all();
    let other = adb.listen_all().serial("B").port(5037).serial("A");
    assert_eq!(one, other);
    assert_eq!(one.global_args(), other.global_args());
    assert_eq!(one.global_args(), strings(&["-a", "-s A", "-P 5037"]));
    assert_ne!(one, adb.serial("A").port(5038).listen_all());
    assert_ne!(one, adb.serial("A").port(5037));
    assert_eq!(adb.usb().tcp_ip(), adb.tcp_ip().usb().usb());
    assert_eq!(
        adb.serial("A").devices().l(),
        adb.serial("B").serial("A").devices().l()
    );
}

#[test]
fn file_transfer_arguments() {
    let adb = Adb::default();
    assert_eq!(
        adb.push(strings(&["/l1", "/l2"]), "/remote")
            .sync()
            .z(AdbCompressionAlgorithm::Lz4)
            .command_line(),
        strings(&["push", "--sync", "-z", "lz4", "/l1", "/l2", "/remote"])
    );
    assert_eq!(
        adb.push(strings(&["/l"]), "/r").n().command_line(),
        strings(&["push", "-Z", "/l", "/r"])
    );
    assert_eq!(
        adb.pull(strings(&["/r"]), "/l")
            .a()
            .z(AdbCompressionAlgorithm::Zstd)
            .Z()
            .command_line(),
        strings(&["pull", "-a", "-Z", "/r", "/l"])
    );
    assert_eq!(
        adb.sync()
            .n()
            .l()
            .z(AdbCompressionAlgorithm::Any)
            .arg(AdbSyncTarget::SystemExt)
            .command_line(),
        strings(&["sync", "-n", "-l", "-z", "any", "system_ext"])
    );
    assert_eq!(adb.sync().command_line(), strings(&["sync", "-Z"]));
}

#[test]
fn networking_arguments() {
    let adb = Adb::default();
    assert_eq!(
        adb.connect("localhost").command_line(),
        strings(&["connect", "localhost"])
    );
    assert_eq!(
        adb.connect("localhost").port(5555).command_line(),
        strings(&["connect", "localhost:5555"])
    );
    assert_eq!(adb.disconnect().command_line(), strings(&["disconnect"]));
    assert_eq!(adb.disconnect().port(1).command_line(), strings(&["disconnect"]));
    assert_eq!(
        adb.disconnect().host("h").port(65535).command_line(),
        strings(&["disconnect", "h:65535"])
    );
    assert_eq!(
        adb.pair("h").pairing_code("123456").port(0).command_line(),
        strings(&["pair", "h:0", "123456"])
    );
    let local = AdbSocketFamily::Tcp(Tcp::with_port(6100)).to_string();
    let remote = AdbSocketFamily::LocalAbstract(LocalAbstract("sock".to_string())).to_string();
    assert_eq!(
        adb.forward().arg(&local, &remote).command_line(),
        strings(&["forward", "tcp:6100", "localabstract:sock"])
    );
    assert_eq!(
        adb.forward().no_rebind(&local, &remote).command_line(),
        strings(&["forward", "--no-rebind", "tcp:6100", "localabstract:sock"])
    );
    assert_eq!(
        adb.forward().list().command_line(),
        strings(&["forward", "--list"])
    );
    assert_eq!(
        adb.forward().remove(&local).command_line(),
        strings(&["forward", "--remove", "tcp:6100"])
    );
    assert_eq!(
        adb.forward().remove_all().command_line(),
        strings(&["forward", "--remove-all"])
    );
    assert_eq!(
        adb.reverse().arg(&remote, &local).command_line(),
        strings(&["reverse", "localabstract:sock", "tcp:6100"])
    );
    assert_eq!(
        adb.reverse().no_rebind(&remote, &local).command_line(),
        strings(&["reverse", "--no-rebind", "localabstract:sock", "tcp:6100"])
    );
    assert_eq!(
        adb.reverse().remove(&remote).command_line(),
        strings(&["reverse", "--remove", "localabstract:sock"])
    );
    assert_eq!(
        adb.reverse().list().command_line(),
        strings(&["reverse", "--list"])
    );
    assert_eq!(
        adb.reverse().remove_all().command_line(),
        strings(&["reverse", "--remove-all"])
    );
    assert_eq!(adb.mdns().check().command_line(), strings(&["mdns", "check"]));
    assert_eq!(
        adb.mdns().services().command_line(),
        strings(&["mdns", "services"])
    );
}

#[test]
fn scripting_arguments() {
    let adb = Adb::default();
    assert_eq!(
        adb.wait_for(AdbWaitForState::Device).command_line(),
        strings(&["wait-for-device"])
    );
    assert_eq!(
        adb.wait_for(AdbWaitForState::Device)
            .transport(AdbWaitForTransport::Usb)
            .state(AdbWaitForState::Recovery)
            .command_line(),
        strings(&["wait-for-usb-recovery"])
    );
    assert_eq!(adb.remount().command_line(), strings(&["remount"]));
    assert_eq!(adb.remount().R(true).command_line(), strings(&["remount", "-R"]));
    assert_eq!(adb.remount().R(true).R(false).command_line(), strings(&["remount"]));
    assert_eq!(adb.reboot().command_line(), strings(&["reboot"]));
    assert_eq!(
        adb.reboot()
            .target(AdbRebootTarget::SideloadAutoReboot)
            .command_line(),
        strings(&["reboot", "sideload-auto-reboot"])
    );
    assert_eq!(
        adb.sideload().ota_package("ota.zip").command_line(),
        strings(&["sideload", "ota.zip"])
    );
    assert_eq!(adb.sideload().command_line(), strings(&["sideload"]));
    assert_eq!(
        adb.restart_tcp_ip(5555).port(0).command_line(),
        strings(&["tcpip", "0"])
    );
    assert_eq!(
        adb.restart_tcp_ip(65535).command_line(),
        strings(&["tcpip", "65535"])
    );
    assert_eq!(adb.restart_usb().command_line(), strings(&["usb"]));
}

#[test]
fn plain_commands() {
    let adb = Adb::default();
    assert_eq!(adb.jdwp().command_line(), strings(&["jdwp"]));
    assert_eq!(adb.logcat().command_line(), strings(&["logcat"]));
    assert_eq!(adb.bug_report().command_line(), strings(&["bugreport"]));
    assert_eq!(
        adb.bug_report().path("/tmp/b").command_line(),
        strings(&["bugreport", "/tmp/b"])
    );
    assert_eq!(adb.host_features().command_line(), strings(&["host-features"]));
    assert_eq!(adb.features().command_line(), strings(&["features"]));
    assert_eq!(adb.devices().command_line(), strings(&["devices"]));
    assert_eq!(adb.help().command_line(), strings(&["help"]));
    assert_eq!(adb.start_server().command_line(), strings(&["start-server"]));
    assert_eq!(adb.kill_server().command_line(), strings(&["kill-server"]));
    assert_eq!(adb.reconnect().command_line(), strings(&["reconnect"]));
    assert_eq!(
        adb.reconnect().device().command_line(),
        strings(&["reconnect", "device"])
    );
    assert_eq!(
        adb.reconnect().offline().command_line(),
        strings(&["reconnect", "offline"])
    );
    assert_eq!(adb.get_state().command_line(), strings(&["get-state"]));
    assert_eq!(adb.get_serial_no().command_line(), strings(&["get-serialno"]));
    assert_eq!(adb.get_dev_path().command_line(), strings(&["get-devpath"]));
    assert_eq!(
        adb.sideload_auto_reboot().command_line(),
        strings(&["sideload-auto-reboot"])
    );
    assert_eq!(adb.root().command_line(), strings(&["root"]));
    assert_eq!(adb.unroot().command_line(), strings(&["unroot"]));
    assert_eq!(adb.disable_verity().command_line(), strings(&["disable-verity"]));
    assert_eq!(adb.enable_verity().command_line(), strings(&["enable-verity"]));
    assert_eq!(
        adb.keygen("key").file("other").command_line(),
        strings(&["keygen", "other"])
    );
    assert_eq!(adb.attach("S1").command_line(), strings(&["attach", "S1"]));
    assert_eq!(
        adb.detach("S1").serial("S2").command_line(),
        strings(&["detach", "S2"])
    );
    assert_eq!(adb.emu("kill").command_line(), strings(&["emu", "kill"]));
}

#[test]
fn shell_arguments() {
    let adb = Adb::default();
    assert_eq!(adb.shell().command_line(), strings(&["shell"]));
    assert_eq!(
        adb.shell()
            .e('~')
            .n()
            .tt()
            .x()
            .arg("ls")
            .args(strings(&["-l", "/sdcard"]))
            .command_line(),
        strings(&["shell", "-e", "~", "-n", "-tt", "-x", "ls", "-l", "/sdcard"])
    );
    assert_eq!(
        adb.shell().t().T().command_line(),
        strings(&["shell", "-T"])
    );
    assert_eq!(adb.shell().t().command_line(), strings(&["shell", "-t"]));
}

#[test]
fn command_words_read_back() {
    let algorithms = [
        (AdbCompressionAlgorithm::Any, "any"),
        (AdbCompressionAlgorithm::NoCompression, "none"),
        (AdbCompressionAlgorithm::Brotli, "brotli"),
        (AdbCompressionAlgorithm::Lz4, "lz4"),
        (AdbCompressionAlgorithm::Zstd, "zstd"),
    ];
    for (v, word) in algorithms {
        assert_eq!(v.as_ref(), word);
        assert_eq!(v.to_string(), word);
        assert_eq!(AdbCompressionAlgorithm::from_str(word).unwrap(), v);
    }
    let targets = [
        (AdbSyncTarget::All, "all"),
        (AdbSyncTarget::Data, "data"),
        (AdbSyncTarget::Odm, "odm"),
        (AdbSyncTarget::Oem, "oem"),
        (AdbSyncTarget::Product, "product"),
        (AdbSyncTarget::System, "system"),
        (AdbSyncTarget::SystemExt, "system_ext"),
        (AdbSyncTarget::Vendor, "vendor"),
    ];
    for (v, word) in targets {
        assert_eq!(v.to_string(), word);
        assert_eq!(AdbSyncTarget::from_str(word).unwrap(), v);
    }
    let states = [
        (AdbWaitForState::Device, "device"),
        (AdbWaitForState::Recovery, "recovery"),
        (AdbWaitForState::Rescue, "rescue"),
        (AdbWaitForState::Sideload, "sideload"),
        (AdbWaitForState::Bootloader, "bootloader"),
        (AdbWaitForState::Disconnect, "disconnect"),
    ];
    for (v, word) in states {
        assert_eq!(v.to_string(), word);
        assert_eq!(AdbWaitForState::from_str(word).unwrap(), v);
    }
    let transports = [
        (AdbWaitForTransport::Usb, "usb"),
        (AdbWaitForTransport::Local, "local"),
        (AdbWaitForTransport::Any, "any"),
    ];
    for (v, word) in transports {
        assert_eq!(v.to_string(), word);
        assert_eq!(AdbWaitForTransport::from_str(word).unwrap(), v);
    }
    let reboots = [
        (AdbRebootTarget::Bootloader, "bootloader"),
        (AdbRebootTarget::Recovery, "recovery"),
        (AdbRebootTarget::Sideload, "sideload"),
        (AdbRebootTarget::SideloadAutoReboot, "sideload-auto-reboot"),
    ];
    for (v, word) in reboots {
        assert_eq!(v.to_string(), word);
        assert_eq!(AdbRebootTarget::from_str(word).unwrap(), v);
    }
    let e = AdbSyncTarget::from_str("ALL").unwrap_err();
    assert_eq!(e.kind(), Some(ParseErrorKind::InvalidFormat));
    assert_eq!(
        e.message(),
        "Failed to parse `ALL` to `SyncTarget`: Unknown sync target"
    );
    assert!(AdbCompressionAlgorithm::from_str("").is_err());
    assert!(AdbWaitForState::from_str("usb").is_err());
    assert!(AdbWaitForTransport::from_str("device").is_err());
    assert!(AdbRebootTarget::from_str("sideload ").is_err());
}
