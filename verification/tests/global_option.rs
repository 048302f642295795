use adbr::command::GlobalOptions;
use adbr::error::{AdbError, ParseErrorKind};
use adbr::global_option::{AdbGlobalOption, OptionKind};
use adbr::ip::{IpAddr, Ipv4Addr, Ipv6Addr};
use adbr::socket::Tcp;

fn test_loop(arr: &[(String, AdbGlobalOption)]) {
    for (s, expected) in arr {
        assert_eq!(AdbGlobalOption::from_str(s).unwrap(), expected.clone());
        assert_eq!(
            AdbGlobalOption::from_str(&format!("\r\n\t {} \t\r\n", s)).unwrap(),
            expected.clone()
        );
        assert!(AdbGlobalOption::from_str(&format!("-{}", s)).is_err());
    }
}

#[test]
fn test_from_str_with_no_value() {
    test_loop(&[
        ("-a".to_string(), AdbGlobalOption::ListenAll),
        ("-d".to_string(), AdbGlobalOption::Usb),
        ("-e".to_string(), AdbGlobalOption::TcpIp),
        (
            "--exit-on-write-error".to_string(),
            AdbGlobalOption::ExitOnWriteError,
        ),
    ]);
}

#[test]
fn test_from_str_with_string_value() {
    let values = ["123", "test", "emulator-123", "127.0.0.1:1234"];
    let types = [
        (
            "-s",
            AdbGlobalOption::Serial as fn(String) -> AdbGlobalOption,
        ),
        (
            "-t",
            AdbGlobalOption::TransportId as fn(String) -> AdbGlobalOption,
        ),
        (
            "--one-device",
            AdbGlobalOption::OneDevice as fn(String) -> AdbGlobalOption,
        ),
    ];
    for (opt, f) in types {
        test_loop(
            &values
                .iter()
                .map(|s| (format!("{} {}", opt, s), f(s.to_string())))
                .collect::<Vec<_>>(),
        );
        test_loop(
            &values
                .iter()
                .map(|s| (format!("{}  {}", opt, s), f(s.to_string())))
                .collect::<Vec<_>>(),
        );
        test_loop(
            &values
                .iter()
                .map(|s| (format!("{}\t{}", opt, s), f(s.to_string())))
                .collect::<Vec<_>>(),
        );
    }
}

#[test]
fn test_from_str_net() {
    let values = [
        (
            "-H 127.0.0.1",
            AdbGlobalOption::Host(IpAddr::V4(Ipv4Addr::new(127, 0, 0, 1))),
        ),
        (
            "-L tcp:127.0.0.1",
            AdbGlobalOption::Listen(Tcp {
                ip: Some(IpAddr::V4(Ipv4Addr::new(127, 0, 0, 1))),
                port: None,
            }),
        ),
        (
            "-L tcp:127.0.0.1:1234",
            AdbGlobalOption::Listen(Tcp {
                ip: Some(IpAddr::V4(Ipv4Addr::new(127, 0, 0, 1))),
                port: Some(1234),
            }),
        ),
    ];
    for (s, expected) in values {
        assert_eq!(AdbGlobalOption::from_str(s).unwrap(), expected);
    }
}

fn kind_of(e: AdbError) -> ParseErrorKind {
    e.kind().unwrap()
}

#[test]
fn option_parse_examples() {
    assert_eq!(
        AdbGlobalOption::from_str("-a").unwrap(),
        AdbGlobalOption::ListenAll
    );
    assert_eq!(
        AdbGlobalOption::from_str("-s emulator-123").unwrap(),
        AdbGlobalOption::Serial("emulator-123".to_string())
    );
    assert_eq!(
        kind_of(AdbGlobalOption::from_str("-s").unwrap_err()),
        ParseErrorKind::MissingValue
    );
    assert_eq!(
        kind_of(AdbGlobalOption::from_str("-z foo").unwrap_err()),
        ParseErrorKind::UnknownOption
    );
    assert_eq!(
        kind_of(AdbGlobalOption::from_str("-z").unwrap_err()),
        ParseErrorKind::UnknownOption
    );
    assert_eq!(
        kind_of(AdbGlobalOption::from_str("").unwrap_err()),
        ParseErrorKind::UnknownOption
    );
    for flag in ["-s", "-t", "-H", "-P", "-L", "--one-device", " -L\t"] {
        assert_eq!(
            kind_of(AdbGlobalOption::from_str(flag).unwrap_err()),
            ParseErrorKind::MissingValue,
            "{}",
            flag
        );
    }
    match AdbGlobalOption::from_str(" -P ").unwrap_err() {
        AdbError::Parse(p) => {
            assert_eq!(p.value, "-P");
            assert_eq!(p.description, "missing value");
        }
        AdbError::Io(_) => panic!("not a parse error"),
    }
    match AdbGlobalOption::from_str("-q x").unwrap_err() {
        AdbError::Parse(p) => {
            assert_eq!(p.value, "-q");
            assert_eq!(p.description, "unknown option");
        }
        AdbError::Io(_) => panic!("not a parse error"),
    }
    assert_eq!(
        kind_of(AdbGlobalOption::from_str("-H nowhere").unwrap_err()),
        ParseErrorKind::InvalidValue
    );
    assert_eq!(
        kind_of(AdbGlobalOption::from_str("-P 65536").unwrap_err()),
        ParseErrorKind::InvalidValue
    );
    assert_eq!(
        kind_of(AdbGlobalOption::from_str("-L 127.0.0.1").unwrap_err()),
        ParseErrorKind::InvalidFormat
    );
    assert_eq!(
        AdbGlobalOption::from_str("-P 5037").unwrap(),
        AdbGlobalOption::Port(5037)
    );
}

#[test]
fn listen_on_an_ipv6_address() {
    let full = Ipv6Addr::new(0x1111, 0x2222, 0x3333, 0x4444, 0x5555, 0x6666, 0x7777, 0x8888);
    let option = AdbGlobalOption::Listen(Tcp::with_ipv6(full));
    assert_eq!(
        AdbGlobalOption::from_str("-L tcp:1111:2222:3333:4444:5555:6666:7777:8888").unwrap(),
        option
    );
    assert_eq!(
        option.to_string(),
        "-L tcp:1111:2222:3333:4444:5555:6666:7777:8888"
    );
    assert_eq!(
        AdbGlobalOption::from_str("-L tcp:[::1]:5037").unwrap(),
        AdbGlobalOption::Listen(Tcp::new(
            IpAddr::V6(Ipv6Addr::new(0, 0, 0, 0, 0, 0, 0, 1)),
            5037
        ))
    );
}

#[test]
fn padded_input_reads_the_same() {
    for s in [
        "-a",
        "-d",
        "-e",
        "--exit-on-write-error",
        "-s A",
        "-t 7",
        "-H 10.0.0.1",
        "-P 1",
        "-L tcp:5555",
        "--one-device usb:1",
        "-s",
        "-q 1",
    ] {
        let padded = format!("\r\n\t {} \t\r\n", s);
        assert_eq!(
            AdbGlobalOption::from_str(&padded),
            AdbGlobalOption::from_str(s),
            "{}",
            s
        );
        let wide = format!("\u{3000}\u{a0}{}\u{2028}", s);
        assert_eq!(
            AdbGlobalOption::from_str(&wide),
            AdbGlobalOption::from_str(s),
            "{}",
            s
        );
    }
}

#[test]
fn option_text_is_flag_and_value() {
    let cases = vec![
        (AdbGlobalOption::ListenAll, "-a"),
        (AdbGlobalOption::Usb, "-d"),
        (AdbGlobalOption::TcpIp, "-e"),
        (AdbGlobalOption::Serial("A".to_string()), "-s A"),
        (AdbGlobalOption::TransportId("7".to_string()), "-t 7"),
        (
            AdbGlobalOption::Host(IpAddr::V4(Ipv4Addr::new(10, 0, 0, 1))),
            "-H 10.0.0.1",
        ),
        (AdbGlobalOption::Port(5037), "-P 5037"),
        (AdbGlobalOption::Listen(Tcp::with_port(5555)), "-L tcp:5555"),
        (
            AdbGlobalOption::OneDevice("usb:1".to_string()),
            "--one-device usb:1",
        ),
        (AdbGlobalOption::ExitOnWriteError, "--exit-on-write-error"),
    ];
    for (option, text) in cases {
        assert_eq!(option.to_string(), text);
        assert_eq!(AdbGlobalOption::from_str(text).unwrap(), option);
    }
}

#[test]
fn last_serial_wins() {
    let mut set = GlobalOptions::new();
    set.insert(AdbGlobalOption::Serial("A".to_string()));
    set.insert(AdbGlobalOption::Serial("B".to_string()));
    assert_eq!(set.len(), 1);
    assert_eq!(
        set.get(OptionKind::Serial),
        Some(&AdbGlobalOption::Serial("B".to_string()))
    );
    assert_eq!(set.to_args(), vec!["-s B".to_string()]);
}

#[test]
fn sets_are_equal_whatever_the_order_of_adding() {
    let all = vec![
        AdbGlobalOption::ExitOnWriteError,
        AdbGlobalOption::OneDevice("usb:1".to_string()),
        AdbGlobalOption::Listen(Tcp::with_port(1)),
        AdbGlobalOption::Port(2),
        AdbGlobalOption::Host(IpAddr::V4(Ipv4Addr::new(10, 0, 0, 1))),
        AdbGlobalOption::TransportId("7".to_string()),
        AdbGlobalOption::Serial("S".to_string()),
        AdbGlobalOption::TcpIp,
        AdbGlobalOption::Usb,
        AdbGlobalOption::ListenAll,
    ];
    let mut down = GlobalOptions::new();
    for option in all.iter() {
        down.insert(option.clone());
    }
    let mut up = GlobalOptions::new();
    up.insert(AdbGlobalOption::Port(9));
    up.insert(AdbGlobalOption::Serial("other".to_string()));
    for option in all.iter().rev() {
        up.insert(option.clone());
    }
    assert_eq!(down, up);
    assert_eq!(down.len(), 10);
    assert_eq!(
        down.to_args(),
        vec![
            "-a",
            "-d",
            "-e",
            "-s S",
            "-t 7",
            "-H 10.0.0.1",
            "-P 2",
            "-L tcp:1",
            "--one-device usb:1",
            "--exit-on-write-error"
        ]
    );
    for (at, kind) in [
        OptionKind::ListenAll,
        OptionKind::Usb,
        OptionKind::TcpIp,
        OptionKind::Serial,
        OptionKind::TransportId,
        OptionKind::Host,
        OptionKind::Port,
        OptionKind::Listen,
        OptionKind::OneDevice,
        OptionKind::ExitOnWriteError,
    ]
    .iter()
    .enumerate()
    {
        assert_eq!(kind.rank() as usize, at);
        assert_eq!(down.get(*kind).unwrap().kind(), *kind);
    }
    let mut other = GlobalOptions::new();
    other.insert(AdbGlobalOption::Port(2));
    assert_ne!(down, other);
    assert_eq!(down.clone(), down);
}

#[test]
fn one_option_of_each_kind() {
    let mut set = GlobalOptions::new();
    set.insert(AdbGlobalOption::ListenAll);
    set.insert(AdbGlobalOption::Port(1));
    set.insert(AdbGlobalOption::ListenAll);
    set.insert(AdbGlobalOption::Serial("A".to_string()));
    set.insert(AdbGlobalOption::Port(2));
    assert_eq!(set.len(), 3);
    assert_eq!(set.get(OptionKind::Port), Some(&AdbGlobalOption::Port(2)));
    assert_eq!(set.get(OptionKind::Host), None);
    assert_eq!(
        set.to_args(),
        vec!["-a".to_string(), "-s A".to_string(), "-P 2".to_string()]
    );
}
