use adbr::error::{AdbError, ParseErrorKind};
use adbr::ip::{IpAddr, Ipv4Addr, Ipv6Addr};
use adbr::socket::{
    AcceptFd, AdbSocketFamily, Dev, DevRaw, Jdwp, LocalAbstract, LocalFileSystem, LocalReserved,
    Tcp, Vsock,
};

fn tcp_common() -> Vec<(&'static str, Tcp)> {
    vec![
        ("tcp:5555", Tcp::with_port(5555)),
        ("tcp:127.0.0.1", Tcp::with_ipv4(Ipv4Addr::new(127, 0, 0, 1))),
        (
            "tcp:::1",
            Tcp::with_ipv6(Ipv6Addr::new(0, 0, 0, 0, 0, 0, 0, 1)),
        ),
        (
            "tcp:127.0.0.1:5555",
            Tcp::new(IpAddr::V4(Ipv4Addr::new(127, 0, 0, 1)), 5555),
        ),
        (
            "tcp:[::1]:5555",
            Tcp::new(IpAddr::V6(Ipv6Addr::new(0, 0, 0, 0, 0, 0, 0, 1)), 5555),
        ),
    ]
}

const TCP_PARSE_ERR: [&str; 25] = [
    "",
    "tcp:",
    // incomplete address
    "tcp:127.0",
    "tcp:127.0:5555",
    "tcp:[]",
    "tcp:[]:5555",
    "tcp:[:]",
    "tcp:[:5555]",
    "tcp:5555:",
    // Ipv6 address with a port and without square brackets
    "tcp:1111:2222:3333:4444:5555:6666:7777:8888:5555",
    // IpAddr out of range
    "tcp:256.0.0.0",
    "tcp:256.-1.0.0",
    "tcp:[gggg::]",
    "tcp:[::gggg]",
    // port out of range
    "tcp:-1",
    "tcp:65536",
    // SocketAddr out of range
    "tcp:256.0.0.0:-1",
    "tcp:256.0.0.0:5555",
    "tcp:256.0.0.0:65536",
    "tcp:256.-1.0.0:5555",
    "tcp:[gggg::]:5555",
    "tcp:[::gggg]:5555",
    // invalid characters
    "tcp:abcd",
    "tcp:a.b.c.d",
    "tcp:a.b.c.d:p",
];

#[test]
fn test_tcp_display() {
    for (s, tcp) in tcp_common() {
        assert_eq!(s, tcp.to_string());
    }
}

#[test]
fn test_tcp_parse() {
    for (s, tcp) in tcp_common() {
        assert_eq!(tcp, Tcp::from_str(s).unwrap());
    }
    for s in TCP_PARSE_ERR {
        assert!(Tcp::from_str(s).is_err(), "{}", s);
    }
}

#[test]
fn test_local_abstract_display() {
    let local_abstract = LocalAbstract("socket".to_string());
    assert_eq!("localabstract:socket", local_abstract.to_string());
}

#[test]
fn test_local_abstract_parse() {
    let local_abstract = LocalAbstract("socket".to_string());
    assert_eq!(
        local_abstract,
        LocalAbstract::from_str("localabstract:socket").unwrap()
    );
    let err = ["localabstract", "localabstract:"];
    for s in err {
        assert!(LocalAbstract::from_str(s).is_err(), "{}", s);
    }
}

#[test]
fn test_local_reserved_display() {
    let local_reserved = LocalReserved("socket".to_string());
    assert_eq!("localreserved:socket", local_reserved.to_string());
}

#[test]
fn test_local_reserved_parse() {
    let local_reserved = LocalReserved("socket".to_string());
    assert_eq!(
        local_reserved,
        LocalReserved::from_str("localreserved:socket").unwrap()
    );
    let err = ["localreserved", "localreserved:"];
    for s in err {
        assert!(LocalReserved::from_str(s).is_err(), "{}", s);
    }
}

#[test]
fn test_local_file_system_display() {
    let local_file_system = LocalFileSystem(String::from("/path/to/socket"));
    assert_eq!(
        "localfilesystem:/path/to/socket",
        local_file_system.to_string()
    );
}

#[test]
fn test_local_file_system_parse() {
    let local_file_system = LocalFileSystem(String::from("/path/to/socket"));
    assert_eq!(
        local_file_system,
        LocalFileSystem::from_str("localfilesystem:/path/to/socket").unwrap()
    );
    let err = ["localfilesystem", "localfilesystem:"];
    for s in &err {
        assert!(LocalFileSystem::from_str(s).is_err(), "{}", s);
    }
}

#[test]
fn test_dev_display() {
    let dev = Dev(String::from("/dev/tty"));
    assert_eq!("dev:/dev/tty", dev.to_string());
}

#[test]
fn test_dev_parse() {
    let dev = Dev(String::from("/dev/tty"));
    assert_eq!(dev, Dev::from_str("dev:/dev/tty").unwrap());
    let err = ["dev", "dev:"];
    for s in &err {
        assert!(Dev::from_str(s).is_err(), "{}", s);
    }
}

#[test]
fn test_dev_raw_display() {
    let dev_raw = DevRaw(String::from("/dev/tty"));
    assert_eq!("dev-raw:/dev/tty", dev_raw.to_string());
}

#[test]
fn test_dev_raw_parse() {
    let dev_raw = DevRaw(String::from("/dev/tty"));
    assert_eq!(dev_raw, DevRaw::from_str("dev-raw:/dev/tty").unwrap());
    let err = ["dev-raw", "dev-raw:"];
    for s in &err {
        assert!(DevRaw::from_str(s).is_err(), "{}", s);
    }
}

const OVERFLOW: u64 = u32::MAX as u64 + 1;

#[test]
fn test_jdwp_display() {
    let jdwp = Jdwp(1234);
    assert_eq!("jdwp:1234", jdwp.to_string());
}

#[test]
fn test_jdwp_parse() {
    let jdwp = Jdwp(1234);
    assert_eq!(jdwp, Jdwp::from_str("jdwp:1234").unwrap());
    let err = ["jdwp", "jdwp:", "jdwp:-1", &format!("jdwp:{}", OVERFLOW)];
    for s in &err {
        assert!(Jdwp::from_str(s).is_err(), "{}", s);
    }
}

#[test]
fn test_vsock_display() {
    let vsock = Vsock { cid: 1, port: 2 };
    assert_eq!("vsock:1:2", vsock.to_string());
}

#[test]
fn test_vsock_parse() {
    let vsock = Vsock { cid: 1, port: 2 };
    assert_eq!(vsock, Vsock::from_str("vsock:1:2").unwrap());
    let err = [
        "vsock",
        "vsock:",
        "vsock:1",
        "vsock::1",
        "vsock:1:",
        "vsock:-1",
        "vsock:-1:-1",
        &format!("vsock:1:{}", OVERFLOW),
        &format!("vsock:{}:2", OVERFLOW),
        &format!("vsock:{}:{}", OVERFLOW, OVERFLOW),
    ];
    for s in &err {
        assert!(Vsock::from_str(s).is_err(), "{}", s);
    }
}

#[test]
fn test_accept_fd_display() {
    let accept_fd = AcceptFd(1);
    assert_eq!("acceptfd:1", accept_fd.to_string());
}

#[test]
fn test_accept_fd_parse() {
    let accept_fd = AcceptFd(1);
    assert_eq!(accept_fd, AcceptFd::from_str("acceptfd:1").unwrap());
    let err = [
        "acceptfd",
        "acceptfd:",
        "acceptfd:-1",
        &format!("acceptfd:{}", OVERFLOW),
    ];
    for s in &err {
        assert!(AcceptFd::from_str(s).is_err(), "{}", s);
    }
}

fn kind_of(e: AdbError) -> ParseErrorKind {
    e.kind().unwrap()
}

#[test]
fn tcp_parse_examples() {
    assert_eq!(
        kind_of(Tcp::from_str("tcp:").unwrap_err()),
        ParseErrorKind::InvalidFormat
    );
    assert_eq!(Tcp::from_str("tcp:5555").unwrap(), Tcp::with_port(5555));
    assert_eq!(
        Tcp::from_str("tcp:127.0.0.1:5555").unwrap(),
        Tcp::new(IpAddr::V4(Ipv4Addr::new(127, 0, 0, 1)), 5555)
    );
    assert_eq!(
        Tcp::from_str("tcp:[::1]:5555").unwrap(),
        Tcp::new(IpAddr::V6(Ipv6Addr::new(0, 0, 0, 0, 0, 0, 0, 1)), 5555)
    );
    assert_eq!(
        Tcp::from_str("tcp:::1").unwrap(),
        Tcp::with_ipv6(Ipv6Addr::new(0, 0, 0, 0, 0, 0, 0, 1))
    );
    assert_eq!(
        kind_of(Tcp::from_str("tcp:1:2:3:4:5:6:7:8:5555").unwrap_err()),
        ParseErrorKind::InvalidFormat
    );
}

#[test]
fn ipv6_needs_brackets_only_before_a_port() {
    let one = Ipv6Addr::new(0, 0, 0, 0, 0, 0, 0, 1);
    let full = Ipv6Addr::new(0x1111, 0x2222, 0x3333, 0x4444, 0x5555, 0x6666, 0x7777, 0x8888);
    assert_eq!(Tcp::with_ipv6(one).to_string(), "tcp:::1");
    assert_eq!(
        Tcp::new(IpAddr::V6(one), 5555).to_string(),
        "tcp:[::1]:5555"
    );
    assert_eq!(
        Tcp::with_ipv6(full).to_string(),
        "tcp:1111:2222:3333:4444:5555:6666:7777:8888"
    );
    assert_eq!(Tcp::from_str("tcp:[::1]").unwrap(), Tcp::with_ipv6(one));
    assert_eq!(Tcp::from_str("tcp:::1").unwrap(), Tcp::with_ipv6(one));
    assert_eq!(
        Tcp::from_str("tcp:::").unwrap(),
        Tcp::with_ipv6(Ipv6Addr::new(0, 0, 0, 0, 0, 0, 0, 0))
    );
    assert_eq!(
        Tcp::from_str("tcp:1111:2222:3333:4444:5555:6666:7777:8888").unwrap(),
        Tcp::with_ipv6(full)
    );
    // without brackets all of the text is the address
    assert_eq!(
        Tcp::from_str("tcp:::1:5555").unwrap(),
        Tcp::with_ipv6(Ipv6Addr::new(0, 0, 0, 0, 0, 0, 1, 0x5555))
    );
    assert_eq!(
        Tcp::from_str("tcp:ffff::1:5555").unwrap(),
        Tcp::with_ipv6(Ipv6Addr::new(0xffff, 0, 0, 0, 0, 0, 1, 0x5555))
    );
    assert_eq!(
        Tcp::from_str("tcp:::ffff:10.0.0.1").unwrap(),
        Tcp::with_ipv6(Ipv6Addr::new(0, 0, 0, 0, 0, 0xffff, 0x0a00, 0x0001))
    );
    assert_eq!(
        Tcp::with_ipv6(Ipv6Addr::new(0, 0, 0, 0, 0, 0xffff, 0x0a00, 0x0001)).to_string(),
        "tcp:::ffff:10.0.0.1"
    );
    for bad in ["tcp:[::1", "tcp:::1]", "tcp:[[::1]]", "tcp:::1%1", "tcp:[::1%1]"] {
        assert!(Tcp::from_str(bad).is_err(), "{}", bad);
    }
}

#[test]
fn tcp_without_host_and_port_has_no_text() {
    let none = Tcp {
        ip: None,
        port: None,
    };
    assert_eq!(none.to_string(), "");
    assert!(Tcp::from_str(&none.to_string()).is_err());
}

#[test]
fn tcp_port_with_sign_and_zeros() {
    assert_eq!(Tcp::from_str("tcp:+80").unwrap(), Tcp::with_port(80));
    assert_eq!(Tcp::from_str("tcp:00080").unwrap(), Tcp::with_port(80));
    assert_eq!(
        Tcp::from_str("tcp:1.2.3.4:0080").unwrap(),
        Tcp::new(IpAddr::V4(Ipv4Addr::new(1, 2, 3, 4)), 80)
    );
    assert!(Tcp::from_str("tcp:1.2.3.4:+80").is_err());
    assert!(Tcp::from_str("tcp:01.2.3.4").is_err());
    assert!(Tcp::from_str("tcp:1.2.3.4.5").is_err());
    assert!(Tcp::from_str("tcp:1.2.3.").is_err());
}

#[test]
fn tcp_scope_is_read_and_dropped() {
    assert_eq!(
        Tcp::from_str("tcp:[fe80::1%5]:80").unwrap(),
        Tcp::new(
            IpAddr::V6(Ipv6Addr::new(0xfe80, 0, 0, 0, 0, 0, 0, 1)),
            80
        )
    );
    assert!(Tcp::from_str("tcp:[fe80::1%]:80").is_err());
    assert!(Tcp::from_str("tcp:[fe80::1%5]").is_err());
}

#[test]
fn vsock_and_jdwp_examples() {
    assert_eq!(
        Vsock::from_str("vsock:1:2").unwrap(),
        Vsock { cid: 1, port: 2 }
    );
    for s in ["vsock:1", "vsock::1", "vsock:-1:-1"] {
        assert_eq!(
            kind_of(Vsock::from_str(s).unwrap_err()),
            ParseErrorKind::InvalidFormat
        );
    }
    assert_eq!(Jdwp::from_str("jdwp:1234").unwrap(), Jdwp(1234));
    assert!(Jdwp::from_str("jdwp:4294967296").is_err());
    assert_eq!(Jdwp::from_str("jdwp:4294967295").unwrap(), Jdwp(u32::MAX));
}

#[test]
fn family_reads_every_variant() {
    let all = vec![
        AdbSocketFamily::Tcp(Tcp::with_port(5555)),
        AdbSocketFamily::Tcp(Tcp::new(
            IpAddr::V6(Ipv6Addr::new(0x2001, 0xdb8, 0, 0, 1, 0, 0, 1)),
            1,
        )),
        AdbSocketFamily::LocalAbstract(LocalAbstract("a:b".to_string())),
        AdbSocketFamily::LocalReserved(LocalReserved("r".to_string())),
        AdbSocketFamily::LocalFileSystem(LocalFileSystem("/tmp/s".to_string())),
        AdbSocketFamily::Dev(Dev("/dev/tty".to_string())),
        AdbSocketFamily::DevRaw(DevRaw("/dev/tty".to_string())),
        AdbSocketFamily::Jdwp(Jdwp(0)),
        AdbSocketFamily::Vsock(Vsock {
            cid: u32::MAX,
            port: 7,
        }),
        AdbSocketFamily::AcceptFd(AcceptFd(3)),
    ];
    for v in all {
        let text = v.to_string();
        assert_eq!(AdbSocketFamily::from_str(&text).unwrap(), v, "{}", text);
    }
    assert_eq!(
        AdbSocketFamily::from_str("dev-raw:x").unwrap(),
        AdbSocketFamily::DevRaw(DevRaw("x".to_string()))
    );
    let e = AdbSocketFamily::from_str("udp:1").unwrap_err();
    assert_eq!(kind_of(e.clone()), ParseErrorKind::InvalidFormat);
    assert_eq!(
        e.message(),
        "Failed to parse `udp:1` to `AdbSocketFamily`: invalid syntax"
    );
}

#[test]
fn error_carries_value_target_and_description() {
    match Vsock::from_str("vsock:1").unwrap_err() {
        AdbError::Parse(p) => {
            assert_eq!(p.value, "1");
            assert_eq!(p.target, "Vsock");
            assert_eq!(p.description, "missing port");
            assert_eq!(p.message(), "Failed to parse `1` to `Vsock`: missing port");
        }
        AdbError::Io(_) => panic!("not a parse error"),
    }
    match Jdwp::from_str("jdwp:x").unwrap_err() {
        AdbError::Parse(p) => {
            assert_eq!(p.value, "x");
            assert_eq!(p.target, "process pid (u32)");
            assert_eq!(
                p.message(),
                "Failed to parse `x` to `process pid (u32)`. source: invalid integer"
            );
        }
        AdbError::Io(_) => panic!("not a parse error"),
    }
}

#[test]
fn conversions_into_tcp_and_family() {
    let v4 = Ipv4Addr::new(127, 0, 0, 1);
    let v6 = Ipv6Addr::new(0, 0, 0, 0, 0, 0, 0, 1);
    assert_eq!(Tcp::from(v4), Tcp::with_ipv4(v4));
    assert_eq!(Tcp::from(v6), Tcp::with_ipv6(v6));
    assert_eq!(Tcp::from(IpAddr::V4(v4)), Tcp::with_ip(IpAddr::V4(v4)));
    assert_eq!(Tcp::from(5555u16), Tcp::with_port(5555));
    assert_eq!(
        Tcp::from(adbr::ip::SocketAddr::new(IpAddr::V6(v6), 1)),
        Tcp::new(IpAddr::V6(v6), 1)
    );
    let ip: IpAddr = v4.into();
    assert_eq!(ip, IpAddr::V4(v4));
    let family: AdbSocketFamily = Jdwp(7).into();
    assert_eq!(family, AdbSocketFamily::Jdwp(Jdwp(7)));
    let family: AdbSocketFamily = Tcp::with_port(1).into();
    assert_eq!(family.to_string(), "tcp:1");
    let family: AdbSocketFamily = Vsock { cid: 1, port: 2 }.into();
    assert_eq!(family.to_string(), "vsock:1:2");
}
