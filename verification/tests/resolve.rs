use adbr::error::{AdbError, ParseErrorKind};
use adbr::global_option::AdbGlobalOption;
use adbr::ip::{IpAddr, Ipv4Addr, Ipv6Addr, SocketAddr};
use adbr::resolve::{BuilderStep, Lookup, Step};
use adbr::socket::Tcp;
use adbr::Adb;

fn v4(port: u16) -> SocketAddr {
    SocketAddr::new(IpAddr::V4(Ipv4Addr::new(127, 0, 0, 1)), port)
}

fn v6(port: u16) -> SocketAddr {
    SocketAddr::new(IpAddr::V6(Ipv6Addr::new(0, 0, 0, 0, 0, 0, 0, 1)), port)
}

/// A resolver that knows `localhost` only, and wants a port with the name.
fn resolver(query: &str) -> Lookup {
    match query.rsplit_once(':') {
        Some(("localhost", port)) => match port.parse::<u16>() {
            Ok(p) => Lookup::Found(vec![v6(p), v4(p)]),
            Err(_) => Lookup::Failed,
        },
        _ => Lookup::Failed,
    }
}

fn tcp_from_host(host: &str) -> Result<Tcp, AdbError> {
    let mut answers = Vec::new();
    loop {
        match Tcp::from_host(host, &answers) {
            Step::Ask(q) => answers.push(resolver(&q)),
            Step::Done(r) => return r,
        }
    }
}

fn option_from_host(s: &str) -> Result<AdbGlobalOption, AdbError> {
    let mut answers = Vec::new();
    loop {
        match AdbGlobalOption::from_host(s, &answers) {
            Step::Ask(q) => answers.push(resolver(&q)),
            Step::Done(r) => return r,
        }
    }
}

fn tcp_resolve_ok() -> Vec<(&'static str, Tcp)> {
    vec![
        (
            "localhost:5555",
            Tcp::new(IpAddr::V4(Ipv4Addr::new(127, 0, 0, 1)), 5555),
        ),
        ("localhost", Tcp::with_ipv4(Ipv4Addr::new(127, 0, 0, 1))),
    ]
}

const TCP_RESOLVE_ERR: [&str; 6] = [
    "local-host",
    "local-host:5555",
    "localhost:",
    "abcd",
    "a.b.c.d",
    "a.b.c.d:p",
];

#[test]
fn test_tcp_resolve() {
    for (s, tcp) in tcp_resolve_ok() {
        assert_eq!(tcp, tcp_from_host(s).unwrap());
    }
    for s in TCP_RESOLVE_ERR {
        assert!(tcp_from_host(s).is_err(), "{}", s);
    }
}

#[test]
fn resolves_with_and_without_tag() {
    assert_eq!(
        tcp_from_host("tcp:localhost:8080").unwrap(),
        Tcp::new(IpAddr::V4(Ipv4Addr::new(127, 0, 0, 1)), 8080)
    );
    assert_eq!(tcp_from_host("tcp:5555").unwrap(), Tcp::with_port(5555));
}

#[test]
fn unresolved_names_fail_as_resolution() {
    for s in TCP_RESOLVE_ERR {
        let e = tcp_from_host(s).unwrap_err();
        assert_eq!(e.kind(), Some(ParseErrorKind::ResolutionFailed), "{}", s);
    }
    match tcp_from_host("nowhere").unwrap_err() {
        AdbError::Parse(p) => {
            assert_eq!(p.value, "nowhere");
            assert_eq!(p.target, "SocketAddr");
        }
        AdbError::Io(_) => panic!("not a parse error"),
    }
}

#[test]
fn steps_of_a_resolution() {
    assert_eq!(
        Tcp::from_host("tcp:127.0.0.1", &[]),
        Step::Done(Ok(Tcp::with_ipv4(Ipv4Addr::new(127, 0, 0, 1))))
    );
    assert_eq!(
        Tcp::from_host("tcp:name:80", &[]),
        Step::Ask("name:80".to_string())
    );
    assert_eq!(
        Tcp::from_host("name", &[Lookup::Failed]),
        Step::Ask("name:0".to_string())
    );
    assert_eq!(
        Tcp::from_host("name", &[Lookup::Found(vec![])]),
        Step::Ask("name:0".to_string())
    );
    assert_eq!(
        Tcp::from_host("name", &[Lookup::Found(vec![v6(7), v6(8)])]),
        Step::Done(Ok(Tcp::new(
            IpAddr::V6(Ipv6Addr::new(0, 0, 0, 0, 0, 0, 0, 1)),
            7
        )))
    );
    assert_eq!(
        Tcp::from_host("name", &[Lookup::Found(vec![v6(7), v4(8), v4(9)])]),
        Step::Done(Ok(Tcp::new(IpAddr::V4(Ipv4Addr::new(127, 0, 0, 1)), 8)))
    );
    assert_eq!(
        Tcp::from_host("name", &[Lookup::Failed, Lookup::Found(vec![v4(0)])]),
        Step::Done(Ok(Tcp::with_ipv4(Ipv4Addr::new(127, 0, 0, 1))))
    );
    match Tcp::from_host("name", &[Lookup::Found(vec![]), Lookup::Failed]) {
        Step::Done(Err(AdbError::Parse(p))) => {
            assert_eq!(p.kind, ParseErrorKind::ResolutionFailed);
            assert_eq!(p.description, "no socket addresses found");
            assert_eq!(p.value, "name");
        }
        other => panic!("{:?}", other),
    }
    assert_eq!(Lookup::Found(vec![v6(1), v4(2)]).pick(), Some(v4(2)));
    assert_eq!(Lookup::Found(vec![]).pick(), None);
    assert_eq!(Lookup::Failed.pick(), None);
}

#[test]
fn test_from_str_net_host() {
    let values = [
        (
            "-H localhost",
            AdbGlobalOption::Host(IpAddr::V4(Ipv4Addr::new(127, 0, 0, 1))),
        ),
        (
            "-L tcp:localhost",
            AdbGlobalOption::Listen(Tcp::with_ipv4(Ipv4Addr::new(127, 0, 0, 1))),
        ),
        (
            "-L tcp:localhost:1234",
            AdbGlobalOption::Listen(Tcp::new(IpAddr::V4(Ipv4Addr::new(127, 0, 0, 1)), 1234)),
        ),
    ];
    for (s, expected) in values {
        assert_eq!(option_from_host(s).unwrap(), expected);
    }
}

#[test]
fn ipv6_literals_ask_nothing() {
    let one = Ipv6Addr::new(0, 0, 0, 0, 0, 0, 0, 1);
    assert_eq!(
        Tcp::from_host("tcp:::1", &[]),
        Step::Done(Ok(Tcp::with_ipv6(one)))
    );
    assert_eq!(
        Tcp::from_host("tcp:[::1]:80", &[]),
        Step::Done(Ok(Tcp::new(IpAddr::V6(one), 80)))
    );
    assert_eq!(
        AdbGlobalOption::from_host("-H ::1", &[]),
        Step::Done(Ok(AdbGlobalOption::Host(IpAddr::V6(one))))
    );
    assert_eq!(
        AdbGlobalOption::from_host("-L tcp:::1", &[]),
        Step::Done(Ok(AdbGlobalOption::Listen(Tcp::with_ipv6(one))))
    );
}

#[test]
fn options_without_host_ask_nothing() {
    for s in ["-a", "  -s A ", "-P 1", "-q", "-t  7", "--one-device x"] {
        assert_eq!(
            AdbGlobalOption::from_host(s, &[]),
            Step::Done(AdbGlobalOption::from_str(s)),
            "{}",
            s
        );
    }
    assert_eq!(
        AdbGlobalOption::from_host("-H 10.0.0.1", &[]),
        Step::Done(Ok(AdbGlobalOption::Host(IpAddr::V4(Ipv4Addr::new(
            10, 0, 0, 1
        )))))
    );
    assert_eq!(
        AdbGlobalOption::from_host(" -H  name ", &[]),
        Step::Ask("name".to_string())
    );
    match AdbGlobalOption::from_host("-H 5555", &[]) {
        Step::Done(Err(e)) => assert_eq!(e.kind(), Some(ParseErrorKind::InvalidValue)),
        other => panic!("{:?}", other),
    }
    assert_eq!(
        option_from_host("-H nowhere").unwrap_err().kind(),
        Some(ParseErrorKind::ResolutionFailed)
    );
}

#[test]
fn builder_with_resolved_host() {
    let adb = Adb::default();
    let mut answers = Vec::new();
    let mut builder = adb.serial("S");
    let done = loop {
        match builder.host_resolved("localhost", &answers) {
            BuilderStep::Ask(b, q) => {
                builder = b;
                answers.push(resolver(&q));
            }
            BuilderStep::Done(r) => break r,
        }
    };
    assert_eq!(
        done.unwrap().global_args(),
        vec!["-s S".to_string(), "-H 127.0.0.1".to_string()]
    );
    match adb.command().listen_resolved("tcp:localhost:7", &[]) {
        BuilderStep::Ask(_, q) => assert_eq!(q, "localhost:7"),
        other => panic!("{:?}", other),
    }
    match adb
        .command()
        .listen_resolved("tcp:localhost:7", &[resolver("localhost:7")])
    {
        BuilderStep::Done(Ok(b)) => {
            assert_eq!(b.global_args(), vec!["-L tcp:127.0.0.1:7".to_string()])
        }
        other => panic!("{:?}", other),
    }
    match adb
        .command()
        .host_resolved("nowhere", &[Lookup::Failed, Lookup::Failed])
    {
        BuilderStep::Done(Err(e)) => {
            assert_eq!(e.kind(), Some(ParseErrorKind::ResolutionFailed))
        }
        other => panic!("{:?}", other),
    }
}
