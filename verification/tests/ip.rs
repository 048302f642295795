use adbr::ip::{IpAddr, Ipv4Addr, Ipv6Addr, SocketAddr};

fn v6(text: &str) -> Option<[u16; 8]> {
    Ipv6Addr::from_str(text).map(|a| a.segments())
}

#[test]
fn ipv4_text_and_back() {
    let a = Ipv4Addr::new(192, 168, 0, 1);
    assert_eq!(a.to_string(), "192.168.0.1");
    assert_eq!(Ipv4Addr::from_str("192.168.0.1"), Some(a));
    assert_eq!(Ipv4Addr::new(0, 0, 0, 0).to_string(), "0.0.0.0");
    assert_eq!(
        Ipv4Addr::new(255, 255, 255, 255).to_string(),
        "255.255.255.255"
    );
    for bad in [
        "", "1", "1.2.3", "1.2.3.4.5", "256.1.1.1", "01.1.1.1", "1.1.1.1 ", "1..1.1", "a.b.c.d",
        "1.1.1.0001", "+1.1.1.1",
    ] {
        assert_eq!(Ipv4Addr::from_str(bad), None, "{}", bad);
    }
}

#[test]
fn ipv6_text_forms() {
    let cases: Vec<([u16; 8], &str)> = vec![
        ([0, 0, 0, 0, 0, 0, 0, 0], "::"),
        ([0, 0, 0, 0, 0, 0, 0, 1], "::1"),
        ([1, 0, 0, 0, 0, 0, 0, 0], "1::"),
        ([0x2001, 0xdb8, 0, 0, 0, 0, 0, 1], "2001:db8::1"),
        ([0x2001, 0xdb8, 0, 1, 0, 0, 0, 1], "2001:db8:0:1::1"),
        ([0x2001, 0, 0, 1, 0, 0, 1, 1], "2001::1:0:0:1:1"),
        ([1, 2, 3, 4, 5, 6, 7, 8], "1:2:3:4:5:6:7:8"),
        ([1, 0, 3, 4, 5, 6, 7, 8], "1:0:3:4:5:6:7:8"),
        ([0, 0, 0, 0, 0, 0xffff, 0xc000, 0x0280], "::ffff:192.0.2.128"),
        ([0, 0, 0, 0, 0, 0, 0xc000, 0x0280], "::c000:280"),
        ([0xffff, 0xffff, 0xffff, 0xffff, 0xffff, 0xffff, 0xffff, 0xffff],
         "ffff:ffff:ffff:ffff:ffff:ffff:ffff:ffff"),
        ([0, 0, 1, 0, 0, 0, 1, 0], "0:0:1::1:0"),
    ];
    for (g, text) in cases {
        let a = Ipv6Addr { segments: g };
        assert_eq!(a.to_string(), text);
        assert_eq!(v6(text), Some(g), "{}", text);
    }
}

#[test]
fn ipv6_reads_more_than_it_writes() {
    assert_eq!(v6("0:0:0:0:0:0:0:1"), Some([0, 0, 0, 0, 0, 0, 0, 1]));
    assert_eq!(v6("ABCD:Ef01::"), Some([0xabcd, 0xef01, 0, 0, 0, 0, 0, 0]));
    assert_eq!(v6("0001::0002"), Some([1, 0, 0, 0, 0, 0, 0, 2]));
    assert_eq!(
        v6("1:2:3:4:5:6:1.2.3.4"),
        Some([1, 2, 3, 4, 5, 6, 0x0102, 0x0304])
    );
    assert_eq!(v6("::1.2.3.4"), Some([0, 0, 0, 0, 0, 0, 0x0102, 0x0304]));
    assert_eq!(v6("1:2:3:4:5:6:7::"), Some([1, 2, 3, 4, 5, 6, 7, 0]));
    assert_eq!(v6("::2:3:4:5:6:7:8"), Some([0, 2, 3, 4, 5, 6, 7, 8]));
    for bad in [
        "", ":", ":::", "1", "1:2:3:4:5:6:7", "1:2:3:4:5:6:7:8:9", "1:2:3:4:5:6:7:8::",
        "::1:2:3:4:5:6:7:8", "1::2::3", "12345::", "g::", "1.2.3.4::", "::1.2.3.4:5",
        "1:2:3:4:5:6:7:1.2.3.4", "1:2:3:4:5:6::1.2.3.4", ":1::", "::1:", "[::1]", "::1%1",
    ] {
        assert_eq!(v6(bad), None, "{}", bad);
    }
}

#[test]
fn ip_of_either_family() {
    assert_eq!(
        IpAddr::from_str("10.0.0.1"),
        Some(IpAddr::V4(Ipv4Addr::new(10, 0, 0, 1)))
    );
    assert_eq!(
        IpAddr::from_str("::1"),
        Some(IpAddr::V6(Ipv6Addr::new(0, 0, 0, 0, 0, 0, 0, 1)))
    );
    assert_eq!(IpAddr::from_str("localhost"), None);
    assert_eq!(IpAddr::V4(Ipv4Addr::new(10, 0, 0, 1)).to_string(), "10.0.0.1");
}

#[test]
fn socket_address_forms() {
    let text: Vec<char> = "127.0.0.1:8080".chars().collect();
    assert_eq!(
        SocketAddr::parse(&text),
        Some(SocketAddr::new(IpAddr::V4(Ipv4Addr::new(127, 0, 0, 1)), 8080))
    );
    let text: Vec<char> = "[::1]:65535".chars().collect();
    assert_eq!(
        SocketAddr::parse(&text),
        Some(SocketAddr::new(
            IpAddr::V6(Ipv6Addr::new(0, 0, 0, 0, 0, 0, 0, 1)),
            65535
        ))
    );
    for bad in ["127.0.0.1", "127.0.0.1:", "127.0.0.1:65536", "::1:80", "[::1]", "[::1]80", "[::1]:"] {
        let text: Vec<char> = bad.chars().collect();
        assert_eq!(SocketAddr::parse(&text), None, "{}", bad);
    }
}
