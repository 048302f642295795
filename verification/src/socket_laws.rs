//! The law of the socket grammar: the text of a valid socket is read back as
//! that socket.

use vstd::prelude::*;
use crate::ip::{
    ipv4_parse, ipv4_text, ipv6_parse, ipv6_text, scoped_ipv6_parse, socket_addr_v4_parse,
    socket_addr_v6_parse, IpModel,
};
use crate::ip_laws::{
    is_ipv4_char, is_ipv6_char, lemma_ipv4_parse_shape, lemma_ipv4_round_trip,
    lemma_ipv4_text_shape, lemma_ipv6_first_colon, lemma_ipv6_not_ipv4, lemma_ipv6_parse_starts,
    lemma_ipv6_round_trip, lemma_ipv6_text_shape,
};
use crate::number::{decimal_text, is_digit, lemma_decimal_text, parse_digits, parse_unsigned};
use crate::scan::{
    first_index, free_of, lemma_first_index, lemma_first_index_is, lemma_split_free,
    lemma_split_step,
};
use crate::socket::{
    socket_parse, socket_text, tagged, tcp_parse, tcp_tag, tcp_text, tcp_value_parse, SocketModel,
    Tagged, TcpModel,
};

verus! {

/// The numeral written for a number is read back as that number, with or
/// without allowance for a sign.
pub proof fn lemma_number_round_trip(n: nat, max: nat)
    requires
        n <= max,
    ensures
        parse_digits(decimal_text(n), max) == Some(n),
        parse_unsigned(decimal_text(n), max) == Some(n),
        free_of(decimal_text(n), ':'),
{
    lemma_decimal_text(n);
    let t = decimal_text(n);
    assert(is_digit(t[0]));
}

/// What follows a tag that was written: the text after the colon, under that
/// tag and under no other.
pub proof fn lemma_tagged(key: Seq<char>, v: Seq<char>, other: Seq<char>)
    requires
        free_of(key, ':'),
    ensures
        tagged(key + seq![':'] + v, key) == if v.len() == 0 {
            Tagged::Empty
        } else {
            Tagged::Value(v)
        },
        other != key ==> tagged(key + seq![':'] + v, other) == Tagged::Absent,
{
    lemma_split_step(key, v, ':');
}

/// A text that does not start with `t` is no TCP socket.
pub proof fn lemma_not_tcp(s: Seq<char>)
    requires
        s.len() > 0,
        s[0] != 't',
    ensures
        tcp_parse(s) is Err,
{
    if s.len() > 4 {
        assert(s.take(4)[0] == s[0]);
    }
}

/// A text that does not start with `+` and holds a character that is no digit
/// is no port.
proof fn lemma_not_a_port(v: Seq<char>, k: int)
    requires
        0 <= k < v.len(),
        !is_digit(v[k]),
        v[0] != '+',
    ensures
        parse_unsigned(v, 65535) is None,
{
}

/// A text that starts with `[` is no IPv4 address, alone or with a port.
proof fn lemma_bracket_not_ipv4(v: Seq<char>)
    requires
        v.len() > 0,
        v[0] == '[',
    ensures
        ipv4_parse(v) is None,
        socket_addr_v4_parse(v) is None,
{
    if ipv4_parse(v) is Some {
        lemma_ipv4_parse_shape(v);
    }
    lemma_first_index(v, ':');
    let i = first_index(v, ':');
    if i < v.len() {
        let host = v.take(i);
        if ipv4_parse(host) is Some {
            lemma_ipv4_parse_shape(host);
            assert(host[0] == v[0]);
        }
    }
}

/// After `tcp:`, a text that is not empty is read by the grammar of the part
/// after the tag.
proof fn lemma_tcp_prefixed(v: Seq<char>)
    requires
        v.len() > 0,
    ensures
        tcp_parse(tcp_tag() + v) == tcp_value_parse(v),
{
    let s = tcp_tag() + v;
    assert(s.take(4) =~= tcp_tag());
    assert(s.skip(4) =~= v);
}

/// An IPv4 text holds no colon.
proof fn lemma_ipv4_text_no_colon(o: Seq<u8>)
    requires
        o.len() == 4,
    ensures
        free_of(ipv4_text(o), ':'),
{
    let a = ipv4_text(o);
    lemma_ipv4_text_shape(o);
    assert forall|i: int| 0 <= i < a.len() implies a[i] != ':' by {
        assert(is_ipv4_char(a[i]));
    }
}

/// An IPv6 text holds neither `]` nor `%`.
proof fn lemma_ipv6_text_plain(g: Seq<u16>)
    requires
        g.len() == 8,
    ensures
        free_of(ipv6_text(g), ']'),
        free_of(ipv6_text(g), '%'),
{
    let a = ipv6_text(g);
    lemma_ipv6_text_shape(g);
    assert forall|i: int| 0 <= i < a.len() implies a[i] != ']' && a[i] != '%' by {
        assert(is_ipv6_char(a[i]));
    }
}

/// Where the closing bracket stands in an IPv6 text in square brackets.
proof fn lemma_closing_bracket(g: Seq<u16>, rest: Seq<char>)
    requires
        g.len() == 8,
    ensures
        first_index(seq!['['] + ipv6_text(g) + seq![']'] + rest, ']') == ipv6_text(g).len() + 1,
{
    let a = ipv6_text(g);
    let v = seq!['['] + a + seq![']'] + rest;
    lemma_ipv6_text_plain(g);
    let close = a.len() as int + 1;
    assert forall|j: int| 0 <= j < close implies v[j] != ']' by {
        if j > 0 {
            assert(v[j] == a[j - 1]);
        }
    }
    assert(v[close] == ']');
    lemma_first_index_is(v, ']', close);
}

/// A port alone, written out, is read back.
proof fn lemma_value_port(p: u16)
    ensures
        tcp_value_parse(decimal_text(p as nat)) == Ok::<TcpModel, crate::error::Failure>(
            TcpModel { ip: None, port: Some(p) },
        ),
{
    lemma_number_round_trip(p as nat, 65535);
}

/// An IPv4 address with a port, written out, is read back.
proof fn lemma_value_v4_port(o: Seq<u8>, p: u16)
    requires
        o.len() == 4,
    ensures
        tcp_value_parse(ipv4_text(o) + seq![':'] + decimal_text(p as nat)) == Ok::<
            TcpModel,
            crate::error::Failure,
        >(TcpModel { ip: Some(IpModel::V4(o)), port: Some(p) }),
{
    let a = ipv4_text(o);
    let d = decimal_text(p as nat);
    let v = a + seq![':'] + d;
    lemma_ipv4_text_shape(o);
    lemma_ipv4_round_trip(o);
    lemma_ipv4_text_no_colon(o);
    lemma_number_round_trip(p as nat, 65535);
    assert(v[a.len() as int] == ':');
    assert(v[0] == a[0]);
    lemma_not_a_port(v, a.len() as int);
    lemma_split_step(a, d, ':');
    assert(socket_addr_v4_parse(v) == Some((o, p)));
}

/// An IPv4 address alone, written out, is read back.
proof fn lemma_value_v4(o: Seq<u8>)
    requires
        o.len() == 4,
    ensures
        tcp_value_parse(ipv4_text(o)) == Ok::<TcpModel, crate::error::Failure>(
            TcpModel { ip: Some(IpModel::V4(o)), port: None },
        ),
{
    let v = ipv4_text(o);
    lemma_ipv4_text_shape(o);
    lemma_ipv4_round_trip(o);
    lemma_ipv4_text_no_colon(o);
    let k = choose|k: int| 0 <= k < v.len() && !is_digit(v[k]);
    lemma_not_a_port(v, k);
    lemma_split_free(v, ':');
    assert(socket_addr_v4_parse(v) is None);
    assert(socket_addr_v6_parse(v) is None);
}

/// An IPv6 address with a port, written out, is read back.
proof fn lemma_value_v6_port(g: Seq<u16>, p: u16)
    requires
        g.len() == 8,
    ensures
        tcp_value_parse(seq!['['] + ipv6_text(g) + seq![']', ':'] + decimal_text(p as nat))
            == Ok::<TcpModel, crate::error::Failure>(
            TcpModel { ip: Some(IpModel::V6(g)), port: Some(p) },
        ),
{
    let a = ipv6_text(g);
    let d = decimal_text(p as nat);
    let v = seq!['['] + a + seq![']', ':'] + d;
    lemma_ipv6_round_trip(g);
    lemma_ipv6_text_plain(g);
    lemma_number_round_trip(p as nat, 65535);
    lemma_not_a_port(v, 0);
    lemma_bracket_not_ipv4(v);
    let close = a.len() as int + 1;
    assert(v =~= seq!['['] + a + seq![']'] + (seq![':'] + d));
    lemma_closing_bracket(g, seq![':'] + d);
    assert(v[close + 1] == ':');
    assert(v.subrange(1, close) =~= a);
    assert(v.skip(close + 2) =~= d);
    lemma_split_free(a, '%');
    assert(scoped_ipv6_parse(a) == Some(g));
    assert(socket_addr_v6_parse(v) == Some((g, p)));
}

/// An IPv6 address alone, written out, is read back.
proof fn lemma_value_v6(g: Seq<u16>)
    requires
        g.len() == 8,
    ensures
        tcp_value_parse(ipv6_text(g)) == Ok::<TcpModel, crate::error::Failure>(
            TcpModel { ip: Some(IpModel::V6(g)), port: None },
        ),
{
    let v = ipv6_text(g);
    lemma_ipv6_round_trip(g);
    lemma_ipv6_text_shape(g);
    lemma_ipv6_first_colon(g);
    lemma_ipv6_not_ipv4(g);
    lemma_first_index(v, ':');
    let colon = first_index(v, ':');
    assert(is_ipv6_char(v[0]));
    lemma_not_a_port(v, colon);
    let host = v.take(colon);
    if ipv4_parse(host) is Some {
        lemma_ipv4_parse_shape(host);
    }
    assert(socket_addr_v4_parse(v) is None);
    assert(socket_addr_v6_parse(v) is None);
}

/// An IPv6 address alone in square brackets is read as that address.
pub proof fn lemma_bracketed_v6(g: Seq<u16>)
    requires
        g.len() == 8,
    ensures
        tcp_value_parse(seq!['['] + ipv6_text(g) + seq![']']) == Ok::<
            TcpModel,
            crate::error::Failure,
        >(TcpModel { ip: Some(IpModel::V6(g)), port: None }),
{
    let a = ipv6_text(g);
    let v = seq!['['] + a + seq![']'];
    lemma_ipv6_round_trip(g);
    lemma_not_a_port(v, 0);
    lemma_bracket_not_ipv4(v);
    assert(v =~= seq!['['] + a + seq![']'] + Seq::<char>::empty());
    lemma_closing_bracket(g, Seq::<char>::empty());
    assert(socket_addr_v6_parse(v) is None);
    assert(v.subrange(1, v.len() - 1) =~= a);
    lemma_bracket_not_ipv6(v);
}

/// A text that starts with `[` is no IPv6 address.
proof fn lemma_bracket_not_ipv6(v: Seq<char>)
    requires
        v.len() > 0,
        v[0] == '[',
    ensures
        ipv6_parse(v) is None,
{
    if ipv6_parse(v) is Some {
        lemma_ipv6_parse_starts(v);
    }
}

/// The text of a valid TCP socket is read back as that socket.
pub proof fn lemma_tcp_round_trip(t: TcpModel)
    requires
        t.valid(),
    ensures
        tcp_parse(tcp_text(t)) == Ok::<TcpModel, crate::error::Failure>(t),
{
    let s = tcp_text(t);
    match (t.ip, t.port) {
        (Some(IpModel::V4(o)), Some(p)) => {
            let v = ipv4_text(o) + seq![':'] + decimal_text(p as nat);
            assert(s =~= tcp_tag() + v);
            lemma_tcp_prefixed(v);
            lemma_value_v4_port(o, p);
        },
        (Some(IpModel::V4(o)), None) => {
            let v = ipv4_text(o);
            lemma_ipv4_text_shape(o);
            assert(s =~= tcp_tag() + v);
            lemma_tcp_prefixed(v);
            lemma_value_v4(o);
        },
        (Some(IpModel::V6(g)), Some(p)) => {
            let v = seq!['['] + ipv6_text(g) + seq![']', ':'] + decimal_text(p as nat);
            assert(s =~= tcp_tag() + v);
            lemma_tcp_prefixed(v);
            lemma_value_v6_port(g, p);
        },
        (Some(IpModel::V6(g)), None) => {
            let v = ipv6_text(g);
            lemma_ipv6_text_shape(g);
            assert(s =~= tcp_tag() + v);
            lemma_tcp_prefixed(v);
            lemma_value_v6(g);
        },
        (None, Some(p)) => {
            let v = decimal_text(p as nat);
            lemma_decimal_text(p as nat);
            assert(s =~= tcp_tag() + v);
            lemma_tcp_prefixed(v);
            lemma_value_port(p);
        },
        (None, None) => {},
    }
}

/// The tags of the families: none holds a colon, none starts with `t`, and no
/// two are the same.
proof fn lemma_tags()
    ensures
        free_of("localabstract"@, ':'),
        free_of("localreserved"@, ':'),
        free_of("localfilesystem"@, ':'),
        free_of("dev"@, ':'),
        free_of("dev-raw"@, ':'),
        free_of("jdwp"@, ':'),
        free_of("vsock"@, ':'),
        free_of("acceptfd"@, ':'),
        "localabstract"@.len() == 13 && "localabstract"@[0] == 'l' && "localabstract"@[5] == 'a',
        "localreserved"@.len() == 13 && "localreserved"@[0] == 'l' && "localreserved"@[5] == 'r',
        "localfilesystem"@.len() == 15 && "localfilesystem"@[0] == 'l',
        "dev"@.len() == 3 && "dev"@[0] == 'd',
        "dev-raw"@.len() == 7 && "dev-raw"@[0] == 'd',
        "jdwp"@.len() == 4 && "jdwp"@[0] == 'j',
        "vsock"@.len() == 5 && "vsock"@[0] == 'v',
        "acceptfd"@.len() == 8 && "acceptfd"@[0] == 'a',
{
    reveal_strlit("localabstract");
    reveal_strlit("localreserved");
    reveal_strlit("localfilesystem");
    reveal_strlit("dev");
    reveal_strlit("dev-raw");
    reveal_strlit("jdwp");
    reveal_strlit("vsock");
    reveal_strlit("acceptfd");
}

/// A tagged text whose tag does not start with `t` is no TCP socket.
proof fn lemma_tagged_not_tcp(key: Seq<char>, v: Seq<char>)
    requires
        key.len() > 0,
        key[0] != 't',
    ensures
        tcp_parse(key + seq![':'] + v) is Err,
{
    let s = key + seq![':'] + v;
    assert(s[0] == key[0]);
    lemma_not_tcp(s);
}

/// The text of a valid socket is read back as that socket.
///
/// Valid means: a TCP socket has an address or a port, and the name of a
/// local socket or of a device is not empty.
pub proof fn lemma_socket_round_trip(m: SocketModel)
    requires
        m.valid(),
    ensures
        socket_parse(socket_text(m)) == Ok::<SocketModel, crate::error::Failure>(m),
{
    lemma_tags();
    let s = socket_text(m);
    let la = "localabstract"@;
    let lr = "localreserved"@;
    let lf = "localfilesystem"@;
    let dv = "dev"@;
    let dr = "dev-raw"@;
    let jd = "jdwp"@;
    let vs = "vsock"@;
    let af = "acceptfd"@;
    match m {
        SocketModel::Tcp(t) => {
            lemma_tcp_round_trip(t);
        },
        SocketModel::LocalAbstract(n) => {
            lemma_tagged_not_tcp(la, n);
            lemma_tagged(la, n, la);
        },
        SocketModel::LocalReserved(n) => {
            lemma_tagged_not_tcp(lr, n);
            lemma_tagged(lr, n, la);
        },
        SocketModel::LocalFileSystem(n) => {
            lemma_tagged_not_tcp(lf, n);
            lemma_tagged(lf, n, la);
            lemma_tagged(lf, n, lr);
        },
        SocketModel::Dev(n) => {
            lemma_tagged_not_tcp(dv, n);
            lemma_tagged(dv, n, la);
            lemma_tagged(dv, n, lr);
            lemma_tagged(dv, n, lf);
        },
        SocketModel::DevRaw(n) => {
            lemma_tagged_not_tcp(dr, n);
            lemma_tagged(dr, n, la);
            lemma_tagged(dr, n, lr);
            lemma_tagged(dr, n, lf);
            lemma_tagged(dr, n, dv);
        },
        SocketModel::Jdwp(n) => {
            let d = decimal_text(n as nat);
            lemma_number_round_trip(n as nat, 0xffff_ffff);
            lemma_tagged_not_tcp(jd, d);
            lemma_tagged(jd, d, la);
            lemma_tagged(jd, d, lr);
            lemma_tagged(jd, d, lf);
            lemma_tagged(jd, d, dv);
            lemma_tagged(jd, d, dr);
        },
        SocketModel::Vsock { cid, port } => {
            let c = decimal_text(cid as nat);
            let p = decimal_text(port as nat);
            let v = c + seq![':'] + p;
            lemma_number_round_trip(cid as nat, 0xffff_ffff);
            lemma_number_round_trip(port as nat, 0xffff_ffff);
            assert(s =~= vs + seq![':'] + v);
            lemma_tagged_not_tcp(vs, v);
            lemma_tagged(vs, v, la);
            lemma_tagged(vs, v, lr);
            lemma_tagged(vs, v, lf);
            lemma_tagged(vs, v, dv);
            lemma_tagged(vs, v, dr);
            lemma_tagged(vs, v, jd);
            lemma_split_step(c, p, ':');
        },
        SocketModel::AcceptFd(n) => {
            let d = decimal_text(n as nat);
            lemma_number_round_trip(n as nat, 0xffff_ffff);
            lemma_tagged_not_tcp(af, d);
            lemma_tagged(af, d, la);
            lemma_tagged(af, d, lr);
            lemma_tagged(af, d, lf);
            lemma_tagged(af, d, dv);
            lemma_tagged(af, d, dr);
            lemma_tagged(af, d, jd);
            lemma_tagged(af, d, vs);
        },
    }
}

} // verus!
