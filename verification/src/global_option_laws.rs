//! The law of the global options: the text of an option is read back as that
//! option, for every option whose value is itself read back.

use vstd::prelude::*;
use crate::error::Failure;
use crate::global_option::{
    flag_of, option_parse, option_text, plain_option, value_of, valued_option, OptionModel,
};
use crate::ip::{ip_text, ipv4_text, ipv6_text, IpModel};
use crate::ip_laws::{
    is_ipv4_char, is_ipv6_char, lemma_ip_round_trip, lemma_ipv4_text_shape, lemma_ipv6_text_shape,
};
use crate::number::{decimal_text, is_digit, lemma_decimal_text};
use crate::scan::{
    first_space, is_space, lemma_first_space_is, lemma_leading_spaces_is,
    lemma_trailing_spaces_is, trim,
};
use crate::socket::{tcp_text, TcpModel};
use crate::socket_laws::{lemma_number_round_trip, lemma_tcp_round_trip};

verus! {

/// A value that a flag can carry: it is not empty, and it neither starts nor
/// ends with white space.
pub open spec fn is_value(s: Seq<char>) -> bool {
    s.len() > 0 && !is_space(s[0]) && !is_space(s.last())
}

/// Whether the value of an option is one that its text gives back: a serial
/// number, a transport id or a device is a value as `is_value` says; an
/// address is well formed; a socket has an address or a port.
pub open spec fn option_valid(m: OptionModel) -> bool {
    match m {
        OptionModel::Serial(s) => is_value(s),
        OptionModel::TransportId(s) => is_value(s),
        OptionModel::OneDevice(s) => is_value(s),
        OptionModel::Host(ip) => ip.well_formed(),
        OptionModel::Listen(t) => t.valid(),
        _ => true,
    }
}

/// Trimming a text that neither starts nor ends with white space changes nothing.
pub proof fn lemma_trim_value(s: Seq<char>)
    requires
        is_value(s),
    ensures
        trim(s) == s,
{
    lemma_leading_spaces_is(s, 0);
    assert(s.skip(0) =~= s);
    lemma_trailing_spaces_is(s, 0);
    assert(s.take(s.len() as int) =~= s);
}

/// A flag, one space and a value: the flag and the value are what reading
/// finds in that text.
pub proof fn lemma_flag_and_value(flag: Seq<char>, value: Seq<char>)
    requires
        flag.len() > 0,
        forall|i: int| 0 <= i < flag.len() ==> !is_space(flag[i]),
        is_value(value),
    ensures
        trim(flag + seq![' '] + value) == flag + seq![' '] + value,
        first_space(flag + seq![' '] + value) == flag.len(),
        flag_of(flag + seq![' '] + value) == flag,
        value_of(flag + seq![' '] + value) == value,
{
    let text = flag + seq![' '] + value;
    let n = flag.len() as int;
    assert(text[0] == flag[0]);
    assert(text.last() == value.last());
    lemma_trim_value(text);
    assert forall|j: int| 0 <= j < n implies !is_space(text[j]) by {
        assert(text[j] == flag[j]);
    }
    assert(text[n] == ' ');
    lemma_first_space_is(text, n);
    assert(text.take(n) =~= flag);
    assert(text.skip(n + 1) =~= value);
    lemma_trim_value(value);
}

/// The numeral of a number is a value that a flag can carry.
pub proof fn lemma_number_text_is_value(n: nat)
    ensures
        is_value(decimal_text(n)),
{
    lemma_decimal_text(n);
    let d = decimal_text(n);
    assert(is_digit(d[0]) && is_digit(d.last()));
}

/// The text of a valid socket is a value that a flag can carry.
pub proof fn lemma_tcp_text_is_value(t: TcpModel)
    requires
        t.valid(),
    ensures
        is_value(tcp_text(t)),
{
    let s = tcp_text(t);
    match (t.ip, t.port) {
        (Some(a), Some(p)) => {
            lemma_number_text_is_value(p as nat);
            let d = decimal_text(p as nat);
            assert(s[0] == 't');
            assert(s.last() == d.last());
        },
        (Some(IpModel::V4(o)), None) => {
            lemma_ip_text_is_value(IpModel::V4(o));
            let a = ipv4_text(o);
            assert(s[0] == 't');
            assert(s.last() == a.last());
        },
        (Some(IpModel::V6(g)), None) => {
            lemma_ip_text_is_value(IpModel::V6(g));
            let a = ipv6_text(g);
            assert(s[0] == 't');
            assert(s.last() == a.last());
        },
        (None, Some(p)) => {
            lemma_number_text_is_value(p as nat);
            let d = decimal_text(p as nat);
            assert(s[0] == 't');
            assert(s.last() == d.last());
        },
        (None, None) => {},
    }
}

/// The text of a well-formed address is a value that a flag can carry.
pub proof fn lemma_ip_text_is_value(ip: IpModel)
    requires
        ip.well_formed(),
    ensures
        is_value(ip_text(ip)),
{
    match ip {
        IpModel::V4(o) => {
            lemma_ipv4_text_shape(o);
            let a = ipv4_text(o);
            assert(is_ipv4_char(a[0]) && is_ipv4_char(a.last()));
        },
        IpModel::V6(g) => {
            lemma_ipv6_text_shape(g);
            let a = ipv6_text(g);
            assert(is_ipv6_char(a[0]) && is_ipv6_char(a.last()));
        },
    }
}

/// What the flags are made of: none holds white space, none is one of the
/// flags without a value, and no two are the same.
proof fn lemma_flags()
    ensures
        "-a"@ == seq!['-', 'a'],
        "-d"@ == seq!['-', 'd'],
        "-e"@ == seq!['-', 'e'],
        "--exit-on-write-error"@.len() == 21 && "--exit-on-write-error"@[1] == '-'
            && "--exit-on-write-error"@[2] == 'e',
        "-s"@ == seq!['-', 's'],
        "-t"@ == seq!['-', 't'],
        "-H"@ == seq!['-', 'H'],
        "-P"@ == seq!['-', 'P'],
        "-L"@ == seq!['-', 'L'],
        "--one-device"@.len() == 12 && "--one-device"@[0] == '-' && "--one-device"@[1] == '-'
            && "--one-device"@[2] == 'o',
        forall|i: int| 0 <= i < 12 ==> !is_space(#[trigger] "--one-device"@[i]),
{
    reveal_strlit("-a");
    reveal_strlit("-d");
    reveal_strlit("-e");
    reveal_strlit("--exit-on-write-error");
    reveal_strlit("-s");
    reveal_strlit("-t");
    reveal_strlit("-H");
    reveal_strlit("-P");
    reveal_strlit("-L");
    reveal_strlit("--one-device");
    assert("-a"@ =~= seq!['-', 'a']);
    assert("-d"@ =~= seq!['-', 'd']);
    assert("-e"@ =~= seq!['-', 'e']);
    assert("-s"@ =~= seq!['-', 's']);
    assert("-t"@ =~= seq!['-', 't']);
    assert("-H"@ =~= seq!['-', 'H']);
    assert("-P"@ =~= seq!['-', 'P']);
    assert("-L"@ =~= seq!['-', 'L']);
}

/// A flag with a value, written out, is read as that flag with that value.
proof fn lemma_valued_text(flag: Seq<char>, value: Seq<char>)
    requires
        flag == "-s"@ || flag == "-t"@ || flag == "-H"@ || flag == "-P"@ || flag == "-L"@ || flag
            == "--one-device"@,
        is_value(value),
    ensures
        option_parse(flag + seq![' '] + value) == valued_option(flag, value),
{
    lemma_flags();
    let text = flag + seq![' '] + value;
    lemma_flag_and_value(flag, value);
    assert(text[1] == flag[1]);
    assert(text[2] == if flag.len() == 2 {
        ' '
    } else {
        flag[2]
    });
    assert(plain_option(text) is None);
}

/// The text of an option is read back as that option, for every option whose
/// value is itself read back: see `option_valid`.
pub proof fn lemma_option_round_trip(m: OptionModel)
    requires
        option_valid(m),
    ensures
        option_parse(option_text(m)) == Ok::<OptionModel, Failure>(m),
{
    lemma_flags();
    match m {
        OptionModel::ListenAll => {
            lemma_plain_text("-a"@);
        },
        OptionModel::Usb => {
            lemma_plain_text("-d"@);
            assert("-d"@[1] != "-a"@[1]);
        },
        OptionModel::TcpIp => {
            lemma_plain_text("-e"@);
            assert("-e"@[1] != "-a"@[1]);
            assert("-e"@[1] != "-d"@[1]);
        },
        OptionModel::ExitOnWriteError => {
            lemma_plain_text("--exit-on-write-error"@);
        },
        OptionModel::Serial(s) => {
            lemma_valued_text("-s"@, s);
        },
        OptionModel::TransportId(s) => {
            lemma_valued_text("-t"@, s);
        },
        OptionModel::OneDevice(s) => {
            lemma_valued_text("--one-device"@, s);
        },
        OptionModel::Host(ip) => {
            lemma_ip_text_is_value(ip);
            lemma_valued_text("-H"@, ip_text(ip));
            lemma_ip_round_trip(ip);
        },
        OptionModel::Port(p) => {
            lemma_number_text_is_value(p as nat);
            lemma_valued_text("-P"@, decimal_text(p as nat));
            lemma_number_round_trip(p as nat, 65535);
        },
        OptionModel::Listen(t) => {
            lemma_tcp_text_is_value(t);
            lemma_valued_text("-L"@, tcp_text(t));
            lemma_tcp_round_trip(t);
        },
    }
}

/// One of the four flags without a value, alone, is trimmed to itself.
proof fn lemma_plain_text(flag: Seq<char>)
    requires
        flag == "-a"@ || flag == "-d"@ || flag == "-e"@ || flag == "--exit-on-write-error"@,
    ensures
        trim(flag) == flag,
{
    reveal_strlit("-a");
    reveal_strlit("-d");
    reveal_strlit("-e");
    reveal_strlit("--exit-on-write-error");
    lemma_trim_value(flag);
}

} // verus!
