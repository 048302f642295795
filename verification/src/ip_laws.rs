//! Laws of the address texts: what characters they are made of, and that
//! reading the text of an address gives the address back.

use vstd::prelude::*;
use crate::ip::{
    first_gap, gap, gap_at, group_texts, groups_text, groups_value, high_octet, ipv4_parse, ipv4_text,
    ipv6_parse, ipv6_text, ip_parse, ip_text, is_mapped, is_octet_text, lemma_first_gap,
    lemma_first_gap_is, lemma_ipv4_text, lemma_longest_zero_run, lemma_pieces_prefix,
    longest_zero_run, low_octet, octet_texts, piece_value, pieces_value, word, zero_groups,
    IpModel,
};
use crate::number::{
    all_digits, decimal_text, decimal_value, hex_text, is_digit, is_hex_digit,
    lemma_canonical_decimal, lemma_decimal_text, lemma_hex_text, parse_hex_group,
};
use crate::scan::{
    first_index, free_of, join, lemma_first_index, lemma_first_index_is, lemma_join_push,
    lemma_split_free, lemma_split_join, lemma_split_parts, lemma_split_step, split,
};

verus! {

/// A character of an IPv4 text: a digit or a dot.
pub open spec fn is_ipv4_char(c: char) -> bool {
    is_digit(c) || c == '.'
}

/// A character of an IPv6 text: a hexadecimal digit, a colon or a dot.
pub open spec fn is_ipv6_char(c: char) -> bool {
    is_hex_digit(c) || c == ':' || c == '.'
}

/// The text of an IPv4 address is read back as that address.
pub proof fn lemma_ipv4_round_trip(o: Seq<u8>)
    requires
        o.len() == 4,
    ensures
        ipv4_parse(ipv4_text(o)) == Some(o),
{
    let parts = octet_texts(o);
    assert forall|i: int| 0 <= i < parts.len() implies free_of(#[trigger] parts[i], '.')
        && is_octet_text(parts[i]) && decimal_value(parts[i]) == o[i] by {
        lemma_decimal_text(o[i] as nat);
    }
    lemma_split_join(parts, '.');
    let p = split(ipv4_text(o), '.');
    assert(p == parts);
    assert(ipv4_parse(ipv4_text(o))->0 =~= o);
}

/// A text that is read as an IPv4 address is the text of that address: the
/// reader accepts nothing but what the writer produces.
pub proof fn lemma_ipv4_parse_is_text(s: Seq<char>)
    requires
        ipv4_parse(s) is Some,
    ensures
        s == ipv4_text(ipv4_parse(s)->0),
{
    let p = split(s, '.');
    let o = ipv4_parse(s)->0;
    lemma_split_parts(s, '.');
    assert forall|i: int| 0 <= i < 4 implies p[i] == #[trigger] octet_texts(o)[i] by {
        lemma_canonical_decimal(p[i]);
    }
    assert(p =~= octet_texts(o));
}

/// The text of an IPv4 address is made of digits and dots, starts with a
/// digit, holds a dot, and is at least seven characters long.
pub proof fn lemma_ipv4_text_shape(o: Seq<u8>)
    requires
        o.len() == 4,
    ensures
        forall|i: int| 0 <= i < ipv4_text(o).len() ==> is_ipv4_char(#[trigger] ipv4_text(o)[i]),
        ipv4_text(o).len() >= 7,
        is_digit(ipv4_text(o)[0]),
        !all_digits(ipv4_text(o)),
{
    lemma_ipv4_text(o);
    lemma_decimal_text(o[0] as nat);
    lemma_decimal_text(o[1] as nat);
    lemma_decimal_text(o[2] as nat);
    lemma_decimal_text(o[3] as nat);
    let a = decimal_text(o[0] as nat);
    let b = decimal_text(o[1] as nat);
    let c = decimal_text(o[2] as nat);
    let d = decimal_text(o[3] as nat);
    let t = ipv4_text(o);
    assert(t == a + seq!['.'] + b + seq!['.'] + c + seq!['.'] + d);
    assert(t[0] == a[0]);
    assert(t[a.len() as int] == '.');
    assert forall|i: int| 0 <= i < t.len() implies is_ipv4_char(#[trigger] t[i]) by {
        let la = a.len() as int;
        let lb = b.len() as int;
        let lc = c.len() as int;
        if i < la {
            assert(t[i] == a[i]);
        } else if i == la {
        } else if i < la + 1 + lb {
            assert(t[i] == b[i - la - 1]);
        } else if i == la + 1 + lb {
        } else if i < la + 1 + lb + 1 + lc {
            assert(t[i] == c[i - la - lb - 2]);
        } else if i == la + 1 + lb + 1 + lc {
        } else {
            assert(t[i] == d[i - la - lb - lc - 3]);
        }
    }
}

/// A text that is read as an IPv4 address starts with a digit and holds
/// only digits and dots.
pub proof fn lemma_ipv4_parse_shape(s: Seq<char>)
    requires
        ipv4_parse(s) is Some,
    ensures
        s.len() >= 7,
        is_digit(s[0]),
        forall|i: int| 0 <= i < s.len() ==> is_ipv4_char(#[trigger] s[i]),
{
    lemma_ipv4_parse_is_text(s);
    lemma_ipv4_text_shape(ipv4_parse(s)->0);
}

/// The shape of a text of one or more groups: it neither starts nor ends with
/// a colon, holds no two colons in a row, and is made of hexadecimal digits
/// and colons.
pub open spec fn is_group_list(t: Seq<char>) -> bool {
    &&& t.len() > 0
    &&& t[0] != ':'
    &&& t.last() != ':'
    &&& forall|j: int| 0 <= j < t.len() ==> !gap_at(t, j)
    &&& forall|j: int| 0 <= j < t.len() ==> is_hex_digit(#[trigger] t[j]) || t[j] == ':'
}

/// One or more groups, written out, have the shape of a group list.
pub proof fn lemma_groups_text_shape(g: Seq<u16>)
    requires
        g.len() > 0,
    ensures
        is_group_list(groups_text(g)),
    decreases g.len(),
{
    let last = hex_text(g.last() as nat);
    lemma_hex_text(g.last() as nat);
    let front = g.drop_last();
    assert(group_texts(g) =~= group_texts(front).push(last));
    lemma_join_push(group_texts(front), last, ':');
    let t = groups_text(g);
    if front.len() == 0 {
        assert(t == last);
        assert(is_hex_digit(t[0]));
        assert(is_hex_digit(t.last()));
    } else {
        lemma_groups_text_shape(front);
        let f = groups_text(front);
        let n = f.len() as int;
        assert(t == f + seq![':'] + last);
        assert(t[0] == f[0]);
        assert(t.last() == last.last());
        assert(is_hex_digit(last.last()));
        assert forall|j: int| 0 <= j < t.len() implies (is_hex_digit(#[trigger] t[j]) || t[j]
            == ':') && !gap_at(t, j) by {
            if j < n {
                assert(t[j] == f[j]);
                if j + 1 < n {
                    assert(t[j + 1] == f[j + 1]);
                    assert(!gap_at(f, j));
                } else {
                    assert(f[j] == f.last());
                }
            } else if j == n {
                assert(t[j + 1] == last[0]);
                assert(is_hex_digit(last[0]));
            } else {
                assert(t[j] == last[j - n - 1]);
            }
        }
    }
}

/// The texts of groups denote those groups.
pub proof fn lemma_pieces_round_trip(g: Seq<u16>, allow_v4: bool)
    ensures
        pieces_value(group_texts(g), allow_v4) == Some(g),
    decreases g.len(),
{
    let ps = group_texts(g);
    if g.len() == 0 {
        assert(g =~= Seq::<u16>::empty());
    } else {
        let front = g.drop_last();
        lemma_pieces_round_trip(front, false);
        assert(ps.drop_last() =~= group_texts(front));
        lemma_hex_text(g.last() as nat);
        assert(ps.last() == hex_text(g.last() as nat));
        assert(piece_value(ps.last(), allow_v4) == Some(seq![g.last()]));
        assert(front + seq![g.last()] =~= g);
    }
}

/// Groups that were written with colons between them are read back.
pub proof fn lemma_groups_round_trip(g: Seq<u16>, allow_v4: bool)
    ensures
        groups_value(groups_text(g), allow_v4) == Some(g),
{
    if g.len() == 0 {
        assert(g =~= Seq::<u16>::empty());
    } else {
        lemma_groups_text_shape(g);
        let parts = group_texts(g);
        assert forall|i: int| 0 <= i < parts.len() implies free_of(#[trigger] parts[i], ':') by {
            lemma_hex_text(g[i] as nat);
        }
        lemma_split_join(parts, ':');
        lemma_pieces_round_trip(g, allow_v4);
    }
}

/// The text of an IPv6 address is read back as that address.
pub proof fn lemma_ipv6_round_trip(g: Seq<u16>)
    requires
        g.len() == 8,
    ensures
        ipv6_parse(ipv6_text(g)) == Some(g),
{
    let text = ipv6_text(g);
    if is_mapped(g) {
        let o = seq![high_octet(g[6]), low_octet(g[6]), high_octet(g[7]), low_octet(g[7])];
        let v4 = ipv4_text(o);
        lemma_ipv4_round_trip(o);
        lemma_ipv4_text_shape(o);
        assert(gap_at(text, 0));
        lemma_first_gap_is(text, 0);
        assert(text.take(0) =~= Seq::<char>::empty());
        let ffff = seq!['f', 'f', 'f', 'f'];
        let tail = text.skip(2);
        assert(tail =~= ffff + seq![':'] + v4);
        assert(free_of(ffff, ':'));
        assert(free_of(v4, ':')) by {
            assert forall|i: int| 0 <= i < v4.len() implies v4[i] != ':' by {
                assert(is_ipv4_char(v4[i]));
            }
        }
        lemma_split_step(ffff, v4, ':');
        lemma_split_free(v4, ':');
        let ps = split(tail, ':');
        assert(ps =~= seq![ffff, v4]);
        assert(hex_text(0xffff) =~= ffff) by {
            reveal_with_fuel(hex_text, 5);
        }
        lemma_hex_text(0xffff);
        let one = ps.drop_last();
        assert(one =~= seq![ffff]);
        assert(one.drop_last() =~= Seq::<Seq<char>>::empty());
        assert(pieces_value(one.drop_last(), false) == Some(Seq::<u16>::empty()));
        assert(piece_value(one.last(), false) == Some(seq![0xffffu16]));
        assert(pieces_value(one, false) == Some(Seq::<u16>::empty() + seq![0xffffu16]));
        assert(parse_hex_group(v4) is None);
        assert(word(o[0], o[1]) == g[6]);
        assert(word(o[2], o[3]) == g[7]);
        assert(piece_value(ps.last(), true) == Some(seq![g[6], g[7]]));
        let t = Seq::<u16>::empty() + seq![0xffffu16] + seq![g[6], g[7]];
        assert(pieces_value(ps, true) == Some(t));
        assert(Seq::<u16>::empty() + zero_groups(8 - 0 - t.len()) + t =~= g);
    } else {
        let run = longest_zero_run(g, 8);
        lemma_longest_zero_run(g, 8);
        if run.1 >= 2 {
            let head = g.take(run.0);
            let tail = g.skip(run.0 + run.1);
            let ht = groups_text(head);
            let tt = groups_text(tail);
            let n = ht.len() as int;
            assert(text == ht + gap() + tt);
            assert(gap_at(text, n));
            if head.len() > 0 {
                lemma_groups_text_shape(head);
            } else {
                assert(group_texts(head) =~= Seq::<Seq<char>>::empty());
            }
            assert forall|j: int| 0 <= j < n implies !gap_at(text, j) by {
                assert(text[j] == ht[j]);
                if j + 1 < n {
                    assert(text[j + 1] == ht[j + 1]);
                    assert(!gap_at(ht, j));
                } else {
                    assert(ht[j] == ht.last());
                }
            }
            lemma_first_gap_is(text, n);
            assert(text.take(n) =~= ht);
            assert(text.skip(n + 2) =~= tt);
            lemma_groups_round_trip(head, false);
            lemma_groups_round_trip(tail, true);
            assert(head + zero_groups(8 - head.len() - tail.len()) + tail =~= g);
        } else {
            lemma_groups_text_shape(g);
            lemma_first_gap_is(text, text.len() as int);
            lemma_groups_round_trip(g, true);
        }
    }
}

/// The text of an IPv6 address is made of hexadecimal digits, colons and dots.
pub proof fn lemma_ipv6_text_shape(g: Seq<u16>)
    requires
        g.len() == 8,
    ensures
        ipv6_text(g).len() >= 2,
        forall|i: int| 0 <= i < ipv6_text(g).len() ==> is_ipv6_char(#[trigger] ipv6_text(g)[i]),
{
    let text = ipv6_text(g);
    if is_mapped(g) {
        let o = seq![high_octet(g[6]), low_octet(g[6]), high_octet(g[7]), low_octet(g[7])];
        let v4 = ipv4_text(o);
        lemma_ipv4_text_shape(o);
        assert forall|i: int| 0 <= i < text.len() implies is_ipv6_char(#[trigger] text[i]) by {
            if i >= 7 {
                assert(text[i] == v4[i - 7]);
                assert(is_ipv4_char(v4[i - 7]));
            }
        }
    } else {
        let run = longest_zero_run(g, 8);
        lemma_longest_zero_run(g, 8);
        if run.1 >= 2 {
            let head = g.take(run.0);
            let tail = g.skip(run.0 + run.1);
            let ht = groups_text(head);
            let tt = groups_text(tail);
            let n = ht.len() as int;
            if head.len() > 0 {
                lemma_groups_text_shape(head);
            } else {
                assert(group_texts(head) =~= Seq::<Seq<char>>::empty());
            }
            if tail.len() > 0 {
                lemma_groups_text_shape(tail);
            } else {
                assert(group_texts(tail) =~= Seq::<Seq<char>>::empty());
            }
            assert forall|i: int| 0 <= i < text.len() implies is_ipv6_char(#[trigger] text[i]) by {
                if i < n {
                    assert(text[i] == ht[i]);
                } else if i >= n + 2 {
                    assert(text[i] == tt[i - n - 2]);
                }
            }
        } else {
            lemma_groups_text_shape(g);
            lemma_groups_text_long(g);
        }
    }
}

/// Two or more groups, written out, take at least three characters.
pub proof fn lemma_groups_text_long(g: Seq<u16>)
    requires
        g.len() >= 2,
    ensures
        groups_text(g).len() >= 3,
{
    let last = hex_text(g.last() as nat);
    lemma_hex_text(g.last() as nat);
    let front = g.drop_last();
    assert(group_texts(g) =~= group_texts(front).push(last));
    lemma_join_push(group_texts(front), last, ':');
    lemma_groups_text_shape(front);
}

/// The text of an IP address is read back as that address.
pub proof fn lemma_ip_round_trip(ip: IpModel)
    requires
        ip.well_formed(),
    ensures
        ip_parse(ip_text(ip)) == Some(ip),
{
    match ip {
        IpModel::V4(o) => {
            lemma_ipv4_round_trip(o);
        },
        IpModel::V6(g) => {
            lemma_ipv6_round_trip(g);
            lemma_ipv6_text_shape(g);
            let t = ipv6_text(g);
            if ipv4_parse(t) is Some {
                lemma_ipv4_parse_is_text(t);
                lemma_ipv6_not_ipv4(g);
            }
        },
    }
}

/// The text of an IPv6 address holds a colon, so it is no IPv4 text.
pub proof fn lemma_ipv6_not_ipv4(g: Seq<u16>)
    requires
        g.len() == 8,
    ensures
        ipv4_parse(ipv6_text(g)) is None,
{
    let text = ipv6_text(g);
    let colon: int;
    if is_mapped(g) {
        colon = 0;
        assert(text[0] == ':');
    } else {
        let run = longest_zero_run(g, 8);
        lemma_longest_zero_run(g, 8);
        if run.1 >= 2 {
            let ht = groups_text(g.take(run.0));
            colon = ht.len() as int;
            assert(text[colon] == ':');
        } else {
            let last = hex_text(g.last() as nat);
            let front = g.drop_last();
            assert(group_texts(g) =~= group_texts(front).push(last));
            lemma_join_push(group_texts(front), last, ':');
            colon = groups_text(front).len() as int;
            assert(text[colon] == ':');
        }
    }
    if ipv4_parse(text) is Some {
        lemma_ipv4_parse_shape(text);
        assert(is_ipv4_char(text[colon]));
    }
}

/// How the text of one or more groups starts: with the numeral of the first
/// group, and after it a colon if more groups follow.
pub proof fn lemma_groups_text_front(g: Seq<u16>)
    requires
        g.len() >= 1,
    ensures
        groups_text(g).len() >= hex_text(g[0] as nat).len(),
        forall|j: int|
            0 <= j < hex_text(g[0] as nat).len() ==> groups_text(g)[j] == hex_text(g[0] as nat)[j],
        g.len() == 1 ==> groups_text(g) == hex_text(g[0] as nat),
        g.len() >= 2 ==> groups_text(g).len() > hex_text(g[0] as nat).len() && groups_text(
            g,
        )[hex_text(g[0] as nat).len() as int] == ':',
{
    let parts = group_texts(g);
    assert(parts[0] == hex_text(g[0] as nat));
    if g.len() >= 2 {
        assert(groups_text(g) == parts[0] + seq![':'] + join(parts.skip(1), ':'));
    }
}

/// The text of an IPv6 address holds a colon among its first five characters.
pub proof fn lemma_ipv6_first_colon(g: Seq<u16>)
    requires
        g.len() == 8,
    ensures
        0 <= first_index(ipv6_text(g), ':') <= 4,
        first_index(ipv6_text(g), ':') < ipv6_text(g).len(),
{
    let text = ipv6_text(g);
    if is_mapped(g) {
        assert(text[0] == ':');
        lemma_first_index_is(text, ':', 0);
    } else {
        let run = longest_zero_run(g, 8);
        lemma_longest_zero_run(g, 8);
        let head = if run.1 >= 2 {
            g.take(run.0)
        } else {
            g
        };
        if head.len() == 0 {
            assert(group_texts(head) =~= Seq::<Seq<char>>::empty());
            assert(text[0] == ':');
            lemma_first_index_is(text, ':', 0);
        } else {
            let first = hex_text(head[0] as nat);
            let n = first.len() as int;
            lemma_hex_text(head[0] as nat);
            lemma_groups_text_front(head);
            let ht = groups_text(head);
            assert forall|j: int| 0 <= j < n implies text[j] != ':' by {
                assert(text[j] == ht[j]);
                assert(is_hex_digit(first[j]));
            }
            if run.1 >= 2 {
                if head.len() == 1 {
                    assert(text[n] == gap()[0]);
                } else {
                    assert(text[n] == ht[n]);
                }
            }
            assert(text[n] == ':');
            lemma_first_index_is(text, ':', n);
        }
    }
}

/// A text of groups that is not empty starts with a hexadecimal digit.
pub proof fn lemma_groups_value_starts(t: Seq<char>, allow_v4: bool)
    requires
        t.len() > 0,
        groups_value(t, allow_v4) is Some,
    ensures
        is_hex_digit(t[0]),
{
    let ps = split(t, ':');
    lemma_split_parts(t, ':');
    lemma_first_index(t, ':');
    let first = ps[0];
    assert(first == t.take(first_index(t, ':')));
    let one = ps.take(1);
    let allowed = allow_v4 && ps.len() == 1;
    if ps.len() == 1 {
        assert(one =~= ps);
    } else {
        lemma_pieces_prefix(ps, allow_v4, 1);
    }
    assert(pieces_value(one, allowed) is Some);
    assert(one.last() == first);
    assert(one.drop_last() =~= Seq::<Seq<char>>::empty());
    assert(piece_value(first, allowed) is Some);
    if parse_hex_group(first) is Some {
        assert(is_hex_digit(first[0]));
    } else {
        lemma_ipv4_parse_shape(first);
    }
    assert(t[0] == first[0]);
}

/// A text that is read as an IPv6 address starts with a hexadecimal digit or
/// with a colon.
pub proof fn lemma_ipv6_parse_starts(v: Seq<char>)
    requires
        ipv6_parse(v) is Some,
    ensures
        v.len() > 0,
        is_hex_digit(v[0]) || v[0] == ':',
{
    lemma_first_gap(v);
    let i = first_gap(v);
    if i >= v.len() {
        if v.len() > 0 {
            lemma_groups_value_starts(v, true);
        }
    } else if i > 0 {
        let head = v.take(i);
        lemma_groups_value_starts(head, false);
        assert(head[0] == v[0]);
    }
}

} // verus!
