//! IP addresses and socket addresses as plain values, with their text forms.
//!
//! An IPv4 address is written as four decimal numbers with dots between them,
//! each in its shortest form. An IPv6 address is written as eight groups of
//! hexadecimal digits with colons between them; one run of zero groups may be
//! left out and written `::`, and the last two groups may be written as an IPv4
//! address.

use vstd::prelude::*;
use vstd::slice::slice_subrange;
use crate::number::{
    decimal_text, decimal_value, hex_text, is_canonical_decimal, parse_digits, parse_hex_group,
    push_decimal, push_hex, read_digits, read_hex_group,
};
use crate::scan::{
    find_char, first_index, join, lemma_first_index, lemma_join_push, lemma_split_parts, split,
    split_at_char, split_once, views,
};
use crate::text::{chars_of, push_text, string_of};

verus! {

/// An IPv4 address: four octets, the first one first.
#[derive(Copy, Clone, Eq, PartialEq, Ord, PartialOrd, Hash, Debug)]
pub struct Ipv4Addr {
    pub octets: [u8; 4],
}

/// An IPv6 address: eight groups of sixteen bits, the first one first.
#[derive(Copy, Clone, Eq, PartialEq, Ord, PartialOrd, Hash, Debug)]
pub struct Ipv6Addr {
    pub segments: [u16; 8],
}

/// An IP address of either family.
#[derive(Copy, Clone, Eq, PartialEq, Ord, PartialOrd, Hash, Debug)]
pub enum IpAddr {
    V4(Ipv4Addr),
    V6(Ipv6Addr),
}

/// An IP address with a port, as a name resolver returns it.
#[derive(Copy, Clone, Eq, PartialEq, Ord, PartialOrd, Hash, Debug)]
pub struct SocketAddr {
    pub ip: IpAddr,
    pub port: u16,
}

/// An IP address as plain values: the octets or the groups.
pub enum IpModel {
    V4(Seq<u8>),
    V6(Seq<u16>),
}

impl IpModel {
    /// Four octets, or eight groups.
    pub open spec fn well_formed(self) -> bool {
        match self {
            IpModel::V4(o) => o.len() == 4,
            IpModel::V6(g) => g.len() == 8,
        }
    }
}

impl View for Ipv4Addr {
    type V = Seq<u8>;

    open spec fn view(&self) -> Seq<u8> {
        self.octets@
    }
}

impl View for Ipv6Addr {
    type V = Seq<u16>;

    open spec fn view(&self) -> Seq<u16> {
        self.segments@
    }
}

impl View for IpAddr {
    type V = IpModel;

    open spec fn view(&self) -> IpModel {
        match self {
            IpAddr::V4(a) => IpModel::V4(a@),
            IpAddr::V6(a) => IpModel::V6(a@),
        }
    }
}

/// The sixteen-bit group made of two octets, the high one first.
pub open spec fn word(high: u8, low: u8) -> u16 {
    (high * 256 + low) as u16
}

/// The texts of the octets, each a decimal numeral.
pub open spec fn octet_texts(o: Seq<u8>) -> Seq<Seq<char>> {
    Seq::new(o.len(), |i: int| decimal_text(o[i] as nat))
}

/// The text of an IPv4 address: the four numerals with dots between them.
pub open spec fn ipv4_text(o: Seq<u8>) -> Seq<char> {
    join(octet_texts(o), '.')
}

/// One octet as text: a canonical numeral of at most three digits, at most 255.
pub open spec fn is_octet_text(t: Seq<char>) -> bool {
    is_canonical_decimal(t) && t.len() <= 3 && decimal_value(t) <= 255
}

/// The octets that the text denotes, if it is four octet texts with dots between them.
pub open spec fn ipv4_parse(s: Seq<char>) -> Option<Seq<u8>> {
    let p = split(s, '.');
    if p.len() == 4 && is_octet_text(p[0]) && is_octet_text(p[1]) && is_octet_text(p[2])
        && is_octet_text(p[3]) {
        Some(
            seq![
                decimal_value(p[0]) as u8,
                decimal_value(p[1]) as u8,
                decimal_value(p[2]) as u8,
                decimal_value(p[3]) as u8,
            ],
        )
    } else {
        None
    }
}

/// The texts of the groups, each a hexadecimal numeral.
pub open spec fn group_texts(g: Seq<u16>) -> Seq<Seq<char>> {
    Seq::new(g.len(), |i: int| hex_text(g[i] as nat))
}

/// The groups with colons between them; nothing for no group.
pub open spec fn groups_text(g: Seq<u16>) -> Seq<char> {
    join(group_texts(g), ':')
}

/// The number of zero groups in a row from index `i` on.
pub open spec fn zero_run(g: Seq<u16>, i: int) -> int
    decreases g.len() - i,
{
    if 0 <= i < g.len() && g[i] == 0 {
        1 + zero_run(g, i + 1)
    } else {
        0
    }
}

/// Start and length of the longest run of zero groups among those that start
/// before index `n`; of several longest ones, the first.
pub open spec fn longest_zero_run(g: Seq<u16>, n: int) -> (int, int)
    decreases n,
{
    if n <= 0 {
        (0, 0)
    } else {
        let before = longest_zero_run(g, n - 1);
        let here = zero_run(g, n - 1);
        if here > before.1 {
            (n - 1, here)
        } else {
            before
        }
    }
}

/// An IPv4 address carried in an IPv6 one: five zero groups, then `ffff`.
pub open spec fn is_mapped(g: Seq<u16>) -> bool {
    g[0] == 0 && g[1] == 0 && g[2] == 0 && g[3] == 0 && g[4] == 0 && g[5] == 0xffff
}

/// The high octet of a group.
pub open spec fn high_octet(x: u16) -> u8 {
    (x / 256) as u8
}

/// The low octet of a group.
pub open spec fn low_octet(x: u16) -> u8 {
    (x % 256) as u8
}

/// The text `::`.
pub open spec fn gap() -> Seq<char> {
    seq![':', ':']
}

/// The text `::ffff:`.
pub open spec fn mapped_prefix() -> Seq<char> {
    seq![':', ':', 'f', 'f', 'f', 'f', ':']
}

/// The text of an IPv6 address. A mapped IPv4 address is written `::ffff:`
/// and the IPv4 text. Otherwise the longest run of two or more zero groups
/// is written `::`, and the other groups in hexadecimal.
pub open spec fn ipv6_text(g: Seq<u16>) -> Seq<char> {
    if is_mapped(g) {
        mapped_prefix() + ipv4_text(
            seq![high_octet(g[6]), low_octet(g[6]), high_octet(g[7]), low_octet(g[7])],
        )
    } else {
        let run = longest_zero_run(g, 8);
        if run.1 >= 2 {
            groups_text(g.take(run.0)) + gap() + groups_text(g.skip(run.0 + run.1))
        } else {
            groups_text(g)
        }
    }
}

/// The index of the first `::` in `s`, or `s.len()` when there is none.
pub open spec fn first_gap(s: Seq<char>) -> int
    decreases s.len(),
{
    if s.len() < 2 {
        s.len() as int
    } else if s[0] == ':' && s[1] == ':' {
        0
    } else {
        1 + first_gap(s.skip(1))
    }
}

/// The groups that one part between colons denotes: one group for a
/// hexadecimal numeral, two for an IPv4 address where that is allowed.
pub open spec fn piece_value(p: Seq<char>, allow_v4: bool) -> Option<Seq<u16>> {
    match parse_hex_group(p) {
        Some(v) => Some(seq![v as u16]),
        None => if allow_v4 {
            match ipv4_parse(p) {
                Some(o) => Some(seq![word(o[0], o[1]), word(o[2], o[3])]),
                None => None,
            }
        } else {
            None
        },
    }
}

/// The groups that the parts denote, in order. Only the last part may be an
/// IPv4 address, and only if `allow_v4` says so.
pub open spec fn pieces_value(ps: Seq<Seq<char>>, allow_v4: bool) -> Option<Seq<u16>>
    decreases ps.len(),
{
    if ps.len() == 0 {
        Some(Seq::empty())
    } else {
        match (
            pieces_value(ps.drop_last(), false),
            piece_value(ps.last(), allow_v4),
        ) {
            (Some(a), Some(b)) => Some(a + b),
            _ => None,
        }
    }
}

/// The groups that a colon-separated text denotes; none for the empty text.
pub open spec fn groups_value(t: Seq<char>, allow_v4: bool) -> Option<Seq<u16>> {
    if t.len() == 0 {
        Some(Seq::empty())
    } else {
        pieces_value(split(t, ':'), allow_v4)
    }
}

/// `n` zero groups.
pub open spec fn zero_groups(n: int) -> Seq<u16> {
    Seq::new(n as nat, |i: int| 0u16)
}

/// The eight groups that the text denotes. Without `::` the text must spell
/// all eight. With `::` the groups before it and after it must be seven at
/// most, and the gap stands for the zero groups that are missing.
pub open spec fn ipv6_parse(s: Seq<char>) -> Option<Seq<u16>> {
    let i = first_gap(s);
    if i >= s.len() {
        match groups_value(s, true) {
            Some(g) => if g.len() == 8 {
                Some(g)
            } else {
                None
            },
            None => None,
        }
    } else {
        match (groups_value(s.take(i), false), groups_value(s.skip(i + 2), true)) {
            (Some(h), Some(t)) => if h.len() + t.len() <= 7 {
                Some(h + zero_groups(8 - h.len() - t.len()) + t)
            } else {
                None
            },
            _ => None,
        }
    }
}

/// The text of an IP address of either family.
pub open spec fn ip_text(ip: IpModel) -> Seq<char> {
    match ip {
        IpModel::V4(o) => ipv4_text(o),
        IpModel::V6(g) => ipv6_text(g),
    }
}

/// The address that the text denotes: an IPv4 address if it is one, else an
/// IPv6 address if it is one.
pub open spec fn ip_parse(s: Seq<char>) -> Option<IpModel> {
    match ipv4_parse(s) {
        Some(o) => Some(IpModel::V4(o)),
        None => match ipv6_parse(s) {
            Some(g) => Some(IpModel::V6(g)),
            None => None,
        },
    }
}


/// Whether `s` holds `::` at index `j`.
pub open spec fn gap_at(s: Seq<char>, j: int) -> bool {
    0 <= j && j + 1 < s.len() && s[j] == ':' && s[j + 1] == ':'
}

/// What `first_gap` returns: it is in range, no `::` starts before it, and
/// one starts at it unless it is the length.
pub proof fn lemma_first_gap(s: Seq<char>)
    ensures
        0 <= first_gap(s) <= s.len(),
        forall|j: int| 0 <= j < first_gap(s) ==> !gap_at(s, j),
        first_gap(s) < s.len() ==> gap_at(s, first_gap(s)),
    decreases s.len(),
{
    if s.len() < 2 {
    } else if s[0] == ':' && s[1] == ':' {
    } else {
        let t = s.skip(1);
        lemma_first_gap(t);
        assert forall|j: int| 0 <= j < first_gap(s) implies !gap_at(s, j) by {
            if j > 0 {
                assert(!gap_at(t, j - 1));
                assert(s[j] == t[j - 1]);
                if j + 1 < s.len() {
                    assert(s[j + 1] == t[j]);
                }
            }
        }
        if first_gap(t) < t.len() {
            let f = first_gap(t);
            assert(gap_at(t, f));
            assert(s[f + 1] == t[f]);
            assert(s[f + 2] == t[f + 1]);
        }
    }
}

/// An index with the defining property of `first_gap` is `first_gap`.
pub proof fn lemma_first_gap_is(s: Seq<char>, i: int)
    requires
        0 <= i <= s.len(),
        forall|j: int| 0 <= j < i ==> !gap_at(s, j),
        i < s.len() ==> gap_at(s, i),
    ensures
        first_gap(s) == i,
{
    lemma_first_gap(s);
    let f = first_gap(s);
    if f < i {
        assert(gap_at(s, f));
    } else if i < f {
        assert(gap_at(s, i));
    }
}

/// Reads one octet of an IPv4 address.
fn read_octet(t: &[char]) -> (r: Option<u8>)
    ensures
        r is Some <==> is_octet_text(t@),
        r is Some ==> r->0 == decimal_value(t@),
{
    if t.len() == 0 || t.len() > 3 {
        return None;
    }
    if t.len() > 1 && t[0] == '0' {
        return None;
    }
    match read_digits(t, 255) {
        Some(v) => Some(v as u8),
        None => None,
    }
}

impl Ipv4Addr {
    /// The address with the four octets `a.b.c.d`.
    pub fn new(a: u8, b: u8, c: u8, d: u8) -> (r: Self)
        ensures
            r@ == seq![a, b, c, d],
    {
        let o: [u8; 4] = [a, b, c, d];
        assert(o@ =~= seq![a, b, c, d]);
        Ipv4Addr { octets: o }
    }

    /// The four octets.
    pub fn octets(&self) -> (r: [u8; 4])
        ensures
            r@ == self@,
    {
        self.octets
    }

    /// Appends the text of the address to `out`.
    pub fn push_text(&self, out: &mut Vec<char>)
        ensures
            final(out)@ == old(out)@ + ipv4_text(self@),
    {
        push_decimal(out, self.octets[0] as u32);
        out.push('.');
        push_decimal(out, self.octets[1] as u32);
        out.push('.');
        push_decimal(out, self.octets[2] as u32);
        out.push('.');
        push_decimal(out, self.octets[3] as u32);
        proof {
            lemma_ipv4_text(self@);
            assert(out@ =~= old(out)@ + ipv4_text(self@));
        }
    }

    /// The text of the address.
    pub fn to_string(&self) -> (r: String)
        ensures
            r@ == ipv4_text(self@),
    {
        let mut out: Vec<char> = Vec::new();
        self.push_text(&mut out);
        assert(out@ =~= ipv4_text(self@));
        string_of(out.as_slice())
    }

    /// Reads an address from its text.
    pub fn parse(s: &[char]) -> (r: Option<Self>)
        ensures
            match ipv4_parse(s@) {
                Some(o) => r is Some && r->0@ == o,
                None => r is None,
            },
    {
        let parts = split_at_char(s, '.');
        if parts.len() != 4 {
            return None;
        }
        assert(views(parts@)[0] == parts@[0]@);
        assert(views(parts@)[1] == parts@[1]@);
        assert(views(parts@)[2] == parts@[2]@);
        assert(views(parts@)[3] == parts@[3]@);
        let a = read_octet(parts[0].as_slice());
        let b = read_octet(parts[1].as_slice());
        let c = read_octet(parts[2].as_slice());
        let d = read_octet(parts[3].as_slice());
        match (a, b, c, d) {
            (Some(a), Some(b), Some(c), Some(d)) => Some(Ipv4Addr::new(a, b, c, d)),
            _ => None,
        }
    }

    /// Reads an address from a string.
    pub fn from_str(s: &str) -> (r: Option<Self>)
        ensures
            match ipv4_parse(s@) {
                Some(o) => r is Some && r->0@ == o,
                None => r is None,
            },
    {
        let v = chars_of(s);
        Ipv4Addr::parse(v.as_slice())
    }
}

/// The text of an IPv4 address, written out.
pub proof fn lemma_ipv4_text(o: Seq<u8>)
    requires
        o.len() == 4,
    ensures
        ipv4_text(o) == decimal_text(o[0] as nat) + seq!['.'] + decimal_text(o[1] as nat) + seq![
            '.',
        ] + decimal_text(o[2] as nat) + seq!['.'] + decimal_text(o[3] as nat),
{
    let p = octet_texts(o);
    let e = Seq::<Seq<char>>::empty();
    lemma_join_push(e, p[0], '.');
    lemma_join_push(e.push(p[0]), p[1], '.');
    lemma_join_push(e.push(p[0]).push(p[1]), p[2], '.');
    lemma_join_push(e.push(p[0]).push(p[1]).push(p[2]), p[3], '.');
    assert(p =~= e.push(p[0]).push(p[1]).push(p[2]).push(p[3]));
}


/// A run of zero groups stays inside the address and holds only zeros.
pub proof fn lemma_zero_run(g: Seq<u16>, i: int)
    requires
        0 <= i <= g.len(),
    ensures
        0 <= zero_run(g, i),
        i + zero_run(g, i) <= g.len(),
        forall|j: int| i <= j < i + zero_run(g, i) ==> g[j] == 0,
    decreases g.len() - i,
{
    if i < g.len() && g[i] == 0 {
        lemma_zero_run(g, i + 1);
    }
}

/// The longest run of zero groups stays inside the address and holds only zeros.
pub proof fn lemma_longest_zero_run(g: Seq<u16>, n: int)
    requires
        0 <= n <= g.len(),
    ensures
        ({
            let run = longest_zero_run(g, n);
            &&& 0 <= run.0 <= g.len()
            &&& 0 <= run.1
            &&& run.0 + run.1 <= g.len()
            &&& run.1 == 0 || run.1 == zero_run(g, run.0)
            &&& forall|j: int| run.0 <= j < run.0 + run.1 ==> g[j] == 0
        }),
    decreases n,
{
    if n > 0 {
        lemma_longest_zero_run(g, n - 1);
        lemma_zero_run(g, n - 1);
    }
}

/// The number of zero groups in a row from index `i` on.
fn zero_run_from(g: &[u16], i: usize) -> (n: usize)
    requires
        i <= g.len(),
    ensures
        n == zero_run(g@, i as int),
        i + n <= g.len(),
{
    let mut j: usize = i;
    while j < g.len() && g[j] == 0
        invariant
            i <= j <= g.len(),
            zero_run(g@, i as int) == (j - i) + zero_run(g@, j as int),
        decreases g.len() - j,
    {
        j += 1;
    }
    j - i
}

/// Start and length of the first longest run of zero groups.
fn find_zero_run(g: &[u16]) -> (r: (usize, usize))
    requires
        g.len() == 8,
    ensures
        (r.0 as int, r.1 as int) == longest_zero_run(g@, 8),
        r.0 + r.1 <= 8,
{
    let mut best: (usize, usize) = (0, 0);
    let mut i: usize = 0;
    while i < 8
        invariant
            i <= 8,
            g.len() == 8,
            (best.0 as int, best.1 as int) == longest_zero_run(g@, i as int),
        decreases 8 - i,
    {
        let here = zero_run_from(g, i);
        if here > best.1 {
            best = (i, here);
        }
        i += 1;
    }
    proof {
        lemma_longest_zero_run(g@, 8);
    }
    best
}

/// Appends the groups `g[from..to]` to `out`, in hexadecimal with colons between them.
fn push_groups(out: &mut Vec<char>, g: &[u16], from: usize, to: usize)
    requires
        from <= to <= g.len(),
    ensures
        final(out)@ == old(out)@ + groups_text(g@.subrange(from as int, to as int)),
{
    let mut i: usize = from;
    assert(group_texts(g@.subrange(from as int, from as int)) =~= Seq::<Seq<char>>::empty());
    assert(out@ =~= old(out)@ + groups_text(g@.subrange(from as int, from as int)));
    while i < to
        invariant
            from <= i <= to <= g.len(),
            out@ == old(out)@ + groups_text(g@.subrange(from as int, i as int)),
        decreases to - i,
    {
        let ghost before = g@.subrange(from as int, i as int);
        let ghost after = g@.subrange(from as int, i + 1);
        proof {
            assert(group_texts(after) =~= group_texts(before).push(hex_text(g@[i as int] as nat)));
            lemma_join_push(group_texts(before), hex_text(g@[i as int] as nat), ':');
        }
        if i > from {
            out.push(':');
        }
        push_hex(out, g[i]);
        assert(out@ =~= old(out)@ + groups_text(after));
        i += 1;
    }
}

impl Ipv6Addr {
    /// The address with the eight groups `a:b:c:d:e:f:g:h`.
    pub fn new(a: u16, b: u16, c: u16, d: u16, e: u16, f: u16, g: u16, h: u16) -> (r: Self)
        ensures
            r@ == seq![a, b, c, d, e, f, g, h],
    {
        let s: [u16; 8] = [a, b, c, d, e, f, g, h];
        assert(s@ =~= seq![a, b, c, d, e, f, g, h]);
        Ipv6Addr { segments: s }
    }

    /// The eight groups.
    pub fn segments(&self) -> (r: [u16; 8])
        ensures
            r@ == self@,
    {
        self.segments
    }

    /// The IPv4 address that this address carries, if it is a mapped one.
    pub fn to_ipv4_mapped(&self) -> (r: Option<Ipv4Addr>)
        ensures
            r is Some <==> is_mapped(self@),
            r is Some ==> r->0@ == seq![
                high_octet(self@[6]),
                low_octet(self@[6]),
                high_octet(self@[7]),
                low_octet(self@[7]),
            ],
    {
        let g = &self.segments;
        if g[0] == 0 && g[1] == 0 && g[2] == 0 && g[3] == 0 && g[4] == 0 && g[5] == 0xffff {
            Some(
                Ipv4Addr::new(
                    (g[6] / 256) as u8,
                    (g[6] % 256) as u8,
                    (g[7] / 256) as u8,
                    (g[7] % 256) as u8,
                ),
            )
        } else {
            None
        }
    }

    /// Appends the text of the address to `out`.
    pub fn push_text(&self, out: &mut Vec<char>)
        ensures
            final(out)@ == old(out)@ + ipv6_text(self@),
    {
        match self.to_ipv4_mapped() {
            Some(v4) => {
                proof {
                    reveal_strlit("::ffff:");
                    assert("::ffff:"@ =~= mapped_prefix());
                }
                push_text(out, "::ffff:");
                v4.push_text(out);
                assert(out@ =~= old(out)@ + ipv6_text(self@));
            },
            None => {
                let g = self.segments.as_slice();
                let run = find_zero_run(g);
                if run.1 >= 2 {
                    proof {
                        reveal_strlit("::");
                        assert("::"@ =~= gap());
                        assert(g@.subrange(0, run.0 as int) =~= g@.take(run.0 as int));
                        assert(g@.subrange(run.0 + run.1, 8) =~= g@.skip(run.0 + run.1));
                    }
                    push_groups(out, g, 0, run.0);
                    push_text(out, "::");
                    push_groups(out, g, run.0 + run.1, 8);
                    assert(out@ =~= old(out)@ + ipv6_text(self@));
                } else {
                    proof {
                        assert(g@.subrange(0, 8) =~= g@);
                    }
                    push_groups(out, g, 0, 8);
                }
            },
        }
    }

    /// The text of the address.
    pub fn to_string(&self) -> (r: String)
        ensures
            r@ == ipv6_text(self@),
    {
        let mut out: Vec<char> = Vec::new();
        self.push_text(&mut out);
        assert(out@ =~= ipv6_text(self@));
        string_of(out.as_slice())
    }
}


/// Where all the parts denote groups, so do the parts before any one of them,
/// none of them an IPv4 address.
pub proof fn lemma_pieces_prefix(ps: Seq<Seq<char>>, allow_v4: bool, k: int)
    requires
        pieces_value(ps, allow_v4) is Some,
        0 <= k < ps.len(),
    ensures
        pieces_value(ps.take(k), false) is Some,
    decreases ps.len(),
{
    let front = ps.drop_last();
    if k == ps.len() - 1 {
        assert(ps.take(k) =~= front);
    } else {
        lemma_pieces_prefix(front, false, k);
        assert(front.take(k) =~= ps.take(k));
    }
}

/// The index of the first `::` in `s`, or the length of `s`.
fn find_gap(s: &[char]) -> (i: usize)
    ensures
        i == first_gap(s@),
{
    let mut i: usize = 0;
    while i < s.len()
        invariant
            i <= s.len(),
            forall|j: int| 0 <= j < i ==> !gap_at(s@, j),
        decreases s.len() - i,
    {
        if s[i] == ':' && i + 1 < s.len() && s[i + 1] == ':' {
            proof {
                lemma_first_gap_is(s@, i as int);
            }
            return i;
        }
        i += 1;
    }
    proof {
        lemma_first_gap_is(s@, i as int);
    }
    i
}

/// Reads one part between colons and appends its groups to `out`.
fn read_piece(p: &[char], allow_v4: bool, out: &mut Vec<u16>) -> (ok: bool)
    ensures
        match piece_value(p@, allow_v4) {
            Some(v) => ok && final(out)@ == old(out)@ + v,
            None => !ok && final(out)@ == old(out)@,
        },
{
    match read_hex_group(p) {
        Some(v) => {
            out.push(v);
            assert(out@ =~= old(out)@ + seq![v]);
            true
        },
        None => {
            if allow_v4 {
                match Ipv4Addr::parse(p) {
                    Some(a) => {
                        let o = a.octets;
                        let first: u16 = (o[0] as u16) * 256 + o[1] as u16;
                        let second: u16 = (o[2] as u16) * 256 + o[3] as u16;
                        out.push(first);
                        out.push(second);
                        assert(out@ =~= old(out)@ + seq![first, second]);
                        true
                    },
                    None => false,
                }
            } else {
                false
            }
        },
    }
}

/// Reads the groups of a colon-separated text.
fn read_groups(t: &[char], allow_v4: bool) -> (r: Option<Vec<u16>>)
    ensures
        match groups_value(t@, allow_v4) {
            Some(v) => r is Some && r->0@ == v,
            None => r is None,
        },
{
    let mut out: Vec<u16> = Vec::new();
    if t.len() == 0 {
        return Some(out);
    }
    let parts = split_at_char(t, ':');
    let ghost ps = split(t@, ':');
    proof {
        lemma_split_parts(t@, ':');
        assert(ps.take(0) =~= Seq::<Seq<char>>::empty());
    }
    let n = parts.len();
    let mut k: usize = 0;
    while k < n
        invariant
            k <= n,
            n == parts.len(),
            n >= 1,
            ps == views(parts@),
            ps == split(t@, ':'),
            t@.len() > 0,
            pieces_value(ps.take(k as int), allow_v4 && k == n) == Some(out@),
        decreases n - k,
    {
        let last = k + 1 == n;
        let ghost before = out@;
        assert(ps[k as int] == parts@[k as int]@);
        let ok = read_piece(parts[k].as_slice(), allow_v4 && last, &mut out);
        proof {
            let upto = ps.take(k + 1);
            assert(upto.drop_last() =~= ps.take(k as int));
            assert(upto.last() == ps[k as int]);
            assert(pieces_value(upto, allow_v4 && last) == match (
                pieces_value(ps.take(k as int), false),
                piece_value(ps[k as int], allow_v4 && last),
            ) {
                (Some(a), Some(b)) => Some(a + b),
                _ => None,
            });
            if last {
                assert(upto =~= ps);
            } else if !ok {
                assert(pieces_value(upto, false) is None);
                if pieces_value(ps, allow_v4) is Some {
                    lemma_pieces_prefix(ps, allow_v4, k + 1);
                }
                assert(pieces_value(ps, allow_v4) is None);
            }
        }
        if !ok {
            return None;
        }
        k += 1;
    }
    assert(ps.take(n as int) =~= ps);
    Some(out)
}

impl Ipv6Addr {
    /// Reads an address from its text.
    pub fn parse(s: &[char]) -> (r: Option<Self>)
        ensures
            match ipv6_parse(s@) {
                Some(g) => r is Some && r->0@ == g,
                None => r is None,
            },
    {
        let i = find_gap(s);
        let mut g: [u16; 8] = [0; 8];
        if i >= s.len() {
            match read_groups(s, true) {
                Some(v) => {
                    if v.len() != 8 {
                        return None;
                    }
                    let mut k: usize = 0;
                    while k < 8
                        invariant
                            k <= 8,
                            v@.len() == 8,
                            forall|j: int| 0 <= j < k ==> g@[j] == v@[j],
                        decreases 8 - k,
                    {
                        g[k] = v[k];
                        k += 1;
                    }
                    assert(g@ =~= v@);
                    Some(Ipv6Addr { segments: g })
                },
                None => None,
            }
        } else {
            proof {
                lemma_first_gap(s@);
            }
            let head_text = slice_subrange(s, 0, i);
            let tail_text = slice_subrange(s, i + 2, s.len());
            assert(head_text@ =~= s@.take(i as int));
            assert(tail_text@ =~= s@.skip(i + 2));
            match (read_groups(head_text, false), read_groups(tail_text, true)) {
                (Some(h), Some(t)) => {
                    if h.len() > 7 || t.len() > 7 - h.len() {
                        return None;
                    }
                    let hn = h.len();
                    let tn = t.len();
                    let mut k: usize = 0;
                    while k < hn
                        invariant
                            k <= hn,
                            hn == h@.len(),
                            hn <= 7,
                            forall|j: int| 0 <= j < k ==> g@[j] == h@[j],
                            forall|j: int| k <= j < 8 ==> g@[j] == 0,
                        decreases hn - k,
                    {
                        g[k] = h[k];
                        k += 1;
                    }
                    let mut k: usize = 0;
                    while k < tn
                        invariant
                            k <= tn,
                            hn == h@.len(),
                            tn == t@.len(),
                            hn + tn <= 7,
                            forall|j: int| 0 <= j < hn ==> g@[j] == h@[j],
                            forall|j: int| hn <= j < 8 - tn ==> g@[j] == 0,
                            forall|j: int| 0 <= j < k ==> g@[8 - tn + j] == t@[j],
                        decreases tn - k,
                    {
                        g[8 - tn + k] = t[k];
                        k += 1;
                    }
                    assert(g@ =~= h@ + zero_groups(8 - hn - tn) + t@);
                    Some(Ipv6Addr { segments: g })
                },
                _ => None,
            }
        }
    }

    /// Reads an address from a string.
    pub fn from_str(s: &str) -> (r: Option<Self>)
        ensures
            match ipv6_parse(s@) {
                Some(g) => r is Some && r->0@ == g,
                None => r is None,
            },
    {
        let v = chars_of(s);
        Ipv6Addr::parse(v.as_slice())
    }
}

impl IpAddr {
    /// Appends the text of the address to `out`.
    pub fn push_text(&self, out: &mut Vec<char>)
        ensures
            final(out)@ == old(out)@ + ip_text(self@),
    {
        match self {
            IpAddr::V4(a) => a.push_text(out),
            IpAddr::V6(a) => a.push_text(out),
        }
    }

    /// The text of the address.
    pub fn to_string(&self) -> (r: String)
        ensures
            r@ == ip_text(self@),
    {
        match self {
            IpAddr::V4(a) => a.to_string(),
            IpAddr::V6(a) => a.to_string(),
        }
    }

    /// Reads an address of either family from its text.
    pub fn parse(s: &[char]) -> (r: Option<Self>)
        ensures
            match ip_parse(s@) {
                Some(m) => r is Some && r->0@ == m,
                None => r is None,
            },
    {
        match Ipv4Addr::parse(s) {
            Some(a) => Some(IpAddr::V4(a)),
            None => match Ipv6Addr::parse(s) {
                Some(a) => Some(IpAddr::V6(a)),
                None => None,
            },
        }
    }

    /// Reads an address of either family from a string.
    pub fn from_str(s: &str) -> (r: Option<Self>)
        ensures
            match ip_parse(s@) {
                Some(m) => r is Some && r->0@ == m,
                None => r is None,
            },
    {
        let v = chars_of(s);
        IpAddr::parse(v.as_slice())
    }

    /// Whether this is an IPv4 address.
    pub fn is_ipv4(&self) -> (r: bool)
        ensures
            r == (self@ is V4),
    {
        match self {
            IpAddr::V4(_) => true,
            IpAddr::V6(_) => false,
        }
    }
}


/// An IPv4 address with a port: the address, a colon, and the port as a
/// decimal numeral of at most 65535.
pub open spec fn socket_addr_v4_parse(v: Seq<char>) -> Option<(Seq<u8>, u16)> {
    match split_once(v, ':') {
        Some((host, port)) => match (ipv4_parse(host), parse_digits(port, 65535)) {
            (Some(o), Some(n)) => Some((o, n as u16)),
            _ => None,
        },
        None => None,
    }
}

/// What stands between the square brackets of an IPv6 socket address: the
/// address, and optionally `%` and a scope number, which is read and dropped.
pub open spec fn scoped_ipv6_parse(inside: Seq<char>) -> Option<Seq<u16>> {
    match split_once(inside, '%') {
        Some((address, scope)) => if parse_digits(scope, 0xffff_ffff) is Some {
            ipv6_parse(address)
        } else {
            None
        },
        None => ipv6_parse(inside),
    }
}

/// An IPv6 address with a port: the address in square brackets, a colon, and
/// the port as a decimal numeral of at most 65535.
pub open spec fn socket_addr_v6_parse(v: Seq<char>) -> Option<(Seq<u16>, u16)> {
    let close = first_index(v, ']');
    if v.len() > 0 && v[0] == '[' && close + 1 < v.len() && v[close + 1] == ':' {
        match (
            scoped_ipv6_parse(v.subrange(1, close)),
            parse_digits(v.skip(close + 2), 65535),
        ) {
            (Some(g), Some(n)) => Some((g, n as u16)),
            _ => None,
        }
    } else {
        None
    }
}

/// An IP address of either family with a port.
pub open spec fn socket_addr_parse(v: Seq<char>) -> Option<(IpModel, u16)> {
    match socket_addr_v4_parse(v) {
        Some((o, port)) => Some((IpModel::V4(o), port)),
        None => match socket_addr_v6_parse(v) {
            Some((g, port)) => Some((IpModel::V6(g), port)),
            None => None,
        },
    }
}

impl View for SocketAddr {
    type V = (IpModel, u16);

    open spec fn view(&self) -> (IpModel, u16) {
        (self.ip@, self.port)
    }
}

/// Reads a port: a decimal numeral of at most 65535.
fn read_port(t: &[char]) -> (r: Option<u16>)
    ensures
        match parse_digits(t@, 65535) {
            Some(n) => r == Some(n as u16),
            None => r is None,
        },
{
    match read_digits(t, 65535) {
        Some(n) => Some(n as u16),
        None => None,
    }
}

/// Reads what stands between the square brackets of an IPv6 socket address.
fn read_scoped_ipv6(inside: &[char]) -> (r: Option<Ipv6Addr>)
    ensures
        match scoped_ipv6_parse(inside@) {
            Some(g) => r is Some && r->0@ == g,
            None => r is None,
        },
{
    let i = find_char(inside, '%');
    if i < inside.len() {
        let address = slice_subrange(inside, 0, i);
        let scope = slice_subrange(inside, i + 1, inside.len());
        assert(address@ =~= inside@.take(i as int));
        assert(scope@ =~= inside@.skip(i + 1));
        match read_digits(scope, 0xffff_ffff) {
            Some(_) => Ipv6Addr::parse(address),
            None => None,
        }
    } else {
        Ipv6Addr::parse(inside)
    }
}

impl SocketAddr {
    /// The socket address of `ip` and `port`.
    pub fn new(ip: IpAddr, port: u16) -> (r: Self)
        ensures
            r@ == (ip@, port),
    {
        SocketAddr { ip, port }
    }

    /// Whether the address is an IPv4 one.
    pub fn is_ipv4(&self) -> (r: bool)
        ensures
            r == (self@.0 is V4),
    {
        self.ip.is_ipv4()
    }

    /// Reads a socket address from its text.
    pub fn parse(v: &[char]) -> (r: Option<Self>)
        ensures
            match socket_addr_parse(v@) {
                Some(m) => r is Some && r->0@ == m,
                None => r is None,
            },
    {
        let colon = find_char(v, ':');
        if colon < v.len() {
            let host = slice_subrange(v, 0, colon);
            let port = slice_subrange(v, colon + 1, v.len());
            assert(host@ =~= v@.take(colon as int));
            assert(port@ =~= v@.skip(colon + 1));
            match (Ipv4Addr::parse(host), read_port(port)) {
                (Some(a), Some(n)) => {
                    return Some(SocketAddr { ip: IpAddr::V4(a), port: n });
                },
                _ => {},
            }
        }
        let close = find_char(v, ']');
        if v.len() > 0 && v[0] == '[' && close < v.len() - 1 && v[close + 1] == ':' {
            proof {
                lemma_first_index(v@, ']');
            }
            let inside = slice_subrange(v, 1, close);
            let port = slice_subrange(v, close + 2, v.len());
            assert(port@ =~= v@.skip(close + 2));
            match (read_scoped_ipv6(inside), read_port(port)) {
                (Some(a), Some(n)) => Some(SocketAddr { ip: IpAddr::V6(a), port: n }),
                _ => None,
            }
        } else {
            None
        }
    }
}

impl From<Ipv4Addr> for IpAddr {
    /// The address as one of either family.
    fn from(v: Ipv4Addr) -> (r: Self) {
        IpAddr::V4(v)
    }
}

impl vstd::std_specs::convert::FromSpecImpl<Ipv4Addr> for IpAddr {
    open spec fn obeys_from_spec() -> bool {
        true
    }

    open spec fn from_spec(v: Ipv4Addr) -> Self {
        IpAddr::V4(v)
    }
}

impl From<Ipv6Addr> for IpAddr {
    /// The address as one of either family.
    fn from(v: Ipv6Addr) -> (r: Self) {
        IpAddr::V6(v)
    }
}

impl vstd::std_specs::convert::FromSpecImpl<Ipv6Addr> for IpAddr {
    open spec fn obeys_from_spec() -> bool {
        true
    }

    open spec fn from_spec(v: Ipv6Addr) -> Self {
        IpAddr::V6(v)
    }
}

} // verus!
