//! Decimal and hexadecimal numerals: their text, their value, and the proof
//! that reading a numeral that was written gives the number back.

use vstd::prelude::*;
use crate::text::code_of;

verus! {

/// Whether `c` is one of `0` to `9`.
pub open spec fn is_digit(c: char) -> bool {
    48 <= c as int <= 57
}

/// The number that the decimal digit `c` stands for.
pub open spec fn digit_of(c: char) -> nat {
    (c as int - 48) as nat
}

/// The character for the decimal or hexadecimal digit `d`, letters in lower case.
pub open spec fn digit_char(d: nat) -> char {
    if d == 0 {
        '0'
    } else if d == 1 {
        '1'
    } else if d == 2 {
        '2'
    } else if d == 3 {
        '3'
    } else if d == 4 {
        '4'
    } else if d == 5 {
        '5'
    } else if d == 6 {
        '6'
    } else if d == 7 {
        '7'
    } else if d == 8 {
        '8'
    } else if d == 9 {
        '9'
    } else if d == 10 {
        'a'
    } else if d == 11 {
        'b'
    } else if d == 12 {
        'c'
    } else if d == 13 {
        'd'
    } else if d == 14 {
        'e'
    } else {
        'f'
    }
}

/// Whether every character of `s` is a decimal digit.
pub open spec fn all_digits(s: Seq<char>) -> bool {
    forall|i: int| 0 <= i < s.len() ==> is_digit(s[i])
}

/// The number that the decimal numeral `s` denotes. Leading zeros do not count.
pub open spec fn decimal_value(s: Seq<char>) -> nat
    decreases s.len(),
{
    if s.len() == 0 {
        0
    } else {
        decimal_value(s.drop_last()) * 10 + digit_of(s.last())
    }
}

/// The decimal numeral of `n`, without leading zeros.
pub open spec fn decimal_text(n: nat) -> Seq<char>
    decreases n,
{
    if n < 10 {
        seq![digit_char(n)]
    } else {
        decimal_text(n / 10).push(digit_char(n % 10))
    }
}

/// A numeral without sign: one or more decimal digits whose value is at most `max`.
pub open spec fn parse_digits(s: Seq<char>, max: nat) -> Option<nat> {
    if s.len() > 0 && all_digits(s) && decimal_value(s) <= max {
        Some(decimal_value(s))
    } else {
        None
    }
}

/// A numeral with an optional `+` in front, as the integer types read them
/// from a string: the sign, then one or more decimal digits, value at most `max`.
pub open spec fn parse_unsigned(s: Seq<char>, max: nat) -> Option<nat> {
    if s.len() > 0 && s[0] == '+' {
        parse_digits(s.skip(1), max)
    } else {
        parse_digits(s, max)
    }
}

/// A numeral in its shortest form: digits only, and no leading zero unless it
/// is the single digit `0`.
pub open spec fn is_canonical_decimal(s: Seq<char>) -> bool {
    &&& s.len() > 0
    &&& all_digits(s)
    &&& (s.len() == 1 || s[0] != '0')
}

/// The numeral written for `n` is canonical and denotes `n`.
pub proof fn lemma_decimal_text(n: nat)
    ensures
        is_canonical_decimal(decimal_text(n)),
        decimal_value(decimal_text(n)) == n,
        n < 10 ==> decimal_text(n).len() == 1,
        10 <= n < 100 ==> decimal_text(n).len() == 2,
        100 <= n < 1000 ==> decimal_text(n).len() == 3,
        n >= 10 ==> decimal_text(n).len() >= 2,
    decreases n,
{
    let t = decimal_text(n);
    if n < 10 {
        assert(t.drop_last() =~= Seq::<char>::empty());
        assert(decimal_value(t.drop_last()) == 0);
    } else {
        lemma_decimal_text(n / 10);
        let p = decimal_text(n / 10);
        assert(t.drop_last() =~= p);
        assert(t[0] == p[0]);
        assert forall|i: int| 0 <= i < t.len() implies is_digit(t[i]) by {
            if i < p.len() {
                assert(t[i] == p[i]);
            }
        }
        if p.len() == 1 {
            assert(p[0] != '0') by {
                assert(decimal_value(p.drop_last()) == 0) by {
                    assert(p.drop_last() =~= Seq::<char>::empty());
                }
            }
        }
    }
}

/// A canonical numeral is the numeral written for its value.
pub proof fn lemma_canonical_decimal(s: Seq<char>)
    requires
        is_canonical_decimal(s),
    ensures
        decimal_text(decimal_value(s)) == s,
    decreases s.len(),
{
    let n = decimal_value(s);
    let p = s.drop_last();
    if s.len() == 1 {
        assert(p =~= Seq::<char>::empty());
        assert(decimal_value(p) == 0);
        assert(s =~= seq![digit_char(n)]);
    } else {
        assert(p[0] == s[0]);
        lemma_canonical_decimal(p);
        lemma_decimal_positive(p);
        assert(n / 10 == decimal_value(p));
        assert(n % 10 == digit_of(s.last()));
        assert(s =~= p.push(digit_char(n % 10)));
    }
}

/// A numeral of digits that does not start with `0` denotes a positive number.
pub proof fn lemma_decimal_positive(s: Seq<char>)
    requires
        s.len() > 0,
        all_digits(s),
        s[0] != '0',
    ensures
        decimal_value(s) > 0,
    decreases s.len(),
{
    let p = s.drop_last();
    if s.len() == 1 {
        assert(p =~= Seq::<char>::empty());
        assert(decimal_value(p) == 0);
    } else {
        assert(p[0] == s[0]);
        lemma_decimal_positive(p);
    }
}

/// The value of a numeral is at least the value of each of its prefixes.
pub proof fn lemma_decimal_prefix(s: Seq<char>, k: int)
    requires
        all_digits(s),
        0 <= k <= s.len(),
    ensures
        decimal_value(s.take(k)) <= decimal_value(s),
    decreases s.len() - k,
{
    if k == s.len() {
        assert(s.take(k) =~= s);
    } else {
        lemma_decimal_prefix(s, k + 1);
        let q = s.take(k + 1);
        assert(q.drop_last() =~= s.take(k));
    }
}

/// Whether `c` is a hexadecimal digit, in either case.
pub open spec fn is_hex_digit(c: char) -> bool {
    let n = c as int;
    48 <= n <= 57 || 97 <= n <= 102 || 65 <= n <= 70
}

/// The number that the hexadecimal digit `c` stands for.
pub open spec fn hex_digit_of(c: char) -> nat {
    let n = c as int;
    if 48 <= n <= 57 {
        (n - 48) as nat
    } else if 97 <= n <= 102 {
        (n - 87) as nat
    } else {
        (n - 55) as nat
    }
}

/// Whether every character of `s` is a hexadecimal digit.
pub open spec fn all_hex_digits(s: Seq<char>) -> bool {
    forall|i: int| 0 <= i < s.len() ==> is_hex_digit(s[i])
}

/// The number that the hexadecimal numeral `s` denotes.
pub open spec fn hex_value(s: Seq<char>) -> nat
    decreases s.len(),
{
    if s.len() == 0 {
        0
    } else {
        hex_value(s.drop_last()) * 16 + hex_digit_of(s.last())
    }
}

/// The hexadecimal numeral of `n`, in lower case and without leading zeros.
pub open spec fn hex_text(n: nat) -> Seq<char>
    decreases n,
{
    if n < 16 {
        seq![digit_char(n)]
    } else {
        hex_text(n / 16).push(digit_char(n % 16))
    }
}

/// One group of an IPv6 address: one to four hexadecimal digits.
pub open spec fn parse_hex_group(s: Seq<char>) -> Option<nat> {
    if 1 <= s.len() <= 4 && all_hex_digits(s) {
        Some(hex_value(s))
    } else {
        None
    }
}

/// A numeral of at most four hexadecimal digits fits in sixteen bits.
pub proof fn lemma_hex_group_bound(s: Seq<char>)
    requires
        all_hex_digits(s),
        s.len() <= 4,
    ensures
        s.len() == 0 ==> hex_value(s) == 0,
        s.len() == 1 ==> hex_value(s) < 0x10,
        s.len() == 2 ==> hex_value(s) < 0x100,
        s.len() == 3 ==> hex_value(s) < 0x1000,
        hex_value(s) < 0x10000,
    decreases s.len(),
{
    if s.len() > 0 {
        lemma_hex_group_bound(s.drop_last());
    }
}

/// The numeral written for a sixteen-bit `n` is a group that denotes `n`.
pub proof fn lemma_hex_text(n: nat)
    requires
        n < 0x10000,
    ensures
        all_hex_digits(hex_text(n)),
        hex_value(hex_text(n)) == n,
        n < 0x10 ==> hex_text(n).len() == 1,
        0x10 <= n < 0x100 ==> hex_text(n).len() == 2,
        0x100 <= n < 0x1000 ==> hex_text(n).len() == 3,
        0x1000 <= n ==> hex_text(n).len() == 4,
        parse_hex_group(hex_text(n)) == Some(n),
    decreases n,
{
    let t = hex_text(n);
    if n < 16 {
        assert(t.drop_last() =~= Seq::<char>::empty());
        assert(hex_value(t.drop_last()) == 0);
    } else {
        lemma_hex_text(n / 16);
        let p = hex_text(n / 16);
        assert(t.drop_last() =~= p);
        assert forall|i: int| 0 <= i < t.len() implies is_hex_digit(t[i]) by {
            if i < p.len() {
                assert(t[i] == p[i]);
            }
        }
    }
}

/// The character of a digit below sixteen.
fn digit_to_char(d: u8) -> (c: char)
    requires
        d < 16,
    ensures
        c == digit_char(d as nat),
{
    if d == 0 {
        '0'
    } else if d == 1 {
        '1'
    } else if d == 2 {
        '2'
    } else if d == 3 {
        '3'
    } else if d == 4 {
        '4'
    } else if d == 5 {
        '5'
    } else if d == 6 {
        '6'
    } else if d == 7 {
        '7'
    } else if d == 8 {
        '8'
    } else if d == 9 {
        '9'
    } else if d == 10 {
        'a'
    } else if d == 11 {
        'b'
    } else if d == 12 {
        'c'
    } else if d == 13 {
        'd'
    } else if d == 14 {
        'e'
    } else {
        'f'
    }
}

/// Appends the decimal numeral of `n` to `out`.
pub fn push_decimal(out: &mut Vec<char>, n: u32)
    ensures
        final(out)@ == old(out)@ + decimal_text(n as nat),
    decreases n,
{
    if n < 10 {
        out.push(digit_to_char(n as u8));
        assert(old(out)@.push(digit_char(n as nat)) =~= old(out)@ + decimal_text(n as nat));
    } else {
        push_decimal(out, n / 10);
        out.push(digit_to_char((n % 10) as u8));
        assert((old(out)@ + decimal_text((n / 10) as nat)).push(digit_char((n % 10) as nat))
            =~= old(out)@ + decimal_text(n as nat));
    }
}

/// Appends the hexadecimal numeral of `n` to `out`.
pub fn push_hex(out: &mut Vec<char>, n: u16)
    ensures
        final(out)@ == old(out)@ + hex_text(n as nat),
    decreases n,
{
    if n < 16 {
        out.push(digit_to_char(n as u8));
        assert(old(out)@.push(digit_char(n as nat)) =~= old(out)@ + hex_text(n as nat));
    } else {
        push_hex(out, n / 16);
        out.push(digit_to_char((n % 16) as u8));
        assert((old(out)@ + hex_text((n / 16) as nat)).push(digit_char((n % 16) as nat)) =~= old(
            out,
        )@ + hex_text(n as nat));
    }
}

/// Reads a numeral without sign whose value is at most `max`.
pub fn read_digits(s: &[char], max: u32) -> (r: Option<u32>)
    ensures
        r is Some <==> parse_digits(s@, max as nat) is Some,
        r is Some ==> r->0 as nat == parse_digits(s@, max as nat)->0,
{
    if s.len() == 0 {
        return None;
    }
    let mut acc: u64 = 0;
    let mut i: usize = 0;
    while i < s.len()
        invariant
            i <= s.len(),
            all_digits(s@.take(i as int)),
            acc == decimal_value(s@.take(i as int)),
            acc <= max,
        decreases s.len() - i,
    {
        let c: u32 = code_of(s[i]);
        if c < 48 || c > 57 {
            assert(!is_digit(s@[i as int]));
            return None;
        }
        proof {
            let q = s@.take(i + 1);
            assert(q.drop_last() =~= s@.take(i as int));
            assert forall|j: int| 0 <= j < q.len() implies is_digit(q[j]) by {
                if j < i {
                    assert(q[j] == s@.take(i as int)[j]);
                }
            }
        }
        acc = acc * 10 + (c - 48) as u64;
        i += 1;
        if acc > max as u64 {
            proof {
                if all_digits(s@) {
                    lemma_decimal_prefix(s@, i as int);
                }
            }
            return None;
        }
    }
    assert(s@.take(s.len() as int) =~= s@);
    Some(acc as u32)
}

/// Reads a numeral with an optional `+` in front whose value is at most `max`.
pub fn read_unsigned(s: &[char], max: u32) -> (r: Option<u32>)
    ensures
        r is Some <==> parse_unsigned(s@, max as nat) is Some,
        r is Some ==> r->0 as nat == parse_unsigned(s@, max as nat)->0,
{
    if s.len() > 0 && s[0] == '+' {
        let rest = vstd::slice::slice_subrange(s, 1, s.len());
        assert(rest@ =~= s@.skip(1));
        read_digits(rest, max)
    } else {
        read_digits(s, max)
    }
}

/// Reads one group of one to four hexadecimal digits.
pub fn read_hex_group(s: &[char]) -> (r: Option<u16>)
    ensures
        r is Some <==> parse_hex_group(s@) is Some,
        r is Some ==> r->0 as nat == parse_hex_group(s@)->0,
{
    if s.len() == 0 || s.len() > 4 {
        return None;
    }
    let mut acc: u32 = 0;
    let mut i: usize = 0;
    while i < s.len()
        invariant
            i <= s.len() <= 4,
            all_hex_digits(s@.take(i as int)),
            acc == hex_value(s@.take(i as int)),
        decreases s.len() - i,
    {
        let c: u32 = code_of(s[i]);
        let d: u32 = if 48 <= c && c <= 57 {
            c - 48
        } else if 97 <= c && c <= 102 {
            c - 87
        } else if 65 <= c && c <= 70 {
            c - 55
        } else {
            assert(!is_hex_digit(s@[i as int]));
            return None;
        };
        proof {
            let q = s@.take(i + 1);
            assert(q.drop_last() =~= s@.take(i as int));
            assert forall|j: int| 0 <= j < q.len() implies is_hex_digit(q[j]) by {
                if j < i {
                    assert(q[j] == s@.take(i as int)[j]);
                }
            }
            lemma_hex_group_bound(s@.take(i as int));
        }
        acc = acc * 16 + d;
        i += 1;
    }
    proof {
        assert(s@.take(s.len() as int) =~= s@);
        lemma_hex_group_bound(s@);
    }
    Some(acc as u16)
}

} // verus!
