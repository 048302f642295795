//! Searching, splitting, joining and trimming of character sequences.

use vstd::prelude::*;
use crate::text::{code_of, copy_range, push_text, string_of};

verus! {

/// The index of the first occurrence of `c` in `s`, or `s.len()` when there is none.
pub open spec fn first_index(s: Seq<char>, c: char) -> int
    decreases s.len(),
{
    if s.len() == 0 || s[0] == c {
        0
    } else {
        1 + first_index(s.skip(1), c)
    }
}

/// Whether `c` occurs nowhere in `s`.
pub open spec fn free_of(s: Seq<char>, c: char) -> bool {
    forall|i: int| 0 <= i < s.len() ==> s[i] != c
}

/// What `first_index` returns: it is in range, nothing before it is `c`, and
/// it points at a `c` unless it is the length.
pub proof fn lemma_first_index(s: Seq<char>, c: char)
    ensures
        0 <= first_index(s, c) <= s.len(),
        forall|j: int| 0 <= j < first_index(s, c) ==> s[j] != c,
        first_index(s, c) < s.len() ==> s[first_index(s, c)] == c,
        first_index(s, c) == s.len() <==> free_of(s, c),
    decreases s.len(),
{
    if s.len() == 0 || s[0] == c {
    } else {
        let t = s.skip(1);
        lemma_first_index(t, c);
        assert forall|j: int| 0 <= j < first_index(s, c) implies s[j] != c by {
            if j > 0 {
                assert(s[j] == t[j - 1]);
            }
        }
        if first_index(t, c) == t.len() {
            assert forall|i: int| 0 <= i < s.len() implies s[i] != c by {
                if i > 0 {
                    assert(s[i] == t[i - 1]);
                }
            }
        }
    }
}

/// An index with the defining property of `first_index` is `first_index`.
pub proof fn lemma_first_index_is(s: Seq<char>, c: char, i: int)
    requires
        0 <= i <= s.len(),
        forall|j: int| 0 <= j < i ==> s[j] != c,
        i < s.len() ==> s[i] == c,
    ensures
        first_index(s, c) == i,
{
    lemma_first_index(s, c);
    let f = first_index(s, c);
    if f < i {
        assert(s[f] == c);
    } else if i < f {
        assert(s[i] == c);
    }
}

/// The parts before and after the first `c` in `s`, if `c` occurs.
pub open spec fn split_once(s: Seq<char>, c: char) -> Option<(Seq<char>, Seq<char>)> {
    let i = first_index(s, c);
    if i < s.len() {
        Some((s.take(i), s.skip(i + 1)))
    } else {
        None
    }
}

/// The maximal runs of `s` between occurrences of `c`. Never empty: a text
/// without `c` is its own single part.
pub open spec fn split(s: Seq<char>, c: char) -> Seq<Seq<char>>
    decreases s.len(),
    via split_decreases
{
    let i = first_index(s, c);
    if i < s.len() {
        seq![s.take(i)] + split(s.skip(i + 1), c)
    } else {
        seq![s]
    }
}

/// The rest after a separator is shorter than the text.
#[via_fn]
proof fn split_decreases(s: Seq<char>, c: char) {
    lemma_first_index(s, c);
}

/// The parts, with one `c` between each two neighbours.
pub open spec fn join(parts: Seq<Seq<char>>, c: char) -> Seq<char>
    decreases parts.len(),
{
    if parts.len() == 0 {
        Seq::empty()
    } else if parts.len() == 1 {
        parts[0]
    } else {
        parts[0] + seq![c] + join(parts.skip(1), c)
    }
}

/// Joining one more part adds a separator and the part, or the part alone
/// when it is the first.
pub proof fn lemma_join_push(parts: Seq<Seq<char>>, last: Seq<char>, c: char)
    ensures
        join(parts.push(last), c) == if parts.len() == 0 {
            last
        } else {
            join(parts, c) + seq![c] + last
        },
    decreases parts.len(),
{
    let all = parts.push(last);
    if parts.len() == 0 {
    } else {
        let rest = parts.skip(1);
        lemma_join_push(rest, last, c);
        assert(all.skip(1) =~= rest.push(last));
        assert(all[0] == parts[0]);
        if rest.len() == 0 {
            assert(join(all, c) =~= join(parts, c) + seq![c] + last);
        } else {
            assert(join(all, c) =~= join(parts, c) + seq![c] + last);
        }
    }
}

/// Every part is free of `c`.
pub open spec fn parts_free_of(parts: Seq<Seq<char>>, c: char) -> bool {
    forall|i: int| 0 <= i < parts.len() ==> free_of(#[trigger] parts[i], c)
}

/// Splitting a text that starts with a `c`-free part and continues after a `c`.
pub proof fn lemma_split_step(head: Seq<char>, rest: Seq<char>, c: char)
    requires
        free_of(head, c),
    ensures
        split(head + seq![c] + rest, c) == seq![head] + split(rest, c),
        split_once(head + seq![c] + rest, c) == Some((head, rest)),
{
    let s = head + seq![c] + rest;
    assert(s[head.len() as int] == c);
    lemma_first_index_is(s, c, head.len() as int);
    assert(s.take(head.len() as int) =~= head);
    assert(s.skip(head.len() as int + 1) =~= rest);
}

/// A `c`-free text is its own single part.
pub proof fn lemma_split_free(s: Seq<char>, c: char)
    requires
        free_of(s, c),
    ensures
        split(s, c) == seq![s],
        split_once(s, c) is None,
{
    lemma_first_index(s, c);
}

/// Splitting undoes joining when no part holds the separator.
pub proof fn lemma_split_join(parts: Seq<Seq<char>>, c: char)
    requires
        parts.len() >= 1,
        parts_free_of(parts, c),
    ensures
        split(join(parts, c), c) == parts,
    decreases parts.len(),
{
    if parts.len() == 1 {
        lemma_split_free(parts[0], c);
        assert(parts =~= seq![parts[0]]);
    } else {
        let rest = parts.skip(1);
        assert forall|i: int| 0 <= i < rest.len() implies free_of(#[trigger] rest[i], c) by {
            assert(rest[i] == parts[i + 1]);
        }
        lemma_split_join(rest, c);
        lemma_split_step(parts[0], join(rest, c), c);
        assert(parts =~= seq![parts[0]] + rest);
    }
}

/// Splitting always yields at least one part, none of which holds `c`, and
/// joining them gives the text back.
pub proof fn lemma_split_parts(s: Seq<char>, c: char)
    ensures
        split(s, c).len() >= 1,
        parts_free_of(split(s, c), c),
        join(split(s, c), c) == s,
    decreases s.len(),
{
    lemma_first_index(s, c);
    let i = first_index(s, c);
    if i < s.len() {
        let rest = s.skip(i + 1);
        lemma_split_parts(rest, c);
        let parts = split(s, c);
        assert(parts.skip(1) =~= split(rest, c));
        assert forall|k: int| 0 <= k < parts.len() implies free_of(#[trigger] parts[k], c) by {
            if k > 0 {
                assert(parts[k] == split(rest, c)[k - 1]);
            }
        }
        assert(s =~= s.take(i) + seq![c] + rest);
    }
}

/// The Unicode `White_Space` characters, which are the ones that trimming removes
/// and that separate a flag from its value.
pub open spec fn is_space(c: char) -> bool {
    let n = c as int;
    ||| 0x09 <= n <= 0x0D
    ||| n == 0x20
    ||| n == 0x85
    ||| n == 0xA0
    ||| n == 0x1680
    ||| 0x2000 <= n <= 0x200A
    ||| n == 0x2028
    ||| n == 0x2029
    ||| n == 0x202F
    ||| n == 0x205F
    ||| n == 0x3000
}

/// Whether every character of `s` is white space.
pub open spec fn all_space(s: Seq<char>) -> bool {
    forall|i: int| 0 <= i < s.len() ==> is_space(s[i])
}

/// The index of the first white-space character of `s`, or `s.len()` when there is none.
pub open spec fn first_space(s: Seq<char>) -> int
    decreases s.len(),
{
    if s.len() == 0 || is_space(s[0]) {
        0
    } else {
        1 + first_space(s.skip(1))
    }
}

/// What `first_space` returns.
pub proof fn lemma_first_space(s: Seq<char>)
    ensures
        0 <= first_space(s) <= s.len(),
        forall|j: int| 0 <= j < first_space(s) ==> !is_space(s[j]),
        first_space(s) < s.len() ==> is_space(s[first_space(s)]),
    decreases s.len(),
{
    if s.len() == 0 || is_space(s[0]) {
    } else {
        let t = s.skip(1);
        lemma_first_space(t);
        assert forall|j: int| 0 <= j < first_space(s) implies !is_space(s[j]) by {
            if j > 0 {
                assert(s[j] == t[j - 1]);
            }
        }
    }
}

/// An index with the defining property of `first_space` is `first_space`.
pub proof fn lemma_first_space_is(s: Seq<char>, i: int)
    requires
        0 <= i <= s.len(),
        forall|j: int| 0 <= j < i ==> !is_space(s[j]),
        i < s.len() ==> is_space(s[i]),
    ensures
        first_space(s) == i,
{
    lemma_first_space(s);
    let f = first_space(s);
    if f < i {
        assert(is_space(s[f]));
    } else if i < f {
        assert(is_space(s[i]));
    }
}

/// The number of leading white-space characters of `s`.
pub open spec fn leading_spaces(s: Seq<char>) -> int
    decreases s.len(),
{
    if s.len() == 0 || !is_space(s[0]) {
        0
    } else {
        1 + leading_spaces(s.skip(1))
    }
}

/// The number of trailing white-space characters of `s`.
pub open spec fn trailing_spaces(s: Seq<char>) -> int
    decreases s.len(),
{
    if s.len() == 0 || !is_space(s.last()) {
        0
    } else {
        1 + trailing_spaces(s.drop_last())
    }
}

/// `s` without its leading white space.
pub open spec fn trim_start(s: Seq<char>) -> Seq<char> {
    s.skip(leading_spaces(s))
}

/// `s` without its trailing white space.
pub open spec fn trim_end(s: Seq<char>) -> Seq<char> {
    s.take(s.len() - trailing_spaces(s))
}

/// `s` without its leading and trailing white space.
pub open spec fn trim(s: Seq<char>) -> Seq<char> {
    trim_end(trim_start(s))
}

/// What `leading_spaces` returns.
pub proof fn lemma_leading_spaces(s: Seq<char>)
    ensures
        0 <= leading_spaces(s) <= s.len(),
        forall|j: int| 0 <= j < leading_spaces(s) ==> is_space(s[j]),
        leading_spaces(s) < s.len() ==> !is_space(s[leading_spaces(s)]),
    decreases s.len(),
{
    if s.len() == 0 || !is_space(s[0]) {
    } else {
        let t = s.skip(1);
        lemma_leading_spaces(t);
        assert forall|j: int| 0 <= j < leading_spaces(s) implies is_space(s[j]) by {
            if j > 0 {
                assert(s[j] == t[j - 1]);
            }
        }
    }
}

/// What `trailing_spaces` returns.
pub proof fn lemma_trailing_spaces(s: Seq<char>)
    ensures
        0 <= trailing_spaces(s) <= s.len(),
        forall|j: int| s.len() - trailing_spaces(s) <= j < s.len() ==> is_space(s[j]),
        trailing_spaces(s) < s.len() ==> !is_space(s[s.len() - trailing_spaces(s) - 1]),
    decreases s.len(),
{
    if s.len() == 0 || !is_space(s.last()) {
    } else {
        let t = s.drop_last();
        lemma_trailing_spaces(t);
        assert forall|j: int| s.len() - trailing_spaces(s) <= j < s.len() implies is_space(
            s[j],
        ) by {
            if j < s.len() - 1 {
                assert(s[j] == t[j]);
            }
        }
    }
}

/// A count with the defining property of `leading_spaces` is `leading_spaces`.
pub proof fn lemma_leading_spaces_is(s: Seq<char>, n: int)
    requires
        0 <= n <= s.len(),
        forall|j: int| 0 <= j < n ==> is_space(s[j]),
        n < s.len() ==> !is_space(s[n]),
    ensures
        leading_spaces(s) == n,
{
    lemma_leading_spaces(s);
    let f = leading_spaces(s);
    if f < n {
        assert(is_space(s[f]));
    } else if n < f {
        assert(is_space(s[n]));
    }
}

/// A count with the defining property of `trailing_spaces` is `trailing_spaces`.
pub proof fn lemma_trailing_spaces_is(s: Seq<char>, n: int)
    requires
        0 <= n <= s.len(),
        forall|j: int| s.len() - n <= j < s.len() ==> is_space(s[j]),
        n < s.len() ==> !is_space(s[s.len() - n - 1]),
    ensures
        trailing_spaces(s) == n,
{
    lemma_trailing_spaces(s);
    let f = trailing_spaces(s);
    if f < n {
        assert(is_space(s[s.len() - f - 1]));
    } else if n < f {
        assert(is_space(s[s.len() - n - 1]));
    }
}

/// A trimmed text neither starts nor ends with white space, and trimming it
/// again changes nothing.
pub proof fn lemma_trim_is_trimmed(s: Seq<char>)
    ensures
        trim(s).len() > 0 ==> !is_space(trim(s)[0]) && !is_space(trim(s).last()),
        trim(trim(s)) == trim(s),
{
    lemma_leading_spaces(s);
    let a = trim_start(s);
    lemma_trailing_spaces(a);
    let t = trim(s);
    if t.len() > 0 {
        assert(t[0] == a[0]);
        assert(a[0] == s[leading_spaces(s)]);
        assert(t.last() == a[a.len() - trailing_spaces(a) - 1]);
        lemma_leading_spaces_is(t, 0);
        lemma_trailing_spaces_is(t, 0);
        assert(t.skip(0) =~= t);
        assert(t.take(t.len() as int) =~= t);
    } else {
        assert(t.skip(0) =~= t);
        assert(t.take(0) =~= t);
    }
}

/// White space around a text does not change what trimming leaves of it.
pub proof fn lemma_trim_padded(left: Seq<char>, s: Seq<char>, right: Seq<char>)
    requires
        all_space(left),
        all_space(right),
    ensures
        trim(left + s + right) == trim(s),
{
    let p = left + s + right;
    lemma_leading_spaces(s);
    lemma_leading_spaces(right);
    let a = leading_spaces(s);
    let ts = trim_start(s);
    lemma_trailing_spaces(ts);
    if a == s.len() {
        // nothing but white space
        assert(all_space(p));
        lemma_leading_spaces_is(p, p.len() as int);
        assert(trim_start(p) =~= Seq::<char>::empty());
        assert(ts =~= Seq::<char>::empty());
    } else {
        lemma_leading_spaces_is(p, left.len() + a);
        let tp = trim_start(p);
        assert(tp =~= ts + right);
        let b = trailing_spaces(ts);
        assert(b < ts.len()) by {
            assert(!is_space(ts[0]));
        }
        lemma_trailing_spaces_is(tp, b + right.len());
        assert(trim_end(tp) =~= trim_end(ts));
    }
}

/// The first index of `c` in `s`, or the length of `s`.
pub fn find_char(s: &[char], c: char) -> (i: usize)
    ensures
        i == first_index(s@, c),
{
    let mut i: usize = 0;
    while i < s.len()
        invariant
            i <= s.len(),
            forall|j: int| 0 <= j < i ==> s@[j] != c,
        decreases s.len() - i,
    {
        if s[i] == c {
            proof {
                lemma_first_index_is(s@, c, i as int);
            }
            return i;
        }
        i += 1;
    }
    proof {
        lemma_first_index_is(s@, c, i as int);
    }
    i
}

/// Whether `c` is a Unicode white-space character.
pub fn is_whitespace(c: char) -> (r: bool)
    ensures
        r == is_space(c),
{
    let n: u32 = code_of(c);
    (0x09 <= n && n <= 0x0D) || n == 0x20 || n == 0x85 || n == 0xA0 || n == 0x1680 || (0x2000 <= n
        && n <= 0x200A) || n == 0x2028 || n == 0x2029 || n == 0x202F || n == 0x205F || n == 0x3000
}

/// The first index of a white-space character in `s`, or the length of `s`.
pub fn find_space(s: &[char]) -> (i: usize)
    ensures
        i == first_space(s@),
{
    let mut i: usize = 0;
    while i < s.len()
        invariant
            i <= s.len(),
            forall|j: int| 0 <= j < i ==> !is_space(s@[j]),
        decreases s.len() - i,
    {
        if is_whitespace(s[i]) {
            proof {
                lemma_first_space_is(s@, i as int);
            }
            return i;
        }
        i += 1;
    }
    proof {
        lemma_first_space_is(s@, i as int);
    }
    i
}

/// A copy of `s` without its leading and trailing white space.
pub fn trimmed(s: &[char]) -> (out: Vec<char>)
    ensures
        out@ == trim(s@),
{
    let mut a: usize = 0;
    while a < s.len() && is_whitespace(s[a])
        invariant
            a <= s.len(),
            forall|j: int| 0 <= j < a ==> is_space(s@[j]),
        decreases s.len() - a,
    {
        a += 1;
    }
    proof {
        lemma_leading_spaces_is(s@, a as int);
    }
    let mut b: usize = s.len();
    let ghost t = s@.skip(a as int);
    while b > a && is_whitespace(s[b - 1])
        invariant
            a <= b <= s.len(),
            t == s@.skip(a as int),
            forall|j: int| b - a <= j < t.len() ==> is_space(t[j]),
        decreases b,
    {
        b -= 1;
    }
    proof {
        lemma_trailing_spaces_is(t, s.len() - b);
        assert(t.take(t.len() - (s.len() - b)) =~= s@.subrange(a as int, b as int));
    }
    copy_range(s, a, b)
}

/// The texts held by a sequence of character vectors.
pub open spec fn views(v: Seq<Vec<char>>) -> Seq<Seq<char>> {
    Seq::new(v.len(), |i: int| v[i]@)
}

/// The parts of `s` between occurrences of `c`.
pub fn split_at_char(s: &[char], c: char) -> (out: Vec<Vec<char>>)
    ensures
        views(out@) == split(s@, c),
{
    let mut out: Vec<Vec<char>> = Vec::new();
    let mut start: usize = 0;
    let mut i: usize = 0;
    assert(views(out@) + split(s@.skip(0), c) =~= split(s@, c)) by {
        assert(s@.skip(0) =~= s@);
    }
    while i < s.len()
        invariant
            start <= i <= s.len(),
            forall|j: int| start <= j < i ==> s@[j] != c,
            split(s@, c) == views(out@) + split(s@.skip(start as int), c),
        decreases s.len() - i,
    {
        if s[i] == c {
            let part = copy_range(s, start, i);
            proof {
                let rest = s@.skip(start as int);
                assert forall|j: int| 0 <= j < i - start implies rest[j] != c by {
                    assert(rest[j] == s@[start + j]);
                }
                lemma_first_index_is(rest, c, i - start);
                assert(rest.take(i - start) =~= part@);
                assert(rest.skip(i - start + 1) =~= s@.skip(i + 1));
                let before = views(out@);
                assert(before.push(part@) + split(s@.skip(i + 1), c) =~= before + (seq![part@]
                    + split(s@.skip(i + 1), c)));
            }
            let ghost before = views(out@);
            out.push(part);
            assert(views(out@) =~= before.push(part@));
            start = i + 1;
        }
        i += 1;
    }
    let part = copy_range(s, start, s.len());
    proof {
        let rest = s@.skip(start as int);
        assert forall|j: int| 0 <= j < rest.len() implies rest[j] != c by {
            assert(rest[j] == s@[start + j]);
        }
        lemma_split_free(rest, c);
        assert(rest =~= part@);
    }
    let ghost before = views(out@);
    out.push(part);
    assert(views(out@) =~= before.push(part@));
    assert(before.push(part@) =~= before + seq![part@]);
    out
}


/// The index of the first occurrence of `a` or `b` in `s`, or `s.len()` when
/// there is none.
pub open spec fn first_of_two(s: Seq<char>, a: char, b: char) -> int
    decreases s.len(),
{
    if s.len() == 0 || s[0] == a || s[0] == b {
        0
    } else {
        1 + first_of_two(s.skip(1), a, b)
    }
}

/// What `first_of_two` returns.
pub proof fn lemma_first_of_two(s: Seq<char>, a: char, b: char)
    ensures
        0 <= first_of_two(s, a, b) <= s.len(),
        forall|j: int| 0 <= j < first_of_two(s, a, b) ==> s[j] != a && s[j] != b,
        first_of_two(s, a, b) < s.len() ==> s[first_of_two(s, a, b)] == a || s[first_of_two(
            s,
            a,
            b,
        )] == b,
    decreases s.len(),
{
    if s.len() == 0 || s[0] == a || s[0] == b {
    } else {
        let t = s.skip(1);
        lemma_first_of_two(t, a, b);
        assert forall|j: int| 0 <= j < first_of_two(s, a, b) implies s[j] != a && s[j] != b by {
            if j > 0 {
                assert(s[j] == t[j - 1]);
            }
        }
    }
}

/// An index with the defining property of `first_of_two` is `first_of_two`.
pub proof fn lemma_first_of_two_is(s: Seq<char>, a: char, b: char, i: int)
    requires
        0 <= i <= s.len(),
        forall|j: int| 0 <= j < i ==> s[j] != a && s[j] != b,
        i < s.len() ==> s[i] == a || s[i] == b,
    ensures
        first_of_two(s, a, b) == i,
{
    lemma_first_of_two(s, a, b);
    let f = first_of_two(s, a, b);
    if f < i {
        assert(s[f] == a || s[f] == b);
    } else if i < f {
        assert(s[i] == a || s[i] == b);
    }
}

/// The maximal runs of `s` between occurrences of `a` or `b`. Never empty.
pub open spec fn split_either(s: Seq<char>, a: char, b: char) -> Seq<Seq<char>>
    decreases s.len(),
    via split_either_decreases
{
    let i = first_of_two(s, a, b);
    if i < s.len() {
        seq![s.take(i)] + split_either(s.skip(i + 1), a, b)
    } else {
        seq![s]
    }
}

/// The rest after a separator is shorter than the text.
#[via_fn]
proof fn split_either_decreases(s: Seq<char>, a: char, b: char) {
    lemma_first_of_two(s, a, b);
}

/// The parts of `s` between occurrences of `a` or `b`.
pub fn split_at_either(s: &[char], a: char, b: char) -> (out: Vec<Vec<char>>)
    ensures
        views(out@) == split_either(s@, a, b),
{
    let mut out: Vec<Vec<char>> = Vec::new();
    let mut start: usize = 0;
    let mut i: usize = 0;
    assert(views(out@) + split_either(s@.skip(0), a, b) =~= split_either(s@, a, b)) by {
        assert(s@.skip(0) =~= s@);
    }
    while i < s.len()
        invariant
            start <= i <= s.len(),
            forall|j: int| start <= j < i ==> s@[j] != a && s@[j] != b,
            split_either(s@, a, b) == views(out@) + split_either(s@.skip(start as int), a, b),
        decreases s.len() - i,
    {
        if s[i] == a || s[i] == b {
            let part = copy_range(s, start, i);
            proof {
                let rest = s@.skip(start as int);
                assert forall|j: int| 0 <= j < i - start implies rest[j] != a && rest[j] != b by {
                    assert(rest[j] == s@[start + j]);
                }
                lemma_first_of_two_is(rest, a, b, i - start);
                assert(rest.take(i - start) =~= part@);
                assert(rest.skip(i - start + 1) =~= s@.skip(i + 1));
                let before = views(out@);
                assert(before.push(part@) + split_either(s@.skip(i + 1), a, b) =~= before + (seq![
                    part@,
                ] + split_either(s@.skip(i + 1), a, b)));
            }
            let ghost before = views(out@);
            out.push(part);
            assert(views(out@) =~= before.push(part@));
            start = i + 1;
        }
        i += 1;
    }
    let part = copy_range(s, start, s.len());
    proof {
        let rest = s@.skip(start as int);
        assert forall|j: int| 0 <= j < rest.len() implies rest[j] != a && rest[j] != b by {
            assert(rest[j] == s@[start + j]);
        }
        lemma_first_of_two_is(rest, a, b, rest.len() as int);
        assert(rest =~= part@);
    }
    let ghost before = views(out@);
    out.push(part);
    assert(views(out@) =~= before.push(part@));
    assert(before.push(part@) =~= before + seq![part@]);
    out
}

/// The texts held by a sequence of strings.
pub open spec fn texts(v: Seq<String>) -> Seq<Seq<char>> {
    Seq::new(v.len(), |i: int| v[i]@)
}

/// The strings of the parts.
pub fn strings_of(parts: &Vec<Vec<char>>) -> (out: Vec<String>)
    ensures
        texts(out@) == views(parts@),
{
    let mut out: Vec<String> = Vec::new();
    let mut i: usize = 0;
    while i < parts.len()
        invariant
            i <= parts.len(),
            out@.len() == i,
            forall|j: int| 0 <= j < i ==> out@[j]@ == parts@[j]@,
        decreases parts.len() - i,
    {
        out.push(string_of(parts[i].as_slice()));
        i += 1;
    }
    assert(texts(out@) =~= views(parts@));
    out
}

/// Appends the strings to `out`, with one `c` between each two neighbours.
pub fn push_joined(out: &mut Vec<char>, parts: &[String], c: char)
    ensures
        final(out)@ == old(out)@ + join(texts(parts@), c),
{
    let mut i: usize = 0;
    assert(texts(parts@.take(0)) =~= Seq::<Seq<char>>::empty());
    assert(out@ =~= old(out)@ + join(texts(parts@.take(0)), c));
    while i < parts.len()
        invariant
            i <= parts.len(),
            out@ == old(out)@ + join(texts(parts@.take(i as int)), c),
        decreases parts.len() - i,
    {
        let ghost before = texts(parts@.take(i as int));
        proof {
            assert(texts(parts@.take(i + 1)) =~= before.push(parts@[i as int]@));
            lemma_join_push(before, parts@[i as int]@, c);
        }
        if i > 0 {
            out.push(c);
        }
        push_text(out, parts[i].as_str());
        assert(out@ =~= old(out)@ + join(texts(parts@.take(i + 1)), c));
        i += 1;
    }
    assert(parts@.take(parts.len() as int) =~= parts@);
}

} // verus!
