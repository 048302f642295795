//! The builder that every adb command starts from: the environment of the
//! command and its global options.
//!
//! The global options of a command form a set with at most one option of each
//! kind. Adding an option replaces the one of its kind that is already there.
//! The options are kept, and written, in the order of their kinds, which is
//! the order in which adb lists them: the order in which they were added does
//! not count.

use vstd::prelude::*;
use crate::global_option::{option_text, AdbGlobalOption, OptionKind, OptionModel};
use crate::ip::IpAddr;
use crate::socket::Tcp;
use crate::number::{decimal_text, push_decimal};
use crate::scan::texts;
use crate::text::{chars_of, push_text, string_of};
use crate::Adb;

pub mod app_installation;
pub mod debugging;
pub mod features;
pub mod file_transfer;
pub mod general;
pub mod internal_debugging;
pub mod networking;
pub mod scripting;
pub mod security;
pub mod shell;
pub mod usb;

pub use file_transfer::{AdbCompressionAlgorithm, AdbSyncTarget};
pub use scripting::{AdbRebootTarget, AdbWaitForState, AdbWaitForTransport};

verus! {

/// The place of an option in the order in which the options of a command
/// are written: that of its kind.
pub open spec fn place(option: OptionModel) -> int {
    option.kind().place()
}

/// The options stand in the order of their kinds, and no two are of the same
/// kind.
pub open spec fn in_order(s: Seq<OptionModel>) -> bool {
    forall|i: int, j: int| 0 <= i < j < s.len() ==> place(s[i]) < place(s[j])
}

/// No two options are of the same kind.
pub open spec fn distinct_kinds(s: Seq<OptionModel>) -> bool {
    forall|i: int, j: int| 0 <= i < j < s.len() ==> s[i].kind() != s[j].kind()
}

/// The options of `s` whose place is before `r`, in their order.
pub open spec fn kinds_below(s: Seq<OptionModel>, r: int) -> Seq<OptionModel>
    decreases s.len(),
{
    if s.len() == 0 {
        s
    } else if place(s.last()) < r {
        kinds_below(s.drop_last(), r).push(s.last())
    } else {
        kinds_below(s.drop_last(), r)
    }
}

/// The options of `s` whose place is after `r`, in their order.
pub open spec fn kinds_above(s: Seq<OptionModel>, r: int) -> Seq<OptionModel>
    decreases s.len(),
{
    if s.len() == 0 {
        s
    } else if place(s.last()) > r {
        kinds_above(s.drop_last(), r).push(s.last())
    } else {
        kinds_above(s.drop_last(), r)
    }
}

/// The options after `option` was added: those of the kinds before its own,
/// then `option`, then those of the kinds after its own. An option of the
/// same kind is in neither part, so `option` takes its place.
pub open spec fn with_option(s: Seq<OptionModel>, option: OptionModel) -> Seq<OptionModel> {
    kinds_below(s, place(option)) + seq![option] + kinds_above(s, place(option))
}

/// The option of the kind `k` in `s`, if there is one.
pub open spec fn option_of_kind(s: Seq<OptionModel>, k: OptionKind) -> Option<OptionModel>
    decreases s.len(),
{
    if s.len() == 0 {
        None
    } else if s.last().kind() == k {
        Some(s.last())
    } else {
        option_of_kind(s.drop_last(), k)
    }
}

/// The number of options of the kind `k` in `s`.
pub open spec fn count_of_kind(s: Seq<OptionModel>, k: OptionKind) -> nat
    decreases s.len(),
{
    if s.len() == 0 {
        0
    } else if s.last().kind() == k {
        count_of_kind(s.drop_last(), k) + 1
    } else {
        count_of_kind(s.drop_last(), k)
    }
}

/// Options in the order of their kinds are of distinct kinds, and so are
/// all but the last of them.
pub proof fn lemma_in_order(s: Seq<OptionModel>)
    requires
        in_order(s),
    ensures
        distinct_kinds(s),
        s.len() > 0 ==> in_order(s.drop_last()),
{
    assert forall|i: int, j: int| 0 <= i < j < s.len() implies s[i].kind() != s[j].kind() by {
        assert(place(s[i]) < place(s[j]));
    }
    if s.len() > 0 {
        let front = s.drop_last();
        assert forall|i: int, j: int| 0 <= i < j < front.len() implies place(front[i]) < place(
            front[j],
        ) by {
            assert(place(s[i]) < place(s[j]));
        }
    }
}

/// Where no option is of the kind `k`, none is found and none is counted.
pub proof fn lemma_kind_absent(s: Seq<OptionModel>, k: OptionKind)
    requires
        forall|j: int| 0 <= j < s.len() ==> (#[trigger] s[j]).kind() != k,
    ensures
        option_of_kind(s, k) is None,
        count_of_kind(s, k) == 0,
    decreases s.len(),
{
    if s.len() > 0 {
        let front = s.drop_last();
        assert forall|j: int| 0 <= j < front.len() implies (#[trigger] front[j]).kind() != k by {
            assert(front[j] == s[j]);
        }
        lemma_kind_absent(front, k);
    }
}

/// Where the kinds are distinct and the option at `at` is of the kind `k`,
/// it is the one that is found, and the only one that is counted.
pub proof fn lemma_kind_found(s: Seq<OptionModel>, k: OptionKind, at: int)
    requires
        distinct_kinds(s),
        0 <= at < s.len(),
        s[at].kind() == k,
    ensures
        option_of_kind(s, k) == Some(s[at]),
        count_of_kind(s, k) == 1,
    decreases s.len(),
{
    let front = s.drop_last();
    assert forall|i: int, j: int| 0 <= i < j < front.len() implies front[i].kind()
        != front[j].kind() by {
        assert(s[i].kind() != s[j].kind());
    }
    if at == s.len() - 1 {
        assert forall|j: int| 0 <= j < front.len() implies (#[trigger] front[j]).kind() != k by {
            assert(s[j].kind() != s[at].kind());
        }
        lemma_kind_absent(front, k);
    } else {
        assert(s[at].kind() != s[s.len() - 1].kind());
        assert(front[at] == s[at]);
        lemma_kind_found(front, k, at);
    }
}

/// Where the options stand in order and `at` parts those before the place
/// `r` from the others, the options before `r` are those before `at`, and the
/// options after `r` are those from `at` on, without the one at `at` if its
/// place is `r`.
pub proof fn lemma_parts(s: Seq<OptionModel>, r: int, at: int)
    requires
        in_order(s),
        0 <= at <= s.len(),
        forall|j: int| 0 <= j < at ==> place(#[trigger] s[j]) < r,
        forall|j: int| at <= j < s.len() ==> place(#[trigger] s[j]) >= r,
    ensures
        kinds_below(s, r) == s.take(at),
        kinds_above(s, r) == s.skip(
            if at < s.len() && place(s[at]) == r {
                at + 1
            } else {
                at
            },
        ),
    decreases s.len(),
{
    if s.len() == 0 {
        assert(s.take(at) =~= s);
        assert(s.skip(at) =~= s);
    } else {
        let front = s.drop_last();
        let last = s.last();
        lemma_in_order(s);
        if at == s.len() {
            assert forall|j: int| 0 <= j < front.len() implies place(#[trigger] front[j]) < r by {
                assert(front[j] == s[j]);
            }
            lemma_parts(front, r, at - 1);
            assert(front.take(at - 1) =~= front);
            assert(front.push(last) =~= s.take(at));
            assert(front.skip(at - 1) =~= s.skip(at));
        } else {
            assert(place(s[s.len() - 1]) >= r);
            assert forall|j: int| 0 <= j < at implies place(#[trigger] front[j]) < r by {
                assert(front[j] == s[j]);
            }
            assert forall|j: int| at <= j < front.len() implies place(#[trigger] front[j])
                >= r by {
                assert(front[j] == s[j]);
            }
            lemma_parts(front, r, at);
            assert(front.take(at) =~= s.take(at));
            if at == s.len() - 1 {
                assert(front.skip(at) =~= Seq::<OptionModel>::empty());
                if place(last) == r {
                    assert(s.skip(at + 1) =~= Seq::<OptionModel>::empty());
                } else {
                    assert(Seq::<OptionModel>::empty().push(last) =~= s.skip(at));
                }
            } else {
                assert(place(s[at]) < place(s[s.len() - 1]));
                assert(front[at] == s[at]);
                let from = if place(s[at]) == r {
                    at + 1
                } else {
                    at
                };
                assert(front.skip(from).push(last) =~= s.skip(from));
            }
        }
    }
}

/// The index of the first option of `s` whose place is not before `r`, or
/// `s.len()` when there is none.
pub open spec fn first_from(s: Seq<OptionModel>, r: int) -> int
    decreases s.len(),
{
    if s.len() == 0 || place(s[0]) >= r {
        0
    } else {
        1 + first_from(s.skip(1), r)
    }
}

/// What `first_from` returns, and that it parts options that stand in order.
pub proof fn lemma_first_from(s: Seq<OptionModel>, r: int)
    ensures
        0 <= first_from(s, r) <= s.len(),
        forall|j: int| 0 <= j < first_from(s, r) ==> place(#[trigger] s[j]) < r,
        first_from(s, r) < s.len() ==> place(s[first_from(s, r)]) >= r,
        in_order(s) ==> forall|j: int| first_from(s, r) <= j < s.len() ==> place(#[trigger] s[j])
            >= r,
    decreases s.len(),
{
    if s.len() == 0 || place(s[0]) >= r {
    } else {
        let t = s.skip(1);
        lemma_first_from(t, r);
        assert forall|j: int| 0 <= j < first_from(s, r) implies place(#[trigger] s[j]) < r by {
            if j > 0 {
                assert(s[j] == t[j - 1]);
            }
        }
    }
    let f = first_from(s, r);
    if in_order(s) {
        assert forall|j: int| f <= j < s.len() implies place(#[trigger] s[j]) >= r by {
            if j > f {
                assert(place(s[f]) < place(s[j]));
            }
        }
    }
}

/// What adding an option gives, by indices: the options before its place,
/// the option, and the options after its place.
pub proof fn lemma_with_option_parts(s: Seq<OptionModel>, option: OptionModel)
    requires
        in_order(s),
    ensures
        ({
            let at = first_from(s, place(option));
            let from = if at < s.len() && s[at].kind() == option.kind() {
                at + 1
            } else {
                at
            };
            &&& 0 <= at <= from <= s.len()
            &&& with_option(s, option) == s.take(at) + seq![option] + s.skip(from)
            &&& forall|j: int| 0 <= j < at ==> place(#[trigger] s[j]) < place(option)
            &&& forall|j: int| from <= j < s.len() ==> place(#[trigger] s[j]) > place(option)
        }),
{
    let r = place(option);
    let at = first_from(s, r);
    lemma_first_from(s, r);
    lemma_parts(s, r, at);
    assert forall|j: int| at < j < s.len() implies place(#[trigger] s[j]) > r by {
        assert(place(s[at]) < place(s[j]));
    }
}

/// Adding an option keeps the options in order, leaves exactly one option of
/// its kind, which is the option added, and leaves the options of the other
/// kinds as they were.
pub proof fn lemma_with_option(s: Seq<OptionModel>, option: OptionModel)
    requires
        in_order(s),
    ensures
        in_order(with_option(s, option)),
        distinct_kinds(with_option(s, option)),
        count_of_kind(with_option(s, option), option.kind()) == 1,
        option_of_kind(with_option(s, option), option.kind()) == Some(option),
        forall|other: OptionKind|
            other != option.kind() ==> option_of_kind(with_option(s, option), other)
                == option_of_kind(s, other) && count_of_kind(with_option(s, option), other)
                == count_of_kind(s, other),
{
    let r = place(option);
    let at = first_from(s, r);
    let from = if at < s.len() && s[at].kind() == option.kind() {
        at + 1
    } else {
        at
    };
    let res = with_option(s, option);
    lemma_with_option_parts(s, option);
    assert(res.len() == at + 1 + s.len() - from);
    assert forall|j: int| 0 <= j < res.len() implies #[trigger] res[j] == if j < at {
        s[j]
    } else if j == at {
        option
    } else {
        s[j - at - 1 + from]
    } by {}
    assert forall|i: int, j: int| 0 <= i < j < res.len() implies place(res[i]) < place(
        res[j],
    ) by {
        if j < at {
            assert(place(s[i]) < place(s[j]));
        } else if j > at && i > at {
            assert(place(s[i - at - 1 + from]) < place(s[j - at - 1 + from]));
        }
    }
    lemma_in_order(res);
    lemma_in_order(s);
    lemma_kind_found(res, option.kind(), at);
    assert forall|other: OptionKind| other != option.kind() implies option_of_kind(res, other)
        == option_of_kind(s, other) && count_of_kind(res, other) == count_of_kind(s, other) by {
        if exists|j: int| 0 <= j < s.len() && s[j].kind() == other {
            let j = choose|j: int| 0 <= j < s.len() && s[j].kind() == other;
            lemma_kind_found(s, other, j);
            let to = if j < at {
                j
            } else {
                j - from + at + 1
            };
            assert(j < at || j >= from);
            assert(res[to] == s[j]);
            lemma_kind_found(res, other, to);
        } else {
            assert forall|j: int| 0 <= j < s.len() implies (#[trigger] s[j]).kind() != other by {}
            lemma_kind_absent(s, other);
            assert forall|j: int| 0 <= j < res.len() implies (#[trigger] res[j]).kind()
                != other by {
                if j < at {
                    assert(s[j].kind() != other);
                } else if j > at {
                    assert(s[j - at - 1 + from].kind() != other);
                }
            }
            lemma_kind_absent(res, other);
        }
    }
}

/// Options that stand in order are fixed by what they hold of each kind: two
/// such sequences with the same option, or none, of every kind are the same
/// sequence. So sets of options are equal where they hold the same options,
/// in whatever order these were added.
pub proof fn lemma_same_options(a: Seq<OptionModel>, b: Seq<OptionModel>)
    requires
        in_order(a),
        in_order(b),
        forall|k: OptionKind| option_of_kind(a, k) == option_of_kind(b, k),
    ensures
        a == b,
    decreases a.len(),
{
    if a.len() == 0 || b.len() == 0 {
        if a.len() > 0 {
            assert(option_of_kind(a, a.last().kind()) == option_of_kind(b, a.last().kind()));
        }
        if b.len() > 0 {
            assert(option_of_kind(a, b.last().kind()) == option_of_kind(b, b.last().kind()));
        }
        assert(a =~= b);
    } else {
        let la = a.last();
        let lb = b.last();
        lemma_in_order(a);
        lemma_in_order(b);
        lemma_last_is_highest(a, b);
        lemma_last_is_highest(b, a);
        assert(la.kind() == lb.kind());
        assert(option_of_kind(a, la.kind()) == option_of_kind(b, la.kind()));
        assert(la == lb);
        let fa = a.drop_last();
        let fb = b.drop_last();
        assert forall|k: OptionKind| option_of_kind(fa, k) == option_of_kind(fb, k) by {
            if k == la.kind() {
                assert forall|j: int| 0 <= j < fa.len() implies (#[trigger] fa[j]).kind() != k by {
                    assert(place(a[j]) < place(a[a.len() - 1]));
                }
                assert forall|j: int| 0 <= j < fb.len() implies (#[trigger] fb[j]).kind() != k by {
                    assert(place(b[j]) < place(b[b.len() - 1]));
                }
                lemma_kind_absent(fa, k);
                lemma_kind_absent(fb, k);
            } else {
                assert(option_of_kind(a, k) == option_of_kind(b, k));
            }
        }
        lemma_same_options(fa, fb);
        assert(a =~= fa.push(la));
        assert(b =~= fb.push(lb));
    }
}

/// Where `b` holds of every kind what `a` holds, the last option of `a` does
/// not stand after the last option of `b`.
proof fn lemma_last_is_highest(a: Seq<OptionModel>, b: Seq<OptionModel>)
    requires
        in_order(a),
        in_order(b),
        a.len() > 0,
        b.len() > 0,
        forall|k: OptionKind| option_of_kind(a, k) == option_of_kind(b, k),
    ensures
        place(a.last()) <= place(b.last()),
{
    let la = a.last();
    let k = la.kind();
    assert(option_of_kind(a, k) == option_of_kind(b, k));
    if exists|j: int| 0 <= j < b.len() && b[j].kind() == k {
        let j = choose|j: int| 0 <= j < b.len() && b[j].kind() == k;
        if j < b.len() - 1 {
            assert(place(b[j]) < place(b[b.len() - 1]));
        }
    } else {
        assert forall|j: int| 0 <= j < b.len() implies (#[trigger] b[j]).kind() != k by {}
        lemma_kind_absent(b, k);
    }
}

/// Adding an option of a kind, then another of the same kind, leaves exactly
/// one option of that kind, the second: it is as if the first had never been
/// added.
pub proof fn lemma_last_write_wins(s: Seq<OptionModel>, first: OptionModel, second: OptionModel)
    requires
        in_order(s),
        first.kind() == second.kind(),
    ensures
        count_of_kind(with_option(with_option(s, first), second), second.kind()) == 1,
        option_of_kind(with_option(with_option(s, first), second), second.kind()) == Some(second),
        distinct_kinds(with_option(with_option(s, first), second)),
        with_option(with_option(s, first), second) == with_option(s, second),
{
    let once = with_option(s, first);
    let twice = with_option(once, second);
    let direct = with_option(s, second);
    lemma_with_option(s, first);
    lemma_with_option(once, second);
    lemma_with_option(s, second);
    assert forall|k: OptionKind| option_of_kind(twice, k) == option_of_kind(direct, k) by {
        if k != second.kind() {
            assert(option_of_kind(twice, k) == option_of_kind(once, k));
            assert(option_of_kind(once, k) == option_of_kind(s, k));
            assert(option_of_kind(direct, k) == option_of_kind(s, k));
        }
    }
    lemma_same_options(twice, direct);
}

/// Options of different kinds can be added in either order: the set is the
/// same.
pub proof fn lemma_order_of_adding(s: Seq<OptionModel>, a: OptionModel, b: OptionModel)
    requires
        in_order(s),
        a.kind() != b.kind(),
    ensures
        with_option(with_option(s, a), b) == with_option(with_option(s, b), a),
{
    let sa = with_option(s, a);
    let sb = with_option(s, b);
    let sab = with_option(sa, b);
    let sba = with_option(sb, a);
    lemma_with_option(s, a);
    lemma_with_option(s, b);
    lemma_with_option(sa, b);
    lemma_with_option(sb, a);
    assert forall|k: OptionKind| option_of_kind(sab, k) == option_of_kind(sba, k) by {
        if k == a.kind() {
            assert(option_of_kind(sab, k) == option_of_kind(sa, k));
        } else if k == b.kind() {
            assert(option_of_kind(sba, k) == option_of_kind(sb, k));
        } else {
            assert(option_of_kind(sab, k) == option_of_kind(sa, k));
            assert(option_of_kind(sa, k) == option_of_kind(s, k));
            assert(option_of_kind(sba, k) == option_of_kind(sb, k));
            assert(option_of_kind(sb, k) == option_of_kind(s, k));
        }
    }
    lemma_same_options(sab, sba);
}

/// The global options of a command: at most one of each kind, kept in the
/// order of their kinds. Two sets are equal where they hold the same options,
/// in whatever order these were added.
#[derive(Debug, PartialEq, Eq)]
pub struct GlobalOptions {
    items: Vec<AdbGlobalOption>,
}

/// The options held by a vector, as plain values.
pub open spec fn option_models(v: Seq<AdbGlobalOption>) -> Seq<OptionModel> {
    Seq::new(v.len(), |i: int| v[i]@)
}

impl View for GlobalOptions {
    type V = Seq<OptionModel>;

    closed spec fn view(&self) -> Seq<OptionModel> {
        option_models(self.items@)
    }
}

impl Clone for GlobalOptions {
    /// A set with copies of the same options, in the same order.
    fn clone(&self) -> (r: Self)
        ensures
            r@ == self@,
    {
        proof {
            use_type_invariant(self);
        }
        let mut items: Vec<AdbGlobalOption> = Vec::new();
        let mut i: usize = 0;
        while i < self.items.len()
            invariant
                i <= self.items.len(),
                items@.len() == i,
                forall|j: int| 0 <= j < i ==> (#[trigger] items@[j])@ == self.items@[j]@,
            decreases self.items.len() - i,
        {
            items.push(self.items[i].duplicate());
            i += 1;
        }
        assert(option_models(items@) =~= option_models(self.items@));
        GlobalOptions { items }
    }
}

impl GlobalOptions {
    /// The options stand in the order of their kinds, and no two are of the
    /// same kind.
    #[verifier::type_invariant]
    spec fn kinds_are_in_order(self) -> bool {
        in_order(option_models(self.items@))
    }

    /// The empty set.
    pub fn new() -> (r: Self)
        ensures
            r@ == Seq::<OptionModel>::empty(),
    {
        let r = GlobalOptions { items: Vec::new() };
        assert(option_models(r.items@) =~= Seq::<OptionModel>::empty());
        r
    }

    /// The number of options in the set. They stand in the order of their
    /// kinds, and no two of them are of the same kind.
    pub fn len(&self) -> (n: usize)
        ensures
            n == self@.len(),
            in_order(self@),
            distinct_kinds(self@),
    {
        proof {
            use_type_invariant(self);
            lemma_in_order(self@);
        }
        self.items.len()
    }

    /// The option of the kind `kind`, if the set holds one.
    pub fn get(&self, kind: OptionKind) -> (r: Option<&AdbGlobalOption>)
        ensures
            match option_of_kind(self@, kind) {
                Some(m) => r is Some && r->0@ == m,
                None => r is None,
            },
    {
        let mut i: usize = self.items.len();
        assert(self@.take(i as int) =~= self@);
        while i > 0
            invariant
                i <= self.items.len(),
                option_of_kind(self@, kind) == option_of_kind(self@.take(i as int), kind),
            decreases i,
        {
            i -= 1;
            let ghost upto = self@.take(i + 1);
            assert(upto.last() == self.items@[i as int]@);
            assert(upto.drop_last() =~= self@.take(i as int));
            if self.items[i].kind() == kind {
                return Some(&self.items[i]);
            }
        }
        None
    }

    /// The set with `option` added at the place of its kind. An option of the
    /// same kind that the set holds is removed, so that the new one takes its
    /// place.
    pub fn with(self, option: AdbGlobalOption) -> (r: Self)
        ensures
            r@ == with_option(self@, option@),
            in_order(self@),
            in_order(r@),
            distinct_kinds(self@),
            distinct_kinds(r@),
    {
        proof {
            use_type_invariant(&self);
        }
        let ghost before = self@;
        let rank = option.kind().rank();
        let mut items = self.items;
        let mut i: usize = 0;
        while i < items.len() && items[i].kind().rank() < rank
            invariant
                i <= items.len(),
                before == option_models(items@),
                forall|j: int| 0 <= j < i ==> place(#[trigger] before[j]) < rank,
            decreases items.len() - i,
        {
            assert(before[i as int] == items@[i as int]@);
            i += 1;
        }
        let same = i < items.len() && items[i].kind().rank() == rank;
        proof {
            if i < items.len() {
                assert(before[i as int] == items@[i as int]@);
            }
            assert forall|j: int| i <= j < before.len() implies place(#[trigger] before[j])
                >= rank by {
                if j > i {
                    assert(place(before[i as int]) < place(before[j]));
                }
            }
            lemma_parts(before, rank as int, i as int);
            lemma_with_option(before, option@);
            lemma_in_order(before);
        }
        if same {
            items.remove(i);
            assert(option_models(items@) =~= before.take(i as int) + before.skip(i + 1));
        } else {
            assert(option_models(items@) =~= before.take(i as int) + before.skip(i as int));
        }
        let ghost middle = option_models(items@);
        items.insert(i, option);
        proof {
            assert(option_models(items@) =~= middle.insert(i as int, option@));
            assert(option_models(items@) =~= with_option(before, option@));
        }
        GlobalOptions { items }
    }

    /// Adds `option` to the set. An option of the same kind that the set
    /// holds is removed first, so that the new one takes its place.
    pub fn insert(&mut self, option: AdbGlobalOption)
        ensures
            final(self)@ == with_option(old(self)@, option@),
            in_order(old(self)@),
            in_order(final(self)@),
            distinct_kinds(old(self)@),
            distinct_kinds(final(self)@),
    {
        let mut taken = GlobalOptions::new();
        core::mem::swap(self, &mut taken);
        *self = taken.with(option);
    }

    /// The texts of the options, in the order of their kinds. No two of the
    /// options are of the same kind.
    pub fn to_args(&self) -> (r: Vec<String>)
        ensures
            r@.len() == self@.len(),
            forall|i: int| 0 <= i < r@.len() ==> (#[trigger] r@[i])@ == option_text(self@[i]),
            in_order(self@),
            distinct_kinds(self@),
    {
        proof {
            use_type_invariant(self);
            lemma_in_order(self@);
        }
        let mut out: Vec<String> = Vec::new();
        let mut i: usize = 0;
        while i < self.items.len()
            invariant
                i <= self.items.len(),
                out@.len() == i,
                forall|j: int| 0 <= j < i ==> (#[trigger] out@[j])@ == option_text(self@[j]),
            decreases self.items.len() - i,
        {
            assert(self@[i as int] == self.items@[i as int]@);
            out.push(self.items[i].to_string());
            i += 1;
        }
        out
    }
}


/// A builder for adb commands.
///
/// It contains the environment and global options of a command,
/// but command-specific options are not provided.
#[derive(Debug, Clone, PartialEq, Eq)]
pub struct AdbCommandBuilder<'a> {
    /// The environment used in this command.
    adb: &'a Adb,
    /// The global options of the command.
    global_options: GlobalOptions,
}

impl<'a> AdbCommandBuilder<'a> {
    /// The global options of the command, in the order in which they are
    /// written: that of their kinds.
    pub closed spec fn options(&self) -> Seq<OptionModel> {
        self.global_options@
    }

    /// The environment used in this command.
    pub closed spec fn environment(&self) -> Adb {
        *self.adb
    }

    /// Creates an [`AdbCommandBuilder`] with empty global options.
    pub fn new(adb: &'a Adb) -> (r: Self)
        ensures
            r.options() == Seq::<OptionModel>::empty(),
            r.environment() == *adb,
    {
        Self { adb, global_options: GlobalOptions::new() }
    }

    /// The environment used in this command.
    pub fn adb(&self) -> (r: &'a Adb)
        ensures
            *r == self.environment(),
    {
        self.adb
    }

    /// The global options of the command.
    pub fn global_options(&self) -> (r: &GlobalOptions)
        ensures
            r@ == self.options(),
    {
        &self.global_options
    }

    /// Removes the global option of the kind of `opt`, if there is one, then
    /// adds `opt`.
    pub fn add_global_option(self, opt: AdbGlobalOption) -> (r: Self)
        ensures
            r.options() == with_option(self.options(), opt@),
            r.environment() == self.environment(),
            in_order(self.options()),
            in_order(r.options()),
            distinct_kinds(self.options()),
            distinct_kinds(r.options()),
    {
        Self { adb: self.adb, global_options: self.global_options.with(opt) }
    }

    /// The texts of the global options, in the order in which they are
    /// written: one argument for each option. No two of the options are of the
    /// same kind.
    pub fn global_args(&self) -> (r: Vec<String>)
        ensures
            texts(r@) == option_texts(self.options()),
            in_order(self.options()),
            distinct_kinds(self.options()),
    {
        let r = self.global_options.to_args();
        assert(texts(r@) =~= option_texts(self.options()));
        r
    }

    /// The arguments of a command of this builder: the global options, then
    /// the arguments `own` of the command itself.
    pub fn command_line(&self, own: Vec<String>) -> (r: Vec<String>)
        ensures
            texts(r@) == option_texts(self.options()) + texts(own@),
    {
        let mut all = self.global_args();
        let mut rest = own;
        all.append(&mut rest);
        assert(texts(all@) =~= option_texts(self.options()) + texts(own@));
        all
    }

    /// `-a`: Listen on all network interfaces, not just localhost.
    pub fn listen_all(self) -> (r: Self)
        ensures
            r.options() == with_option(self.options(), OptionModel::ListenAll),
            r.environment() == self.environment(),
    {
        self.add_global_option(AdbGlobalOption::ListenAll)
    }

    /// `-d`: Use USB device (error if multiple devices connected).
    pub fn usb(self) -> (r: Self)
        ensures
            r.options() == with_option(self.options(), OptionModel::Usb),
            r.environment() == self.environment(),
    {
        self.add_global_option(AdbGlobalOption::Usb)
    }

    /// `-e`: Use TCP/IP device (error if multiple TCP/IP devices available).
    pub fn tcp_ip(self) -> (r: Self)
        ensures
            r.options() == with_option(self.options(), OptionModel::TcpIp),
            r.environment() == self.environment(),
    {
        self.add_global_option(AdbGlobalOption::TcpIp)
    }

    /// `-s SERIAL`: Use device with given SERIAL (overrides $ANDROID_SERIAL).
    ///
    /// If a `-s SERIAL` option already exists, it will be replaced.
    pub fn serial(self, serial: &str) -> (r: Self)
        ensures
            r.options() == with_option(self.options(), OptionModel::Serial(serial@)),
            r.environment() == self.environment(),
    {
        self.add_global_option(AdbGlobalOption::Serial(string_of(chars_of(serial).as_slice())))
    }

    /// `-t ID`: Use device with given transport id.
    ///
    /// If a `-t ID` option already exists, it will be replaced.
    pub fn transport_id(self, id: &str) -> (r: Self)
        ensures
            r.options() == with_option(self.options(), OptionModel::TransportId(id@)),
            r.environment() == self.environment(),
    {
        self.add_global_option(AdbGlobalOption::TransportId(string_of(chars_of(id).as_slice())))
    }

    /// `-H`: Name of adb server host. Default is `localhost`.
    pub fn host(self, host: IpAddr) -> (r: Self)
        ensures
            r.options() == with_option(self.options(), OptionModel::Host(host@)),
            r.environment() == self.environment(),
    {
        self.add_global_option(AdbGlobalOption::Host(host))
    }

    /// `-P *PORT`: Smart socket PORT of adb server. Default is `5037`.
    pub fn port(self, port: u16) -> (r: Self)
        ensures
            r.options() == with_option(self.options(), OptionModel::Port(port)),
            r.environment() == self.environment(),
    {
        self.add_global_option(AdbGlobalOption::Port(port))
    }

    /// `-L SOCKET`: Listen on given socket for adb server. Default is `tcp:localhost:5037`.
    pub fn listen(self, addr: Tcp) -> (r: Self)
        ensures
            r.options() == with_option(self.options(), OptionModel::Listen(addr@)),
            r.environment() == self.environment(),
    {
        self.add_global_option(AdbGlobalOption::Listen(addr))
    }

    /// `--one-device SERIAL | USB`:
    /// Server will only connect to one USB device, specified by a SERIAL number or USB device address
    /// (only with `start-server` or `server nodaemon`).
    pub fn one_device(self, device: &str) -> (r: Self)
        ensures
            r.options() == with_option(self.options(), OptionModel::OneDevice(device@)),
            r.environment() == self.environment(),
    {
        self.add_global_option(AdbGlobalOption::OneDevice(string_of(chars_of(device).as_slice())))
    }

    /// `--exit-on-write-error`: Exit if stdout is closed.
    pub fn exit_on_write_error(self) -> (r: Self)
        ensures
            r.options() == with_option(self.options(), OptionModel::ExitOnWriteError),
            r.environment() == self.environment(),
    {
        self.add_global_option(AdbGlobalOption::ExitOnWriteError)
    }
}


/// A command of adb: a builder with its global options, and the arguments of
/// the command itself.
pub trait AdbCommand<'a> {
    /// The arguments of the command line after `adb`: one for each global
    /// option, then those of the command.
    spec fn arguments(&self) -> Seq<Seq<char>>;

    /// The global options of the command.
    spec fn global_options(&self) -> Seq<OptionModel>;

    /// The environment used in this command.
    spec fn adb(&self) -> Adb;

    /// The arguments of the command line after `adb`: one for each global
    /// option, then those of the command.
    fn command_line(&self) -> (r: Vec<String>)
        ensures
            texts(r@) == self.arguments(),
    ;

    /// The builder that the command was made from.
    fn builder(&self) -> (r: &AdbCommandBuilder<'a>)
        ensures
            r.options() == self.global_options(),
            r.environment() == self.adb(),
    ;
}

/// The texts of the options, one for each.
pub open spec fn option_texts(s: Seq<OptionModel>) -> Seq<Seq<char>> {
    Seq::new(s.len(), |i: int| option_text(s[i]))
}

/// The argument for a switch: its name if it is on, nothing if it is off.
pub open spec fn flag(on: bool, name: Seq<char>) -> Seq<Seq<char>> {
    if on {
        seq![name]
    } else {
        Seq::empty()
    }
}

/// The arguments for a named value: the name and the value, or nothing if
/// there is no value.
pub open spec fn pair(name: Seq<char>, value: Option<Seq<char>>) -> Seq<Seq<char>> {
    match value {
        Some(v) => seq![name, v],
        None => Seq::empty(),
    }
}

/// The argument for a value that may be absent.
pub open spec fn optional(value: Option<Seq<char>>) -> Seq<Seq<char>> {
    match value {
        Some(v) => seq![v],
        None => Seq::empty(),
    }
}

/// The arguments for the choice of compression: `-z` and the algorithm, or
/// `-Z` for none.
pub open spec fn compression(algorithm: Option<Seq<char>>) -> Seq<Seq<char>> {
    match algorithm {
        Some(a) => seq!["-z"@, a],
        None => seq!["-Z"@],
    }
}

/// A host with its port, if it has one: the host, a colon, the port.
pub open spec fn host_and_port(host: Seq<char>, port: Option<u16>) -> Seq<char> {
    match port {
        Some(p) => host + seq![':'] + decimal_text(p as nat),
        None => host,
    }
}

/// The text of a string that may be absent.
pub open spec fn text_of(value: Option<String>) -> Option<Seq<char>> {
    match value {
        Some(s) => Some(s@),
        None => None,
    }
}

/// A string with the text of `s`.
pub fn owned(s: &str) -> (r: String)
    ensures
        r@ == s@,
{
    string_of(chars_of(s).as_slice())
}

/// The string that may be absent, borrowed.
pub fn borrowed(value: &Option<String>) -> (r: Option<&str>)
    ensures
        match *value {
            Some(s) => r is Some && r->0@ == s@,
            None => r is None,
        },
{
    match value {
        Some(s) => Some(s.as_str()),
        None => None,
    }
}

/// The text of `host` with `port`, if there is one.
pub fn host_with_port(host: &str, port: Option<u16>) -> (r: String)
    ensures
        r@ == host_and_port(host@, port),
{
    let mut out: Vec<char> = Vec::new();
    push_text(&mut out, host);
    match port {
        Some(p) => {
            out.push(':');
            push_decimal(&mut out, p as u32);
            assert(out@ =~= host_and_port(host@, port));
        },
        None => {
            assert(out@ =~= host_and_port(host@, port));
        },
    }
    string_of(out.as_slice())
}

/// The arguments that start with the one argument `name`.
pub fn start(name: &str) -> (r: Vec<String>)
    ensures
        texts(r@) == seq![name@],
{
    let mut r: Vec<String> = Vec::new();
    r.push(owned(name));
    assert(texts(r@) =~= seq![name@]);
    r
}

/// The argument `name` if the switch is on, nothing if it is off.
pub fn only_flag(on: bool, name: &str) -> (r: Vec<String>)
    ensures
        texts(r@) == flag(on, name@),
{
    let mut r: Vec<String> = Vec::new();
    if on {
        r.push(owned(name));
    }
    assert(texts(r@) =~= flag(on, name@));
    r
}

/// The arguments `v`, then `arg`.
pub fn with_arg(v: Vec<String>, arg: &str) -> (r: Vec<String>)
    ensures
        texts(r@) == texts(v@) + seq![arg@],
{
    let mut r = v;
    r.push(owned(arg));
    assert(texts(r@) =~= texts(v@) + seq![arg@]);
    r
}

/// The arguments `v`, then `name` if the switch is on.
pub fn with_flag(v: Vec<String>, on: bool, name: &str) -> (r: Vec<String>)
    ensures
        texts(r@) == texts(v@) + flag(on, name@),
{
    let mut r = v;
    if on {
        r.push(owned(name));
    }
    assert(texts(r@) =~= texts(v@) + flag(on, name@));
    r
}

/// The arguments `v`, then `name` and the value if there is one.
pub fn with_pair(v: Vec<String>, name: &str, value: Option<&str>) -> (r: Vec<String>)
    ensures
        texts(r@) == texts(v@) + pair(
            name@,
            match value {
                Some(s) => Some(s@),
                None => None,
            },
        ),
{
    let mut r = v;
    match value {
        Some(s) => {
            r.push(owned(name));
            r.push(owned(s));
            assert(texts(r@) =~= texts(v@) + seq![name@, s@]);
        },
        None => {
            assert(texts(r@) =~= texts(v@) + Seq::<Seq<char>>::empty());
        },
    }
    r
}

/// The arguments `v`, then the value if there is one.
pub fn with_optional(v: Vec<String>, value: Option<&str>) -> (r: Vec<String>)
    ensures
        texts(r@) == texts(v@) + optional(
            match value {
                Some(s) => Some(s@),
                None => None,
            },
        ),
{
    let mut r = v;
    match value {
        Some(s) => {
            r.push(owned(s));
            assert(texts(r@) =~= texts(v@) + seq![s@]);
        },
        None => {
            assert(texts(r@) =~= texts(v@) + Seq::<Seq<char>>::empty());
        },
    }
    r
}

/// The arguments `v`, then the choice of compression.
pub fn with_compression(v: Vec<String>, algorithm: Option<&str>) -> (r: Vec<String>)
    ensures
        texts(r@) == texts(v@) + compression(
            match algorithm {
                Some(s) => Some(s@),
                None => None,
            },
        ),
{
    let mut r = v;
    match algorithm {
        Some(s) => {
            r.push(owned("-z"));
            r.push(owned(s));
            assert(texts(r@) =~= texts(v@) + seq!["-z"@, s@]);
        },
        None => {
            r.push(owned("-Z"));
            assert(texts(r@) =~= texts(v@) + seq!["-Z"@]);
        },
    }
    r
}

/// The arguments `v`, then all of `more`.
pub fn with_list(v: Vec<String>, more: &[String]) -> (r: Vec<String>)
    ensures
        texts(r@) == texts(v@) + texts(more@),
{
    let mut r = v;
    let mut i: usize = 0;
    assert(texts(r@) =~= texts(v@) + texts(more@.take(0)));
    while i < more.len()
        invariant
            i <= more.len(),
            texts(r@) == texts(v@) + texts(more@.take(i as int)),
        decreases more.len() - i,
    {
        let ghost before = texts(r@);
        let ghost taken = texts(more@.take(i as int));
        r.push(more[i].clone());
        i += 1;
        assert(texts(r@) =~= before.push(more@[i - 1]@));
        assert(texts(more@.take(i as int)) =~= taken.push(more@[i - 1]@));
        assert(before.push(more@[i - 1]@) =~= texts(v@) + taken.push(more@[i - 1]@));
    }
    assert(more@.take(more.len() as int) =~= more@);
    r
}

/// A copy of the strings.
pub fn copied(v: &[String]) -> (r: Vec<String>)
    ensures
        texts(r@) == texts(v@),
{
    let empty: Vec<String> = Vec::new();
    let r = with_list(empty, v);
    assert(texts(r@) =~= texts(v@));
    r
}

} // verus!
