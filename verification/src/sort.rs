//! Sorting names the way `Vec<String>::sort` does: lexicographically by
//! character (UTF-8 byte order is code point order).
use vstd::prelude::*;
use vstd::relations::{sorted_by, total_ordering};
use crate::text::{self, chars_of};

verus! {

/// `a` comes no later than `b` in lexicographic order of characters.
pub open spec fn lex_le(a: Seq<char>, b: Seq<char>) -> bool
    decreases a.len(),
{
    if a.len() == 0 {
        true
    } else if b.len() == 0 {
        false
    } else if a[0] < b[0] {
        true
    } else if a[0] > b[0] {
        false
    } else {
        lex_le(a.drop_first(), b.drop_first())
    }
}

pub open spec fn lex_le_fn() -> spec_fn(Seq<char>, Seq<char>) -> bool {
    |a: Seq<char>, b: Seq<char>| lex_le(a, b)
}

proof fn lemma_lex_refl(a: Seq<char>)
    ensures
        lex_le(a, a),
    decreases a.len(),
{
    if a.len() > 0 {
        lemma_lex_refl(a.drop_first());
    }
}

proof fn lemma_lex_antisym(a: Seq<char>, b: Seq<char>)
    requires
        lex_le(a, b),
        lex_le(b, a),
    ensures
        a == b,
    decreases a.len(),
{
    if a.len() == 0 {
        assert(b.len() == 0);
        assert(a =~= b);
    } else {
        assert(b.len() > 0);
        assert(a[0] == b[0]);
        lemma_lex_antisym(a.drop_first(), b.drop_first());
        assert(a[0] == b[0]);
        assert(a =~= seq![a[0]] + a.drop_first());
        assert(b =~= seq![b[0]] + b.drop_first());
    }
}

proof fn lemma_lex_trans(a: Seq<char>, b: Seq<char>, c: Seq<char>)
    requires
        lex_le(a, b),
        lex_le(b, c),
    ensures
        lex_le(a, c),
    decreases a.len(),
{
    if a.len() > 0 && b.len() > 0 && c.len() > 0 {
        if a[0] == b[0] && b[0] == c[0] {
            lemma_lex_trans(a.drop_first(), b.drop_first(), c.drop_first());
        }
    }
}

proof fn lemma_lex_total(a: Seq<char>, b: Seq<char>)
    ensures
        lex_le(a, b) || lex_le(b, a),
    decreases a.len(),
{
    if a.len() > 0 && b.len() > 0 && a[0] == b[0] {
        lemma_lex_total(a.drop_first(), b.drop_first());
    }
}

/// Lexicographic order is a total order.
pub proof fn lemma_lex_total_ordering()
    ensures
        total_ordering(lex_le_fn()),
{
    let r = lex_le_fn();
    assert forall|x: Seq<char>| #[trigger] r(x, x) by {
        lemma_lex_refl(x);
    }
    assert forall|x: Seq<char>, y: Seq<char>| #[trigger] r(x, y) && #[trigger] r(y, x) implies x
        == y by {
        lemma_lex_antisym(x, y);
    }
    assert forall|x: Seq<char>, y: Seq<char>, z: Seq<char>| #[trigger] r(x, y) && #[trigger] r(
        y,
        z,
    ) implies r(x, z) by {
        lemma_lex_trans(x, y, z);
    }
    assert forall|x: Seq<char>, y: Seq<char>| #[trigger] r(x, y) || #[trigger] r(y, x) by {
        lemma_lex_total(x, y);
    }
}

/// `a` comes strictly before `b` when they agree on their first `k`
/// characters and then `a` ends, or has the smaller character there.
pub proof fn lemma_lex_lt_at(a: Seq<char>, b: Seq<char>, k: int)
    requires
        0 <= k <= a.len(),
        k <= b.len(),
        forall|j: int| 0 <= j < k ==> a[j] == b[j],
        (k == a.len() && k < b.len()) || (k < a.len() && k < b.len() && a[k] < b[k]),
    ensures
        lex_le(a, b),
        a != b,
    decreases k,
{
    if k == 0 {
        if a.len() > 0 {
            assert(a[0] != b[0]);
        } else {
            assert(a.len() != b.len());
        }
    } else {
        assert forall|j: int| 0 <= j < k - 1 implies a.drop_first()[j] == b.drop_first()[j] by {
            assert(a[j + 1] == b[j + 1]);
        }
        lemma_lex_lt_at(a.drop_first(), b.drop_first(), k - 1);
        assert(a[0] == b[0]);
        if a == b {
            assert(a.drop_first() == b.drop_first());
        }
    }
}

/// A list in which each item comes strictly before the next is sorted and
/// holds no item twice.
pub proof fn lemma_strictly_ascending(s: Seq<Seq<char>>)
    requires
        forall|i: int| 0 <= i < s.len() - 1 ==> lex_le(#[trigger] s[i], s[i + 1]) && s[i] != s[i + 1],
    ensures
        sorted_by(s, lex_le_fn()),
        s.no_duplicates(),
{
    lemma_lex_total_ordering();
    assert forall|a: int, b: int| 0 <= a < s.len() && 0 <= b < s.len() && a != b implies s[a] != s[b] by {
        if a < b {
            lemma_ascending_from(s, a, b);
        } else {
            lemma_ascending_from(s, b, a);
        }
    }
    assert forall|a: int, b: int| 0 <= a < b < s.len() implies #[trigger] lex_le_fn()(s[a], s[b]) by {
        lemma_ascending_from(s, a, b);
    }
}

proof fn lemma_ascending_from(s: Seq<Seq<char>>, a: int, b: int)
    requires
        forall|i: int| 0 <= i < s.len() - 1 ==> lex_le(#[trigger] s[i], s[i + 1]) && s[i] != s[i + 1],
        0 <= a < b < s.len(),
    ensures
        lex_le(s[a], s[b]),
        s[a] != s[b],
    decreases b - a,
{
    assert(lex_le(s[a], s[a + 1]) && s[a] != s[a + 1]);
    if b > a + 1 {
        lemma_ascending_from(s, a + 1, b);
        lemma_lex_trans(s[a], s[a + 1], s[b]);
        if s[a] == s[b] {
            lemma_lex_antisym(s[a], s[a + 1]);
        }
    }
}

/// Whether `a` comes no later than `b`.
pub fn lex_le_str(a: &str, b: &str) -> (r: bool)
    ensures
        r == lex_le(a@, b@),
{
    let x = chars_of(a);
    let y = chars_of(b);
    let mut i: usize = 0;
    assert(a@.skip(0) =~= a@);
    assert(b@.skip(0) =~= b@);
    while i < x.len()
        invariant
            x@ == a@,
            y@ == b@,
            i <= x@.len(),
            i <= y@.len(),
            lex_le(a@, b@) == lex_le(a@.skip(i as int), b@.skip(i as int)),
        decreases x.len() - i,
    {
        if i >= y.len() {
            return false;
        }
        let c = x[i];
        let d = y[i];
        assert(a@.skip(i as int)[0] == x@[i as int]);
        assert(b@.skip(i as int)[0] == y@[i as int]);
        if c < d {
            return true;
        }
        if c > d {
            return false;
        }
        assert(a@.skip(i as int).drop_first() =~= a@.skip(i + 1));
        assert(b@.skip(i as int).drop_first() =~= b@.skip(i + 1));
        i = i + 1;
    }
    true
}

/// Sorts names lexicographically; the result is the sorted arrangement of
/// the input (`Seq::sort_by` with `lex_le`).
pub fn sort_strings(input: Vec<String>) -> (r: Vec<String>)
    ensures
        text::string_views(r@) == text::string_views(input@).sort_by(lex_le_fn()),
{
    let ghost leq = lex_le_fn();
    proof {
        lemma_lex_total_ordering();
    }
    let mut out: Vec<String> = Vec::new();
    let mut i: usize = 0;
    assert(text::string_views(out@) =~= Seq::<Seq<char>>::empty());
    assert(text::string_views(input@.take(0)) =~= Seq::<Seq<char>>::empty());
    while i < input.len()
        invariant
            i <= input@.len(),
            leq == lex_le_fn(),
            total_ordering(leq),
            sorted_by(text::string_views(out@), leq),
            text::string_views(out@).to_multiset() == text::string_views(input@.take(i as int)).to_multiset(),
        decreases input.len() - i,
    {
        let x = input[i].clone();
        let mut p: usize = 0;
        while p < out.len() && lex_le_str(out[p].as_str(), x.as_str())
            invariant
                p <= out@.len(),
                forall|j: int| 0 <= j < p ==> lex_le(#[trigger] out@[j]@, x@),
            decreases out.len() - p,
        {
            p = p + 1;
        }
        let ghost before = text::string_views(out@);
        proof {
            assert forall|j: int| p <= j < before.len() implies lex_le(x@, #[trigger] before[j]) by {
                assert(before[p as int] == out@[p as int]@);
                lemma_lex_total(out@[p as int]@, x@);
                if j > p {
                    assert(leq(before[p as int], before[j]));
                    lemma_lex_trans(x@, before[p as int], before[j]);
                }
            }
            assert forall|j: int| 0 <= j < p implies lex_le(#[trigger] before[j], x@) by {
                assert(before[j] == out@[j]@);
            }
        }
        out.insert(p, x);
        proof {
            let now = text::string_views(out@);
            assert(now =~= before.insert(p as int, input@[i as int]@));
            assert forall|a: int, b: int| 0 <= a < b < now.len() implies #[trigger] leq(now[a], now[b]) by {
                if a < p && b < p {
                    assert(leq(before[a], before[b]));
                } else if a < p && b == p {
                } else if a < p {
                    lemma_lex_trans(before[a], now[p as int], before[b - 1]);
                } else if a == p {
                } else {
                    assert(leq(before[a - 1], before[b - 1]));
                }
            }
            vstd::seq_lib::to_multiset_insert(before, p as int, input@[i as int]@);
            let t = input@.take(i + 1);
            assert(text::string_views(t) =~= text::string_views(input@.take(i as int)).push(input@[i as int]@));
            vstd::seq_lib::to_multiset_insert(text::string_views(input@.take(i as int)), i as int, input@[i as int]@);
            assert(text::string_views(input@.take(i as int)).insert(i as int, input@[i as int]@) =~= text::string_views(t));
        }
        i = i + 1;
    }
    proof {
        assert(input@.take(input@.len() as int) =~= input@);
        let v = text::string_views(input@);
        v.lemma_sort_by_ensures(leq);
        vstd::seq_lib::lemma_sorted_unique(text::string_views(out@), v.sort_by(leq), leq);
    }
    out
}

} // verus!
