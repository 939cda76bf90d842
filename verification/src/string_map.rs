//! A small map from text to text, kept as a list of distinct keys; it holds
//! request headers and query parameters.
use vstd::prelude::*;
use crate::text::str_eq;

verus! {

/// The value stored for `k` in a list of pairs (the last pair with key `k`).
pub open spec fn lookup(s: Seq<(String, String)>, k: Seq<char>) -> Option<Seq<char>>
    decreases s.len(),
{
    if s.len() == 0 {
        None
    } else if s.last().0@ == k {
        Some(s.last().1@)
    } else {
        lookup(s.drop_last(), k)
    }
}

/// No key occurs twice.
pub open spec fn keys_unique(s: Seq<(String, String)>) -> bool {
    forall|i: int, j: int| 0 <= i < j < s.len() ==> #[trigger] s[i].0@ != #[trigger] s[j].0@
}

/// The map that a list of pairs stands for.
pub open spec fn map_of(s: Seq<(String, String)>) -> Map<Seq<char>, Seq<char>> {
    Map::new(|k: Seq<char>| lookup(s, k) is Some, |k: Seq<char>| lookup(s, k)->0)
}

/// A map from text to text whose entries keep insertion order.
#[derive(Debug)]
pub struct StringMap {
    entries: Vec<(String, String)>,
}

impl View for StringMap {
    type V = Map<Seq<char>, Seq<char>>;

    closed spec fn view(&self) -> Map<Seq<char>, Seq<char>> {
        map_of(self.entries@)
    }
}

proof fn lemma_lookup_found(s: Seq<(String, String)>, j: int)
    requires
        keys_unique(s),
        0 <= j < s.len(),
    ensures
        lookup(s, s[j].0@) == Some(s[j].1@),
    decreases s.len(),
{
    if j < s.len() - 1 {
        assert(s.last().0@ != s[j].0@);
        assert(s.drop_last()[j] == s[j]);
        lemma_lookup_found(s.drop_last(), j);
    }
}

proof fn lemma_lookup_absent(s: Seq<(String, String)>, k: Seq<char>)
    requires
        forall|i: int| 0 <= i < s.len() ==> s[i].0@ != k,
    ensures
        lookup(s, k) is None,
    decreases s.len(),
{
    if s.len() > 0 {
        assert(s.last().0@ != k);
        assert forall|i: int| 0 <= i < s.drop_last().len() implies s.drop_last()[i].0@ != k by {
            assert(s.drop_last()[i] == s[i]);
        }
        lemma_lookup_absent(s.drop_last(), k);
    }
}

proof fn lemma_lookup_update(s: Seq<(String, String)>, j: int, p: (String, String), k: Seq<char>)
    requires
        0 <= j < s.len(),
        s[j].0@ == p.0@,
        keys_unique(s),
    ensures
        lookup(s.update(j, p), k) == (if k == p.0@ {
            Some(p.1@)
        } else {
            lookup(s, k)
        }),
    decreases s.len(),
{
    let t = s.update(j, p);
    if j == s.len() - 1 {
        assert(t.drop_last() =~= s.drop_last());
    } else {
        assert(t.last() == s.last());
        assert(t.drop_last() =~= s.drop_last().update(j, p));
        assert(s.drop_last()[j] == s[j]);
        assert(s.last().0@ != s[j].0@);
        assert forall|a: int, b: int| 0 <= a < b < s.drop_last().len() implies #[trigger] s.drop_last()[a].0@
            != #[trigger] s.drop_last()[b].0@ by {
            assert(s.drop_last()[a] == s[a]);
            assert(s.drop_last()[b] == s[b]);
        }
        lemma_lookup_update(s.drop_last(), j, p, k);
    }
}

impl StringMap {
    /// The keys are distinct.
    pub closed spec fn wf(&self) -> bool {
        keys_unique(self.entries@)
    }

    /// The pairs, in the order their keys were first inserted.
    pub closed spec fn pairs(&self) -> Seq<(String, String)> {
        self.entries@
    }

    /// An empty map.
    pub fn new() -> (m: StringMap)
        ensures
            m.wf(),
            m@ == Map::<Seq<char>, Seq<char>>::empty(),
    {
        let m = StringMap { entries: Vec::new() };
        assert(m@ =~= Map::<Seq<char>, Seq<char>>::empty());
        m
    }

    /// Maps `k` to `v`, replacing any value that `k` had.
    pub fn insert(&mut self, k: String, v: String)
        requires
            old(self).wf(),
        ensures
            final(self).wf(),
            final(self)@ == old(self)@.insert(k@, v@),
    {
        let ghost old_entries = self.entries@;
        let mut i: usize = 0;
        while i < self.entries.len()
            invariant
                i <= self.entries@.len(),
                self.entries@ == old_entries,
                old_entries == old(self).entries@,
                keys_unique(old_entries),
                forall|j: int| 0 <= j < i ==> self.entries@[j].0@ != k@,
            decreases self.entries.len() - i,
        {
            if str_eq(self.entries[i].0.as_str(), k.as_str()) {
                let ghost p = (k, v);
                proof {
                    assert forall|key: Seq<char>| #![auto]
                        lookup(old_entries.update(i as int, p), key) == (if key == k@ {
                            Some(v@)
                        } else {
                            lookup(old_entries, key)
                        }) by {
                        lemma_lookup_update(old_entries, i as int, p, key);
                    }
                }
                self.entries.set(i, (k, v));
                assert(self.entries@ == old_entries.update(i as int, p));
                assert forall|a: int, b: int| 0 <= a < b < self.entries@.len() implies #[trigger] self.entries@[a].0@
                    != #[trigger] self.entries@[b].0@ by {
                    if a != i && b != i {
                        assert(self.entries@[a] == old_entries[a]);
                        assert(self.entries@[b] == old_entries[b]);
                    } else if a == i {
                        assert(self.entries@[b] == old_entries[b]);
                    } else {
                        assert(self.entries@[a] == old_entries[a]);
                    }
                }
                assert(self@ =~= map_of(old_entries).insert(p.0@, p.1@));
                assert(old(self)@ == map_of(old_entries));
                return;
            }
            i = i + 1;
        }
        let ghost kv = k@;
        let ghost vv = v@;
        self.entries.push((k, v));
        proof {
            let t = self.entries@;
            assert(t.drop_last() =~= old_entries);
            assert forall|a: int, b: int| 0 <= a < b < t.len() implies #[trigger] t[a].0@
                != #[trigger] t[b].0@ by {
                assert(t[a] == old_entries[a]);
                if b < t.len() - 1 {
                    assert(t[b] == old_entries[b]);
                }
            }
            assert forall|key: Seq<char>| #![auto] lookup(t, key) == (if key == kv {
                Some(vv)
            } else {
                lookup(old_entries, key)
            }) by {}
            assert(self@ =~= map_of(old_entries).insert(kv, vv));
        }
    }

    /// The value of `k`, if it has one.
    pub fn get(&self, k: &str) -> (r: Option<&String>)
        requires
            self.wf(),
        ensures
            match r {
                Some(v) => self@.contains_key(k@) && self@[k@] == v@,
                None => !self@.contains_key(k@),
            },
    {
        let mut i: usize = 0;
        while i < self.entries.len()
            invariant
                i <= self.entries@.len(),
                keys_unique(self.entries@),
                forall|j: int| 0 <= j < i ==> self.entries@[j].0@ != k@,
            decreases self.entries.len() - i,
        {
            if str_eq(self.entries[i].0.as_str(), k) {
                proof {
                    lemma_lookup_found(self.entries@, i as int);
                }
                return Some(&self.entries[i].1);
            }
            i = i + 1;
        }
        proof {
            lemma_lookup_absent(self.entries@, k@);
        }
        None
    }

    /// The pairs, in the order their keys were first inserted.
    pub fn entries(&self) -> (r: &Vec<(String, String)>)
        requires
            self.wf(),
        ensures
            r@ == self.pairs(),
            keys_unique(r@),
            map_of(r@) == self@,
    {
        &self.entries
    }

    /// The number of keys.
    pub fn len(&self) -> (n: usize)
        requires
            self.wf(),
        ensures
            n == self.pairs().len(),
    {
        self.entries.len()
    }
}

} // verus!
