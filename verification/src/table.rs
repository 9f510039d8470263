//! A keyed collection used for the ledger's per-key records.
//!
//! A [`Table`] holds at most one value per key; its view is the mathematical
//! map from the keys' views to the values.

use vstd::prelude::*;

use crate::types::{Address, LeaderboardPeriod};

verus! {

/// A key whose equality can be decided by comparing views.
pub trait TableKey: View + Sized {
    fn key_eq(&self, other: &Self) -> (r: bool)
        ensures
            r == (self@ == other@),
    ;
}

impl TableKey for Address {
    fn key_eq(&self, other: &Self) -> (r: bool) {
        self.id == other.id
    }
}

impl TableKey for u32 {
    fn key_eq(&self, other: &Self) -> (r: bool) {
        *self == *other
    }
}

impl TableKey for (Address, u32) {
    fn key_eq(&self, other: &Self) -> (r: bool) {
        self.0.id == other.0.id && self.1 == other.1
    }
}

impl TableKey for (Address, Address) {
    fn key_eq(&self, other: &Self) -> (r: bool) {
        self.0.id == other.0.id && self.1.id == other.1.id
    }
}

impl TableKey for (Address, LeaderboardPeriod, u64) {
    fn key_eq(&self, other: &Self) -> (r: bool) {
        self.0.id == other.0.id && self.1 == other.1 && self.2 == other.2
    }
}

impl TableKey for Vec<u8> {
    fn key_eq(&self, other: &Self) -> (r: bool) {
        if self.len() != other.len() {
            return false;
        }
        let mut i: usize = 0;
        while i < self.len()
            invariant
                self@.len() == other@.len(),
                i <= self@.len(),
                forall|j: int| 0 <= j < i ==> self@[j] == other@[j],
            decreases self@.len() - i,
        {
            if self[i] != other[i] {
                return false;
            }
            i = i + 1;
        }
        proof {
            assert(self@ =~= other@);
        }
        true
    }
}

/// The value stored under `k` in `s`, searching from the last entry.
pub open spec fn seq_lookup<K: View, V>(s: Seq<(K, V)>, k: K::V) -> Option<V>
    decreases s.len(),
{
    if s.len() == 0 {
        None
    } else if s.last().0@ == k {
        Some(s.last().1)
    } else {
        seq_lookup(s.drop_last(), k)
    }
}

/// No two entries of `s` have keys with equal views.
pub open spec fn keys_distinct<K: View, V>(s: Seq<(K, V)>) -> bool {
    forall|i: int, j: int| 0 <= i < s.len() && 0 <= j < s.len() && i != j ==> s[i].0@ != s[j].0@
}

/// Under distinct keys, every entry is what a lookup of its key finds, and
/// a key held by no entry is found nowhere.
pub proof fn lemma_lookup_characterized<K: View, V>(s: Seq<(K, V)>)
    requires
        keys_distinct(s),
    ensures
        forall|i: int| 0 <= i < s.len() ==> #[trigger] seq_lookup(s, s[i].0@) == Some(s[i].1),
        forall|k: K::V| (forall|i: int| 0 <= i < s.len() ==> s[i].0@ != k) ==> #[trigger] seq_lookup(s, k) is None,
    decreases s.len(),
{
    if s.len() > 0 {
        let t = s.drop_last();
        assert(keys_distinct(t));
        lemma_lookup_characterized(t);
        assert forall|i: int| 0 <= i < s.len() implies #[trigger] seq_lookup(s, s[i].0@) == Some(s[i].1) by {
            assert(s.last() == s[s.len() - 1]);
            if i < s.len() - 1 {
                assert(t[i] == s[i]);
                assert(s[i].0@ != s[s.len() - 1].0@);
                assert(seq_lookup(t, t[i].0@) == Some(t[i].1));
            }
        }
        assert forall|k: K::V| (forall|i: int| 0 <= i < s.len() ==> s[i].0@ != k) implies #[trigger] seq_lookup(s, k) is None by {
            assert(s.last() == s[s.len() - 1]);
            assert(s[s.len() - 1].0@ != k);
            assert forall|i: int| 0 <= i < t.len() implies t[i].0@ != k by {
                assert(t[i] == s[i]);
            }
            assert(seq_lookup(t, k) is None);
        }
    }
}

/// A keyed collection with at most one value per key.
pub struct Table<K, V> {
    entries: Vec<(K, V)>,
}

impl<K: View, V> View for Table<K, V> {
    type V = Map<K::V, V>;

    closed spec fn view(&self) -> Map<K::V, V> {
        Map::new(
            |k: K::V| seq_lookup(self.entries@, k) is Some,
            |k: K::V| seq_lookup(self.entries@, k)->0,
        )
    }
}

impl<K: TableKey, V> Table<K, V> {
    /// The table's internal invariant: no key is held twice.
    pub closed spec fn wf(&self) -> bool {
        keys_distinct(self.entries@)
    }

    /// An empty table.
    pub fn new() -> (t: Self)
        ensures
            t.wf(),
            t@ == Map::<K::V, V>::empty(),
    {
        let t = Table { entries: Vec::new() };
        assert(t@ =~= Map::<K::V, V>::empty());
        t
    }

    /// Position of the entry holding `k`, if any.
    fn find(&self, k: &K) -> (r: Option<usize>)
        requires
            self.wf(),
        ensures
            match r {
                Some(i) => i < self.entries@.len() && self.entries@[i as int].0@ == k@,
                None => forall|i: int| 0 <= i < self.entries@.len() ==> self.entries@[i].0@ != k@,
            },
    {
        let mut i: usize = 0;
        while i < self.entries.len()
            invariant
                i <= self.entries@.len(),
                forall|j: int| 0 <= j < i ==> self.entries@[j].0@ != k@,
            decreases self.entries@.len() - i,
        {
            if self.entries[i].0.key_eq(k) {
                return Some(i);
            }
            i = i + 1;
        }
        None
    }

    /// The value stored under `k`, if any.
    pub fn get(&self, k: &K) -> (r: Option<&V>)
        requires
            self.wf(),
        ensures
            match r {
                Some(v) => self@.contains_key(k@) && *v == self@[k@],
                None => !self@.contains_key(k@),
            },
    {
        proof {
            lemma_lookup_characterized(self.entries@);
        }
        match self.find(k) {
            Some(i) => Some(&self.entries[i].1),
            None => None,
        }
    }

    /// Whether a value is stored under `k`.
    pub fn contains_key(&self, k: &K) -> (r: bool)
        requires
            self.wf(),
        ensures
            r == self@.contains_key(k@),
    {
        proof {
            lemma_lookup_characterized(self.entries@);
        }
        self.find(k).is_some()
    }

    /// Store `v` under `k`, replacing any earlier value.
    pub fn insert(&mut self, k: K, v: V)
        requires
            old(self).wf(),
        ensures
            final(self).wf(),
            final(self)@ == old(self)@.insert(k@, v),
    {
        let ghost old_s = self.entries@;
        let ghost kv = k@;
        proof {
            lemma_lookup_characterized(old_s);
        }
        match self.find(&k) {
            Some(i) => {
                self.entries.set(i, (k, v));
                let ghost s = self.entries@;
                assert(keys_distinct(s)) by {
                    assert forall|a: int, b: int| 0 <= a < s.len() && 0 <= b < s.len() && a != b implies s[a].0@ != s[b].0@ by {
                        if a != i && b != i {
                            assert(s[a] == old_s[a] && s[b] == old_s[b]);
                        } else if a == i {
                            assert(s[b] == old_s[b]);
                        } else {
                            assert(s[a] == old_s[a]);
                        }
                    }
                }
                proof {
                    lemma_lookup_characterized(s);
                }
                assert(self@ =~= old(self)@.insert(kv, v)) by {
                    assert forall|key: K::V| #[trigger] self@.contains_key(key) == old(self)@.insert(kv, v).contains_key(key) && (self@.contains_key(key) ==> self@[key] == old(self)@.insert(kv, v)[key]) by {
                        if key == kv {
                            assert(seq_lookup(s, s[i as int].0@) == Some(s[i as int].1));
                        } else {
                            let found = exists|j: int| 0 <= j < old_s.len() && old_s[j].0@ == key;
                            if found {
                                let j = choose|j: int| 0 <= j < old_s.len() && old_s[j].0@ == key;
                                assert(j != i);
                                assert(s[j] == old_s[j]);
                                assert(seq_lookup(s, s[j].0@) == Some(s[j].1));
                                assert(seq_lookup(old_s, old_s[j].0@) == Some(old_s[j].1));
                            } else {
                                assert forall|j: int| 0 <= j < s.len() implies s[j].0@ != key by {
                                    if j != i {
                                        assert(s[j] == old_s[j]);
                                    }
                                }
                            }
                        }
                    }
                }
            },
            None => {
                self.entries.push((k, v));
                let ghost s = self.entries@;
                assert(keys_distinct(s)) by {
                    assert forall|a: int, b: int| 0 <= a < s.len() && 0 <= b < s.len() && a != b implies s[a].0@ != s[b].0@ by {
                        if a < old_s.len() && b < old_s.len() {
                            assert(s[a] == old_s[a] && s[b] == old_s[b]);
                        } else if a < old_s.len() {
                            assert(s[a] == old_s[a]);
                        } else {
                            assert(s[b] == old_s[b]);
                        }
                    }
                }
                proof {
                    lemma_lookup_characterized(s);
                }
                assert(self@ =~= old(self)@.insert(kv, v)) by {
                    assert forall|key: K::V| #[trigger] self@.contains_key(key) == old(self)@.insert(kv, v).contains_key(key) && (self@.contains_key(key) ==> self@[key] == old(self)@.insert(kv, v)[key]) by {
                        if key == kv {
                            assert(s[old_s.len() as int].0@ == kv);
                            assert(seq_lookup(s, s[old_s.len() as int].0@) == Some(s[old_s.len() as int].1));
                        } else {
                            let found = exists|j: int| 0 <= j < old_s.len() && old_s[j].0@ == key;
                            if found {
                                let j = choose|j: int| 0 <= j < old_s.len() && old_s[j].0@ == key;
                                assert(s[j] == old_s[j]);
                                assert(seq_lookup(s, s[j].0@) == Some(s[j].1));
                                assert(seq_lookup(old_s, old_s[j].0@) == Some(old_s[j].1));
                            } else {
                                assert forall|j: int| 0 <= j < s.len() implies s[j].0@ != key by {
                                    if j < old_s.len() {
                                        assert(s[j] == old_s[j]);
                                    }
                                }
                            }
                        }
                    }
                }
            },
        }
    }

    /// Remove the value stored under `k`, handing it back if there was one.
    pub fn remove(&mut self, k: &K) -> (r: Option<V>)
        requires
            old(self).wf(),
        ensures
            final(self).wf(),
            final(self)@ == old(self)@.remove(k@),
            match r {
                Some(v) => old(self)@.contains_key(k@) && v == old(self)@[k@],
                None => !old(self)@.contains_key(k@),
            },
    {
        let ghost old_s = self.entries@;
        let ghost kv = k@;
        proof {
            lemma_lookup_characterized(old_s);
        }
        match self.find(k) {
            Some(i) => {
                let (_, v) = self.entries.remove(i);
                let ghost s = self.entries@;
                assert(forall|j: int| 0 <= j < i ==> s[j] == old_s[j]);
                assert(forall|j: int| i <= j < s.len() ==> s[j] == old_s[j + 1]);
                assert(keys_distinct(s)) by {
                    assert forall|a: int, b: int| 0 <= a < s.len() && 0 <= b < s.len() && a != b implies s[a].0@ != s[b].0@ by {
                        let oa = if a < i { a } else { a + 1 };
                        let ob = if b < i { b } else { b + 1 };
                        assert(s[a] == old_s[oa] && s[b] == old_s[ob]);
                    }
                }
                proof {
                    lemma_lookup_characterized(s);
                }
                assert(self@ =~= old(self)@.remove(kv)) by {
                    assert forall|key: K::V| #[trigger] self@.contains_key(key) == old(self)@.remove(kv).contains_key(key) && (self@.contains_key(key) ==> self@[key] == old(self)@.remove(kv)[key]) by {
                        if key == kv {
                            assert forall|j: int| 0 <= j < s.len() implies s[j].0@ != key by {
                                let oj = if j < i { j } else { j + 1 };
                                assert(s[j] == old_s[oj]);
                            }
                        } else {
                            let found = exists|j: int| 0 <= j < old_s.len() && old_s[j].0@ == key;
                            if found {
                                let j = choose|j: int| 0 <= j < old_s.len() && old_s[j].0@ == key;
                                assert(j != i);
                                let nj = if j < i { j } else { j - 1 };
                                assert(s[nj] == old_s[j]);
                                assert(seq_lookup(s, s[nj].0@) == Some(s[nj].1));
                                assert(seq_lookup(old_s, old_s[j].0@) == Some(old_s[j].1));
                            } else {
                                assert forall|j: int| 0 <= j < s.len() implies s[j].0@ != key by {
                                    let oj = if j < i { j } else { j + 1 };
                                    assert(s[j] == old_s[oj]);
                                }
                            }
                        }
                    }
                }
                Some(v)
            },
            None => {
                assert(self@ =~= old(self)@.remove(kv));
                None
            },
        }
    }
}

} // verus!
