//! A string-keyed map that keeps its entries in the order in which their keys
//! were first inserted.
//!
//! The supervisor's documents (module data files, OpenAPI objects, multipart
//! schemas) are all keyed by strings.  `StrMap` is the collection they use: its
//! abstract model is a `Map<Seq<char>, V>`, and its entries can be walked in
//! insertion order.
use vstd::prelude::*;

verus! {

/// True when no two entries of `s` carry the same key.
pub open spec fn distinct_keys<V>(s: Seq<(String, V)>) -> bool {
    forall|i: int, j: int|
        0 <= i < s.len() && 0 <= j < s.len() && i != j ==> #[trigger] s[i].0@ != #[trigger] s[j].0@
}

/// True when some entry of `s` has key `k`.
pub open spec fn has_key<V>(s: Seq<(String, V)>, k: Seq<char>) -> bool {
    exists|i: int| 0 <= i < s.len() && #[trigger] s[i].0@ == k
}

/// The position of an entry of `s` whose key is `k` (meaningful when `has_key(s, k)`).
pub open spec fn key_index<V>(s: Seq<(String, V)>, k: Seq<char>) -> int {
    choose|i: int| 0 <= i < s.len() && #[trigger] s[i].0@ == k
}

/// The map that a sequence of entries with distinct keys stands for.
pub open spec fn entries_map<V>(s: Seq<(String, V)>) -> Map<Seq<char>, V> {
    Map::new(|k: Seq<char>| has_key(s, k), |k: Seq<char>| s[key_index(s, k)].1)
}

/// In a sequence with distinct keys, the entry at `i` is what the map holds for its key.
pub proof fn lemma_entries_map_at<V>(s: Seq<(String, V)>, i: int)
    requires
        distinct_keys(s),
        0 <= i < s.len(),
    ensures
        entries_map(s).contains_key(s[i].0@),
        entries_map(s)[s[i].0@] == s[i].1,
        key_index(s, s[i].0@) == i,
{
    assert(has_key(s, s[i].0@));
    let c = key_index(s, s[i].0@);
    assert(s[c].0@ == s[i].0@);
}

/// Replacing the value of an existing key changes the map at that key only.
proof fn lemma_entries_map_update<V>(s: Seq<(String, V)>, j: int, k: String, v: V)
    requires
        distinct_keys(s),
        0 <= j < s.len(),
        s[j].0@ == k@,
    ensures
        distinct_keys(s.update(j, (k, v))),
        entries_map(s.update(j, (k, v))) =~= entries_map(s).insert(k@, v),
{
    let t = s.update(j, (k, v));
    assert(distinct_keys(t)) by {
        assert forall|a: int, b: int|
            0 <= a < t.len() && 0 <= b < t.len() && a != b implies #[trigger] t[a].0@
            != #[trigger] t[b].0@ by {
            assert(t[a].0@ == s[a].0@);
            assert(t[b].0@ == s[b].0@);
        }
    }
    assert forall|kk: Seq<char>| #[trigger]
        entries_map(t).contains_key(kk) == entries_map(s).insert(k@, v).contains_key(kk) by {
        if has_key(s, kk) {
            let c = key_index(s, kk);
            assert(t[c].0@ == kk);
        }
        if has_key(t, kk) {
            let c = key_index(t, kk);
            assert(s[c].0@ == kk);
        }
        assert(t[j].0@ == k@);
    }
    assert forall|kk: Seq<char>| entries_map(t).contains_key(kk) implies #[trigger] entries_map(
        t,
    )[kk] == entries_map(s).insert(k@, v)[kk] by {
        let c = key_index(t, kk);
        lemma_entries_map_at(t, c);
        if kk == k@ {
            lemma_entries_map_at(t, j);
        } else {
            assert(c != j);
            assert(s[c] == t[c]);
            lemma_entries_map_at(s, c);
        }
    }
}

/// Appending an entry whose key is new adds exactly that key to the map.
proof fn lemma_entries_map_push<V>(s: Seq<(String, V)>, k: String, v: V)
    requires
        distinct_keys(s),
        !has_key(s, k@),
    ensures
        distinct_keys(s.push((k, v))),
        entries_map(s.push((k, v))) =~= entries_map(s).insert(k@, v),
{
    let t = s.push((k, v));
    assert(distinct_keys(t)) by {
        assert forall|a: int, b: int|
            0 <= a < t.len() && 0 <= b < t.len() && a != b implies #[trigger] t[a].0@
            != #[trigger] t[b].0@ by {
            if a == s.len() {
                assert(s[b].0@ == t[b].0@);
            } else if b == s.len() {
                assert(s[a].0@ == t[a].0@);
            } else {
                assert(s[a].0@ == t[a].0@);
                assert(s[b].0@ == t[b].0@);
            }
        }
    }
    assert forall|kk: Seq<char>| #[trigger]
        entries_map(t).contains_key(kk) == entries_map(s).insert(k@, v).contains_key(kk) by {
        if has_key(s, kk) {
            let c = key_index(s, kk);
            assert(t[c].0@ == kk);
        }
        if has_key(t, kk) && kk != k@ {
            let c = key_index(t, kk);
            assert(c < s.len());
            assert(s[c].0@ == kk);
        }
        assert(t[s.len() as int].0@ == k@);
    }
    assert forall|kk: Seq<char>| entries_map(t).contains_key(kk) implies #[trigger] entries_map(
        t,
    )[kk] == entries_map(s).insert(k@, v)[kk] by {
        let c = key_index(t, kk);
        lemma_entries_map_at(t, c);
        if kk == k@ {
            lemma_entries_map_at(t, s.len() as int);
        } else {
            assert(c < s.len());
            assert(s[c] == t[c]);
            lemma_entries_map_at(s, c);
        }
    }
}

/// A string-keyed map whose entries keep their insertion order.
#[derive(Debug)]
pub struct StrMap<V> {
    entries: Vec<(String, V)>,
}

impl<V> View for StrMap<V> {
    type V = Map<Seq<char>, V>;

    closed spec fn view(&self) -> Map<Seq<char>, V> {
        entries_map(self.entries@)
    }
}

impl<V> StrMap<V> {
    #[verifier::type_invariant]
    closed spec fn keys_are_distinct(self) -> bool {
        distinct_keys(self.entries@)
    }

    /// The entries in insertion order.
    pub closed spec fn seq(self) -> Seq<(String, V)> {
        self.entries@
    }

    /// An empty map.
    pub fn new() -> (m: Self)
        ensures
            m@ == Map::<Seq<char>, V>::empty(),
            m.seq() == Seq::<(String, V)>::empty(),
    {
        let m = StrMap { entries: Vec::new() };
        assert(m@ =~= Map::<Seq<char>, V>::empty());
        m
    }

    /// The number of keys.
    pub fn len(&self) -> (n: usize)
        ensures
            n == self.seq().len(),
            n == self@.len(),
    {
        proof {
            use_type_invariant(self);
            self.lemma_dom_len();
        }
        self.entries.len()
    }

    proof fn lemma_dom_len(&self)
        requires
            distinct_keys(self.entries@),
        ensures
            self@.dom().finite(),
            self@.len() == self.entries@.len(),
        decreases self.entries@.len(),
    {
        let s = self.entries@;
        let keys = s.map_values(|e: (String, V)| e.0@);
        assert(self@.dom() =~= keys.to_set()) by {
            assert forall|k: Seq<char>| self@.dom().contains(k) implies keys.to_set().contains(k) by {
                let c = key_index(s, k);
                assert(keys[c] == k);
            }
            assert forall|k: Seq<char>| keys.to_set().contains(k) implies self@.dom().contains(k) by {
                let c = choose|c: int| 0 <= c < keys.len() && keys[c] == k;
                assert(s[c].0@ == k);
            }
        }
        assert(keys.no_duplicates()) by {
            assert forall|a: int, b: int| 0 <= a < keys.len() && 0 <= b < keys.len() && a != b implies keys[a]
                != keys[b] by {
                assert(s[a].0@ != s[b].0@);
            }
        }
        keys.unique_seq_to_set();
    }

    /// Whether the map holds `k`.
    pub fn contains_key(&self, k: &str) -> (b: bool)
        ensures
            b == self@.contains_key(k@),
    {
        match self.position(k) {
            Some(_) => true,
            None => false,
        }
    }

    /// The position of the entry with key `k`, if there is one.
    fn position(&self, k: &str) -> (r: Option<usize>)
        ensures
            match r {
                Some(i) => i < self.entries@.len() && self.entries@[i as int].0@ == k@
                    && self@.contains_key(k@) && self@[k@] == self.entries@[i as int].1,
                None => !self@.contains_key(k@),
            },
    {
        proof {
            use_type_invariant(self);
        }
        let key = k.to_string();
        let mut i: usize = 0;
        while i < self.entries.len()
            invariant
                i <= self.entries@.len(),
                key@ == k@,
                distinct_keys(self.entries@),
                forall|j: int| 0 <= j < i ==> self.entries@[j].0@ != k@,
            decreases self.entries@.len() - i,
        {
            if self.entries[i].0 == key {
                proof {
                    lemma_entries_map_at(self.entries@, i as int);
                }
                return Some(i);
            }
            i = i + 1;
        }
        None
    }

    /// The value held for `k`, if any.
    pub fn get(&self, k: &str) -> (r: Option<&V>)
        ensures
            match r {
                Some(v) => self@.contains_key(k@) && *v == self@[k@],
                None => !self@.contains_key(k@),
            },
    {
        match self.position(k) {
            Some(i) => Some(&self.entries[i].1),
            None => None,
        }
    }

    /// Sets the value for `k`; a new key goes after all present ones, an
    /// existing key keeps its place.
    pub fn insert(&mut self, k: String, v: V)
        ensures
            final(self)@ == old(self)@.insert(k@, v),
            old(self)@.contains_key(k@) ==> final(self).seq() == old(self).seq().update(
                key_index(old(self).seq(), k@),
                (k, v),
            ),
            !old(self)@.contains_key(k@) ==> final(self).seq() == old(self).seq().push((k, v)),
    {
        proof {
            use_type_invariant(&*self);
        }
        let pos = self.position(k.as_str());
        let mut entries: Vec<(String, V)> = Vec::new();
        std::mem::swap(&mut entries, &mut self.entries);
        match pos {
            Some(i) => {
                proof {
                    lemma_entries_map_update(entries@, i as int, k, v);
                    lemma_entries_map_at(entries@, i as int);
                }
                entries.set(i, (k, v));
            },
            None => {
                proof {
                    lemma_entries_map_push(entries@, k, v);
                }
                entries.push((k, v));
            },
        }
        self.entries = entries;
    }

    /// The position of the entry with key `k`, if there is one.
    pub fn index_of(&self, k: &str) -> (r: Option<usize>)
        ensures
            match r {
                Some(i) => i < self.seq().len() && self.seq()[i as int].0@ == k@
                    && self@.contains_key(k@) && self@[k@] == self.seq()[i as int].1
                    && key_index(self.seq(), k@) == i,
                None => !self@.contains_key(k@),
            },
    {
        proof {
            use_type_invariant(self);
        }
        let r = self.position(k);
        proof {
            if let Some(i) = r {
                lemma_entries_map_at(self.entries@, i as int);
            }
        }
        r
    }

    /// Takes out the entry at position `i`; the others keep their order.
    pub fn remove_at(&mut self, i: usize) -> (r: (String, V))
        requires
            i < old(self).seq().len(),
        ensures
            r == old(self).seq()[i as int],
            old(self)@.contains_key(r.0@),
            old(self)@[r.0@] == r.1,
            final(self).seq() == old(self).seq().remove(i as int),
            final(self)@ == old(self)@.remove(r.0@),
    {
        proof {
            use_type_invariant(&*self);
        }
        let mut entries: Vec<(String, V)> = Vec::new();
        std::mem::swap(&mut entries, &mut self.entries);
        let ghost before = entries@;
        let r = entries.remove(i);
        proof {
            let after = entries@;
            assert(after =~= before.remove(i as int));
            assert(distinct_keys(after)) by {
                assert forall|a: int, b: int|
                    0 <= a < after.len() && 0 <= b < after.len() && a != b implies #[trigger] after[a].0@
                    != #[trigger] after[b].0@ by {
                    let a0 = if a < i { a } else { a + 1 };
                    let b0 = if b < i { b } else { b + 1 };
                    assert(after[a] == before[a0]);
                    assert(after[b] == before[b0]);
                }
            }
            lemma_entries_map_at(before, i as int);
            assert forall|kk: Seq<char>| #[trigger] entries_map(after).contains_key(kk)
                == entries_map(before).remove(r.0@).contains_key(kk) by {
                if has_key(after, kk) {
                    let c = key_index(after, kk);
                    let c0 = if c < i { c } else { c + 1 };
                    assert(before[c0].0@ == kk);
                    assert(c0 != i);
                }
                if has_key(before, kk) && kk != r.0@ {
                    let c = key_index(before, kk);
                    assert(c != i);
                    let c1 = if c < i { c } else { c - 1 };
                    assert(after[c1].0@ == kk);
                }
            }
            assert forall|kk: Seq<char>| entries_map(after).contains_key(kk) implies #[trigger] entries_map(
                after,
            )[kk] == entries_map(before).remove(r.0@)[kk] by {
                let c = key_index(after, kk);
                lemma_entries_map_at(after, c);
                let c0 = if c < i { c } else { c + 1 };
                assert(after[c] == before[c0]);
                lemma_entries_map_at(before, c0);
            }
            assert(entries_map(after) =~= entries_map(before).remove(r.0@));
        }
        self.entries = entries;
        r
    }

    /// Puts an entry with a new key at position `i`.
    pub fn insert_at(&mut self, i: usize, k: String, v: V)
        requires
            i <= old(self).seq().len(),
            !old(self)@.contains_key(k@),
        ensures
            final(self).seq() == old(self).seq().insert(i as int, (k, v)),
            final(self)@ == old(self)@.insert(k@, v),
    {
        proof {
            use_type_invariant(&*self);
        }
        let mut entries: Vec<(String, V)> = Vec::new();
        std::mem::swap(&mut entries, &mut self.entries);
        let ghost before = entries@;
        entries.insert(i, (k, v));
        proof {
            let after = entries@;
            assert(after =~= before.insert(i as int, (k, v)));
            assert forall|c: int| 0 <= c < before.len() implies #[trigger] before[c].0@ != k@ by {
                if before[c].0@ == k@ {
                    assert(has_key(before, k@));
                }
            }
            assert(distinct_keys(after)) by {
                assert forall|a: int, b: int|
                    0 <= a < after.len() && 0 <= b < after.len() && a != b implies #[trigger] after[a].0@
                    != #[trigger] after[b].0@ by {
                    if a != i && b != i {
                        let a0 = if a < i { a } else { a - 1 };
                        let b0 = if b < i { b } else { b - 1 };
                        assert(after[a] == before[a0]);
                        assert(after[b] == before[b0]);
                    } else if a == i {
                        let b0 = if b < i { b } else { b - 1 };
                        assert(after[b] == before[b0]);
                    } else {
                        let a0 = if a < i { a } else { a - 1 };
                        assert(after[a] == before[a0]);
                    }
                }
            }
            assert forall|kk: Seq<char>| #[trigger] entries_map(after).contains_key(kk)
                == entries_map(before).insert(k@, v).contains_key(kk) by {
                assert(after[i as int].0@ == k@);
                if has_key(after, kk) && kk != k@ {
                    let c = key_index(after, kk);
                    assert(c != i);
                    let c0 = if c < i { c } else { c - 1 };
                    assert(before[c0].0@ == kk);
                }
                if has_key(before, kk) {
                    let c = key_index(before, kk);
                    let c1 = if c < i { c } else { c + 1 };
                    assert(after[c1].0@ == kk);
                }
            }
            assert forall|kk: Seq<char>| entries_map(after).contains_key(kk) implies #[trigger] entries_map(
                after,
            )[kk] == entries_map(before).insert(k@, v)[kk] by {
                let c = key_index(after, kk);
                lemma_entries_map_at(after, c);
                if c == i {
                } else {
                    let c0 = if c < i { c } else { c - 1 };
                    assert(after[c] == before[c0]);
                    lemma_entries_map_at(before, c0);
                }
            }
            assert(entries_map(after) =~= entries_map(before).insert(k@, v));
        }
        self.entries = entries;
    }

    /// The entries in insertion order.
    pub fn entries(&self) -> (r: &Vec<(String, V)>)
        ensures
            r@ == self.seq(),
            distinct_keys(r@),
            self@ == entries_map(r@),
    {
        proof {
            use_type_invariant(self);
        }
        &self.entries
    }
}

impl<V: Clone> Clone for StrMap<V> {
    /// A copy with the same keys in the same order; each value is cloned.
    fn clone(&self) -> (r: Self)
        ensures
            r.seq().len() == self.seq().len(),
            forall|i: int| 0 <= i < r.seq().len() ==> #[trigger] r.seq()[i].0@ == self.seq()[i].0@,
            r@.dom() == self@.dom(),
    {
        proof {
            use_type_invariant(self);
        }
        let mut entries: Vec<(String, V)> = Vec::new();
        let mut i: usize = 0;
        while i < self.entries.len()
            invariant
                i <= self.entries@.len(),
                entries@.len() == i,
                distinct_keys(self.entries@),
                forall|j: int| 0 <= j < i ==> #[trigger] entries@[j].0@ == self.entries@[j].0@,
            decreases self.entries@.len() - i,
        {
            let key = self.entries[i].0.clone();
            let value = self.entries[i].1.clone();
            entries.push((key, value));
            i = i + 1;
        }
        assert(distinct_keys(entries@)) by {
            assert forall|a: int, b: int|
                0 <= a < entries@.len() && 0 <= b < entries@.len() && a != b implies #[trigger] entries@[a].0@
                != #[trigger] entries@[b].0@ by {
                assert(self.entries@[a].0@ != self.entries@[b].0@);
            }
        }
        let r = StrMap { entries };
        assert(r@.dom() =~= self@.dom()) by {
            assert forall|k: Seq<char>| r@.dom().contains(k) implies self@.dom().contains(k) by {
                let c = key_index(r.entries@, k);
                assert(self.entries@[c].0@ == k);
            }
            assert forall|k: Seq<char>| self@.dom().contains(k) implies r@.dom().contains(k) by {
                let c = key_index(self.entries@, k);
                assert(r.entries@[c].0@ == k);
            }
        }
        r
    }
}

} // verus!
