//! A small map keyed by strings that keeps its entries in insertion order.
//!
//! The map is modelled by two parallel sequences, `keys()` and `values()`.
//! No key occurs twice; that is the type's invariant.

use vstd::prelude::*;

verus! {

pub struct StrMap<V> {
    entries: Vec<(String, V)>,
}

impl<V> StrMap<V> {
    /// The keys, in insertion order.
    pub closed spec fn keys(&self) -> Seq<Seq<char>> {
        self.entries@.map_values(|e: (String, V)| e.0@)
    }

    /// The values, in the order of their keys.
    pub closed spec fn values(&self) -> Seq<V> {
        self.entries@.map_values(|e: (String, V)| e.1)
    }

    /// No key occurs twice.
    #[verifier::type_invariant]
    pub closed spec fn wf(&self) -> bool {
        self.keys().no_duplicates()
    }

    pub open spec fn spec_len(&self) -> nat {
        self.keys().len()
    }

    pub open spec fn contains_key(&self, k: Seq<char>) -> bool {
        self.keys().contains(k)
    }

    /// The value stored under `k`; arbitrary when `k` is not a key.
    pub open spec fn value_of(&self, k: Seq<char>) -> V {
        self.values()[self.keys().index_of(k)]
    }

    /// The map as a mathematical map.
    pub open spec fn as_map(&self) -> Map<Seq<char>, V> {
        Map::new(|k: Seq<char>| self.contains_key(k), |k: Seq<char>| self.value_of(k))
    }

    /// `keys()` and `values()` have the same length, and (for a well-formed map)
    /// a key sits at exactly one index.
    pub proof fn lemma_shape(&self)
        ensures
            self.keys().len() == self.values().len(),
            self.wf() ==> self.keys().no_duplicates(),
            self.wf() ==> forall|i: int|
                0 <= i < self.keys().len() ==> #[trigger] self.keys().index_of(self.keys()[i])
                    == i,
    {
        if self.wf() {
            assert forall|i: int| 0 <= i < self.keys().len() implies #[trigger] self.keys().index_of(
                self.keys()[i],
            ) == i by {
                let k = self.keys()[i];
                assert(self.keys().contains(k));
                let j = self.keys().index_of(k);
                assert(0 <= j < self.keys().len() && self.keys()[j] == k);
            }
        }
    }

    pub fn new() -> (m: Self)
        ensures
            m.keys() == Seq::<Seq<char>>::empty(),
            m.values() == Seq::<V>::empty(),
            m.wf(),
    {
        let m = StrMap { entries: Vec::new() };
        assert(m.keys() =~= Seq::<Seq<char>>::empty());
        assert(m.values() =~= Seq::<V>::empty());
        m
    }

    pub fn len(&self) -> (n: usize)
        ensures
            n == self.spec_len(),
    {
        self.entries.len()
    }

    /// The index at which `k` is stored, if it is a key.
    pub fn find(&self, k: &str) -> (r: Option<usize>)
        ensures
            self.wf(),
            match r {
                Some(i) => i < self.keys().len() && self.keys()[i as int] == k@
                    && self.keys().index_of(k@) == i,
                None => !self.contains_key(k@),
            },
    {
        proof {
            use_type_invariant(self);
            self.lemma_shape();
        }
        let mut i: usize = 0;
        while i < self.entries.len()
            invariant
                i <= self.entries.len(),
                self.wf(),
                self.keys().len() == self.entries.len(),
                forall|j: int|
                    0 <= j < self.keys().len() ==> #[trigger] self.keys().index_of(self.keys()[j])
                        == j,
                forall|j: int| 0 <= j < i ==> self.keys()[j] != k@,
            decreases self.entries.len() - i,
        {
            assert(self.keys()[i as int] == self.entries@[i as int].0@);
            if *self.entries[i].0.as_str() == *k {
                return Some(i);
            }
            i += 1;
        }
        None
    }

    pub fn has_key(&self, k: &str) -> (r: bool)
        ensures
            r == self.contains_key(k@),
    {
        self.find(k).is_some()
    }

    pub fn get(&self, k: &str) -> (r: Option<&V>)
        ensures
            match r {
                Some(v) => self.contains_key(k@) && *v == self.value_of(k@),
                None => !self.contains_key(k@),
            },
    {
        match self.find(k) {
            Some(i) => Some(&self.entries[i].1),
            None => None,
        }
    }

    /// The key stored at index `i`.
    pub fn key_at(&self, i: usize) -> (k: &String)
        requires
            i < self.spec_len(),
        ensures
            k@ == self.keys()[i as int],
    {
        &self.entries[i].0
    }

    /// The value stored at index `i`.
    pub fn value_at(&self, i: usize) -> (v: &V)
        requires
            i < self.spec_len(),
        ensures
            *v == self.values()[i as int],
    {
        &self.entries[i].1
    }

    /// Stores `v` under `k`. A new key goes to the end; an existing key keeps
    /// its place and gives back the value it held.
    pub fn insert(&mut self, k: String, v: V) -> (prev: Option<V>)
        ensures
            final(self).wf(),
            final(self).as_map() == old(self).as_map().insert(k@, v),
            match prev {
                Some(p) => old(self).contains_key(k@) && p == old(self).value_of(k@)
                    && final(self).keys() == old(self).keys() && final(self).values() == old(
                    self,
                ).values().update(old(self).keys().index_of(k@), v),
                None => !old(self).contains_key(k@) && final(self).keys() == old(self).keys().push(
                    k@,
                ) && final(self).values() == old(self).values().push(v),
            },
    {
        let found = self.find(k.as_str());
        match found {
            Some(i) => {
                let ghost before = *self;
                let mut entries = Vec::new();
                std::mem::swap(&mut entries, &mut self.entries);
                let mut slot = (k, v);
                std::mem::swap(&mut entries[i], &mut slot);
                let ghost after_keys = entries@.map_values(|e: (String, V)| e.0@);
                assert(after_keys =~= before.keys());
                assert(entries@.map_values(|e: (String, V)| e.1) =~= before.values().update(
                    i as int,
                    v,
                ));
                self.entries = entries;
                proof {
                    before.lemma_shape();
                    self.lemma_shape();
                    assert(self.as_map() =~= before.as_map().insert(k@, v)) by {
                        assert forall|q: Seq<char>| self.as_map().dom().contains(q)
                            == before.as_map().insert(k@, v).dom().contains(q) by {}
                        assert forall|q: Seq<char>| #[trigger]
                            self.as_map().dom().contains(q) implies self.as_map()[q]
                            == before.as_map().insert(k@, v)[q] by {
                            let j = before.keys().index_of(q);
                            assert(0 <= j < before.keys().len() && before.keys()[j] == q);
                        }
                    }
                }
                Some(slot.1)
            },
            None => {
                let ghost before = *self;
                let mut entries = Vec::new();
                std::mem::swap(&mut entries, &mut self.entries);
                entries.push((k, v));
                assert(entries@.map_values(|e: (String, V)| e.0@) =~= before.keys().push(k@));
                assert(entries@.map_values(|e: (String, V)| e.1) =~= before.values().push(v));
                assert(before.keys().push(k@).no_duplicates()) by {
                    let s = before.keys().push(k@);
                    assert forall|a: int, b: int| 0 <= a < s.len() && 0 <= b < s.len() && a
                        != b implies s[a] != s[b] by {
                        if a < before.keys().len() {
                            assert(before.keys().contains(s[a]));
                        }
                        if b < before.keys().len() {
                            assert(before.keys().contains(s[b]));
                        }
                    }
                }
                self.entries = entries;
                proof {
                    before.lemma_shape();
                    self.lemma_shape();
                    assert(self.as_map() =~= before.as_map().insert(k@, v)) by {
                        assert forall|q: Seq<char>| self.as_map().dom().contains(q)
                            == before.as_map().insert(k@, v).dom().contains(q) by {
                            if before.keys().contains(q) {
                                let j = before.keys().index_of(q);
                                assert(self.keys()[j] == q);
                            }
                            if self.keys().contains(q) && q != k@ {
                                let j = self.keys().index_of(q);
                                assert(before.keys()[j] == q);
                            }
                            assert(self.keys()[before.keys().len() as int] == k@);
                        }
                        assert forall|q: Seq<char>| #[trigger]
                            self.as_map().dom().contains(q) implies self.as_map()[q]
                            == before.as_map().insert(k@, v)[q] by {
                            let j = self.keys().index_of(q);
                            assert(0 <= j < self.keys().len() && self.keys()[j] == q);
                            if q != k@ {
                                assert(before.keys()[j] == q);
                            }
                        }
                    }
                }
                None
            },
        }
    }

    /// Puts `v` in the place of the value at index `i` and gives back the
    /// value that was there.
    pub fn swap_value_at(&mut self, i: usize, v: V) -> (prev: V)
        requires
            i < old(self).spec_len(),
        ensures
            final(self).wf(),
            prev == old(self).values()[i as int],
            final(self).keys() == old(self).keys(),
            final(self).values() == old(self).values().update(i as int, v),
            final(self).as_map() == old(self).as_map().insert(old(self).keys()[i as int], v),
    {
        proof {
            use_type_invariant(&*self);
        }
        let ghost before = *self;
        let mut entries = Vec::new();
        std::mem::swap(&mut entries, &mut self.entries);
        let mut value = v;
        std::mem::swap(&mut entries[i].1, &mut value);
        assert(entries@.map_values(|e: (String, V)| e.0@) =~= before.keys());
        assert(entries@.map_values(|e: (String, V)| e.1) =~= before.values().update(i as int, v));
        self.entries = entries;
        proof {
            before.lemma_shape();
            self.lemma_shape();
            let k = before.keys()[i as int];
            assert(self.as_map() =~= before.as_map().insert(k, v)) by {
                assert forall|q: Seq<char>| self.as_map().dom().contains(q)
                    == before.as_map().insert(k, v).dom().contains(q) by {}
                assert forall|q: Seq<char>| #[trigger]
                    self.as_map().dom().contains(q) implies self.as_map()[q]
                    == before.as_map().insert(k, v)[q] by {
                    let j = before.keys().index_of(q);
                    assert(0 <= j < before.keys().len() && before.keys()[j] == q);
                }
            }
        }
        value
    }

    /// Takes the entry at index `i` out of the map.
    pub fn remove_at(&mut self, i: usize) -> (e: (String, V))
        requires
            i < old(self).spec_len(),
        ensures
            final(self).wf(),
            e.0@ == old(self).keys()[i as int],
            e.1 == old(self).values()[i as int],
            final(self).keys() == old(self).keys().remove(i as int),
            final(self).values() == old(self).values().remove(i as int),
            final(self).as_map() == old(self).as_map().remove(old(self).keys()[i as int]),
    {
        proof {
            use_type_invariant(&*self);
        }
        let ghost before = *self;
        let mut entries = Vec::new();
        std::mem::swap(&mut entries, &mut self.entries);
        let e = entries.remove(i);
        assert(entries@.map_values(|e: (String, V)| e.0@) =~= before.keys().remove(i as int));
        assert(entries@.map_values(|e: (String, V)| e.1) =~= before.values().remove(i as int));
        assert(before.keys().remove(i as int).no_duplicates()) by {
            let s = before.keys();
            let t = s.remove(i as int);
            assert forall|a: int, b: int| 0 <= a < t.len() && 0 <= b < t.len() && a
                != b implies t[a] != t[b] by {
                let a2 = if a < i { a } else { a + 1 };
                let b2 = if b < i { b } else { b + 1 };
                assert(t[a] == s[a2] && t[b] == s[b2]);
            }
        }
        self.entries = entries;
        proof {
            before.lemma_shape();
            self.lemma_shape();
            let gone = before.keys()[i as int];
            assert(self.as_map() =~= before.as_map().remove(gone)) by {
                assert forall|q: Seq<char>| self.as_map().dom().contains(q)
                    == before.as_map().remove(gone).dom().contains(q) by {
                    if self.keys().contains(q) {
                        let j = self.keys().index_of(q);
                        let j2 = if j < i { j } else { j + 1 };
                        assert(before.keys()[j2] == q);
                    }
                    if before.keys().contains(q) && q != gone {
                        let j = before.keys().index_of(q);
                        let j2 = if j < i { j } else { j - 1 };
                        assert(self.keys()[j2] == q);
                    }
                }
                assert forall|q: Seq<char>| #[trigger]
                    self.as_map().dom().contains(q) implies self.as_map()[q]
                    == before.as_map().remove(gone)[q] by {
                    let j = self.keys().index_of(q);
                    assert(0 <= j < self.keys().len() && self.keys()[j] == q);
                    let j2 = if j < i { j } else { j + 1 };
                    assert(before.keys()[j2] == q);
                }
            }
        }
        e
    }

    /// Takes `k` and its value out of the map, if `k` is a key.
    pub fn remove(&mut self, k: &str) -> (r: Option<V>)
        ensures
            final(self).wf(),
            final(self).as_map() == old(self).as_map().remove(k@),
            match r {
                Some(v) => old(self).contains_key(k@) && v == old(self).value_of(k@)
                    && final(self).keys() == old(self).keys().remove(
                    old(self).keys().index_of(k@),
                ) && final(self).values() == old(self).values().remove(
                    old(self).keys().index_of(k@),
                ),
                None => !old(self).contains_key(k@) && final(self).keys() == old(self).keys()
                    && final(self).values() == old(self).values(),
            },
    {
        match self.find(k) {
            Some(i) => {
                let e = self.remove_at(i);
                Some(e.1)
            },
            None => {
                proof {
                    use_type_invariant(&*self);
                    assert(self.as_map() =~= self.as_map().remove(k@));
                }
                None
            },
        }
    }
}

} // verus!
