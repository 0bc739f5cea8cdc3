//! A small keyed table: the in-memory form of one persisted map of the ledger.
//!
//! A table is a list of entries with pairwise different keys.  Its view is the
//! finite map from the view of each key to the value stored under it.
use vstd::prelude::*;

verus! {

/// A key of a ledger table.  Two keys name the same entry exactly when their
/// views are equal.
pub trait Key: View + Sized {
    /// Decides whether `self` and `other` name the same entry.
    fn same(&self, other: &Self) -> (r: bool)
        ensures
            r == (self@ == other@),
    ;
}

impl Key for u64 {
    fn same(&self, other: &Self) -> (r: bool) {
        *self == *other
    }
}

impl Key for String {
    fn same(&self, other: &Self) -> (r: bool) {
        *self == *other
    }
}

impl Key for (u64, String) {
    fn same(&self, other: &Self) -> (r: bool) {
        self.0 == other.0 && self.1 == other.1
    }
}

impl Key for (u64, String, u64) {
    fn same(&self, other: &Self) -> (r: bool) {
        self.0 == other.0 && self.2 == other.2 && self.1 == other.1
    }
}

/// A finite map from keys to values, kept as a list of entries.
pub struct Table<K, V> {
    entries: Vec<(K, V)>,
}

impl<K: Key, V> Table<K, V> {
    /// No two entries share a key.
    pub closed spec fn wf(&self) -> bool {
        forall|i: int, j: int|
            0 <= i < j < self.entries@.len() ==> (#[trigger] self.entries@[i]).0@ != (
            #[trigger] self.entries@[j]).0@
    }

    /// Whether some entry is stored under `k`.
    pub closed spec fn holds(&self, k: K::V) -> bool {
        exists|i: int| 0 <= i < self.entries@.len() && (#[trigger] self.entries@[i]).0@ == k
    }

    /// The place of the entry stored under `k`, where there is one.
    pub closed spec fn place(&self, k: K::V) -> int {
        choose|i: int| 0 <= i < self.entries@.len() && (#[trigger] self.entries@[i]).0@ == k
    }

    /// The map from key views to stored values.
    pub closed spec fn view(&self) -> Map<K::V, V> {
        Map::new(|k: K::V| self.holds(k), |k: K::V| self.entries@[self.place(k)].1)
    }

    /// The key views in the order in which their entries were first stored.
    pub closed spec fn order(&self) -> Seq<K::V> {
        Seq::new(self.entries@.len(), |i: int| self.entries@[i].0@)
    }

    /// The entry at place `i` is the one the view holds under its key.
    proof fn lemma_entry(&self, i: int)
        requires
            self.wf(),
            0 <= i < self.entries@.len(),
        ensures
            self.holds(self.entries@[i].0@),
            self.place(self.entries@[i].0@) == i,
            self@.contains_key(self.entries@[i].0@),
            self@[self.entries@[i].0@] == self.entries@[i].1,
    {
        let k = self.entries@[i].0@;
        assert(self.holds(k));
        let p = self.place(k);
        assert(0 <= p < self.entries@.len() && self.entries@[p].0@ == k);
        if p < i {
            assert(self.entries@[p].0@ != self.entries@[i].0@);
        } else if i < p {
            assert(self.entries@[i].0@ != self.entries@[p].0@);
        }
    }

    /// The order lists each key of the view once, and nothing else.
    pub proof fn lemma_order(&self)
        requires
            self.wf(),
        ensures
            self.order().no_duplicates(),
            forall|k: K::V| self.order().contains(k) <==> self@.contains_key(k),
    {
        assert forall|k: K::V| self.order().contains(k) <==> self@.contains_key(k) by {
            if self.order().contains(k) {
                let i = choose|i: int| 0 <= i < self.order().len() && self.order()[i] == k;
                assert(self.entries@[i].0@ == k);
            }
            if self@.contains_key(k) {
                let p = self.place(k);
                assert(self.order()[p] == k);
            }
        }
    }

    /// The empty table.
    pub fn new() -> (t: Self)
        ensures
            t.wf(),
            t@ == Map::<K::V, V>::empty(),
            t.order() == Seq::<K::V>::empty(),
    {
        let t = Table { entries: Vec::new() };
        assert(t@ =~= Map::<K::V, V>::empty());
        assert(t.order() =~= Seq::<K::V>::empty());
        t
    }

    fn find(&self, key: &K) -> (r: Option<usize>)
        requires
            self.wf(),
        ensures
            match r {
                Some(i) => i < self.entries@.len() && self.entries@[i as int].0@ == key@,
                None => !self.holds(key@),
            },
    {
        let mut i: usize = 0;
        while i < self.entries.len()
            invariant
                i <= self.entries@.len(),
                forall|j: int| 0 <= j < i ==> (#[trigger] self.entries@[j]).0@ != key@,
            decreases self.entries@.len() - i,
        {
            if self.entries[i].0.same(key) {
                return Some(i);
            }
            i += 1;
        }
        None
    }

    /// Number of entries.
    pub fn len(&self) -> (n: usize)
        ensures
            n == self.order().len(),
    {
        self.entries.len()
    }

    /// The value of the entry at place `i` of the order.
    pub fn value_at(&self, i: usize) -> (v: &V)
        requires
            self.wf(),
            i < self.order().len(),
        ensures
            self@.contains_key(self.order()[i as int]),
            *v == self@[self.order()[i as int]],
    {
        proof {
            self.lemma_entry(i as int);
        }
        &self.entries[i].1
    }

    /// The value stored under `key`, if any.
    pub fn get(&self, key: &K) -> (r: Option<&V>)
        requires
            self.wf(),
        ensures
            match r {
                Some(v) => self@.contains_key(key@) && *v == self@[key@],
                None => !self@.contains_key(key@),
            },
    {
        match self.find(key) {
            Some(i) => {
                proof {
                    self.lemma_entry(i as int);
                }
                Some(&self.entries[i].1)
            },
            None => None,
        }
    }

    /// Stores `value` under `key`, replacing what was stored there.
    pub fn set(&mut self, key: K, value: V)
        requires
            old(self).wf(),
        ensures
            final(self).wf(),
            final(self)@ == old(self)@.insert(key@, value),
            old(self)@.contains_key(key@) ==> final(self).order() == old(self).order(),
            !old(self)@.contains_key(key@) ==> final(self).order() == old(self).order().push(key@),
    {
        let ghost k = key@;
        let ghost before = *self;
        let found = self.find(&key);
        match found {
            Some(i) => {
                self.entries.set(i, (key, value));
                proof {
                    assert(self.wf()) by {
                        assert forall|a: int, b: int| 0 <= a < b < self.entries@.len() implies (
                        #[trigger] self.entries@[a]).0@ != (#[trigger] self.entries@[b]).0@ by {
                            assert(before.entries@[a].0@ == self.entries@[a].0@);
                            assert(before.entries@[b].0@ == self.entries@[b].0@);
                        }
                    }
                    assert(before@.contains_key(k)) by {
                        before.lemma_entry(i as int);
                    }
                    assert(self.order() =~= before.order());
                }
            },
            None => {
                self.entries.push((key, value));
                proof {
                    assert(self.order() =~= before.order().push(k));
                }
            },
        }
        proof {
            assert forall|q: K::V| #[trigger]
                self@.contains_key(q) <==> before@.insert(k, value).contains_key(q) by {
                if self.holds(q) {
                    let p = self.place(q);
                    if q != k {
                        assert(before.entries@[p].0@ == q);
                    }
                }
                if before.holds(q) {
                    let p = before.place(q);
                    assert(self.entries@[p].0@ == before.entries@[p].0@);
                }
                if q == k {
                    let p = match found {
                        Some(i) => i as int,
                        None => self.entries@.len() - 1,
                    };
                    assert(self.entries@[p].0@ == k);
                }
            }
            assert forall|q: K::V| #[trigger] self@.contains_key(q) implies self@[q]
                == before@.insert(k, value)[q] by {
                let p = self.place(q);
                self.lemma_entry(p);
                if q != k {
                    assert(before.entries@[p].0@ == q);
                    before.lemma_entry(p);
                }
            }
            assert(self@ =~= before@.insert(k, value));
        }
    }

    /// Removes the entry stored under `key`, if there is one.
    pub fn remove(&mut self, key: &K)
        requires
            old(self).wf(),
        ensures
            final(self).wf(),
            final(self)@ == old(self)@.remove(key@),
    {
        let ghost before = *self;
        let found = self.find(key);
        if let Some(i) = found {
            self.entries.remove(i);
            proof {
                assert forall|a: int| 0 <= a < self.entries@.len() implies #[trigger] self.entries@[a]
                    == before.entries@[if a < i { a } else { a + 1 }] by {}
                assert(self.wf());
                assert forall|q: K::V| #[trigger]
                    self@.contains_key(q) <==> before@.remove(key@).contains_key(q) by {
                    if self.holds(q) {
                        let p = self.place(q);
                        let earlier = if p < i { p } else { p + 1 };
                        assert(before.entries@[earlier].0@ == q);
                    }
                    if before.holds(q) && q != key@ {
                        let earlier = before.place(q);
                        let p = if earlier < i { earlier } else { earlier - 1 };
                        assert(self.entries@[p].0@ == q);
                    }
                }
                assert forall|q: K::V| #[trigger] self@.contains_key(q) implies self@[q]
                    == before@.remove(key@)[q] by {
                    let p = self.place(q);
                    self.lemma_entry(p);
                    let earlier = if p < i { p } else { p + 1 };
                    assert(before.entries@[earlier].0@ == q);
                    before.lemma_entry(earlier);
                }
            }
        }
        assert(self@ =~= before@.remove(key@));
    }
}

} // verus!
