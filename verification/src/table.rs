//! An association table for keys that are structures, such as the 256-bit
//! identities: a vector of key/value pairs kept in ascending order of their
//! keys, each key once, read as a finite map.

use vstd::prelude::*;
use crate::ids::Key;

verus! {

/// Key/value pairs in ascending order of their keys.
#[derive(Clone, Debug)]
pub struct Table<K, V> {
    pub entries: Vec<(K, V)>,
}

impl<K, V> View for Table<K, V> {
    type V = Map<K, V>;

    /// The finite map that the pairs denote.
    open spec fn view(&self) -> Map<K, V> {
        Map::new(|k: K| self.has(k), |k: K| self.entries@[self.slot(k)].1)
    }
}

impl<K, V> Table<K, V> {
    /// Whether some pair carries the key `k`.
    pub open spec fn has(&self, k: K) -> bool {
        exists|i: int| 0 <= i < self.entries@.len() && (#[trigger] self.entries@[i]).0 == k
    }

    /// A position at which `k` stands, where there is one.
    pub open spec fn slot(&self, k: K) -> int {
        choose|i: int| 0 <= i < self.entries@.len() && (#[trigger] self.entries@[i]).0 == k
    }
}

/// Whether the keys of `pairs` ascend strictly from each position to the
/// next.
pub open spec fn ascending<K: Key, V>(pairs: Seq<(K, V)>) -> bool {
    forall|i: int, j: int|
        0 <= i < j < pairs.len() ==> (#[trigger] pairs[i]).0.rank() < (#[trigger] pairs[j]).0.rank()
}

/// Whether `pairs` lists `map`: in ascending order of the keys, every pair
/// of the list is a pair of the map, and every key of the map is a key of
/// the list.
pub open spec fn lists<K: Key, V>(pairs: Seq<(K, V)>, map: Map<K, V>) -> bool {
    &&& ascending(pairs)
    &&& forall|i: int|
        0 <= i < pairs.len() ==> map.contains_key((#[trigger] pairs[i]).0) && map[pairs[i].0]
            == pairs[i].1
    &&& forall|k: K| #[trigger]
        map.contains_key(k) ==> exists|i: int| 0 <= i < pairs.len() && (#[trigger] pairs[i]).0 == k
}

/// In a list of a map, a pair stands exactly when the map holds it.
pub proof fn lemma_listed_exactly<K: Key, V>(pairs: Seq<(K, V)>, map: Map<K, V>)
    requires
        lists(pairs, map),
    ensures
        forall|k: K, v: V| pairs.contains((k, v)) <==> map.contains_key(k) && map[k] == v,
{
}

impl<K: Key, V> Table<K, V> {
    /// The pairs of a well-formed table list the map that the table
    /// denotes: each key once, in ascending order, with its value.
    pub proof fn lemma_lists(&self)
        requires
            self.wf(),
        ensures
            lists(self.entries@, self@),
    {
    }

    /// The keys ascend strictly from each position to the next, so that no
    /// key occurs twice.
    pub open spec fn wf(&self) -> bool {
        forall|i: int, j: int|
            0 <= i < j < self.entries@.len() ==> (#[trigger] self.entries@[i]).0.rank() < (
            #[trigger] self.entries@[j]).0.rank()
    }

    /// Replacing the value at one position, keys untouched, replaces that
    /// key's value in the map and nothing else.
    pub proof fn lemma_value_replaced(&self, before: Self, i: int)
        requires
            before.wf(),
            0 <= i < before.entries@.len(),
            self.entries@.len() == before.entries@.len(),
            self.entries@[i].0 == before.entries@[i].0,
            forall|j: int|
                0 <= j < before.entries@.len() && j != i ==> self.entries@[j]
                    == before.entries@[j],
        ensures
            self.wf(),
            self@ == before@.insert(before.entries@[i].0, self.entries@[i].1),
    {
    }

    /// The empty table.
    pub fn new() -> (t: Self)
        ensures
            t.wf(),
            t@ == Map::<K, V>::empty(),
            t.entries@.len() == 0,
    {
        let t = Table { entries: Vec::new() };
        assert(t@ =~= Map::<K, V>::empty());
        t
    }

    /// The first position whose key does not come before `k`: where `k`
    /// stands, or where it would have to stand. Found by halving.
    pub fn place(&self, k: &K) -> (p: usize)
        requires
            self.wf(),
        ensures
            p <= self.entries@.len(),
            forall|j: int| 0 <= j < p ==> (#[trigger] self.entries@[j]).0.rank() < k.rank(),
            forall|j: int|
                p <= j < self.entries@.len() ==> k.rank() <= (#[trigger] self.entries@[j]).0.rank(),
    {
        let mut low: usize = 0;
        let mut high: usize = self.entries.len();
        while low < high
            invariant
                self.wf(),
                low <= high <= self.entries@.len(),
                forall|j: int| 0 <= j < low ==> (#[trigger] self.entries@[j]).0.rank() < k.rank(),
                forall|j: int|
                    high <= j < self.entries@.len() ==> k.rank() <= (
                    #[trigger] self.entries@[j]).0.rank(),
            decreases high - low,
        {
            let middle = low + (high - low) / 2;
            if self.entries[middle].0.before(k) {
                low = middle + 1;
            } else {
                high = middle;
            }
        }
        low
    }

    /// The position of `k`, if the table holds it.
    pub fn find(&self, k: &K) -> (r: Option<usize>)
        requires
            self.wf(),
        ensures
            match r {
                Some(i) => i < self.entries@.len() && self.entries@[i as int].0 == *k
                    && self@.contains_key(*k) && self@[*k] == self.entries@[i as int].1,
                None => !self@.contains_key(*k),
            },
    {
        let p = self.place(k);
        if p < self.entries.len() && self.entries[p].0.same(k) {
            Some(p)
        } else {
            None
        }
    }

    /// Whether the table holds `k`.
    pub fn contains_key(&self, k: &K) -> (r: bool)
        requires
            self.wf(),
        ensures
            r == self@.contains_key(*k),
    {
        self.find(k).is_some()
    }

    /// The value stored under `k`, if any.
    pub fn get(&self, k: &K) -> (r: Option<&V>)
        requires
            self.wf(),
        ensures
            match r {
                Some(v) => self@.contains_key(*k) && *v == self@[*k],
                None => !self@.contains_key(*k),
            },
    {
        match self.find(k) {
            Some(i) => Some(&self.entries[i].1),
            None => None,
        }
    }

    /// Stores `v` under `k`, replacing what was there.
    pub fn insert(&mut self, k: K, v: V)
        requires
            old(self).wf(),
        ensures
            final(self).wf(),
            final(self)@ == old(self)@.insert(k, v),
    {
        let ghost before = *self;
        let p = self.place(&k);
        if p < self.entries.len() && self.entries[p].0.same(&k) {
            self.entries[p].1 = v;
            proof {
                self.lemma_value_replaced(before, p as int);
            }
        } else {
            self.entries.insert(p, (k, v));
            proof {
                if p < before.entries@.len() {
                    K::lemma_rank_tells(before.entries@[p as int].0, k);
                }
                let target = before@.insert(k, v);
                assert forall|q: K| self@.contains_key(q) <==> target.contains_key(q) by {
                    if self.has(q) {
                        let s = self.slot(q);
                        if s != p {
                            let s0 = if s < p { s } else { s - 1 };
                            assert(before.entries@[s0].0 == q);
                        }
                    }
                    if before.has(q) {
                        let s = before.slot(q);
                        let s1 = if s < p { s } else { s + 1 };
                        assert(self.entries@[s1].0 == q);
                    }
                    if q == k {
                        assert(self.entries@[p as int].0 == q);
                    }
                }
                assert(self@ =~= target);
            }
        }
    }

    /// Drops `k` and its value, if the table holds it.
    pub fn remove(&mut self, k: &K)
        requires
            old(self).wf(),
        ensures
            final(self).wf(),
            final(self)@ == old(self)@.remove(*k),
    {
        let ghost before = *self;
        match self.find(k) {
            Some(i) => {
                self.entries.remove(i);
                proof {
                    let target = before@.remove(*k);
                    assert forall|q: K| self@.contains_key(q) <==> target.contains_key(q) by {
                        if self.has(q) {
                            let s = self.slot(q);
                            let s0 = if s < i { s } else { s + 1 };
                            assert(before.entries@[s0].0 == q);
                            if q == *k {
                                if s0 < i {
                                    assert(before.entries@[s0].0.rank()
                                        < before.entries@[i as int].0.rank());
                                } else {
                                    assert(before.entries@[i as int].0.rank()
                                        < before.entries@[s0].0.rank());
                                }
                            }
                        }
                        if before.has(q) && q != *k {
                            let s = before.slot(q);
                            let s1 = if s < i { s } else { s - 1 };
                            assert(self.entries@[s1].0 == q);
                        }
                    }
                    assert(self@ =~= target);
                }
            },
            None => {
                assert(self@ =~= before@.remove(*k));
            },
        }
    }
}

} // verus!
