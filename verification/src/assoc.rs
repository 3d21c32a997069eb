//! A small finite map kept as a list of entries with distinct keys: the
//! in-memory form of one family of the contract's named records.
use vstd::prelude::*;

use crate::account::Account;
use crate::uint::U256;

verus! {

/// Keys whose equality can be decided at run time.
pub trait RecordKey: Sized + Copy {
    fn same_key(&self, other: &Self) -> (same: bool)
        ensures
            same == (*self == *other),
    ;
}

impl RecordKey for Account {
    fn same_key(&self, other: &Account) -> (same: bool) {
        self.same_as(other)
    }
}

impl RecordKey for U256 {
    fn same_key(&self, other: &U256) -> (same: bool) {
        self.same_as(other)
    }
}

/// An owner together with an account it lets move all of its tokens.
#[derive(Clone, Copy, Debug)]
pub struct OperatorPair {
    pub owner: Account,
    pub spender: Account,
}

impl RecordKey for OperatorPair {
    fn same_key(&self, other: &OperatorPair) -> (same: bool) {
        self.owner.same_as(&other.owner) && self.spender.same_as(&other.spender)
    }
}

/// A finite map from `K` to `V` whose entries have pairwise distinct keys.
pub struct RecordMap<K, V> {
    entries: Vec<(K, V)>,
}

impl<K: RecordKey, V: Copy> RecordMap<K, V> {
    /// The entries have pairwise distinct keys.
    pub closed spec fn wf(&self) -> bool {
        forall|i: int, j: int|
            0 <= i < self.entries@.len() && 0 <= j < self.entries@.len() && i != j
                ==> #[trigger] self.entries@[i].0 != #[trigger] self.entries@[j].0
    }

    spec fn has_at(&self, k: K, i: int) -> bool {
        0 <= i < self.entries@.len() && self.entries@[i].0 == k
    }

    /// The map that the entries stand for.
    pub closed spec fn view(&self) -> Map<K, V> {
        Map::new(
            |k: K| exists|i: int| self.has_at(k, i),
            |k: K| self.entries@[choose|i: int| self.has_at(k, i)].1,
        )
    }

    proof fn lemma_view_at(&self, k: K, i: int)
        requires
            self.wf(),
            self.has_at(k, i),
        ensures
            self.view().contains_key(k),
            self.view()[k] == self.entries@[i].1,
    {
        let c = choose|c: int| self.has_at(k, c);
        assert(self.has_at(k, c));
    }

    pub fn new() -> (m: Self)
        ensures
            m.wf(),
            m.view() == Map::<K, V>::empty(),
    {
        let m = RecordMap { entries: Vec::new() };
        assert(m.view() =~= Map::<K, V>::empty());
        m
    }

    fn find(&self, k: &K) -> (index: Option<usize>)
        requires
            self.wf(),
        ensures
            match index {
                Some(i) => self.has_at(*k, i as int),
                None => !self.view().contains_key(*k),
            },
    {
        let mut i: usize = 0;
        while i < self.entries.len()
            invariant
                i <= self.entries@.len(),
                forall|j: int| 0 <= j < i ==> self.entries@[j].0 != *k,
            decreases self.entries@.len() - i,
        {
            if self.entries[i].0.same_key(k) {
                return Some(i);
            }
            i = i + 1;
        }
        None
    }

    /// The value recorded for `k`, if any.
    pub fn get(&self, k: &K) -> (value: Option<V>)
        requires
            self.wf(),
        ensures
            value == (if self.view().contains_key(*k) {
                Some(self.view()[*k])
            } else {
                None::<V>
            }),
    {
        match self.find(k) {
            Some(i) => {
                proof {
                    self.lemma_view_at(*k, i as int);
                }
                Some(self.entries[i].1)
            },
            None => None,
        }
    }

    /// Records `v` under `k`, replacing what was recorded there.
    pub fn insert(&mut self, k: K, v: V)
        requires
            old(self).wf(),
        ensures
            final(self).wf(),
            final(self).view() == old(self).view().insert(k, v),
    {
        let ghost before = self.view();
        match self.find(&k) {
            Some(i) => {
                self.entries.set(i, (k, v));
                proof {
                    assert(self.wf());
                    assert forall|k2: K| #[trigger] self.view().contains_key(k2) <==> before.insert(k, v).contains_key(k2) by {
                        if before.contains_key(k2) {
                            let c = choose|c: int| old(self).has_at(k2, c);
                            assert(self.has_at(k2, c));
                        }
                        if self.view().contains_key(k2) {
                            let c = choose|c: int| self.has_at(k2, c);
                            if k2 != k {
                                assert(old(self).has_at(k2, c));
                            }
                        }
                    }
                    assert forall|k2: K| #[trigger] self.view().contains_key(k2) implies self.view()[k2] == before.insert(k, v)[k2] by {
                        let c = choose|c: int| self.has_at(k2, c);
                        self.lemma_view_at(k2, c);
                        if k2 != k {
                            old(self).lemma_view_at(k2, c);
                        }
                    }
                    assert(self.view() =~= before.insert(k, v));
                }
            },
            None => {
                self.entries.push((k, v));
                proof {
                    let n = old(self).entries@.len() as int;
                    assert(self.has_at(k, n));
                    assert forall|i: int| 0 <= i < n implies self.entries@[i].0 != k by {
                        if self.entries@[i].0 == k {
                            assert(old(self).has_at(k, i));
                        }
                    }
                    assert(self.wf());
                    assert forall|k2: K| #[trigger] self.view().contains_key(k2) <==> before.insert(k, v).contains_key(k2) by {
                        if before.contains_key(k2) {
                            let c = choose|c: int| old(self).has_at(k2, c);
                            assert(self.has_at(k2, c));
                        }
                        if self.view().contains_key(k2) && k2 != k {
                            let c = choose|c: int| self.has_at(k2, c);
                            assert(old(self).has_at(k2, c));
                        }
                    }
                    assert forall|k2: K| #[trigger] self.view().contains_key(k2) implies self.view()[k2] == before.insert(k, v)[k2] by {
                        let c = choose|c: int| self.has_at(k2, c);
                        self.lemma_view_at(k2, c);
                        if k2 != k {
                            old(self).lemma_view_at(k2, c);
                        }
                    }
                    assert(self.view() =~= before.insert(k, v));
                }
            },
        }
    }
}

} // verus!
