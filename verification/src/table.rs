use vstd::prelude::*;

use crate::address::Address;

verus! {

/// One slot of a table: an address and what is stored at it.
pub struct Entry<V> {
    pub key: Address,
    pub value: V,
}

/// A lookup table from addresses to records. Each address has at most one
/// record; a record, once stored, is replaced but never taken away.
pub struct Table<V> {
    entries: Vec<Entry<V>>,
}

impl<V> View for Table<V> {
    type V = Map<Address, V>;

    closed spec fn view(&self) -> Map<Address, V> {
        Map::new(|k: Address| self.holds(k), |k: Address| self.entries[self.slot(k)].value)
    }
}

impl<V> Table<V> {
    /// No address occupies two slots.
    pub closed spec fn wf(&self) -> bool {
        forall|i: int, j: int|
            0 <= i < j < self.entries.len() ==> self.entries[i].key != self.entries[j].key
    }

    spec fn holds(&self, k: Address) -> bool {
        exists|i: int| 0 <= i < self.entries.len() && self.entries[i].key == k
    }

    spec fn slot(&self, k: Address) -> int {
        choose|i: int| 0 <= i < self.entries.len() && self.entries[i].key == k
    }

    proof fn lemma_slot(&self, i: int)
        requires
            self.wf(),
            0 <= i < self.entries.len(),
        ensures
            self.holds(self.entries[i].key),
            self.slot(self.entries[i].key) == i,
            self@.dom().contains(self.entries[i].key),
            self@[self.entries[i].key] == self.entries[i].value,
    {
        let k = self.entries[i].key;
        let j = self.slot(k);
        assert(0 <= j < self.entries.len() && self.entries[j].key == k);
        if j < i {
            assert(self.entries[j].key != self.entries[i].key);
        } else if i < j {
            assert(self.entries[i].key != self.entries[j].key);
        }
    }

    /// The empty table.
    pub fn new() -> (table: Table<V>)
        ensures
            table.wf(),
            table@ == Map::<Address, V>::empty(),
    {
        let table = Table { entries: Vec::new() };
        assert(table@ =~= Map::<Address, V>::empty());
        table
    }

    fn position(&self, key: &Address) -> (r: Option<usize>)
        requires
            self.wf(),
        ensures
            match r {
                Some(i) => i < self.entries.len() && self.entries[i as int].key == *key,
                None => !self.holds(*key),
            },
    {
        let mut i: usize = 0;
        while i < self.entries.len()
            invariant
                i <= self.entries.len(),
                forall|j: int| 0 <= j < i ==> self.entries[j].key != *key,
            decreases self.entries.len() - i,
        {
            if self.entries[i].key.same(key) {
                return Some(i);
            }
            i += 1;
        }
        None
    }

    /// Whether a record is stored at `key`.
    pub fn contains(&self, key: &Address) -> (b: bool)
        requires
            self.wf(),
        ensures
            b == self@.dom().contains(*key),
    {
        self.position(key).is_some()
    }

    /// The record stored at `key`, if there is one.
    pub fn get(&self, key: &Address) -> (r: Option<&V>)
        requires
            self.wf(),
        ensures
            match r {
                Some(value) => self@.dom().contains(*key) && *value == self@[*key],
                None => !self@.dom().contains(*key),
            },
    {
        match self.position(key) {
            Some(i) => {
                proof {
                    self.lemma_slot(i as int);
                }
                Some(&self.entries[i].value)
            },
            None => None,
        }
    }

    /// Stores `value` at `key`, in place of what was stored there before.
    pub fn insert(&mut self, key: Address, value: V)
        requires
            old(self).wf(),
        ensures
            final(self).wf(),
            final(self)@ == old(self)@.insert(key, value),
    {
        let ghost before = *self;
        match self.position(&key) {
            Some(i) => {
                self.entries.set(i, Entry { key, value });
                proof {
                    assert(self.wf());
                    assert forall|k: Address| self.holds(k) == before.holds(k) by {
                        if before.holds(k) {
                            let j = before.slot(k);
                            assert(self.entries[j].key == k);
                        }
                        if self.holds(k) {
                            let j = self.slot(k);
                            assert(before.entries[j].key == k);
                        }
                    }
                    assert forall|k: Address| #[trigger] self.holds(k) implies self@[k] == before@.insert(
                        key,
                        value,
                    )[k] by {
                        let j = self.slot(k);
                        self.lemma_slot(j);
                        before.lemma_slot(j);
                    }
                    before.lemma_slot(i as int);
                    assert(self@ =~= before@.insert(key, value));
                }
            },
            None => {
                self.entries.push(Entry { key, value });
                proof {
                    let n = before.entries.len() as int;
                    assert(self.wf()) by {
                        assert forall|i: int, j: int| 0 <= i < j < self.entries.len() implies self.entries[i].key
                            != self.entries[j].key by {
                            if j == n {
                                assert(before.entries[i].key != key);
                            }
                        }
                    }
                    assert forall|k: Address| self.holds(k) == (before.holds(k) || k == key) by {
                        if before.holds(k) {
                            let j = before.slot(k);
                            assert(self.entries[j].key == k);
                        }
                        if k == key {
                            assert(self.entries[n].key == k);
                        }
                        if self.holds(k) && k != key {
                            let j = self.slot(k);
                            assert(before.entries[j].key == k);
                        }
                    }
                    assert forall|k: Address| #[trigger] self.holds(k) implies self@[k] == before@.insert(
                        key,
                        value,
                    )[k] by {
                        let j = self.slot(k);
                        self.lemma_slot(j);
                        if j < n {
                            before.lemma_slot(j);
                        }
                    }
                    assert(self@ =~= before@.insert(key, value));
                }
            },
        }
    }
}

} // verus!
