//! A keyed table with at most one row per key.
//!
//! Every collection of the shared store is such a table, keyed by the chat
//! platform's user id. A table is viewed as a `Map` from key to the view of
//! the row; the rows themselves are kept in two parallel vectors.

use vstd::prelude::*;

verus! {

/// A row that can be copied.
pub trait Row: View + Sized {
    /// A second row with the same view.
    fn duplicate(&self) -> (copy: Self)
        ensures
            copy@ == self@,
    ;
}

/// A table of rows of type `V`, one for each key.
pub struct Table<V> {
    keys: Vec<u64>,
    rows: Vec<V>,
}

impl<V: View> View for Table<V> {
    type V = Map<u64, V::V>;

    closed spec fn view(&self) -> Map<u64, V::V> {
        Map::new(
            |k: u64| self.keys@.contains(k),
            |k: u64| self.rows@[self.keys@.index_of(k)]@,
        )
    }
}

impl<V: View> Table<V> {
    /// No key occurs twice, and every key has its row.
    pub closed spec fn wf(&self) -> bool {
        &&& self.keys@.len() == self.rows@.len()
        &&& self.keys@.no_duplicates()
    }

    /// The number of rows.
    pub closed spec fn spec_len(&self) -> nat {
        self.keys@.len()
    }

    /// The key of the row at position `i`.
    pub closed spec fn spec_key(&self, i: int) -> u64 {
        self.keys@[i]
    }

    /// Each position holds a key of the map, and each key of the map sits at
    /// exactly one position.
    pub proof fn lemma_positions(&self)
        requires
            self.wf(),
        ensures
            forall|i: int|
                0 <= i < self.spec_len() ==> self@.contains_key(#[trigger] self.spec_key(i)),
            forall|k: u64|
                self@.contains_key(k) ==> exists|i: int|
                    0 <= i < self.spec_len() && #[trigger] self.spec_key(i) == k,
            forall|i: int, j: int|
                0 <= i < self.spec_len() && 0 <= j < self.spec_len() && i != j
                    ==> self.spec_key(i) != self.spec_key(j),
    {
        assert forall|k: u64| self@.contains_key(k) implies exists|i: int|
            0 <= i < self.spec_len() && #[trigger] self.spec_key(i) == k by {
            let i = self.keys@.index_of(k);
            assert(0 <= i < self.spec_len() && self.spec_key(i) == k);
        }
    }

    proof fn lemma_index_of(&self, i: int)
        requires
            self.wf(),
            0 <= i < self.keys@.len(),
        ensures
            self.keys@.index_of(self.keys@[i]) == i,
            self@.contains_key(self.keys@[i]),
            self@[self.keys@[i]] == self.rows@[i]@,
    {
        let k = self.keys@[i];
        let j = self.keys@.index_of(k);
        assert(0 <= i < self.keys@.len() && self.keys@[i] == k);
        assert(0 <= j < self.keys@.len() && self.keys@[j] == k);
    }

    /// A table without rows.
    pub fn new() -> (t: Table<V>)
        ensures
            t.wf(),
            t@ == Map::<u64, V::V>::empty(),
    {
        let t = Table { keys: Vec::new(), rows: Vec::new() };
        assert(t@ =~= Map::<u64, V::V>::empty());
        t
    }

    /// The number of rows.
    pub fn len(&self) -> (n: usize)
        requires
            self.wf(),
        ensures
            n == self.spec_len(),
    {
        self.keys.len()
    }

    /// The key at position `i`.
    pub fn key_at(&self, i: usize) -> (k: u64)
        requires
            self.wf(),
            i < self.spec_len(),
        ensures
            k == self.spec_key(i as int),
            self@.contains_key(k),
    {
        proof {
            self.lemma_index_of(i as int);
        }
        self.keys[i]
    }

    /// The row at position `i`.
    pub fn row_at(&self, i: usize) -> (row: &V)
        requires
            self.wf(),
            i < self.spec_len(),
        ensures
            self@.contains_key(self.spec_key(i as int)),
            row@ == self@[self.spec_key(i as int)],
    {
        proof {
            self.lemma_index_of(i as int);
        }
        &self.rows[i]
    }

    fn position(&self, key: u64) -> (at: Option<usize>)
        requires
            self.wf(),
        ensures
            match at {
                Some(i) => i < self.keys@.len() && self.keys@[i as int] == key,
                None => !self.keys@.contains(key),
            },
    {
        let mut i: usize = 0;
        while i < self.keys.len()
            invariant
                i <= self.keys@.len(),
                forall|j: int| 0 <= j < i ==> self.keys@[j] != key,
            decreases self.keys@.len() - i,
        {
            if self.keys[i] == key {
                return Some(i);
            }
            i += 1;
        }
        None
    }

    /// Whether a row is stored under `key`.
    pub fn contains_key(&self, key: u64) -> (found: bool)
        requires
            self.wf(),
        ensures
            found == self@.contains_key(key),
    {
        self.position(key).is_some()
    }

    /// The row stored under `key`, if there is one.
    pub fn get(&self, key: u64) -> (row: Option<&V>)
        requires
            self.wf(),
        ensures
            match row {
                Some(r) => self@.contains_key(key) && r@ == self@[key],
                None => !self@.contains_key(key),
            },
    {
        match self.position(key) {
            Some(i) => {
                proof {
                    self.lemma_index_of(i as int);
                }
                Some(&self.rows[i])
            },
            None => None,
        }
    }

    /// Takes the row stored under `key` out of the table.
    pub fn remove(&mut self, key: u64) -> (row: Option<V>)
        requires
            old(self).wf(),
        ensures
            final(self).wf(),
            final(self)@ == old(self)@.remove(key),
            match row {
                Some(r) => old(self)@.contains_key(key) && r@ == old(self)@[key],
                None => !old(self)@.contains_key(key),
            },
    {
        match self.position(key) {
            Some(i) => {
                proof {
                    self.lemma_index_of(i as int);
                }
                let ghost before = *self;
                self.keys.remove(i);
                let row = self.rows.remove(i);
                proof {
                    let after = *self;
                    assert(after.keys@.no_duplicates());
                    assert forall|k: u64| after@.contains_key(k) <==> (before@.contains_key(k)
                        && k != key) by {
                        if after@.contains_key(k) {
                            let j = after.keys@.index_of(k);
                            assert(0 <= j < after.keys@.len() && after.keys@[j] == k);
                            if j < i {
                                assert(before.keys@[j] == k);
                            } else {
                                assert(before.keys@[j + 1] == k);
                            }
                        }
                        if before@.contains_key(k) && k != key {
                            let j = before.keys@.index_of(k);
                            assert(0 <= j < before.keys@.len() && before.keys@[j] == k);
                            if j < i {
                                assert(after.keys@[j] == k);
                            } else {
                                assert(after.keys@[j - 1] == k);
                            }
                        }
                    }
                    assert forall|k: u64| after@.contains_key(k) implies after@[k] == before@[k] by {
                        let j = after.keys@.index_of(k);
                        assert(0 <= j < after.keys@.len() && after.keys@[j] == k);
                        after.lemma_index_of(j);
                        if j < i {
                            before.lemma_index_of(j);
                        } else {
                            before.lemma_index_of(j + 1);
                        }
                    }
                    assert(after@ =~= before@.remove(key));
                }
                Some(row)
            },
            None => {
                assert(self@ =~= self@.remove(key));
                None
            },
        }
    }

    /// Stores `row` under `key`, in place of any row that was there.
    pub fn put(&mut self, key: u64, row: V)
        requires
            old(self).wf(),
        ensures
            final(self).wf(),
            final(self)@ == old(self)@.insert(key, row@),
    {
        let _ = self.remove(key);
        let ghost before = *self;
        self.keys.push(key);
        self.rows.push(row);
        proof {
            let after = *self;
            let n = before.keys@.len() as int;
            assert(!before@.contains_key(key));
            assert forall|j: int| 0 <= j < n implies before.keys@[j] != key by {
                if before.keys@[j] == key {
                    assert(before.keys@.contains(key));
                }
            }
            assert(after.keys@.no_duplicates());
            assert forall|k: u64| after@.contains_key(k) <==> (before@.contains_key(k) || k
                == key) by {
                if after@.contains_key(k) {
                    let j = after.keys@.index_of(k);
                    assert(0 <= j < after.keys@.len() && after.keys@[j] == k);
                    if j < n {
                        assert(before.keys@[j] == k);
                    }
                }
                if before@.contains_key(k) {
                    let j = before.keys@.index_of(k);
                    assert(0 <= j < before.keys@.len() && before.keys@[j] == k);
                    assert(after.keys@[j] == k);
                }
                if k == key {
                    assert(after.keys@[n] == k);
                }
            }
            assert forall|k: u64| after@.contains_key(k) implies after@[k] == before@.insert(
                key,
                row@,
            )[k] by {
                let j = after.keys@.index_of(k);
                assert(0 <= j < after.keys@.len() && after.keys@[j] == k);
                after.lemma_index_of(j);
                if j < n {
                    before.lemma_index_of(j);
                }
            }
            assert(after@ =~= before@.insert(key, row@));
            assert(before@.insert(key, row@) =~= old(self)@.insert(key, row@));
        }
    }
}

impl<V: Row> Table<V> {
    /// A second table with the same rows.
    pub fn duplicate(&self) -> (copy: Table<V>)
        requires
            self.wf(),
        ensures
            copy.wf(),
            copy@ == self@,
    {
        let mut keys: Vec<u64> = Vec::new();
        let mut rows: Vec<V> = Vec::new();
        let mut i: usize = 0;
        while i < self.keys.len()
            invariant
                self.wf(),
                i <= self.keys@.len(),
                keys@ == self.keys@.take(i as int),
                rows@.len() == i,
                forall|j: int| 0 <= j < i ==> (#[trigger] rows@[j])@ == self.rows@[j]@,
            decreases self.keys@.len() - i,
        {
            keys.push(self.keys[i]);
            rows.push(self.rows[i].duplicate());
            i += 1;
            assert(keys@ =~= self.keys@.take(i as int));
        }
        let copy = Table { keys, rows };
        proof {
            assert(copy.keys@ =~= self.keys@);
            assert forall|k: u64| copy@.contains_key(k) implies copy@[k] == self@[k] by {
                let j = copy.keys@.index_of(k);
                assert(0 <= j < copy.keys@.len() && copy.keys@[j] == k);
                copy.lemma_index_of(j);
                self.lemma_index_of(j);
            }
            assert(copy@ =~= self@);
        }
        copy
    }
}

} // verus!
