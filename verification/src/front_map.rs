//! A map that maintains insertion order and supports front insertions.
//!
//! Backs the provider list: the newest provider is shown first, and a
//! re-inserted key keeps both its value slot and its position.

use vstd::prelude::*;

use crate::keyed::{
    distinct_keys, has_row, lemma_row_value_at, lemma_row_value_insert, lemma_row_value_remove,
    lemma_row_value_some, row_value,
};
use crate::unique_id::UniqueId;

verus! {

broadcast use crate::keyed::lemma_row_value_some, crate::keyed::lemma_has_row_value;

/// A keyed map whose iteration order is the insertion order: a fresh
/// key takes the chosen end, a re-inserted key keeps its place.
pub struct FrontInsertMap<V> {
    entries: Vec<(UniqueId, V)>,
}

impl<V> FrontInsertMap<V> {
    /// The rows in iteration order (front to back).
    pub closed spec fn rows(&self) -> Seq<(UniqueId, V)> {
        self.entries@
    }

    /// Well-formedness: no key occurs twice.
    pub open spec fn wf(&self) -> bool {
        distinct_keys(self.rows())
    }

    /// Number of rows.
    pub open spec fn spec_len(&self) -> nat {
        self.rows().len()
    }

    /// What a key maps to.
    pub open spec fn spec_get(&self, k: Seq<char>) -> Option<V> {
        row_value(self.rows(), k)
    }

    /// True when the map knows the key.
    pub open spec fn spec_contains_key(&self, k: Seq<char>) -> bool {
        has_row(self.rows(), k)
    }

    /// The keys in iteration order.
    pub open spec fn keys_in_order(&self) -> Seq<Seq<char>> {
        Seq::new(self.rows().len(), |i: int| self.rows()[i].0@)
    }

    /// An empty map.
    pub fn new() -> (r: Self)
        ensures
            r.wf(),
            r.spec_len() == 0,
    {
        FrontInsertMap { entries: Vec::new() }
    }

    /// An empty map with room for `capacity` rows.
    pub fn with_capacity(capacity: usize) -> (r: Self)
        ensures
            r.wf(),
            r.spec_len() == 0,
    {
        FrontInsertMap { entries: Vec::with_capacity(capacity) }
    }

    /// Number of entries.
    pub fn len(&self) -> (r: usize)
        ensures
            r == self.spec_len(),
    {
        self.entries.len()
    }

    /// True when the map holds nothing.
    pub fn is_empty(&self) -> (r: bool)
        ensures
            r == (self.spec_len() == 0),
    {
        self.entries.len() == 0
    }

    /// The index of the row carrying `key`, if any.
    fn find_index(&self, key: &UniqueId) -> (r: Option<usize>)
        ensures
            match r {
                Some(i) => i < self.rows().len() && self.rows()[i as int].0@ == key@,
                None => !self.spec_contains_key(key@),
            },
    {
        let n = self.entries.len();
        for i in 0..n
            invariant
                n == self.entries.len(),
                forall|j: int| 0 <= j < i ==> self.rows()[j].0@ != key@,
        {
            if self.entries[i].0 == *key {
                return Some(i);
            }
        }
        None
    }

    /// Replaces the value of a present key in place, keeping its
    /// position; returns the prior value.
    fn replace_at(&mut self, i: usize, key: UniqueId, value: V) -> (r: V)
        requires
            old(self).wf(),
            i < old(self).rows().len(),
            old(self).rows()[i as int].0@ == key@,
        ensures
            final(self).wf(),
            r == old(self).spec_get(key@)->Some_0,
            final(self).spec_get(key@) == Some(value),
            forall|k2: Seq<char>| k2 != key@ ==> final(self).spec_get(k2) == old(self).spec_get(k2),
            final(self).keys_in_order() =~= old(self).keys_in_order(),
            final(self).spec_len() == old(self).spec_len(),
    {
        let ghost rows0 = self.rows();
        proof {
            lemma_row_value_at(rows0, i as int);
        }
        let (_k0, old_value) = self.entries.remove(i);
        proof {
            lemma_row_value_remove(rows0, i as int, key@);
        }
        let ghost rows1 = self.rows();
        proof {
            assert(!has_row(rows1, key@)) by {
                lemma_row_value_some(rows1, key@);
            }
        }
        self.entries.insert(i, (key, value));
        proof {
            let e = (key, value);
            assert forall|k2: Seq<char>| true implies row_value(self.rows(), k2)
                == (if e.0@ == k2 { Some(e.1) } else { row_value(rows1, k2) }) by {
                lemma_row_value_insert(rows1, i as int, e, k2);
            }
            assert forall|k2: Seq<char>| k2 != key@ implies row_value(rows1, k2)
                == row_value(rows0, k2) by {
                lemma_row_value_remove(rows0, i as int, k2);
            }
        }
        old_value
    }

    /// Inserts at a given position when the key is fresh.
    fn insert_fresh_at(&mut self, p: usize, key: UniqueId, value: V)
        requires
            old(self).wf(),
            !old(self).spec_contains_key(key@),
            p <= old(self).rows().len(),
        ensures
            final(self).wf(),
            final(self).spec_get(key@) == Some(value),
            forall|k2: Seq<char>| k2 != key@ ==> final(self).spec_get(k2) == old(self).spec_get(k2),
            final(self).rows() == old(self).rows().insert(p as int, (key, value)),
            final(self).spec_len() == old(self).spec_len() + 1,
    {
        let ghost rows0 = self.rows();
        self.entries.insert(p, (key, value));
        proof {
            let e = (key, value);
            assert forall|k2: Seq<char>| true implies row_value(self.rows(), k2)
                == (if e.0@ == k2 { Some(e.1) } else { row_value(rows0, k2) }) by {
                lemma_row_value_insert(rows0, p as int, e, k2);
            }
        }
    }

    /// Inserts at the front: a fresh key becomes the first row; a present
    /// key keeps its position and only its value is replaced, which is
    /// returned.
    pub fn insert_front(&mut self, key: UniqueId, value: V) -> (r: Option<V>)
        requires
            old(self).wf(),
        ensures
            final(self).wf(),
            final(self).spec_get(key@) == Some(value),
            forall|k2: Seq<char>| k2 != key@ ==> final(self).spec_get(k2) == old(self).spec_get(k2),
            match r {
                Some(prior) => old(self).spec_contains_key(key@)
                    && prior == old(self).spec_get(key@)->Some_0
                    && final(self).keys_in_order() =~= old(self).keys_in_order(),
                None => !old(self).spec_contains_key(key@)
                    && final(self).rows() == old(self).rows().insert(0, (key, value)),
            },
    {
        match self.find_index(&key) {
            Some(i) => {
                proof {
                    lemma_row_value_at(self.rows(), i as int);
                }
                Some(self.replace_at(i, key, value))
            },
            None => {
                self.insert_fresh_at(0, key, value);
                None
            },
        }
    }

    /// Inserts at the back: a fresh key becomes the last row; a present
    /// key keeps its position and only its value is replaced, which is
    /// returned.
    pub fn insert(&mut self, key: UniqueId, value: V) -> (r: Option<V>)
        requires
            old(self).wf(),
        ensures
            final(self).wf(),
            final(self).spec_get(key@) == Some(value),
            forall|k2: Seq<char>| k2 != key@ ==> final(self).spec_get(k2) == old(self).spec_get(k2),
            match r {
                Some(prior) => old(self).spec_contains_key(key@)
                    && prior == old(self).spec_get(key@)->Some_0
                    && final(self).keys_in_order() =~= old(self).keys_in_order(),
                None => !old(self).spec_contains_key(key@)
                    && final(self).rows() == old(self).rows().push((key, value)),
            },
    {
        match self.find_index(&key) {
            Some(i) => {
                proof {
                    lemma_row_value_at(self.rows(), i as int);
                }
                Some(self.replace_at(i, key, value))
            },
            None => {
                let n = self.entries.len();
                let ghost rows0 = self.rows();
                self.insert_fresh_at(n, key, value);
                proof {
                    assert(rows0.insert(n as int, (key, value)) =~= rows0.push((key, value)));
                }
                None
            },
        }
    }

    /// Looks a value up by key.
    pub fn get(&self, key: &UniqueId) -> (r: Option<&V>)
        requires
            self.wf(),
        ensures
            match r {
                Some(v) => self.spec_get(key@) is Some && *v == self.spec_get(key@)->Some_0,
                None => !self.spec_contains_key(key@),
            },
    {
        match self.find_index(key) {
            Some(i) => {
                proof {
                    lemma_row_value_at(self.rows(), i as int);
                }
                Some(&self.entries[i].1)
            },
            None => None,
        }
    }

    /// Mutable access to a present key's value. The borrow lets the
    /// caller rewrite the value in place; the keys and their order are
    /// untouched, but facts about the map must be re-established by the
    /// caller once the borrow ends.
    pub fn get_mut(&mut self, key: &UniqueId) -> (r: Option<&mut V>)
        requires
            old(self).wf(),
        ensures
            r is Some <==> old(self).spec_contains_key(key@),
    {
        match self.find_index(key) {
            Some(i) => Some(&mut self.entries[i].1),
            None => None,
        }
    }

    /// True when the map knows the key.
    pub fn contains_key(&self, key: &UniqueId) -> (r: bool)
        requires
            self.wf(),
        ensures
            r == self.spec_contains_key(key@),
    {
        match self.find_index(key) {
            Some(i) => {
                proof {
                    lemma_row_value_at(self.rows(), i as int);
                    lemma_row_value_some(self.rows(), key@);
                }
                true
            },
            None => false,
        }
    }

    /// Removes a key and returns its value; iteration order of the rest
    /// is kept.
    pub fn remove(&mut self, key: &UniqueId) -> (r: Option<V>)
        requires
            old(self).wf(),
        ensures
            final(self).wf(),
            !final(self).spec_contains_key(key@),
            match r {
                Some(v) => old(self).spec_get(key@) == Some(v)
                    && final(self).spec_len() == old(self).spec_len() - 1
                    // the remaining rows keep their relative order
                    && exists|i: int| 0 <= i < old(self).rows().len()
                        && old(self).rows()[i].0@ == key@
                        && final(self).rows() == #[trigger] old(self).rows().remove(i),
                None => !old(self).spec_contains_key(key@)
                    && final(self).rows() == old(self).rows(),
            },
            forall|k2: Seq<char>| k2 != key@ ==> final(self).spec_get(k2) == old(self).spec_get(k2),
    {
        let ghost rows0 = self.rows();
        match self.find_index(key) {
            None => {
                proof {
                    lemma_row_value_some(rows0, key@);
                }
                None
            },
            Some(i) => {
                proof {
                    lemma_row_value_at(rows0, i as int);
                }
                let (_k0, value) = self.entries.remove(i);
                proof {
                    assert forall|k2: Seq<char>| true implies row_value(self.rows(), k2)
                        == (if rows0[i as int].0@ == k2 { None::<V> } else {
                            row_value(rows0, k2)
                        }) by {
                        lemma_row_value_remove(rows0, i as int, k2);
                    }
                    lemma_row_value_some(self.rows(), key@);
                    assert(self.rows() == rows0.remove(i as int));
                }
                Some(value)
            },
        }
    }

    /// The rows in iteration order, front to back.
    pub fn iter(&self) -> (r: Vec<(&UniqueId, &V)>)
        ensures
            r@.len() == self.spec_len(),
            forall|i: int| 0 <= i < r@.len() ==> *(#[trigger] r@[i]).0 == self.rows()[i].0
                && *r@[i].1 == self.rows()[i].1,
    {
        let n = self.entries.len();
        let mut r: Vec<(&UniqueId, &V)> = Vec::new();
        for i in 0..n
            invariant
                n == self.entries.len(),
                r@.len() == i,
                forall|j: int| 0 <= j < i ==> *(#[trigger] r@[j]).0 == self.rows()[j].0
                    && *r@[j].1 == self.rows()[j].1,
        {
            r.push((&self.entries[i].0, &self.entries[i].1));
        }
        r
    }

    /// The keys in iteration order.
    pub fn keys(&self) -> (r: Vec<&UniqueId>)
        ensures
            r@.len() == self.spec_len(),
            forall|i: int| 0 <= i < r@.len() ==> *(#[trigger] r@[i]) == self.rows()[i].0,
    {
        let n = self.entries.len();
        let mut r: Vec<&UniqueId> = Vec::new();
        for i in 0..n
            invariant
                n == self.entries.len(),
                r@.len() == i,
                forall|j: int| 0 <= j < i ==> *(#[trigger] r@[j]) == self.rows()[j].0,
        {
            r.push(&self.entries[i].0);
        }
        r
    }

    /// The values in iteration order.
    pub fn values(&self) -> (r: Vec<&V>)
        ensures
            r@.len() == self.spec_len(),
            forall|i: int| 0 <= i < r@.len() ==> *(#[trigger] r@[i]) == self.rows()[i].1,
    {
        let n = self.entries.len();
        let mut r: Vec<&V> = Vec::new();
        for i in 0..n
            invariant
                n == self.entries.len(),
                r@.len() == i,
                forall|j: int| 0 <= j < i ==> *(#[trigger] r@[j]) == self.rows()[j].1,
        {
            r.push(&self.entries[i].1);
        }
        r
    }
}

} // verus!
