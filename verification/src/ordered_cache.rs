//! A dually-indexed map: identity-key lookup plus a total order over the
//! values by a separate, mutable order key.
//!
//! The map backs the "chats sorted by most-recent-activity" view. A key
//! maps to one value and one order key; iteration yields values by
//! non-increasing order key (front = most recent). The rows live in one
//! owning vector kept sorted; the lookup index ([`spec_get`]) and the
//! order index ([`key_order`], [`vals_in_order`]) are two views of it,
//! which [`lemma_index_agreement`] proves can never disagree.
//!
//! [`spec_get`]: GranularBTreeMap::spec_get
//! [`key_order`]: GranularBTreeMap::key_order
//! [`vals_in_order`]: GranularBTreeMap::vals_in_order

use vstd::prelude::*;
use vstd::seq_lib::*;

use crate::keyed::{distinct_keys, has_row, lemma_row_value_at, lemma_row_value_insert, lemma_row_value_remove, lemma_row_value_some, row_value};
use crate::unique_id::UniqueId;

verus! {

broadcast use crate::keyed::lemma_row_value_some, crate::keyed::lemma_has_row_value;

/// Why an order relocation failed.
#[derive(Debug, PartialEq, Eq, Structural)]
pub enum CacheError {
    /// The identity key is not present: a caller error.
    NotFound,
    /// The key was present but its order entry was missing: a defect
    /// signal. The well-formedness invariant rules it out here.
    Inconsistent,
}

/// True when the rows are ordered by non-increasing order key.
pub open spec fn sorted_by_order_desc<V>(s: Seq<(UniqueId, (u64, V))>) -> bool {
    forall|i: int, j: int| 0 <= i <= j < s.len() ==> s[i].1.0 >= s[j].1.0
}

/// The dual-index ordered map.
pub struct GranularBTreeMap<V> {
    entries: Vec<(UniqueId, (u64, V))>,
}

impl<V> GranularBTreeMap<V> {
    /// The rows in iteration order: (identity key, (order key, value)).
    pub closed spec fn rows(&self) -> Seq<(UniqueId, (u64, V))> {
        self.entries@
    }

    /// Well-formedness: identity keys are unique and rows are sorted by
    /// non-increasing order key. Every operation preserves it.
    pub open spec fn wf(&self) -> bool {
        distinct_keys(self.rows()) && sorted_by_order_desc(self.rows())
    }

    /// Number of rows.
    pub open spec fn spec_len(&self) -> nat {
        self.rows().len()
    }

    /// The lookup index: what a key maps to, order key included.
    pub open spec fn spec_get(&self, k: Seq<char>) -> Option<(u64, V)> {
        row_value(self.rows(), k)
    }

    /// True when the lookup index knows the key.
    pub open spec fn contains_key(&self, k: Seq<char>) -> bool {
        has_row(self.rows(), k)
    }

    /// The order index, as the keys in iteration order.
    pub open spec fn key_order(&self) -> Seq<Seq<char>> {
        Seq::new(self.rows().len(), |i: int| self.rows()[i].0@)
    }

    /// The order keys in iteration order.
    pub open spec fn orders_in_order(&self) -> Seq<u64> {
        Seq::new(self.rows().len(), |i: int| self.rows()[i].1.0)
    }

    /// The values in iteration order.
    pub open spec fn vals_in_order(&self) -> Seq<V> {
        Seq::new(self.rows().len(), |i: int| self.rows()[i].1.1)
    }

    /// An empty map.
    pub fn new() -> (r: Self)
        ensures
            r.wf(),
            r.spec_len() == 0,
    {
        GranularBTreeMap { entries: Vec::new() }
    }

    /// The index of the row carrying `key`, if any.
    fn find_index(&self, key: &UniqueId) -> (r: Option<usize>)
        ensures
            match r {
                Some(i) => i < self.rows().len() && self.rows()[i as int].0@ == key@,
                None => !self.contains_key(key@),
            },
    {
        let n = self.entries.len();
        for i in 0..n
            invariant
                n == self.entries.len(),
                forall|j: int| 0 <= j < i ==> self.rows()[j].0@ != key@,
        {
            if self.entries[i].0 == *key {
                return Some(i);
            }
        }
        None
    }

    /// The position where a row with order key `order_key` belongs:
    /// before every strictly smaller order key, after every larger one.
    fn find_insert_position(&self, order_key: u64) -> (p: usize)
        requires
            sorted_by_order_desc(self.rows()),
        ensures
            p <= self.rows().len(),
            forall|j: int| 0 <= j < p ==> self.rows()[j].1.0 > order_key,
            forall|j: int| p <= j < self.rows().len() ==> self.rows()[j].1.0 <= order_key,
    {
        let n = self.entries.len();
        let mut p: usize = 0;
        while p < n
            invariant
                n == self.entries.len(),
                p <= n,
                sorted_by_order_desc(self.rows()),
                forall|j: int| 0 <= j < p ==> self.rows()[j].1.0 > order_key,
            decreases n - p,
        {
            if self.entries[p].1.0 <= order_key {
                return p;
            }
            p = p + 1;
        }
        p
    }

    /// Inserts a value under an identity key with the given order key.
    /// Any existing row for the key — lookup entry and order entry both —
    /// is replaced, so a key never has two order positions.
    pub fn insert(&mut self, key: UniqueId, value: V, order_key: u64)
        requires
            old(self).wf(),
        ensures
            final(self).wf(),
            final(self).spec_get(key@) == Some((order_key, value)),
            forall|k2: Seq<char>| k2 != key@ ==> final(self).spec_get(k2) == old(self).spec_get(k2),
            final(self).spec_len() == old(self).spec_len()
                + (if old(self).contains_key(key@) { 0int } else { 1int }),
    {
        let ghost rows0 = self.rows();
        if let Some(i) = self.find_index(&key) {
            proof {
                lemma_row_value_remove(rows0, i as int, key@);
            }
            self.entries.remove(i);
            proof {
                assert forall|k2: Seq<char>| true implies row_value(self.rows(), k2)
                    == (if rows0[i as int].0@ == k2 { None::<(u64, V)> } else { row_value(rows0, k2) }) by {
                    lemma_row_value_remove(rows0, i as int, k2);
                }
                lemma_row_value_at(rows0, i as int);
            }
        }
        let ghost rows1 = self.rows();
        proof {
            assert(!has_row(rows1, key@)) by {
                lemma_row_value_some(rows1, key@);
            }
            assert(sorted_by_order_desc(rows1));
        }
        let p = self.find_insert_position(order_key);
        self.entries.insert(p, (key, (order_key, value)));
        proof {
            let e = (key, (order_key, value));
            assert forall|k2: Seq<char>| true implies row_value(self.rows(), k2)
                == (if e.0@ == k2 { Some(e.1) } else { row_value(rows1, k2) }) by {
                lemma_row_value_insert(rows1, p as int, e, k2);
            }
            lemma_row_value_insert(rows1, p as int, e, key@);
            assert forall|i2: int, j2: int|
                0 <= i2 <= j2 < self.rows().len() implies self.rows()[i2].1.0 >= self.rows()[j2].1.0 by {
                let iv = if i2 < p { rows1[i2] } else if i2 == p { e } else { rows1[i2 - 1] };
                let jv = if j2 < p { rows1[j2] } else if j2 == p { e } else { rows1[j2 - 1] };
                assert(self.rows()[i2] == iv);
                assert(self.rows()[j2] == jv);
            }
            if has_row(rows0, key@) {
                lemma_row_value_some(rows0, key@);
            } else {
                lemma_row_value_some(rows0, key@);
            }
        }
    }

    /// Atomically relocates the value of `key` to a new order position.
    /// Fails with [`CacheError::NotFound`] on an absent key and then
    /// changes nothing; [`CacheError::Inconsistent`] cannot occur while
    /// the invariant holds.
    pub fn update_order_for_key(&mut self, key: &UniqueId, new_order_key: u64) -> (r: Result<
        (),
        CacheError,
    >)
        requires
            old(self).wf(),
        ensures
            final(self).wf(),
            r is Ok <==> old(self).contains_key(key@),
            r is Err ==> r == Err::<(), CacheError>(CacheError::NotFound)
                && final(self).rows() == old(self).rows(),
            r is Ok ==> final(self).spec_get(key@)
                == Some((new_order_key, old(self).spec_get(key@)->Some_0.1)),
            forall|k2: Seq<char>| k2 != key@ ==> final(self).spec_get(k2) == old(self).spec_get(k2),
            final(self).spec_len() == old(self).spec_len(),
    {
        let ghost rows0 = self.rows();
        match self.find_index(key) {
            None => {
                proof {
                    lemma_row_value_some(rows0, key@);
                }
                Err(CacheError::NotFound)
            },
            Some(i) => {
                proof {
                    lemma_row_value_at(rows0, i as int);
                }
                let (k0, (_old_order, value)) = self.entries.remove(i);
                proof {
                    assert forall|k2: Seq<char>| true implies row_value(self.rows(), k2)
                        == (if rows0[i as int].0@ == k2 { None::<(u64, V)> } else {
                            row_value(rows0, k2)
                        }) by {
                        lemma_row_value_remove(rows0, i as int, k2);
                    }
                    lemma_row_value_remove(rows0, i as int, key@);
                }
                let ghost rows1 = self.rows();
                proof {
                    assert(!has_row(rows1, k0@)) by {
                        lemma_row_value_some(rows1, k0@);
                    }
                }
                let p = self.find_insert_position(new_order_key);
                self.entries.insert(p, (k0, (new_order_key, value)));
                proof {
                    let e = (k0, (new_order_key, value));
                    assert forall|k2: Seq<char>| true implies row_value(self.rows(), k2)
                        == (if e.0@ == k2 { Some(e.1) } else { row_value(rows1, k2) }) by {
                        lemma_row_value_insert(rows1, p as int, e, k2);
                    }
                    assert forall|i2: int, j2: int|
                        0 <= i2 <= j2 < self.rows().len() implies self.rows()[i2].1.0
                        >= self.rows()[j2].1.0 by {
                        let iv = if i2 < p { rows1[i2] } else if i2 == p { e } else { rows1[i2 - 1] };
                        let jv = if j2 < p { rows1[j2] } else if j2 == p { e } else { rows1[j2 - 1] };
                        assert(self.rows()[i2] == iv);
                        assert(self.rows()[j2] == jv);
                    }
                }
                Ok(())
            },
        }
    }

    /// Looks a value up by identity key alone; the order index plays no
    /// part.
    pub fn get(&self, key: &UniqueId) -> (r: Option<&V>)
        requires
            self.wf(),
        ensures
            match r {
                Some(v) => self.spec_get(key@) is Some && *v == self.spec_get(key@)->Some_0.1,
                None => !self.contains_key(key@),
            },
    {
        match self.find_index(key) {
            Some(i) => {
                proof {
                    lemma_row_value_at(self.rows(), i as int);
                }
                Some(&self.entries[i].1.1)
            },
            None => None,
        }
    }

    /// Removes a key from both indices, returning its value.
    pub fn remove(&mut self, key: &UniqueId) -> (r: Option<V>)
        requires
            old(self).wf(),
        ensures
            final(self).wf(),
            !final(self).contains_key(key@),
            match r {
                Some(v) => old(self).spec_get(key@) is Some
                    && v == old(self).spec_get(key@)->Some_0.1
                    && final(self).spec_len() == old(self).spec_len() - 1
                    // the remaining rows keep their relative order
                    && exists|i: int| 0 <= i < old(self).rows().len()
                        && old(self).rows()[i].0@ == key@
                        && final(self).rows() == #[trigger] old(self).rows().remove(i),
                None => !old(self).contains_key(key@)
                    && final(self).rows() == old(self).rows(),
            },
            forall|k2: Seq<char>| k2 != key@ ==> final(self).spec_get(k2) == old(self).spec_get(k2),
    {
        let ghost rows0 = self.rows();
        match self.find_index(key) {
            None => {
                proof {
                    lemma_row_value_some(rows0, key@);
                }
                None
            },
            Some(i) => {
                proof {
                    lemma_row_value_at(rows0, i as int);
                }
                let (_k0, (_o, value)) = self.entries.remove(i);
                proof {
                    assert forall|k2: Seq<char>| true implies row_value(self.rows(), k2)
                        == (if rows0[i as int].0@ == k2 { None::<(u64, V)> } else {
                            row_value(rows0, k2)
                        }) by {
                        lemma_row_value_remove(rows0, i as int, k2);
                    }
                    lemma_row_value_some(self.rows(), key@);
                    assert(self.rows() == rows0.remove(i as int));
                }
                Some(value)
            },
        }
    }

    /// The values by non-increasing order key, front first. The result
    /// is aligned with [`Self::vals_in_order`]; with distinct order keys
    /// that pins the iteration order completely.
    pub fn values(&self) -> (r: Vec<&V>)
        requires
            self.wf(),
        ensures
            r@.len() == self.spec_len(),
            forall|i: int| 0 <= i < r@.len() ==> *(#[trigger] r@[i]) == self.vals_in_order()[i],
    {
        let n = self.entries.len();
        let mut r: Vec<&V> = Vec::new();
        for i in 0..n
            invariant
                n == self.entries.len(),
                r@.len() == i,
                forall|j: int| 0 <= j < i ==> *(#[trigger] r@[j]) == self.rows()[j].1.1,
        {
            r.push(&self.entries[i].1.1);
        }
        r
    }
}

/// The law of the two indices: in a well-formed map the lookup index and
/// the order index agree — every key the lookup knows occurs exactly once
/// in the order index, and the two have equal cardinality.
pub proof fn lemma_index_agreement<V>(m: &GranularBTreeMap<V>)
    requires
        m.wf(),
    ensures
        forall|k: Seq<char>| m.contains_key(k) <==> m.key_order().contains(k),
        m.key_order().no_duplicates(),
        m.key_order().to_set().len() == m.spec_len(),
{
    assert forall|k: Seq<char>| m.contains_key(k) implies m.key_order().contains(k) by {
        let i = choose|i: int| 0 <= i < m.rows().len() && m.rows()[i].0@ == k;
        assert(m.key_order()[i] == k);
    }
    assert forall|k: Seq<char>| m.key_order().contains(k) implies m.contains_key(k) by {
        let i = choose|i: int| 0 <= i < m.key_order().len() && m.key_order()[i] == k;
        assert(m.rows()[i].0@ == k);
    }
    assert(m.key_order().no_duplicates());
    m.key_order().unique_seq_to_set();
}

/// The law of the order index: iteration yields entries by non-increasing
/// order key.
pub proof fn lemma_values_sorted<V>(m: &GranularBTreeMap<V>)
    requires
        m.wf(),
    ensures
        forall|i: int, j: int|
            0 <= i <= j < m.spec_len() ==> m.orders_in_order()[i] >= m.orders_in_order()[j],
{
}

/// Each present key occupies one iteration position, and that position
/// carries exactly the key's most recently set order key and value —
/// the bridge between the lookup index and the order index.
pub proof fn lemma_key_position<V>(m: &GranularBTreeMap<V>, k: Seq<char>)
    requires
        m.wf(),
        m.contains_key(k),
    ensures
        exists|i: int| {
            &&& 0 <= i < m.spec_len()
            &&& #[trigger] m.key_order()[i] == k
            &&& m.orders_in_order()[i] == m.spec_get(k)->Some_0.0
            &&& m.vals_in_order()[i] == m.spec_get(k)->Some_0.1
        },
{
    let i = choose|i: int| 0 <= i < m.rows().len() && m.rows()[i].0@ == k;
    lemma_row_value_at(m.rows(), i);
    assert(m.key_order()[i] == k);
    assert(m.orders_in_order()[i] == m.spec_get(k)->Some_0.0);
    assert(m.vals_in_order()[i] == m.spec_get(k)->Some_0.1);
}

} // verus!
