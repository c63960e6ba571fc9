//! Spec-level model of a sequence of rows keyed by a [`UniqueId`].
//!
//! Both keyed containers of this crate store their rows in a vector and
//! derive a lookup view from it. This module defines that view — which
//! row a key maps to — and proves how it evolves under the vector
//! operations the containers use (push, insert, remove, replace).

use vstd::prelude::*;

use crate::unique_id::UniqueId;

verus! {

/// True when no two rows share a key.
pub open spec fn distinct_keys<V>(s: Seq<(UniqueId, V)>) -> bool {
    forall|i: int, j: int| 0 <= i < j < s.len() ==> s[i].0@ != s[j].0@
}

/// True when some row carries key `k`.
pub open spec fn has_row<V>(s: Seq<(UniqueId, V)>, k: Seq<char>) -> bool {
    exists|i: int| 0 <= i < s.len() && s[i].0@ == k
}

/// The value of the first row carrying key `k`, if any. Under
/// [`distinct_keys`] this is the value of the one row with that key.
pub open spec fn row_value<V>(s: Seq<(UniqueId, V)>, k: Seq<char>) -> Option<V>
    decreases s.len(),
{
    if s.len() == 0 {
        None
    } else if s[0].0@ == k {
        Some(s[0].1)
    } else {
        row_value(s.drop_first(), k)
    }
}

/// A key maps to a value exactly when a row carries it.
pub broadcast proof fn lemma_row_value_some<V>(s: Seq<(UniqueId, V)>, k: Seq<char>)
    ensures
        (#[trigger] row_value(s, k)) is Some <==> has_row(s, k),
    decreases s.len(),
{
    if s.len() == 0 {
    } else if s[0].0@ == k {
    } else {
        lemma_row_value_some(s.drop_first(), k);
        if has_row(s.drop_first(), k) {
            let i = choose|i: int| 0 <= i < s.drop_first().len() && s.drop_first()[i].0@ == k;
            assert(s[i + 1].0@ == k);
        }
        if has_row(s, k) {
            let i = choose|i: int| 0 <= i < s.len() && s[i].0@ == k;
            assert(i > 0);
            assert(s.drop_first()[i - 1].0@ == k);
        }
    }
}

/// The same bridge, triggered from the membership side.
pub broadcast proof fn lemma_has_row_value<V>(s: Seq<(UniqueId, V)>, k: Seq<char>)
    ensures
        #[trigger] has_row(s, k) <==> row_value(s, k) is Some,
{
    lemma_row_value_some(s, k);
}

/// Under distinct keys, the row at index `i` is the row its key maps to.
pub proof fn lemma_row_value_at<V>(s: Seq<(UniqueId, V)>, i: int)
    requires
        distinct_keys(s),
        0 <= i < s.len(),
    ensures
        row_value(s, s[i].0@) == Some(s[i].1),
    decreases s.len(),
{
    if i == 0 {
    } else {
        assert(s[0].0@ != s[i].0@);
        lemma_distinct_drop_first(s);
        assert(s.drop_first()[i - 1] == s[i]);
        lemma_row_value_at(s.drop_first(), i - 1);
    }
}

/// A sequence whose rows all miss key `k` maps `k` to nothing.
pub proof fn lemma_row_value_none<V>(s: Seq<(UniqueId, V)>, k: Seq<char>)
    requires
        forall|i: int| 0 <= i < s.len() ==> s[i].0@ != k,
    ensures
        row_value(s, k) is None,
{
    lemma_row_value_some(s, k);
}

/// Dropping the first row keeps the keys distinct.
pub proof fn lemma_distinct_drop_first<V>(s: Seq<(UniqueId, V)>)
    requires
        distinct_keys(s),
        s.len() > 0,
    ensures
        distinct_keys(s.drop_first()),
{
    assert forall|p: int, q: int|
        0 <= p < q < s.drop_first().len() implies s.drop_first()[p].0@ != s.drop_first()[q].0@ by {
        assert(s.drop_first()[p] == s[p + 1]);
        assert(s.drop_first()[q] == s[q + 1]);
    }
}

/// How the lookup view changes when the row at index `i` is removed.
pub proof fn lemma_row_value_remove<V>(s: Seq<(UniqueId, V)>, i: int, k: Seq<char>)
    requires
        distinct_keys(s),
        0 <= i < s.len(),
    ensures
        distinct_keys(s.remove(i)),
        row_value(s.remove(i), k) == if s[i].0@ == k {
            None::<V>
        } else {
            row_value(s, k)
        },
    decreases s.len(),
{
    assert forall|p: int, q: int|
        0 <= p < q < s.remove(i).len() implies s.remove(i)[p].0@ != s.remove(i)[q].0@ by {
        let p0: int = if p < i { p } else { p + 1 };
        let q0: int = if q < i { q } else { q + 1 };
        assert(s.remove(i)[p] == s[p0]);
        assert(s.remove(i)[q] == s[q0]);
    }
    if i == 0 {
        assert(s.remove(0) =~= s.drop_first());
        if s[0].0@ == k {
            lemma_distinct_drop_first(s);
            assert(forall|j: int| 0 <= j < s.drop_first().len() ==> s.drop_first()[j] == s[j + 1]);
            lemma_row_value_none(s.drop_first(), k);
        }
    } else {
        assert(s.remove(i)[0] == s[0]);
        if s[0].0@ == k {
        } else {
            lemma_distinct_drop_first(s);
            assert(s.remove(i).drop_first() =~= s.drop_first().remove(i - 1));
            assert(s.drop_first()[i - 1] == s[i]);
            lemma_row_value_remove(s.drop_first(), i - 1, k);
        }
    }
}

/// How the lookup view changes when a fresh row is inserted at index `p`.
pub proof fn lemma_row_value_insert<V>(s: Seq<(UniqueId, V)>, p: int, e: (UniqueId, V), k: Seq<char>)
    requires
        distinct_keys(s),
        !has_row(s, e.0@),
        0 <= p <= s.len(),
    ensures
        distinct_keys(s.insert(p, e)),
        row_value(s.insert(p, e), k) == if e.0@ == k {
            Some(e.1)
        } else {
            row_value(s, k)
        },
    decreases s.len(),
{
    assert forall|j: int| 0 <= j < s.len() implies s[j].0@ != e.0@ by {
        if s[j].0@ == e.0@ {
            assert(has_row(s, e.0@));
        }
    }
    assert forall|p2: int, q2: int|
        0 <= p2 < q2 < s.insert(p, e).len() implies s.insert(p, e)[p2].0@ != s.insert(p, e)[q2].0@ by {
        let pv = if p2 < p { s[p2] } else if p2 == p { e } else { s[p2 - 1] };
        let qv = if q2 < p { s[q2] } else if q2 == p { e } else { s[q2 - 1] };
        assert(s.insert(p, e)[p2] == pv);
        assert(s.insert(p, e)[q2] == qv);
    }
    if p == 0 {
        assert(s.insert(0, e)[0] == e);
        assert(s.insert(0, e).drop_first() =~= s);
        if e.0@ == k {
        }
    } else {
        assert(s.insert(p, e)[0] == s[0]);
        if s[0].0@ == k {
            assert(e.0@ != k);
        } else {
            lemma_distinct_drop_first(s);
            assert(!has_row(s.drop_first(), e.0@)) by {
                if has_row(s.drop_first(), e.0@) {
                    let i = choose|i: int|
                        0 <= i < s.drop_first().len() && s.drop_first()[i].0@ == e.0@;
                    assert(s[i + 1].0@ == e.0@);
                }
            }
            assert(s.insert(p, e).drop_first() =~= s.drop_first().insert(p - 1, e));
            lemma_row_value_insert(s.drop_first(), p - 1, e, k);
        }
    }
}

} // verus!
