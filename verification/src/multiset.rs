//! An ordered multiset of values: each value with the number of times it
//! occurs, ordered by value, so that the least and the greatest value can
//! be read after any removal.

use std::collections::BTreeMap;
use vstd::multiset::Multiset;
use vstd::prelude::*;

verus! {

/// An ordered multiset of 64-bit values with multiplicity.
#[derive(Debug, PartialEq, Eq)]
pub struct OrderedMultiset {
    counts: BTreeMap<i64, usize>,
    len: usize,
}

/// The multiset that a map from values to positive multiplicities stands
/// for.
spec fn counted(counts: Map<i64, usize>) -> Multiset<i64> {
    Multiset::from_map(Map::new(|v: i64| counts.contains_key(v), |v: i64| counts[v] as nat))
}

/// How often a value occurs in [`counted`]: as often as the map says, and
/// not at all where the map has no entry.
proof fn lemma_counted(counts: Map<i64, usize>, v: i64)
    requires
        counts.dom().finite(),
    ensures
        counted(counts).count(v) == if counts.contains_key(v) {
            counts[v] as nat
        } else {
            0
        },
{
    let m = Map::new(|v: i64| counts.contains_key(v), |v: i64| counts[v] as nat);
    assert(m.dom() =~= counts.dom());
}

/// The least value of a multiset, `None` for the empty multiset.
pub open spec fn least(values: Multiset<i64>) -> Option<i64> {
    if values.len() == 0 {
        None
    } else {
        Some(choose|v: i64| values.contains(v) && forall|w: i64| values.contains(w) ==> v <= w)
    }
}

/// The greatest value of a multiset, `None` for the empty multiset.
pub open spec fn greatest(values: Multiset<i64>) -> Option<i64> {
    if values.len() == 0 {
        None
    } else {
        Some(choose|v: i64| values.contains(v) && forall|w: i64| values.contains(w) ==> v >= w)
    }
}

/// What [`least`] says: the least value is held, and no held value is less.
pub proof fn lemma_least(values: Multiset<i64>)
    ensures
        match least(values) {
            Some(v) => values.contains(v) && forall|w: i64| values.contains(w) ==> v <= w,
            None => values.len() == 0,
        },
    decreases values.len(),
{
    if values.len() > 0 {
        let x = values.choose();
        let rest = values.remove(x);
        lemma_least(rest);
        let v = match least(rest) {
            Some(r) => if r <= x {
                r
            } else {
                x
            },
            None => x,
        };
        assert forall|w: i64| values.contains(w) implies v <= w by {
            if w != x {
                assert(rest.contains(w));
            }
        }
        assert(values.contains(v));
    }
}

/// What [`greatest`] says: the greatest value is held, and no held value is
/// greater.
pub proof fn lemma_greatest(values: Multiset<i64>)
    ensures
        match greatest(values) {
            Some(v) => values.contains(v) && forall|w: i64| values.contains(w) ==> v >= w,
            None => values.len() == 0,
        },
    decreases values.len(),
{
    if values.len() > 0 {
        let x = values.choose();
        let rest = values.remove(x);
        lemma_greatest(rest);
        let v = match greatest(rest) {
            Some(r) => if r >= x {
                r
            } else {
                x
            },
            None => x,
        };
        assert forall|w: i64| values.contains(w) implies v >= w by {
            if w != x {
                assert(rest.contains(w));
            }
        }
        assert(values.contains(v));
    }
}

/// The least value after one more value is held: the lesser of the two.
pub proof fn lemma_least_insert(values: Multiset<i64>, value: i64)
    ensures
        least(values.insert(value)) == match least(values) {
            Some(v) => Some(
                if v <= value {
                    v
                } else {
                    value
                },
            ),
            None => Some(value),
        },
{
    lemma_least(values);
    lemma_least(values.insert(value));
    let after = least(values.insert(value))->0;
    assert(values.insert(value).contains(value));
    match least(values) {
        Some(v) => {
            assert(values.insert(value).contains(v));
            assert(after == value || values.contains(after));
        },
        None => {
            assert(values =~= Multiset::empty());
            assert(after == value || values.contains(after));
        },
    }
}

/// The greatest value after one more value is held: the greater of the two.
pub proof fn lemma_greatest_insert(values: Multiset<i64>, value: i64)
    ensures
        greatest(values.insert(value)) == match greatest(values) {
            Some(v) => Some(
                if v >= value {
                    v
                } else {
                    value
                },
            ),
            None => Some(value),
        },
{
    lemma_greatest(values);
    lemma_greatest(values.insert(value));
    let after = greatest(values.insert(value))->0;
    assert(values.insert(value).contains(value));
    match greatest(values) {
        Some(v) => {
            assert(values.insert(value).contains(v));
            assert(after == value || values.contains(after));
        },
        None => {
            assert(values =~= Multiset::empty());
            assert(after == value || values.contains(after));
        },
    }
}

/// Calls `BTreeMap::first_key_value` and copies the key out. Trusted, from
/// the standard library's documentation: the result is the minimum key of
/// the map, and `None` exactly when the map is empty.
#[verifier::external_body]
fn first_key(counts: &BTreeMap<i64, usize>) -> (r: Option<i64>)
    ensures
        match r {
            Some(k) => counts@.contains_key(k) && forall|w: i64|
                counts@.contains_key(w) ==> k <= w,
            None => counts@ == Map::<i64, usize>::empty(),
        },
{
    match counts.first_key_value() {
        Some((key, _)) => Some(*key),
        None => None,
    }
}

/// Calls `BTreeMap::last_key_value` and copies the key out. Trusted, from
/// the standard library's documentation: the result is the maximum key of
/// the map, and `None` exactly when the map is empty.
#[verifier::external_body]
fn last_key(counts: &BTreeMap<i64, usize>) -> (r: Option<i64>)
    ensures
        match r {
            Some(k) => counts@.contains_key(k) && forall|w: i64|
                counts@.contains_key(w) ==> k >= w,
            None => counts@ == Map::<i64, usize>::empty(),
        },
{
    match counts.last_key_value() {
        Some((key, _)) => Some(*key),
        None => None,
    }
}

impl View for OrderedMultiset {
    type V = Multiset<i64>;

    closed spec fn view(&self) -> Multiset<i64> {
        counted(self.counts@)
    }
}

impl Clone for OrderedMultiset {
    fn clone(&self) -> (r: Self)
        ensures
            r@ == self@,
    {
        proof {
            use_type_invariant(self);
        }
        OrderedMultiset { counts: self.counts.clone(), len: self.len }
    }
}

impl OrderedMultiset {
    /// Every value that is held occurs at least once, and `len` is the
    /// number of occurrences in all.
    #[verifier::type_invariant]
    spec fn inv(&self) -> bool {
        &&& forall|v: i64| self.counts@.contains_key(v) ==> self.counts@[v] >= 1
        &&& self.len == counted(self.counts@).len()
    }

    /// The empty multiset.
    pub fn new() -> (r: Self)
        ensures
            r@ == Multiset::<i64>::empty(),
    {
        let counts: BTreeMap<i64, usize> = BTreeMap::new();
        proof {
            assert forall|v: i64| counted(counts@).count(v) == 0 by {
                lemma_counted(counts@, v);
            }
            assert(counted(counts@) =~= Multiset::<i64>::empty());
        }
        OrderedMultiset { counts, len: 0 }
    }

    /// The number of occurrences held, of all values together.
    pub fn len(&self) -> (r: usize)
        ensures
            r == self@.len(),
    {
        proof {
            use_type_invariant(self);
        }
        self.len
    }

    /// Adds one occurrence of `value`.
    pub fn insert(self, value: i64) -> (r: Self)
        requires
            self@.len() < usize::MAX,
        ensures
            r@ == self@.insert(value),
    {
        proof {
            use_type_invariant(&self);
            lemma_counted(self.counts@, value);
        }
        let ghost before = self.counts@;
        let OrderedMultiset { mut counts, len } = self;
        let count: usize = match counts.get(&value) {
            Some(count) => *count,
            None => 0,
        };
        counts.insert(value, count + 1);
        proof {
            assert forall|v: i64|
                counted(counts@).count(v) == counted(before).insert(value).count(v) by {
                lemma_counted(before, v);
                lemma_counted(counts@, v);
            }
            assert(counted(counts@) =~= counted(before).insert(value));
        }
        OrderedMultiset { counts, len: len + 1 }
    }

    /// Removes one occurrence of `value`; the entry goes when its last
    /// occurrence does. A value that does not occur leaves the multiset as
    /// it is.
    pub fn remove(self, value: i64) -> (r: Self)
        ensures
            r@ == self@.remove(value),
    {
        proof {
            use_type_invariant(&self);
            lemma_counted(self.counts@, value);
        }
        let ghost before = self.counts@;
        let OrderedMultiset { mut counts, len } = self;
        let count: usize = match counts.get(&value) {
            Some(count) => *count,
            None => 0,
        };
        if count > 1 {
            counts.insert(value, count - 1);
        } else if count == 1 {
            counts.remove(&value);
        }
        proof {
            assert forall|v: i64|
                counted(counts@).count(v) == counted(before).remove(value).count(v) by {
                lemma_counted(before, v);
                lemma_counted(counts@, v);
            }
            assert(counted(counts@) =~= counted(before).remove(value));
        }
        let len = if count >= 1 {
            len - 1
        } else {
            len
        };
        OrderedMultiset { counts, len }
    }

    /// The least value held, `None` when nothing is held.
    pub fn min(&self) -> (r: Option<i64>)
        ensures
            r == least(self@),
    {
        let r = first_key(&self.counts);
        proof {
            use_type_invariant(self);
            assert forall|v: i64| self@.contains(v) == self.counts@.contains_key(v) by {
                lemma_counted(self.counts@, v);
            }
            match r {
                Some(k) => {
                    assert(self@.contains(k));
                    assert(self@.len() != 0);
                    let c = least(self@)->0;
                    assert(self@.contains(c) && forall|w: i64| self@.contains(w) ==> c <= w);
                },
                None => {
                    assert forall|v: i64| self@.count(v) == 0 by {
                        lemma_counted(self.counts@, v);
                    }
                    assert(self@ =~= Multiset::<i64>::empty());
                },
            }
        }
        r
    }

    /// The greatest value held, `None` when nothing is held.
    pub fn max(&self) -> (r: Option<i64>)
        ensures
            r == greatest(self@),
    {
        let r = last_key(&self.counts);
        proof {
            use_type_invariant(self);
            assert forall|v: i64| self@.contains(v) == self.counts@.contains_key(v) by {
                lemma_counted(self.counts@, v);
            }
            match r {
                Some(k) => {
                    assert(self@.contains(k));
                    assert(self@.len() != 0);
                    let c = greatest(self@)->0;
                    assert(self@.contains(c) && forall|w: i64| self@.contains(w) ==> c >= w);
                },
                None => {
                    assert forall|v: i64| self@.count(v) == 0 by {
                        lemma_counted(self.counts@, v);
                    }
                    assert(self@ =~= Multiset::<i64>::empty());
                },
            }
        }
        r
    }

    /// How often `value` occurs.
    pub fn count(&self, value: i64) -> (r: usize)
        ensures
            r == self@.count(value),
    {
        proof {
            use_type_invariant(self);
            lemma_counted(self.counts@, value);
        }
        match self.counts.get(&value) {
            Some(count) => *count,
            None => 0,
        }
    }
}

} // verus!
