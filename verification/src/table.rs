//! Tables as sequences of keyed rows, and the search for the row of a key.

use vstd::prelude::*;

verus! {

/// A row that is found by a key.
pub trait Keyed: Sized {
    /// The type of the key.
    type Key;

    /// The key of this row.
    spec fn key(&self) -> Self::Key;

    /// Whether this row has the key `key`.
    fn has_key(&self, key: &Self::Key) -> (hit: bool)
        ensures
            hit == (self.key() == *key),
    ;

    /// Whether this row and `other` have the same key.
    fn same_key(&self, other: &Self) -> (same: bool)
        ensures
            same == (self.key() == other.key()),
    ;
}

/// `i` is the least index of `rows` at which `wanted` holds.
pub open spec fn is_first<T>(rows: Seq<T>, wanted: spec_fn(T) -> bool, i: int) -> bool {
    &&& 0 <= i < rows.len()
    &&& wanted(rows[i])
    &&& forall|j: int| 0 <= j < i ==> !wanted(#[trigger] rows[j])
}

/// The least index of `rows` at which `wanted` holds, if there is one.
pub open spec fn first_index<T>(rows: Seq<T>, wanted: spec_fn(T) -> bool) -> Option<int> {
    if exists|i: int| is_first(rows, wanted, i) {
        Some(choose|i: int| is_first(rows, wanted, i))
    } else {
        None
    }
}

/// The first row of `rows` at which `wanted` holds, if there is one.
pub open spec fn first_where<T>(rows: Seq<T>, wanted: spec_fn(T) -> bool) -> Option<T> {
    match first_index(rows, wanted) {
        Some(i) => Some(rows[i]),
        None => None,
    }
}

/// The rows with the key `key`.
pub open spec fn with_key<T: Keyed>(key: T::Key) -> spec_fn(T) -> bool {
    |row: T| row.key() == key
}

/// The first row of `rows` with the key `key`: what a join on that key
/// matches.
pub open spec fn row_of<T: Keyed>(rows: Seq<T>, key: T::Key) -> Option<T> {
    first_where(rows, with_key::<T>(key))
}

/// No two rows of `rows` share a key.
pub open spec fn unique_keys<T: Keyed>(rows: Seq<T>) -> bool {
    forall|i: int, j: int|
        0 <= i < rows.len() && 0 <= j < rows.len() && i != j ==> (#[trigger] rows[i]).key() != (
        #[trigger] rows[j]).key()
}

/// Some row of `rows` has the key `key`.
pub open spec fn has_row<T: Keyed>(rows: Seq<T>, key: T::Key) -> bool {
    exists|i: int| 0 <= i < rows.len() && (#[trigger] rows[i]).key() == key
}

/// A least index is the first index.
pub proof fn lemma_first_found<T>(rows: Seq<T>, wanted: spec_fn(T) -> bool, i: int)
    requires
        is_first(rows, wanted, i),
    ensures
        first_index(rows, wanted) == Some(i),
        first_where(rows, wanted) == Some(rows[i]),
{
    let k = choose|k: int| is_first(rows, wanted, k);
    assert(is_first(rows, wanted, k));
    if k < i {
        assert(!wanted(rows[k]));
    }
    if i < k {
        assert(!wanted(rows[i]));
    }
}

/// Where no row is wanted, there is no first index.
pub proof fn lemma_none_found<T>(rows: Seq<T>, wanted: spec_fn(T) -> bool)
    requires
        forall|j: int| 0 <= j < rows.len() ==> !wanted(#[trigger] rows[j]),
    ensures
        first_index(rows, wanted) is None,
        first_where(rows, wanted) is None,
{
}

/// Where some row is wanted, there is a first index.
pub proof fn lemma_first_exists<T>(rows: Seq<T>, wanted: spec_fn(T) -> bool, i: int)
    requires
        0 <= i < rows.len(),
        wanted(rows[i]),
    ensures
        first_index(rows, wanted) is Some,
        is_first(rows, wanted, first_index(rows, wanted).unwrap()),
        first_index(rows, wanted).unwrap() <= i,
    decreases i,
{
    if forall|j: int| 0 <= j < i ==> !wanted(#[trigger] rows[j]) {
        assert(is_first(rows, wanted, i));
        lemma_first_found(rows, wanted, i);
    } else {
        let j = choose|j: int| 0 <= j < i && wanted(#[trigger] rows[j]);
        lemma_first_exists(rows, wanted, j);
    }
}

/// What the first index is, whether or not there is one.
pub proof fn lemma_first_index<T>(rows: Seq<T>, wanted: spec_fn(T) -> bool)
    ensures
        match first_index(rows, wanted) {
            Some(i) => is_first(rows, wanted, i),
            None => forall|j: int| 0 <= j < rows.len() ==> !wanted(#[trigger] rows[j]),
        },
{
    if first_index(rows, wanted) is None {
        assert forall|j: int| 0 <= j < rows.len() implies !wanted(#[trigger] rows[j]) by {
            if wanted(rows[j]) {
                lemma_first_exists(rows, wanted, j);
            }
        }
    }
}

/// In a table without repeated keys, the row of a key is the one row that
/// has it.
pub proof fn lemma_row_of_unique<T: Keyed>(rows: Seq<T>, i: int)
    requires
        unique_keys(rows),
        0 <= i < rows.len(),
    ensures
        first_index(rows, with_key::<T>(rows[i].key())) == Some(i),
        row_of(rows, rows[i].key()) == Some(rows[i]),
{
    let wanted = with_key::<T>(rows[i].key());
    assert(wanted(rows[i]));
    assert forall|j: int| 0 <= j < i implies !wanted(#[trigger] rows[j]) by {
        assert(rows[j].key() != rows[i].key());
    }
    assert(is_first(rows, wanted, i));
    lemma_first_found(rows, wanted, i);
}

/// The row of a key exists exactly when some row has the key, and it has
/// that key.
pub proof fn lemma_row_of_has_row<T: Keyed>(rows: Seq<T>, key: T::Key)
    ensures
        row_of(rows, key) is Some <==> has_row(rows, key),
        row_of(rows, key) is Some ==> row_of(rows, key).unwrap().key() == key && rows.contains(
            row_of(rows, key).unwrap(),
        ),
{
    let wanted = with_key::<T>(key);
    lemma_first_index(rows, wanted);
    if has_row(rows, key) {
        let i = choose|i: int| 0 <= i < rows.len() && (#[trigger] rows[i]).key() == key;
        assert(wanted(rows[i]));
    }
    if let Some(i) = first_index(rows, wanted) {
        assert(wanted(rows[i]));
        assert(rows[i].key() == key);
    }
}

/// The index of the first row of `rows` with the key `key`.
pub fn position<T: Keyed>(rows: &Vec<T>, key: &T::Key) -> (found: Option<usize>)
    ensures
        match found {
            Some(i) => first_index(rows@, with_key::<T>(*key)) == Some(i as int) && i < rows.len(),
            None => first_index(rows@, with_key::<T>(*key)) is None,
        },
{
    let ghost wanted = with_key::<T>(*key);
    let mut i: usize = 0;
    while i < rows.len()
        invariant
            i <= rows.len(),
            wanted == with_key::<T>(*key),
            forall|j: int| 0 <= j < i ==> !wanted(#[trigger] rows@[j]),
        decreases rows.len() - i,
    {
        if rows[i].has_key(key) {
            proof {
                assert(wanted(rows@[i as int]));
                lemma_first_found(rows@, wanted, i as int);
            }
            return Some(i);
        }
        i += 1;
    }
    proof {
        lemma_none_found(rows@, wanted);
    }
    None
}

/// Whether some row of `rows` has the key `key`.
pub fn contains_key<T: Keyed>(rows: &Vec<T>, key: &T::Key) -> (yes: bool)
    ensures
        yes == has_row(rows@, *key),
{
    proof {
        lemma_row_of_has_row(rows@, *key);
    }
    position(rows, key).is_some()
}

/// Whether no two rows of `rows` share a key.
pub fn has_unique_keys<T: Keyed>(rows: &Vec<T>) -> (yes: bool)
    ensures
        yes == unique_keys(rows@),
{
    let mut i: usize = 0;
    while i < rows.len()
        invariant
            i <= rows.len(),
            forall|a: int, b: int|
                0 <= a < b < i ==> (#[trigger] rows@[a]).key() != (#[trigger] rows@[b]).key(),
        decreases rows.len() - i,
    {
        let mut j: usize = 0;
        while j < i
            invariant
                j <= i < rows.len(),
                forall|a: int, b: int|
                    0 <= a < b < i ==> (#[trigger] rows@[a]).key() != (#[trigger] rows@[b]).key(),
                forall|a: int| 0 <= a < j ==> (#[trigger] rows@[a]).key() != rows@[i as int].key(),
            decreases i - j,
        {
            if rows[j].same_key(&rows[i]) {
                assert(rows@[j as int].key() == rows@[i as int].key());
                return false;
            }
            j += 1;
        }
        i += 1;
    }
    true
}

} // verus!
