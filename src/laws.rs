use crate::toy_vec::{capacity_after_push, spec_get, spec_pop};
use vstd::prelude::*;

verus! {

/// The occupied sequence after appending each of `vals`, in turn, to `s`.
pub open spec fn appended<T>(s: Seq<T>, vals: Seq<T>) -> Seq<T>
    decreases vals.len(),
{
    if vals.len() == 0 {
        s
    } else {
        appended(s, vals.drop_last()).push(vals.last())
    }
}

/// After appending each of `vals` to an empty container, its length is the
/// number of appends and the element at each index is the value appended at
/// that turn.
pub proof fn lemma_appends_in_order<T>(vals: Seq<T>)
    ensures
        appended(Seq::<T>::empty(), vals) == vals,
        appended(Seq::<T>::empty(), vals).len() == vals.len(),
        forall|i: int|
            0 <= i < vals.len() ==> spec_get(appended(Seq::<T>::empty(), vals), i) == Some(
                vals[i],
            ),
    decreases vals.len(),
{
    if vals.len() > 0 {
        lemma_appends_in_order(vals.drop_last());
        assert(vals.drop_last().push(vals.last()) =~= vals);
    } else {
        assert(appended(Seq::<T>::empty(), vals) =~= vals);
    }
}

/// An append always leaves at least as many slots as elements: the capacity
/// after it covers the new length.
pub proof fn lemma_capacity_covers_push(len: nat, cap: nat)
    requires
        len <= cap,
    ensures
        capacity_after_push(len, cap) >= len + 1,
{
}

/// Appending a value and then removing the last element gives the value back
/// and leaves the elements as they were.
pub proof fn lemma_append_then_remove_last<T>(s: Seq<T>, value: T)
    ensures
        spec_pop(s.push(value)) == (s, Some(value)),
{
    assert(s.push(value).drop_last() =~= s);
}

/// No index at or past the length holds an element, on an empty container
/// too.
pub proof fn lemma_get_out_of_range<T>(s: Seq<T>, index: int)
    requires
        index >= s.len(),
    ensures
        spec_get(s, index) is None,
        spec_get(Seq::<T>::empty(), 0) is None,
{
}

/// Removing from an empty container gives nothing and leaves it empty, so
/// doing it again gives the same.
pub proof fn lemma_remove_last_on_empty<T>()
    ensures
        spec_pop(Seq::<T>::empty()) == (Seq::<T>::empty(), None::<T>),
        spec_pop(spec_pop(Seq::<T>::empty()).0) == (Seq::<T>::empty(), None::<T>),
{
}

} // verus!
