//! Validity of an operator's selection.
//!
//! A selection is a list of indices into the working collection, chosen at
//! one point in time. It is valid when the indices are strictly ascending
//! and every one of them is in bounds; the deletion batch consumes such a
//! list from the back, so that removal by swapping with the last element
//! never invalidates an index that is still pending.

use vstd::prelude::*;

verus! {

/// The indices are strictly ascending and all below `len`.
pub open spec fn valid_selection(sel: Seq<usize>, len: int) -> bool {
    &&& forall|a: int, b: int| 0 <= a < b < sel.len() ==> sel[a] < sel[b]
    &&& forall|k: int| 0 <= k < sel.len() ==> sel[k] < len
}

/// Decides whether `sel` is a valid selection for a collection of `len` items.
pub fn check_selection(sel: &Vec<usize>, len: usize) -> (ok: bool)
    ensures
        ok == valid_selection(sel@, len as int),
{
    let mut i: usize = 0;
    while i < sel.len()
        invariant
            0 <= i <= sel@.len(),
            forall|a: int, b: int| 0 <= a < b < i ==> sel@[a] < sel@[b],
            forall|k: int| 0 <= k < i ==> sel@[k] < len,
        decreases sel@.len() - i,
    {
        if sel[i] >= len {
            return false;
        }
        if i > 0 && sel[i - 1] >= sel[i] {
            return false;
        }
        i = i + 1;
    }
    true
}

} // verus!
