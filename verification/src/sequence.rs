//! Helpers for runs of values.

use vstd::prelude::*;

verus! {

/// The same values in the opposite order.
pub fn reversed<T>(values: Vec<T>) -> (turned: Vec<T>)
    ensures
        turned@.len() == values@.len(),
        forall|i: int| 0 <= i < values@.len() ==> turned@[i] == values@[values@.len() - 1 - i],
{
    let ghost all = values@;
    let mut values = values;
    let mut turned: Vec<T> = Vec::new();
    while values.len() > 0
        invariant
            values@.len() + turned@.len() == all.len(),
            forall|i: int| 0 <= i < values@.len() ==> values@[i] == all[i],
            forall|j: int| 0 <= j < turned@.len() ==> turned@[j] == all[all.len() - 1 - j],
        decreases values@.len(),
    {
        let value = values.pop().unwrap();
        turned.push(value);
    }
    turned
}

} // verus!
