//! Order of rows.

use vstd::prelude::*;

verus! {

/// The same items in the opposite order.
pub fn reversed<T>(items: Vec<T>) -> (result: Vec<T>)
    ensures
        result@ == items@.reverse(),
{
    let ghost given = items@;
    let mut rest = items;
    let mut result: Vec<T> = Vec::new();
    while rest.len() > 0
        invariant
            rest@.len() + result@.len() == given.len(),
            rest@ == given.subrange(0, rest@.len() as int),
            forall|k: int| 0 <= k < result@.len() ==> result@[k] == given[given.len() - 1 - k],
        decreases rest@.len(),
    {
        let item = rest.pop().unwrap();
        result.push(item);
    }
    assert(result@ =~= given.reverse());
    result
}

} // verus!
