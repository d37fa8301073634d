//! Swapping the members of a pair.
use vstd::prelude::*;

verus! {

/// The pair with its two members in the other order.
pub fn reverse(pair: (i32, bool)) -> (r: (bool, i32))
    ensures
        r == (pair.1, pair.0),
{
    let (int_param, bool_param) = pair;
    (bool_param, int_param)
}

} // verus!
