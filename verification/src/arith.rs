//! Small verified arithmetic helpers.

use vstd::prelude::*;

verus! {

/// Sum of two machine words, defined for inputs whose sum fits in `usize`.
pub fn add(left: usize, right: usize) -> (sum: usize)
    requires
        left + right <= usize::MAX,
    ensures
        sum == left + right,
{
    left + right
}

/// Adds one to the number given.
pub fn add_one(x: i32) -> (r: i32)
    requires
        x < i32::MAX,
    ensures
        r == x + 1,
{
    x + 1
}

} // verus!
