//! Small arithmetic helpers.

use vstd::prelude::*;

verus! {

/// The sum of two signed integers, proved free of overflow.
pub fn add(a: i32, b: i32) -> (r: i32)
    requires
        i32::MIN <= a + b <= i32::MAX,
    ensures
        r == a + b,
{
    a + b
}

} // verus!
