//! A running count that callers advance in steps of their choosing.
//!
//! The count lives with the caller and is lent for the length of one call,
//! so two updates can never overlap.

use vstd::prelude::*;

verus! {

/// Adds `inc` to the count behind `counter`.
///
/// The sum has to fit in a `u32`.
pub fn add_to_count(counter: &mut u32, inc: u32)
    requires
        *old(counter) + inc <= u32::MAX,
    ensures
        *final(counter) == *old(counter) + inc,
{
    *counter += inc;
}

} // verus!
