//! Seating guests.

use vstd::prelude::*;

verus! {

/// Adds a party to the waitlist. The waitlist keeps no record, so the call
/// has no effect.
pub fn add_to_waitlist() {
}

} // verus!
