//! A restaurant whose front of house is reached through nested modules.

use vstd::prelude::*;

mod front_of_house;

verus! {

/// Puts a party on the waitlist twice: once by the path that starts at the
/// crate root, once by the path that starts at this module.
pub fn eat_at_restaurant() {
    // Absolute path
    crate::restaurant::front_of_house::hosting::add_to_waitlist();

    // Relative path
    front_of_house::hosting::add_to_waitlist();
}

} // verus!
