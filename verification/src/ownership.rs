//! Ownership of a heap value as it moves into and out of functions.

use vstd::prelude::*;

verus! {

/// Creates a string and moves it out to the caller, who becomes its owner.
pub fn gives_ownership() -> (some_string: String)
    ensures
        some_string@ == "yours"@,
{
    let some_string = "yours".to_owned();
    some_string
}

/// Takes ownership of `a_string` and hands the very same string back.
pub fn takes_and_gives_back(a_string: String) -> (returned: String)
    ensures
        returned == a_string,
{
    a_string
}

} // verus!
