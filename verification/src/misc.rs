//! Small helpers.

use vstd::pervasive::unreached;
use vstd::prelude::*;

verus! {

/// Takes the value out of an option that is known to hold one.
pub fn unwrap_unreachable<T>(option: Option<T>) -> (value: T)
    requires
        option is Some,
    ensures
        Some(value) == option,
{
    match option {
        Some(value) => value,
        None => unreached(),
    }
}

/// Takes the value out of an option that is known to hold one; `msg` says
/// why it is known.
#[allow(unused_variables)]
pub fn expect_unreachable<T>(option: Option<T>, msg: &str) -> (value: T)
    requires
        option is Some,
    ensures
        Some(value) == option,
{
    match option {
        Some(value) => value,
        None => unreached(),
    }
}

} // verus!
