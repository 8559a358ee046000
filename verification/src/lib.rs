//! An in-memory ticket store with validated value types, partial updates and
//! one independently lockable cell per ticket.

use vstd::prelude::*;

pub mod data;
pub mod handler;
pub mod store;
pub mod week;

verus! {

/// The greeting served at the root path.
pub fn index() -> (greeting: &'static str)
    ensures
        greeting@ == "Hello, World"@,
{
    "Hello, World"
}

} // verus!
