//! A rental-agreement ledger core: validation of proposed lease terms,
//! keyed persistence with uniqueness enforcement, a running creation
//! counter, and a creation-event log.

use vstd::prelude::*;

pub mod agreement;
pub mod laws;
pub mod store;
pub mod validation;

verus! {

/// Greets the given name: returns the two-element greeting sequence.
pub fn hello(to: String) -> (r: Vec<String>)
    ensures
        r@.len() == 2,
        r@[0]@ == "Hello"@,
        r@[1]@ == to@,
{
    let mut words: Vec<String> = Vec::new();
    words.push(String::from_str("Hello"));
    words.push(to);
    words
}

} // verus!
