//! The one source of randomness the library uses.

use vstd::prelude::*;

verus! {

/// Relies on rand::random: a fresh draw from the thread-local generator.
/// Nothing can be promised of the value, so every user of a draw states what
/// holds of every outcome.
pub assume_specification<T>[ rand::random::<T> ]() -> (r: T)
    where
        rand::distributions::Standard: rand::distributions::Distribution<T>,
;

} // verus!
