//! Guarding the C boundary against panics.

use vstd::prelude::*;

verus! {

/// The value of a call made under a panic guard: what the call returned, or
/// `default` when it panicked (`caught` is then `None`).
pub fn catch_panic_or_default<T>(caught: Option<T>, default: T) -> (r: T)
    ensures
        r == match caught {
            Some(v) => v,
            None => default,
        },
{
    match caught {
        Some(v) => v,
        None => default,
    }
}

} // verus!
