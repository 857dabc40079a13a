//! The source of randomness.

use vstd::prelude::*;

verus! {

/// Calls `rand::random::<u32>()`, which hands out a fresh value from the
/// thread's generator. Nothing is claimed of the value.
#[verifier::external_body]
pub(crate) fn draw() -> (word: u32) {
    rand::random::<u32>()
}

} // verus!
