//! The two places where chance enters the game.

use vstd::prelude::*;

verus! {

/// Draws a boolean from the thread-local generator of the `rand` crate, by
/// `rand::random`. Nothing is claimed of the value.
#[verifier::external_body]
pub(crate) fn random_bool() -> (b: bool) {
    rand::random()
}

/// Draws a 32-bit seed from the thread-local generator of the `rand` crate,
/// by `rand::random`. Nothing is claimed of the value.
#[verifier::external_body]
pub(crate) fn random_seed() -> (seed: u32) {
    rand::random()
}

} // verus!
