//! The source of random bytes for the `RND` instruction.

use vstd::prelude::*;

verus! {

/// Draws a byte from the `rand` crate's thread-local generator, as
/// `rand::thread_rng().gen_range(0..=255)` does. The range is the whole of
/// `u8`, so nothing is claimed of the byte beyond its type.
#[verifier::external_body]
pub(crate) fn random_byte() -> (byte: u8) {
    rand::Rng::gen_range(&mut rand::thread_rng(), 0..=255)
}

} // verus!
