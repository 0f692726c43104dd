//! The randomness source for the random-register instruction.

use vstd::prelude::*;
use rand::Rng;

verus! {

/// Relies on rand::thread_rng and rand::Rng::gen: draws one byte from
/// the process-wide generator. Nothing is assumed about the value; every
/// caller must be correct for any byte that comes back.
#[verifier::external_body]
pub(crate) fn random_byte() -> u8 {
    let mut rng = rand::thread_rng();
    rng.gen()
}

} // verus!
