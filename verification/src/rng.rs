//! An explicitly passed source of randomness for the test-support fill.
//! The generator is handed to the call that draws from it instead of being
//! reached as ambient global state.

use vstd::prelude::*;
use rand::RngExt;

verus! {

#[verifier::external_type_specification]
#[verifier::external_body]
pub struct ExThreadRng(rand::rngs::ThreadRng);

/// A handle to the thread's random generator, passed explicitly to the
/// operations that draw from it.
pub struct RandomSource {
    rng: rand::rngs::ThreadRng,
}

impl RandomSource {
    /// Relies on rand::rng to obtain the thread-local generator.
    #[verifier::external_body]
    pub fn new() -> RandomSource {
        RandomSource { rng: rand::rng() }
    }

    /// Relies on rand::RngExt::random: one independently drawn byte,
    /// uniform over [0, 255]. The result is random, so nothing is promised
    /// about it.
    #[verifier::external_body]
    pub(crate) fn next_byte(&mut self) -> u8 {
        self.rng.random()
    }
}

} // verus!
