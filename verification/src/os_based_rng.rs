//! A generator backed by the `rand` crate's thread-local generator, which
//! the operating system seeds.

use vstd::prelude::*;
use rand::rngs::ThreadRng;
use rand::{Rng, RngCore};
use crate::array_rng_interface::ArrayRngInterface;
use crate::monte_carlo::MonteCarloRngInterface;
use crate::xorshifts::unit_of_word;

verus! {

/// `rand::rngs::ThreadRng`: a handle to the calling thread's generator.
/// Nothing of its state is visible here.
#[verifier::external_type_specification]
#[verifier::external_body]
pub struct ExThreadRng(ThreadRng);

/// Calls `rand::rng()`, which hands out the thread's generator. Nothing is
/// claimed of it.
#[verifier::external_body]
pub(crate) fn thread_generator() -> ThreadRng {
    rand::rng()
}

/// Calls `RngCore::next_u64`. The word is random, so nothing is claimed of
/// it.
#[verifier::external_body]
pub(crate) fn random_word(generator: &mut ThreadRng) -> u64 {
    generator.next_u64()
}

/// Calls `Rng::random_range` on `low..high`. The contract claims what its
/// documentation says: the value lies in the range. It panics on an empty
/// range, which `requires` leaves out.
#[verifier::external_body]
fn random_i32(generator: &mut ThreadRng, low: i32, high: i32) -> (r: i32)
    requires
        low < high,
    ensures
        low <= r < high,
{
    generator.random_range(low..high)
}

/// A generator that draws from the thread-local generator of the `rand`
/// crate. Its draws cannot be repeated. A fraction is the top 53 bits of
/// one word.
pub struct OsBasedRng {
    generator: ThreadRng,
}

impl OsBasedRng {
    /// A handle to the calling thread's generator.
    pub fn new() -> OsBasedRng {
        OsBasedRng { generator: thread_generator() }
    }
}

impl ArrayRngInterface for OsBasedRng {
    open spec fn next_i32(&self, low: i32, high: i32) -> Option<(i32, Self)> {
        None
    }

    fn generate_rand_i32(&mut self, low: i32, high: i32) -> (r: i32) {
        random_i32(&mut self.generator, low, high)
    }
}

impl MonteCarloRngInterface for OsBasedRng {
    open spec fn next_unit(&self) -> Option<(u64, Self)> {
        None
    }

    fn generate_rand_unit(&mut self) -> (numerator: u64) {
        let word: u64 = random_word(&mut self.generator);
        unit_of_word(word)
    }
}

} // verus!
