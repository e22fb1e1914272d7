//! Seeds from outside the program.

use vstd::prelude::*;
use chrono::Utc;
use rand::rngs::ThreadRng;
use crate::os_based_rng::{random_word, thread_generator};

verus! {

/// One word from the thread's generator, which the operating system seeds.
pub(crate) fn get_seed_os() -> u64 {
    let mut rng: ThreadRng = thread_generator();
    random_word(&mut rng)
}

/// Calls `chrono::Utc::now()` and hands out its `timestamp()`, the whole
/// seconds since the Unix epoch, as an unsigned word. It depends on the
/// clock, so nothing is claimed of it.
#[verifier::external_body]
pub(crate) fn get_random_seed_from_utc_time() -> u64 {
    Utc::now().timestamp() as u64
}

} // verus!
