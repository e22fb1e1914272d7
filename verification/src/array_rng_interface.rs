//! What a grid asks of a random generator.

use vstd::prelude::*;

verus! {

/// A source of uniformly distributed integers.
pub trait ArrayRngInterface: Sized {
    /// What the next draw from `[low, high)` returns, and the generator as
    /// that draw leaves it, where the state of the generator determines the
    /// two. `None` for a generator whose draws cannot be foretold.
    spec fn next_i32(&self, low: i32, high: i32) -> Option<(i32, Self)>;

    /// An integer drawn from the half-open range `[low, high)`.
    fn generate_rand_i32(&mut self, low: i32, high: i32) -> (r: i32)
        requires
            low < high,
        ensures
            low <= r < high,
            old(self).next_i32(low, high) matches Some(next) ==> r == next.0 && *final(self)
                == next.1,
    ;
}

} // verus!
