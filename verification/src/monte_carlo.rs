//! The Metropolis single-spin-flip dynamics of the Ising model.
//!
//! All quantities are integers. The energy of a grid with coupling constant
//! `J` and external field `h` is `J * coupling_energy + h * sum`, so the
//! library keeps the two integer coefficients and leaves the constants to
//! the caller.

use vstd::prelude::*;
use std::ops::Add;

pub mod bookkeeping;
pub mod ising_state;
pub mod metropolis;

verus! {

/// Two to the power 53: the denominator of the fractions that
/// `MonteCarloRngInterface` draws.
pub const UNIT_SCALE: u64 = 0x20_0000_0000_0000;

/// A source of uniformly distributed numbers from `[0, 1)`.
pub trait MonteCarloRngInterface: Sized {
    /// What the next draw returns, and the generator as that draw leaves
    /// it, where the state of the generator determines the two. `None` for a
    /// generator whose draws cannot be foretold.
    spec fn next_unit(&self) -> Option<(u64, Self)>;

    /// The numerator, over `UNIT_SCALE`, of a number drawn from `[0, 1)`.
    fn generate_rand_unit(&mut self) -> (numerator: u64)
        ensures
            numerator < UNIT_SCALE,
            old(self).next_unit() matches Some(next) ==> numerator == next.0 && *final(self)
                == next.1,
    ;
}

/// A change of the total spin (first field) together with the change of
/// the coupling energy (second field) that comes with it.
///
/// With coupling constant `J` and external field `h` the energy changes by
/// `J` times the second field plus `h` times the first.
#[derive(Clone, Copy, Debug)]
pub struct SpinEnergyFluctuation(pub i64, pub i64);

impl SpinEnergyFluctuation {
    /// No change at all.
    pub fn zero() -> (z: Self)
        ensures
            z.0 == 0,
            z.1 == 0,
    {
        SpinEnergyFluctuation(0, 0)
    }

    /// Adds `rhs` to `self`, field by field.
    pub fn add_assign(&mut self, rhs: Self)
        requires
            i64::MIN <= old(self).0 + rhs.0 <= i64::MAX,
            i64::MIN <= old(self).1 + rhs.1 <= i64::MAX,
        ensures
            final(self).0 == old(self).0 + rhs.0,
            final(self).1 == old(self).1 + rhs.1,
    {
        self.0 = self.0 + rhs.0;
        self.1 = self.1 + rhs.1;
    }
}

impl Default for SpinEnergyFluctuation {
    fn default() -> (z: Self)
        ensures
            z.0 == 0,
            z.1 == 0,
    {
        SpinEnergyFluctuation(0, 0)
    }
}

impl Add for SpinEnergyFluctuation {
    type Output = Self;

    fn add(self, rhs: Self) -> (sum: Self) {
        SpinEnergyFluctuation(self.0 + rhs.0, self.1 + rhs.1)
    }
}

impl vstd::std_specs::ops::AddSpecImpl for SpinEnergyFluctuation {
    open spec fn obeys_add_spec() -> bool {
        true
    }

    open spec fn add_req(self, rhs: Self) -> bool {
        &&& i64::MIN <= self.0 + rhs.0 <= i64::MAX
        &&& i64::MIN <= self.1 + rhs.1 <= i64::MAX
    }

    open spec fn add_spec(self, rhs: Self) -> Self {
        SpinEnergyFluctuation((self.0 + rhs.0) as i64, (self.1 + rhs.1) as i64)
    }
}

} // verus!
