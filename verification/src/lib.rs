//! Metropolis Monte Carlo sampling of the two-dimensional Ising model on a
//! periodic square lattice, in exact integer arithmetic.
//!
//! * [`periodic_array_2d`]: the grid of spins on a torus.
//! * [`array_rng_interface`], [`monte_carlo`]: what the dynamics ask of a
//!   random generator, and the changes that a step reports.
//! * [`xorshifts`], [`os_based_rng`]: generators.
//! * [`monte_carlo::ising_state`]: initial states.
//! * [`monte_carlo::metropolis`]: proposals, sweeps and the energy.
//! * [`monte_carlo::bookkeeping`]: why running totals stay exact.
//! * [`fourier_transformer`]: the integer part of the structure factor.
//! * [`monte_carlo_results`], [`ising_calculation`], [`classical_sim`]:
//!   whole simulations at lists of temperatures, and what they measure.
//!
//! The library does no floating-point arithmetic. Spins are `+1` and `-1`,
//! energies are kept as integer multiples of the coupling constant and of
//! the field, random fractions are numerators over two to the 53, and
//! acceptance probabilities come in as thresholds on that scale.

pub mod array_rng_interface;
pub mod classical_sim;
pub mod fourier_transformer;
pub mod ising_calculation;
pub mod monte_carlo;
pub mod monte_carlo_results;
pub mod os_based_rng;
pub mod periodic_array_2d;
mod seed;
pub mod xorshifts;
