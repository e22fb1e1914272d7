//! The sums over the measurements of a simulation.
//!
//! With coupling constant `J` and field `h` the energy of a grid is `J`
//! times its coupling energy plus `h` times its total spin. The sums of the
//! energy and of its square over the measurements therefore follow from
//! the sums of the total spin, of the coupling energy, and of their squares
//! and product, which are integers and are kept exactly.

use vstd::prelude::*;
use crate::fourier_transformer::column_correlation;
use crate::monte_carlo::metropolis::coupling_energy;
use crate::periodic_array_2d::Lattice;

verus! {

/// Sums over the measurements of a simulation, as mathematical integers.
pub struct Moments {
    pub samples: int,
    pub abs_spin: int,
    pub spin: int,
    pub spin_sqr: int,
    pub energy: int,
    pub energy_sqr: int,
    pub energy_spin: int,
    pub column_correlation: Seq<int>,
}

/// No measurement yet, with `width` sums of column correlations.
pub open spec fn no_moments(width: int) -> Moments {
    Moments {
        samples: 0,
        abs_spin: 0,
        spin: 0,
        spin_sqr: 0,
        energy: 0,
        energy_sqr: 0,
        energy_spin: 0,
        column_correlation: Seq::new(width as nat, |d: int| 0int),
    }
}

/// The sums `m` with one more measurement: of the total spin `spin`, the
/// coupling energy `energy`, and the column correlations `correlations`.
pub open spec fn add_sample(m: Moments, spin: int, energy: int, correlations: Seq<int>) -> Moments {
    Moments {
        samples: m.samples + 1,
        abs_spin: m.abs_spin + if spin < 0 {
            -spin
        } else {
            spin
        },
        spin: m.spin + spin,
        spin_sqr: m.spin_sqr + spin * spin,
        energy: m.energy + energy,
        energy_sqr: m.energy_sqr + energy * energy,
        energy_spin: m.energy_spin + energy * spin,
        column_correlation: Seq::new(
            m.column_correlation.len(),
            |d: int| m.column_correlation[d] + correlations[d],
        ),
    }
}

/// The column correlations of `l` for the distances below `width`.
pub open spec fn correlations_of(l: Lattice, width: int) -> Seq<int> {
    Seq::new(width as nat, |d: int| column_correlation(l, d))
}

/// The sums over the grids `states`, each measured once: its total spin,
/// its coupling energy and its first `width` column correlations.
pub open spec fn moments_of(states: Seq<Lattice>, width: int) -> Moments
    decreases states.len(),
{
    if states.len() == 0 {
        no_moments(width)
    } else {
        add_sample(
            moments_of(states.drop_last(), width),
            states.last().sum(),
            coupling_energy(states.last()),
            correlations_of(states.last(), width),
        )
    }
}

/// Bounds that the sums of measurements of grids of `+1` and `-1` obey,
/// and under which they fit their machine integers. A grid has at most
/// `0x7fff_ffff` cells; `0x3fff_ffff_0000_0001` is the square of that.
pub open spec fn moments_bounded(m: Moments) -> bool {
    &&& 0 <= m.samples
    &&& 0 <= m.abs_spin <= 0x7fff_ffff * m.samples
    &&& -(0x7fff_ffff * m.samples) <= m.spin <= 0x7fff_ffff * m.samples
    &&& 0 <= m.spin_sqr <= 0x3fff_ffff_0000_0001 * m.samples
    &&& -(0xffff_fffe * m.samples) <= m.energy <= 0xffff_fffe * m.samples
    &&& 0 <= m.energy_sqr <= 0xffff_fffc_0000_0004 * m.samples
    &&& -(0x7fff_fffe_0000_0002 * m.samples) <= m.energy_spin <= 0x7fff_fffe_0000_0002
        * m.samples
    &&& forall|d: int|
        0 <= d < m.column_correlation.len() ==> -(0x3fff_ffff_0000_0001 * m.samples)
            <= #[trigger] m.column_correlation[d] <= 0x3fff_ffff_0000_0001 * m.samples
}

/// The sums over the measurements of one simulation.
///
/// With coupling constant `J` and field `h` the energy of a sample is `J`
/// times its coupling energy plus `h` times its total spin, so the sums of
/// the energy and of its square follow from the first six sums. The squared
/// magnitudes of the Fourier modes follow from the sum of the squares of
/// the total spin and from the sums of the column correlations.
#[derive(Debug)]
pub struct MonteCarloResults {
    /// Number of measurements.
    pub samples: usize,
    /// Sum of the absolute values of the total spin.
    pub spins_abs_sum: u128,
    /// Sum of the total spin.
    pub spins_sum: i128,
    /// Sum of the squares of the total spin.
    pub spins_sqr_sum: u128,
    /// Sum of the coupling energy.
    pub energy_sum: i128,
    /// Sum of the squares of the coupling energy.
    pub energy_sqr_sum: u128,
    /// Sum of the products of coupling energy and total spin.
    pub energy_spins_sum: i128,
    /// For each distance below the number of columns, the sum of the
    /// correlations of the column sums at that distance. Empty where the
    /// structure factor was not asked for.
    pub column_correlation_sum: Vec<i128>,
}

impl View for MonteCarloResults {
    type V = Moments;

    open spec fn view(&self) -> Moments {
        Moments {
            samples: self.samples as int,
            abs_spin: self.spins_abs_sum as int,
            spin: self.spins_sum as int,
            spin_sqr: self.spins_sqr_sum as int,
            energy: self.energy_sum as int,
            energy_sqr: self.energy_sqr_sum as int,
            energy_spin: self.energy_spins_sum as int,
            column_correlation: Seq::new(
                self.column_correlation_sum@.len(),
                |d: int| self.column_correlation_sum@[d] as int,
            ),
        }
    }
}

impl Default for MonteCarloResults {
    fn default() -> (r: Self)
        ensures
            r@ == no_moments(0),
    {
        let r = MonteCarloResults {
            samples: 0,
            spins_abs_sum: 0,
            spins_sum: 0,
            spins_sqr_sum: 0,
            energy_sum: 0,
            energy_sqr_sum: 0,
            energy_spins_sum: 0,
            column_correlation_sum: Vec::new(),
        };
        proof {
            assert(r@.column_correlation =~= no_moments(0).column_correlation);
        }
        r
    }
}

impl MonteCarloResults {
    /// Empty sums, with room for the column correlations at `width`
    /// distances.
    pub fn new(width: usize) -> (r: Self)
        ensures
            r@ == no_moments(width as int),
            r.column_correlation_sum@.len() == width,
            moments_bounded(r@),
    {
        let mut correlations: Vec<i128> = Vec::with_capacity(width);
        let mut d: usize = 0;
        while d < width
            invariant
                0 <= d <= width,
                correlations@.len() == d,
                forall|k: int| 0 <= k < d ==> #[trigger] correlations@[k] == 0,
            decreases width - d,
        {
            correlations.push(0);
            d = d + 1;
        }
        let r = MonteCarloResults {
            samples: 0,
            spins_abs_sum: 0,
            spins_sum: 0,
            spins_sqr_sum: 0,
            energy_sum: 0,
            energy_sqr_sum: 0,
            energy_spins_sum: 0,
            column_correlation_sum: correlations,
        };
        proof {
            assert(r@.column_correlation =~= no_moments(width as int).column_correlation);
        }
        r
    }

    /// Adds one measurement to the sums: of the total spin `spin`, the
    /// coupling energy `energy`, and the column correlations
    /// `correlations`.
    pub fn fold_measurement(&mut self, spin: i64, energy: i64, correlations: &Vec<i128>)
        requires
            moments_bounded(old(self)@),
            old(self).samples < usize::MAX,
            -0x7fff_ffff <= spin <= 0x7fff_ffff,
            -0xffff_fffe <= energy <= 0xffff_fffe,
            correlations@.len() == old(self).column_correlation_sum@.len(),
            forall|d: int|
                0 <= d < correlations@.len() ==> -0x3fff_ffff_0000_0001
                    <= #[trigger] correlations@[d] <= 0x3fff_ffff_0000_0001,
        ensures
            final(self)@ == add_sample(
                old(self)@,
                spin as int,
                energy as int,
                Seq::new(correlations@.len(), |d: int| correlations@[d] as int),
            ),
            final(self).column_correlation_sum@.len() == old(self).column_correlation_sum@.len(),
            moments_bounded(final(self)@),
    {
        let s: i128 = spin as i128;
        let e: i128 = energy as i128;
        proof {
            assert(0 <= s * s <= 0x3fff_ffff_0000_0001) by (nonlinear_arith)
                requires
                    -0x7fff_ffff <= s <= 0x7fff_ffff,
            ;
            assert(0 <= e * e <= 0xffff_fffc_0000_0004) by (nonlinear_arith)
                requires
                    -0xffff_fffe <= e <= 0xffff_fffe,
            ;
            assert(-0x7fff_fffe_0000_0002 <= e * s <= 0x7fff_fffe_0000_0002) by (nonlinear_arith)
                requires
                    -0x7fff_ffff <= s <= 0x7fff_ffff,
                    -0xffff_fffe <= e <= 0xffff_fffe,
            ;
            assert(self.samples <= 0xffff_ffff_ffff_ffff);
        }
        let magnitude: i128 = if s < 0 {
            -s
        } else {
            s
        };
        let ghost before = self@;
        let ghost added = Seq::new(correlations@.len(), |d: int| correlations@[d] as int);
        let width: usize = correlations.len();
        let mut d: usize = 0;
        assert(before.column_correlation.len() == width);
        while d < width
            invariant
                0 <= d <= width,
                width == correlations@.len(),
                width == self.column_correlation_sum@.len(),
                before == old(self)@,
                before.column_correlation.len() == width,
                before.samples <= 0xffff_ffff_ffff_fffe,
                moments_bounded(before),
                self.samples == old(self).samples,
                self.spins_abs_sum == old(self).spins_abs_sum,
                self.spins_sum == old(self).spins_sum,
                self.spins_sqr_sum == old(self).spins_sqr_sum,
                self.energy_sum == old(self).energy_sum,
                self.energy_sqr_sum == old(self).energy_sqr_sum,
                self.energy_spins_sum == old(self).energy_spins_sum,
                forall|k: int|
                    0 <= k < correlations@.len() ==> -0x3fff_ffff_0000_0001
                        <= #[trigger] correlations@[k] <= 0x3fff_ffff_0000_0001,
                forall|k: int|
                    0 <= k < d ==> #[trigger] self.column_correlation_sum@[k]
                        == before.column_correlation[k] + correlations@[k],
                forall|k: int|
                    d <= k < width ==> #[trigger] self.column_correlation_sum@[k]
                        == before.column_correlation[k],
            decreases width - d,
        {
            assert(-(0x3fff_ffff_0000_0001 * before.samples) <= before.column_correlation[d as int]
                <= 0x3fff_ffff_0000_0001 * before.samples);
            let sum: i128 = self.column_correlation_sum[d] + correlations[d];
            self.column_correlation_sum.set(d, sum);
            d = d + 1;
        }
        self.samples = self.samples + 1;
        self.spins_abs_sum = self.spins_abs_sum + magnitude as u128;
        self.spins_sum = self.spins_sum + s;
        self.spins_sqr_sum = self.spins_sqr_sum + (s * s) as u128;
        self.energy_sum = self.energy_sum + e;
        self.energy_sqr_sum = self.energy_sqr_sum + (e * e) as u128;
        self.energy_spins_sum = self.energy_spins_sum + e * s;
        proof {
            let after = add_sample(before, spin as int, energy as int, added);
            assert(self@.column_correlation =~= after.column_correlation);
            assert forall|k: int| 0 <= k < self@.column_correlation.len() implies -(
            0x3fff_ffff_0000_0001 * self@.samples) <= #[trigger] self@.column_correlation[k]
                <= 0x3fff_ffff_0000_0001 * self@.samples by {
                assert(-(0x3fff_ffff_0000_0001 * before.samples) <= before.column_correlation[k]
                    <= 0x3fff_ffff_0000_0001 * before.samples);
                assert(-0x3fff_ffff_0000_0001 <= correlations@[k] <= 0x3fff_ffff_0000_0001);
            }
        }
    }
}

} // verus!
