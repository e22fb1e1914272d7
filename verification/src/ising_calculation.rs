//! Simulations at a list of temperatures.
//!
//! For each temperature a fresh grid, all spins up, is first swept a
//! number of times without measuring, and then measured and swept in turn.
//! What comes out are the sums over the measurements; dividing by the number
//! of samples gives the moments.

use vstd::prelude::*;
use rayon::iter::{IntoParallelRefIterator, ParallelIterator};
use crate::array_rng_interface::ArrayRngInterface;
use crate::fourier_transformer::{column_correlations, lemma_column_correlation_bounds};
use crate::monte_carlo::bookkeeping::{lemma_coupling_energy_bounds, lemma_sweep_totals};
use crate::monte_carlo::ising_state::spin_up;
use crate::monte_carlo::metropolis::{
    coupling_energy,
    foretells,
    foretold_trace,
    get_total_energy,
    lemma_foretold_trace_exists,
    perform_metropolis_sweep,
    sweep_happened,
    trace_lattice,
    Acceptance,
    AcceptanceTable,
};
use crate::monte_carlo::{MonteCarloRngInterface, SpinEnergyFluctuation};
use crate::monte_carlo_results::{correlations_of, moments_bounded, moments_of, Moments};
use crate::periodic_array_2d::{
    dimension_error,
    lemma_ising_sum_bounds,
    valid_dimensions,
    Lattice,
    PeriodicArray2D,
    PeriodicArrayError,
};
use crate::xorshifts::{lemma_xorshifts_foretell, xoshiro256_seeded, Xoshiro256pp};

pub use crate::monte_carlo_results::MonteCarloResults;

verus! {

/// Why a run could not be made.
#[derive(Debug)]
pub enum CalculationError {
    /// One of the temperatures is negative.
    NegativeTempError,
    /// No grid of the requested extent exists.
    ArrayInitError(PeriodicArrayError),
}

/// One temperature of a run: the temperature itself, as the bit pattern of
/// an IEEE 754 double, and the acceptance table that belongs to it. The
/// library reads of the temperature only whether it is negative.
pub struct TemperaturePoint {
    pub temperature: u64,
    pub acceptance: AcceptanceTable,
}

/// Whether the double with bit pattern `bits` is below zero: its sign bit is
/// set, and it is neither minus zero nor a NaN.
pub open spec fn is_negative_temperature(bits: u64) -> bool {
    0x8000_0000_0000_0000 < bits <= 0xfff0_0000_0000_0000
}

/// Whether the double with bit pattern `bits` is below zero.
pub fn is_negative(bits: u64) -> (negative: bool)
    ensures
        negative == is_negative_temperature(bits),
{
    0x8000_0000_0000_0000u64 < bits && bits <= 0xfff0_0000_0000_0000u64
}

/// What to simulate.
pub struct ExperimentParam {
    /// The temperatures, in the order in which the results are wanted.
    pub temperatures: Vec<TemperaturePoint>,
    /// Number of sweeps before the first measurement.
    pub thermalisation_steps: usize,
    /// Number of measurements, each followed by one sweep.
    pub measurement_steps: usize,
    /// Whether the correlations of the column sums, from which the structure
    /// factor follows, are measured too.
    pub measure_struct_fact: bool,
}

/// Whether some temperature of the list is negative.
pub open spec fn has_negative_temperature(temperatures: Seq<TemperaturePoint>) -> bool {
    exists|k: int|
        0 <= k < temperatures.len() && is_negative_temperature(
            #[trigger] temperatures[k].temperature,
        )
}

/// One sweep under `table` can take the grid from `before` to `after`.
pub open spec fn sweep_related(table: Seq<Acceptance>, before: Lattice, after: Lattice) -> bool {
    exists|delta: SpinEnergyFluctuation| #[trigger] sweep_happened(table, before, after, delta)
}

/// Each grid of `states` but the last is taken to the next one by one
/// sweep under `table`.
pub open spec fn sweep_chain(table: Seq<Acceptance>, states: Seq<Lattice>) -> bool {
    forall|t: int|
        0 <= t < states.len() - 1 ==> sweep_related(table, #[trigger] states[t], states[t + 1])
}

/// A simulation took the grid from `start` to `end` and measured `m`:
/// `thermalisation` sweeps, then `measurements` times a measurement
/// followed by a sweep, each measurement with `width` column correlations.
pub open spec fn simulation_happened(
    table: Seq<Acceptance>,
    start: Lattice,
    thermalisation: int,
    measurements: int,
    width: int,
    end: Lattice,
    m: Moments,
) -> bool {
    exists|states: Seq<Lattice>|
        {
            &&& states.len() == thermalisation + measurements + 1
            &&& states[0] == start
            &&& states[thermalisation + measurements] == end
            &&& sweep_chain(table, states)
            &&& m == moments_of(
                states.subrange(thermalisation, thermalisation + measurements),
                width,
            )
        }
}

/// The grid of the given extent with every spin up.
pub open spec fn all_up(rows: int, columns: int) -> Lattice {
    Lattice { rows, columns, cells: Seq::new((rows * columns) as nat, |k: int| 1i8) }
}

/// The number of column correlations that a simulation of a grid with
/// `columns` columns measures: one for each distance below the number of
/// columns if the structure factor is asked for, none otherwise.
pub open spec fn structure_width(columns: int, measure_struct_fact: bool) -> int {
    if measure_struct_fact {
        columns
    } else {
        0
    }
}

/// The grids that the sweeps of the generator `rng` make of the grid `l`:
/// `l` itself, then the grid after each of the first `n` sweeps; and the
/// generator as the sweeps leave it. `None` unless the generator determines
/// its draws.
pub open spec fn foretold_sweeps<R: MonteCarloRngInterface + ArrayRngInterface>(
    table: Seq<Acceptance>,
    l: Lattice,
    rng: R,
    n: nat,
) -> Option<(Seq<Lattice>, R)>
    decreases n,
{
    if n == 0 {
        Some((seq![l], rng))
    } else {
        match foretold_sweeps(table, l, rng, (n - 1) as nat) {
            None => None,
            Some(earlier) => match foretold_trace(
                table,
                earlier.0.last(),
                earlier.1,
                earlier.0.last().total() as nat,
            ) {
                None => None,
                Some(sweep) => Some(
                    (earlier.0.push(trace_lattice(earlier.0.last(), sweep.0)), sweep.1),
                ),
            },
        }
    }
}

/// What a simulation that starts from the grid `start` with the generator
/// `rng` measures, where the generator determines its draws: the sums over
/// the grids before each of the last `measurements` of its `thermalisation
/// + measurements` sweeps.
pub open spec fn foretold_moments<R: MonteCarloRngInterface + ArrayRngInterface>(
    table: Seq<Acceptance>,
    start: Lattice,
    rng: R,
    thermalisation: int,
    measurements: int,
    width: int,
) -> Option<Moments> {
    match foretold_sweeps(table, start, rng, (thermalisation + measurements) as nat) {
        None => None,
        Some(told) => Some(
            moments_of(
                told.0.subrange(thermalisation, thermalisation + measurements),
                width,
            ),
        ),
    }
}

/// A generator that determines all its draws determines any number of
/// sweeps.
pub proof fn lemma_foretold_sweeps_exist<R: MonteCarloRngInterface + ArrayRngInterface>(
    table: Seq<Acceptance>,
    l: Lattice,
    rng: R,
    n: nat,
)
    requires
        foretells::<R>(),
    ensures
        foretold_sweeps(table, l, rng, n) is Some,
        foretold_sweeps(table, l, rng, n)->Some_0.0.len() == n + 1,
    decreases n,
{
    if n > 0 {
        lemma_foretold_sweeps_exist(table, l, rng, (n - 1) as nat);
        let earlier = foretold_sweeps(table, l, rng, (n - 1) as nat)->Some_0;
        lemma_foretold_trace_exists(
            table,
            earlier.0.last(),
            earlier.1,
            earlier.0.last().total() as nat,
        );
    }
}

/// The sums `m` are what the simulation of a `rows` by `columns` grid
/// measures that starts with every spin up and draws from the
/// `Xoshiro256pp` made from the word `seed`.
pub open spec fn seed_simulated(
    rows: int,
    columns: int,
    table: Seq<Acceptance>,
    thermalisation: int,
    measurements: int,
    measure_struct_fact: bool,
    seed: u64,
    m: Moments,
) -> bool {
    foretold_moments(
        table,
        all_up(rows, columns),
        Xoshiro256pp::in_state(xoshiro256_seeded(seed)),
        thermalisation,
        measurements,
        structure_width(columns, measure_struct_fact),
    ) == Some(m)
}

/// The same seed gives the same trajectory: two simulations of the same
/// grid under the same table that draw from generators made from the same
/// seed measure the same sums.
pub proof fn lemma_same_seed_same_sums(
    rows: int,
    columns: int,
    table: Seq<Acceptance>,
    thermalisation: int,
    measurements: int,
    measure_struct_fact: bool,
    seed: u64,
    first: Moments,
    second: Moments,
)
    requires
        seed_simulated(
            rows,
            columns,
            table,
            thermalisation,
            measurements,
            measure_struct_fact,
            seed,
            first,
        ),
        seed_simulated(
            rows,
            columns,
            table,
            thermalisation,
            measurements,
            measure_struct_fact,
            seed,
            second,
        ),
    ensures
        first == second,
{
}

/// The sums `m` are what a simulation at one temperature measures: for
/// some seed they are the sums that the seed determines.
pub open spec fn temperature_simulated(
    rows: int,
    columns: int,
    table: Seq<Acceptance>,
    thermalisation: int,
    measurements: int,
    measure_struct_fact: bool,
    m: Moments,
) -> bool {
    exists|seed: u64|
        seed_simulated(
            rows,
            columns,
            table,
            thermalisation,
            measurements,
            measure_struct_fact,
            seed,
            m,
        )
}

/// Runs one simulation on the grid as it stands: `thermalisation_steps`
/// sweeps, then `measurement_steps` times a measurement followed by a
/// sweep. Returns the sums over the measurements.
///
/// Between sweeps the total spin and the coupling energy are kept up by
/// adding the changes that the sweeps report. On a grid with a single row or
/// a single column a cell is its own neighbour and the reported change is
/// not the change of the coupling energy; there the energy is recomputed
/// after every sweep.
pub fn run_simulation<R>(
    spin_2d_arr: &mut PeriodicArray2D,
    rng: &mut R,
    table: &AcceptanceTable,
    thermalisation_steps: usize,
    measurement_steps: usize,
    measure_struct_fact: bool,
) -> (results: MonteCarloResults) where R: MonteCarloRngInterface + ArrayRngInterface
    requires
        old(spin_2d_arr).wf(),
        old(spin_2d_arr)@.is_ising(),
    ensures
        final(spin_2d_arr).wf(),
        final(spin_2d_arr)@.is_ising(),
        final(spin_2d_arr)@.rows == old(spin_2d_arr)@.rows,
        final(spin_2d_arr)@.columns == old(spin_2d_arr)@.columns,
        simulation_happened(
            table@,
            old(spin_2d_arr)@,
            thermalisation_steps as int,
            measurement_steps as int,
            structure_width(old(spin_2d_arr)@.columns, measure_struct_fact),
            final(spin_2d_arr)@,
            results@,
        ),
        foretold_sweeps(
            table@,
            old(spin_2d_arr)@,
            *old(rng),
            (thermalisation_steps + measurement_steps) as nat,
        ) matches Some(told) ==> final(spin_2d_arr)@ == told.0.last() && *final(rng) == told.1
            && Some(results@) == foretold_moments(
            table@,
            old(spin_2d_arr)@,
            *old(rng),
            thermalisation_steps as int,
            measurement_steps as int,
            structure_width(old(spin_2d_arr)@.columns, measure_struct_fact),
        ),
        results.samples == measurement_steps,
{
    let ghost start = spin_2d_arr@;
    let ghost first_rng = *rng;
    let ghost mut states: Seq<Lattice> = seq![start];
    let mut t: usize = 0;
    while t < thermalisation_steps
        invariant
            0 <= t <= thermalisation_steps,
            foretold_sweeps(table@, start, first_rng, t as nat) matches Some(told) ==> states
                == told.0 && *rng == told.1,
            spin_2d_arr.wf(),
            spin_2d_arr@.is_ising(),
            spin_2d_arr@.rows == start.rows,
            spin_2d_arr@.columns == start.columns,
            states.len() == t + 1,
            states[0] == start,
            states[t as int] == spin_2d_arr@,
            sweep_chain(table@, states),
        decreases thermalisation_steps - t,
    {
        let delta: SpinEnergyFluctuation = perform_metropolis_sweep(spin_2d_arr, rng, table);
        proof {
            let longer = states.push(spin_2d_arr@);
            assert forall|u: int| 0 <= u < longer.len() - 1 implies sweep_related(
                table@,
                #[trigger] longer[u],
                longer[u + 1],
            ) by {
                if u < states.len() - 1 {
                    assert(longer[u] == states[u]);
                    assert(longer[u + 1] == states[u + 1]);
                } else {
                    assert(sweep_happened(table@, longer[u], longer[u + 1], delta));
                }
            }
            states = longer;
        }
        t = t + 1;
    }
    proof {
        spin_2d_arr.lemma_wf();
        lemma_ising_sum_bounds(spin_2d_arr@.cells);
        lemma_coupling_energy_bounds(spin_2d_arr@, spin_2d_arr@.total());
    }
    let incremental: bool = spin_2d_arr.rows() >= 2 && spin_2d_arr.columns() >= 2;
    let width: usize = if measure_struct_fact {
        spin_2d_arr.columns() as usize
    } else {
        0
    };
    let mut spin_sum: i64 = spin_2d_arr.sum();
    let mut total_energy: i64 = get_total_energy(spin_2d_arr);
    let mut results: MonteCarloResults = MonteCarloResults::new(width);
    let ghost thermalisation = thermalisation_steps as int;
    let ghost mut measured: Seq<Lattice> = Seq::empty();
    let mut m: usize = 0;
    while m < measurement_steps
        invariant
            0 <= m <= measurement_steps,
            thermalisation == thermalisation_steps,
            incremental == (start.rows >= 2 && start.columns >= 2),
            width == structure_width(start.columns, measure_struct_fact),
            spin_2d_arr.wf(),
            spin_2d_arr@.wf(),
            spin_2d_arr@.is_ising(),
            spin_2d_arr@.rows == start.rows,
            spin_2d_arr@.columns == start.columns,
            states.len() == thermalisation + m + 1,
            states[0] == start,
            states[thermalisation + m] == spin_2d_arr@,
            sweep_chain(table@, states),
            foretold_sweeps(table@, start, first_rng, (thermalisation + m) as nat) matches Some(
                told,
            ) ==> states == told.0 && *rng == told.1,
            measured == states.subrange(thermalisation, thermalisation + m),
            results@ == moments_of(measured, width as int),
            results.samples == m,
            results.column_correlation_sum@.len() == width,
            moments_bounded(results@),
            spin_sum == spin_2d_arr@.sum(),
            total_energy == coupling_energy(spin_2d_arr@),
            -0x7fff_ffff <= spin_sum <= 0x7fff_ffff,
            -0xffff_fffe <= total_energy <= 0xffff_fffe,
        decreases measurement_steps - m,
    {
        let ghost before = spin_2d_arr@;
        let correlations: Vec<i128> = if measure_struct_fact {
            column_correlations(spin_2d_arr)
        } else {
            Vec::new()
        };
        proof {
            assert forall|d: int| 0 <= d < correlations@.len() implies -0x3fff_ffff_0000_0001
                <= #[trigger] correlations@[d] <= 0x3fff_ffff_0000_0001 by {
                lemma_column_correlation_bounds(before, d, before.columns);
            }
            assert(Seq::new(correlations@.len(), |d: int| correlations@[d] as int)
                =~= correlations_of(before, width as int));
        }
        results.fold_measurement(spin_sum, total_energy, &correlations);
        let delta: SpinEnergyFluctuation = perform_metropolis_sweep(spin_2d_arr, rng, table);
        proof {
            lemma_sweep_totals(table@, before, spin_2d_arr@, delta);
            lemma_ising_sum_bounds(spin_2d_arr@.cells);
            lemma_coupling_energy_bounds(spin_2d_arr@, spin_2d_arr@.total());
        }
        spin_sum = spin_sum + delta.0;
        if incremental {
            total_energy = total_energy + delta.1;
        } else {
            total_energy = get_total_energy(spin_2d_arr);
        }
        proof {
            let longer = states.push(spin_2d_arr@);
            assert forall|u: int| 0 <= u < longer.len() - 1 implies sweep_related(
                table@,
                #[trigger] longer[u],
                longer[u + 1],
            ) by {
                if u < states.len() - 1 {
                    assert(longer[u] == states[u]);
                    assert(longer[u + 1] == states[u + 1]);
                } else {
                    assert(sweep_happened(table@, longer[u], longer[u + 1], delta));
                }
            }
            let more = measured.push(before);
            assert(more.drop_last() =~= measured);
            assert(more =~= longer.subrange(thermalisation, thermalisation + m + 1));
            states = longer;
            measured = more;
        }
        m = m + 1;
    }
    proof {
        assert(states.len() == thermalisation + measurement_steps + 1);
        assert(results@ == moments_of(
            states.subrange(thermalisation, thermalisation + measurement_steps),
            width as int,
        ));
    }
    results
}

/// One simulation of a fresh grid of the given extent with every spin up,
/// drawing from `rng`.
fn simulate_with(
    rows: i32,
    columns: i32,
    point: &TemperaturePoint,
    thermalisation_steps: usize,
    measurement_steps: usize,
    measure_struct_fact: bool,
    rng: Xoshiro256pp,
) -> (results: MonteCarloResults)
    requires
        valid_dimensions(rows as int, columns as int),
    ensures
        Some(results@) == foretold_moments(
            point.acceptance@,
            all_up(rows as int, columns as int),
            rng,
            thermalisation_steps as int,
            measurement_steps as int,
            structure_width(columns as int, measure_struct_fact),
        ),
        results.samples == measurement_steps,
{
    let mut my_rng: Xoshiro256pp = rng;
    match PeriodicArray2D::new_with(rows, columns, spin_up) {
        Ok(mut spin_2d_arr) => {
            proof {
                spin_2d_arr.lemma_wf();
                assert(spin_2d_arr@.cells =~= all_up(rows as int, columns as int).cells);
                lemma_xorshifts_foretell();
                lemma_foretold_sweeps_exist(
                    point.acceptance@,
                    spin_2d_arr@,
                    rng,
                    (thermalisation_steps + measurement_steps) as nat,
                );
            }
            run_simulation(
                &mut spin_2d_arr,
                &mut my_rng,
                &point.acceptance,
                thermalisation_steps,
                measurement_steps,
                measure_struct_fact,
            )
        },
        Err(_) => {
            proof {
                assert(false);
            }
            MonteCarloResults::default()
        },
    }
}

/// One simulation at one temperature, on a fresh grid of the given extent
/// with every spin up, drawing from the `Xoshiro256pp` made from `seed`.
pub fn simulate_temperature_seeded(
    rows: i32,
    columns: i32,
    point: &TemperaturePoint,
    thermalisation_steps: usize,
    measurement_steps: usize,
    measure_struct_fact: bool,
    seed: u64,
) -> (results: MonteCarloResults)
    requires
        valid_dimensions(rows as int, columns as int),
    ensures
        seed_simulated(
            rows as int,
            columns as int,
            point.acceptance@,
            thermalisation_steps as int,
            measurement_steps as int,
            measure_struct_fact,
            seed,
            results@,
        ),
        results.samples == measurement_steps,
{
    let rng: Xoshiro256pp = Xoshiro256pp::from_seed(seed);
    proof {
        rng.lemma_step();
    }
    simulate_with(
        rows,
        columns,
        point,
        thermalisation_steps,
        measurement_steps,
        measure_struct_fact,
        rng,
    )
}

/// One simulation at one temperature, on a fresh grid of the given extent
/// with every spin up, drawing from a `Xoshiro256pp` that the operating
/// system seeds.
pub fn simulate_temperature(
    rows: i32,
    columns: i32,
    point: &TemperaturePoint,
    thermalisation_steps: usize,
    measurement_steps: usize,
    measure_struct_fact: bool,
) -> (results: MonteCarloResults)
    requires
        valid_dimensions(rows as int, columns as int),
    ensures
        temperature_simulated(
            rows as int,
            columns as int,
            point.acceptance@,
            thermalisation_steps as int,
            measurement_steps as int,
            measure_struct_fact,
            results@,
        ),
        results.samples == measurement_steps,
{
    let rng: Xoshiro256pp = Xoshiro256pp::from_os();
    let results = simulate_with(
        rows,
        columns,
        point,
        thermalisation_steps,
        measurement_steps,
        measure_struct_fact,
        rng,
    );
    proof {
        rng.lemma_step();
        let seed = choose|seed: u64| rng@ == xoshiro256_seeded(seed);
        assert(seed_simulated(
            rows as int,
            columns as int,
            point.acceptance@,
            thermalisation_steps as int,
            measurement_steps as int,
            measure_struct_fact,
            seed,
            results@,
        ));
    }
    results
}

/// Hands the temperatures of `param` out to rayon's worker threads with
/// `par_iter`, `map` and `collect`. The contract claims what rayon documents
/// of collecting a mapped slice into a vector: there is one result for each
/// temperature, in the order of the temperatures, and each is what a call
/// of `simulate_temperature` on that temperature returned.
#[verifier::external_body]
fn simulate_each(rows: i32, columns: i32, param: &ExperimentParam) -> (results: Vec<
    MonteCarloResults,
>)
    requires
        valid_dimensions(rows as int, columns as int),
    ensures
        results@.len() == param.temperatures@.len(),
        forall|k: int|
            0 <= k < results@.len() ==> temperature_simulated(
                rows as int,
                columns as int,
                param.temperatures@[k].acceptance@,
                param.thermalisation_steps as int,
                param.measurement_steps as int,
                param.measure_struct_fact,
                (#[trigger] results@[k])@,
            ) && results@[k].samples == param.measurement_steps,
{
    param.temperatures.par_iter().map(
        |point|
            simulate_temperature(
                rows,
                columns,
                point,
                param.thermalisation_steps,
                param.measurement_steps,
                param.measure_struct_fact,
            ),
    ).collect()
}

/// Whether some temperature of the list is negative.
pub fn any_negative_temperature(temperatures: &Vec<TemperaturePoint>) -> (found: bool)
    ensures
        found == has_negative_temperature(temperatures@),
{
    let n: usize = temperatures.len();
    let mut k: usize = 0;
    while k < n
        invariant
            0 <= k <= n,
            n == temperatures@.len(),
            forall|m: int|
                0 <= m < k ==> !is_negative_temperature(#[trigger] temperatures@[m].temperature),
        decreases n - k,
    {
        if is_negative(temperatures[k].temperature) {
            return true;
        }
        k = k + 1;
    }
    false
}

/// The extent of a grid as `i32`, where it is one that a grid can have.
pub open spec fn dimensions_fit(rows: usize, columns: usize) -> bool {
    rows <= i32::MAX && columns <= i32::MAX && valid_dimensions(rows as int, columns as int)
}

/// Simulates a `rows` by `columns` grid at every temperature of `param`,
/// the temperatures in parallel, and returns the sums over the measurements
/// in the order of the temperatures.
///
/// Nothing is simulated if a temperature is negative or the extent is not
/// one that a grid can have.
pub fn perform_metropolis_computation_parallel(
    rows: usize,
    columns: usize,
    param: &ExperimentParam,
) -> (res: Result<Vec<MonteCarloResults>, CalculationError>)
    ensures
        match res {
            Err(CalculationError::NegativeTempError) => has_negative_temperature(
                param.temperatures@,
            ),
            Err(CalculationError::ArrayInitError(e)) => {
                &&& !has_negative_temperature(param.temperatures@)
                &&& !dimensions_fit(rows, columns)
                &&& dimension_error(e)
            },
            Ok(results) => {
                &&& !has_negative_temperature(param.temperatures@)
                &&& dimensions_fit(rows, columns)
                &&& results@.len() == param.temperatures@.len()
                &&& forall|k: int|
                    0 <= k < results@.len() ==> temperature_simulated(
                        rows as int,
                        columns as int,
                        param.temperatures@[k].acceptance@,
                        param.thermalisation_steps as int,
                        param.measurement_steps as int,
                        param.measure_struct_fact,
                        (#[trigger] results@[k])@,
                    ) && results@[k].samples == param.measurement_steps
            },
        },
{
    if any_negative_temperature(&param.temperatures) {
        return Err(CalculationError::NegativeTempError);
    }
    if rows > i32::MAX as usize || columns > i32::MAX as usize {
        return Err(CalculationError::ArrayInitError(PeriodicArrayError::invalid_dimensions()));
    }
    match PeriodicArray2D::get_total_elements_usize(rows as i32, columns as i32) {
        Ok(_) => Ok(simulate_each(rows as i32, columns as i32, param)),
        Err(e) => Err(CalculationError::ArrayInitError(e)),
    }
}

} // verus!
