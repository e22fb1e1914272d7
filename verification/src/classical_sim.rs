//! The magnetization of one grid at a list of temperatures, one after the
//! other, measured between single proposals.

use vstd::prelude::*;
use crate::array_rng_interface::ArrayRngInterface;
use crate::ising_calculation::{
    any_negative_temperature,
    has_negative_temperature,
    TemperaturePoint,
};
use crate::monte_carlo::ising_state::{thermal_lattice, thermalise};
use crate::monte_carlo::metropolis::{
    foretold_proposal,
    foretold_trace,
    perform_metropolis_proposal,
    proposal_happened,
    trace_admissible,
    trace_lattice,
    Acceptance,
    AcceptanceTable,
    Proposal,
};
use crate::monte_carlo::{MonteCarloRngInterface, SpinEnergyFluctuation};
use crate::os_based_rng::OsBasedRng;
use crate::periodic_array_2d::{
    dimension_error,
    lemma_ising_sum_bounds,
    valid_dimensions,
    Lattice,
    PeriodicArray2D,
};

pub use crate::ising_calculation::CalculationError;

verus! {

/// What to simulate.
pub struct ExperimentParam {
    /// The temperatures, in the order in which the results are wanted.
    pub temperatures: Vec<TemperaturePoint>,
    /// A measurement is taken after every proposal whose number, counted
    /// from zero, is a multiple of this.
    pub steps_between_measures: usize,
    /// Number of proposals before the first measurement.
    pub thermalisation_steps: usize,
    /// Number of proposals during which measurements are taken.
    pub measurement_steps: usize,
}

/// The measurements at one temperature.
#[derive(Clone, Copy, Debug)]
pub struct MagnetizationSum {
    /// Sum of the absolute values of the total spin at the measurements.
    pub spins_abs_sum: u128,
    /// The number by which the sum is to be divided: the number of
    /// measurement steps divided by the steps between measures, rounded
    /// down.
    pub number_of_measures: usize,
}

/// The absolute value of `x`.
pub open spec fn magnitude(x: int) -> int {
    if x < 0 {
        -x
    } else {
        x
    }
}

/// Sum of the absolute total spins that are measured during the first
/// `steps` measurement proposals: the proposals of `trace` are made on
/// `start` one after the other, the first `offset` of them without
/// measuring, and after each later one whose number, counted from zero
/// behind the offset, is a multiple of `every`, the total spin is measured.
pub open spec fn measured_abs_spin(
    start: Lattice,
    trace: Seq<Proposal>,
    offset: int,
    steps: int,
    every: int,
) -> int
    decreases steps,
{
    if steps <= 0 {
        0
    } else {
        let n = steps - 1;
        measured_abs_spin(start, trace, offset, n, every) + if n % every == 0 {
            magnitude(trace_lattice(start, trace.take(offset + n + 1)).sum())
        } else {
            0
        }
    }
}

/// The measured sum depends only on the proposals that were made before the
/// last measurement.
pub proof fn lemma_measured_prefix(
    start: Lattice,
    shorter: Seq<Proposal>,
    longer: Seq<Proposal>,
    offset: int,
    steps: int,
    every: int,
)
    requires
        0 <= offset,
        0 <= steps,
        offset + steps <= shorter.len() <= longer.len(),
        shorter == longer.take(shorter.len() as int),
    ensures
        measured_abs_spin(start, shorter, offset, steps, every) == measured_abs_spin(
            start,
            longer,
            offset,
            steps,
            every,
        ),
    decreases steps,
{
    if steps > 0 {
        let n = steps - 1;
        lemma_measured_prefix(start, shorter, longer, offset, n, every);
        assert(shorter.take(offset + n + 1) =~= longer.take(offset + n + 1));
    }
}

/// A measurement run took the grid from `start` to `end` and measured
/// `sum`: `offset + steps` admissible proposals, with the measurements of
/// `measured_abs_spin`.
pub open spec fn magnetization_measured(
    table: Seq<Acceptance>,
    start: Lattice,
    offset: int,
    steps: int,
    every: int,
    end: Lattice,
    sum: int,
) -> bool {
    exists|trace: Seq<Proposal>|
        {
            &&& trace.len() == offset + steps
            &&& trace_admissible(table, start, trace)
            &&& end == trace_lattice(start, trace)
            &&& sum == measured_abs_spin(start, trace, offset, steps, every)
        }
}

/// Makes `thermalisation_steps` proposals without measuring, then
/// `measurement_steps` proposals, and adds up the absolute value of the
/// total spin after every proposal of the second kind whose number,
/// counted from zero, is a multiple of `steps_between_measures`.
pub fn measure_magnetization<R>(
    spin_2d_arr: &mut PeriodicArray2D,
    rng: &mut R,
    table: &AcceptanceTable,
    thermalisation_steps: usize,
    measurement_steps: usize,
    steps_between_measures: usize,
) -> (sum: u128) where R: MonteCarloRngInterface + ArrayRngInterface
    requires
        old(spin_2d_arr).wf(),
        old(spin_2d_arr)@.is_ising(),
        steps_between_measures > 0,
    ensures
        final(spin_2d_arr).wf(),
        final(spin_2d_arr)@.is_ising(),
        final(spin_2d_arr)@.rows == old(spin_2d_arr)@.rows,
        final(spin_2d_arr)@.columns == old(spin_2d_arr)@.columns,
        magnetization_measured(
            table@,
            old(spin_2d_arr)@,
            thermalisation_steps as int,
            measurement_steps as int,
            steps_between_measures as int,
            final(spin_2d_arr)@,
            sum as int,
        ),
        foretold_trace(
            table@,
            old(spin_2d_arr)@,
            *old(rng),
            (thermalisation_steps + measurement_steps) as nat,
        ) matches Some(told) ==> final(spin_2d_arr)@ == trace_lattice(old(spin_2d_arr)@, told.0)
            && *final(rng) == told.1 && sum == measured_abs_spin(
            old(spin_2d_arr)@,
            told.0,
            thermalisation_steps as int,
            measurement_steps as int,
            steps_between_measures as int,
        ),
{
    let ghost start = spin_2d_arr@;
    let ghost first_rng = *rng;
    let ghost mut trace: Seq<Proposal> = Seq::empty();
    proof {
        spin_2d_arr.lemma_wf();
    }
    let mut t: usize = 0;
    while t < thermalisation_steps
        invariant
            0 <= t <= thermalisation_steps,
            start.wf(),
            start.is_ising(),
            spin_2d_arr.wf(),
            spin_2d_arr@.is_ising(),
            spin_2d_arr@.rows == start.rows,
            spin_2d_arr@.columns == start.columns,
            start == old(spin_2d_arr)@,
            trace.len() == t,
            trace_admissible(table@, start, trace),
            spin_2d_arr@ == trace_lattice(start, trace),
            foretold_trace(table@, start, first_rng, t as nat) matches Some(told) ==> trace
                == told.0 && *rng == told.1,
        decreases thermalisation_steps - t,
    {
        let ghost before = spin_2d_arr@;
        let ghost told = foretold_proposal(table@, before, *rng);
        let step: SpinEnergyFluctuation = perform_metropolis_proposal(spin_2d_arr, rng, table);
        proof {
            let p = if told is Some {
                told->Some_0.0
            } else {
                choose|p: Proposal| proposal_happened(table@, before, p, spin_2d_arr@, step)
            };
            let longer = trace.push(p);
            assert(longer.drop_last() =~= trace);
            trace = longer;
        }
        t = t + 1;
    }
    proof {
        spin_2d_arr.lemma_wf();
        lemma_ising_sum_bounds(spin_2d_arr@.cells);
    }
    let ghost offset = thermalisation_steps as int;
    let ghost every = steps_between_measures as int;
    let mut spin_sum: i64 = spin_2d_arr.sum();
    let mut sum: u128 = 0;
    let mut n: usize = 0;
    while n < measurement_steps
        invariant
            0 <= n <= measurement_steps,
            offset == thermalisation_steps,
            every == steps_between_measures,
            every > 0,
            spin_2d_arr.wf(),
            spin_2d_arr@.wf(),
            spin_2d_arr@.is_ising(),
            spin_2d_arr@.rows == start.rows,
            spin_2d_arr@.columns == start.columns,
            start == old(spin_2d_arr)@,
            start.wf(),
            start.is_ising(),
            trace.len() == offset + n,
            trace_admissible(table@, start, trace),
            spin_2d_arr@ == trace_lattice(start, trace),
            foretold_trace(table@, start, first_rng, (offset + n) as nat) matches Some(told)
                ==> trace == told.0 && *rng == told.1,
            spin_sum == spin_2d_arr@.sum(),
            -0x7fff_ffff <= spin_sum <= 0x7fff_ffff,
            sum == measured_abs_spin(start, trace, offset, n as int, every),
            sum <= 0x7fff_ffff * n,
        decreases measurement_steps - n,
    {
        let ghost before = spin_2d_arr@;
        let ghost shorter = trace;
        let ghost told = foretold_proposal(table@, before, *rng);
        let step: SpinEnergyFluctuation = perform_metropolis_proposal(spin_2d_arr, rng, table);
        proof {
            let p = if told is Some {
                told->Some_0.0
            } else {
                choose|p: Proposal| proposal_happened(table@, before, p, spin_2d_arr@, step)
            };
            let longer = trace.push(p);
            assert(longer.drop_last() =~= trace);
            assert(longer.take(trace.len() as int) =~= trace);
            assert(longer.take(offset + n + 1) =~= longer);
            lemma_measured_prefix(start, shorter, longer, offset, n as int, every);
            trace = longer;
            spin_2d_arr.lemma_wf();
            lemma_ising_sum_bounds(spin_2d_arr@.cells);
        }
        spin_sum = spin_sum + step.0;
        if n % steps_between_measures == 0 {
            let size: i64 = if spin_sum < 0 {
                -spin_sum
            } else {
                spin_sum
            };
            sum = sum + size as u128;
        }
        n = n + 1;
    }
    sum
}

/// At one temperature of `param`, a simulation of a `rows` by `columns`
/// grid measured `result`: it began with some grid of `+1` and `-1`.
pub open spec fn magnetization_simulated(
    rows: int,
    columns: int,
    param: &ExperimentParam,
    k: int,
    result: MagnetizationSum,
) -> bool {
    &&& result.number_of_measures == param.measurement_steps as int
        / param.steps_between_measures as int
    &&& exists|start: Lattice, end: Lattice|
        {
            &&& start.wf()
            &&& start.is_ising()
            &&& start.rows == rows
            &&& start.columns == columns
            &&& #[trigger] magnetization_measured(
                param.temperatures@[k].acceptance@,
                start,
                param.thermalisation_steps as int,
                param.measurement_steps as int,
                param.steps_between_measures as int,
                end,
                result.spins_abs_sum as int,
            )
        }
}

/// Simulates a `rows` by `columns` grid at every temperature of `param`,
/// one after the other, and returns the measurements in the order of the
/// temperatures. At each temperature the grid is first given spins drawn at
/// random.
///
/// Nothing is simulated if a temperature is negative or the extent is not
/// one that a grid can have.
pub fn perform_magnetization_computation(rows: i32, columns: i32, param: &ExperimentParam) -> (res:
    Result<Vec<MagnetizationSum>, CalculationError>)
    requires
        !has_negative_temperature(param.temperatures@) && valid_dimensions(
            rows as int,
            columns as int,
        ) ==> param.steps_between_measures > 0,
    ensures
        match res {
            Err(CalculationError::NegativeTempError) => has_negative_temperature(
                param.temperatures@,
            ),
            Err(CalculationError::ArrayInitError(e)) => {
                &&& !has_negative_temperature(param.temperatures@)
                &&& !valid_dimensions(rows as int, columns as int)
                &&& dimension_error(e)
            },
            Ok(results) => {
                &&& !has_negative_temperature(param.temperatures@)
                &&& valid_dimensions(rows as int, columns as int)
                &&& results@.len() == param.temperatures@.len()
                &&& forall|k: int|
                    0 <= k < results@.len() ==> magnetization_simulated(
                        rows as int,
                        columns as int,
                        param,
                        k,
                        #[trigger] results@[k],
                    )
            },
        },
{
    let mut my_rng: OsBasedRng = OsBasedRng::new();
    if any_negative_temperature(&param.temperatures) {
        return Err(CalculationError::NegativeTempError);
    }
    let mut spin_2d_arr: PeriodicArray2D = match thermal_lattice(rows, columns, &mut my_rng) {
        Ok(v) => v,
        Err(e) => {
            return Err(CalculationError::ArrayInitError(e));
        },
    };
    let number_of_measures: usize = param.measurement_steps / param.steps_between_measures;
    let mut magnetizations: Vec<MagnetizationSum> = Vec::new();
    let count: usize = param.temperatures.len();
    let mut k: usize = 0;
    while k < count
        invariant
            0 <= k <= count,
            count == param.temperatures@.len(),
            param.steps_between_measures > 0,
            number_of_measures == param.measurement_steps as int
                / param.steps_between_measures as int,
            spin_2d_arr.wf(),
            spin_2d_arr@.rows == rows,
            spin_2d_arr@.columns == columns,
            magnetizations@.len() == k,
            forall|m: int|
                0 <= m < k ==> magnetization_simulated(
                    rows as int,
                    columns as int,
                    param,
                    m,
                    #[trigger] magnetizations@[m],
                ),
        decreases count - k,
    {
        thermalise(&mut spin_2d_arr, &mut my_rng);
        let ghost start = spin_2d_arr@;
        proof {
            spin_2d_arr.lemma_wf();
        }
        let spins_abs_sum: u128 = measure_magnetization(
            &mut spin_2d_arr,
            &mut my_rng,
            &param.temperatures[k].acceptance,
            param.thermalisation_steps,
            param.measurement_steps,
            param.steps_between_measures,
        );
        let result = MagnetizationSum { spins_abs_sum, number_of_measures };
        proof {
            assert(magnetization_measured(
                param.temperatures@[k as int].acceptance@,
                start,
                param.thermalisation_steps as int,
                param.measurement_steps as int,
                param.steps_between_measures as int,
                spin_2d_arr@,
                result.spins_abs_sum as int,
            ));
        }
        magnetizations.push(result);
        k = k + 1;
    }
    Ok(magnetizations)
}

} // verus!
