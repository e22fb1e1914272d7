//! Initial values for the cells of a spin grid.

use vstd::prelude::*;
use crate::monte_carlo::{MonteCarloRngInterface, UNIT_SCALE};
use crate::periodic_array_2d::{
    is_spin,
    lemma_index_decompose,
    lemma_index_in_range,
    valid_dimensions,
    dimension_error,
    PeriodicArray2D,
    PeriodicArrayError,
};

verus! {

/// The spin that points up.
pub const SPINUP: i8 = 1i8;

/// The spin that points down.
pub const SPINDOWN: i8 = -1i8;

/// The spin that points up.
pub fn spin_up() -> (s: i8)
    ensures
        s == SPINUP,
{
    SPINUP
}

/// The spin that points down.
pub fn spin_down() -> (s: i8)
    ensures
        s == SPINDOWN,
{
    SPINDOWN
}

/// The spin that the fraction `numerator / UNIT_SCALE` selects: up below one
/// half, down from one half on.
pub open spec fn thermal_spin(numerator: u64) -> i8 {
    if 2 * numerator < UNIT_SCALE {
        SPINUP
    } else {
        SPINDOWN
    }
}

/// The spin that a drawn fraction selects: up below one half, down from
/// one half on.
pub fn spin_of_unit(numerator: u64) -> (s: i8)
    requires
        numerator < UNIT_SCALE,
    ensures
        s == thermal_spin(numerator),
{
    if numerator < UNIT_SCALE / 2 {
        SPINUP
    } else {
        SPINDOWN
    }
}

/// A spin drawn at random: one number is drawn from `rng`, and the spin is
/// up if it is below one half and down otherwise.
pub fn thermal_state<R: MonteCarloRngInterface>(rng: &mut R) -> (s: i8)
    ensures
        s == SPINUP || s == SPINDOWN,
        old(rng).next_unit() matches Some(next) ==> s == thermal_spin(next.0) && *final(rng)
            == next.1,
{
    let numerator: u64 = rng.generate_rand_unit();
    spin_of_unit(numerator)
}

/// The first `n` spins that `thermal_state` draws from the generator
/// `rng`, and the generator as the draws leave it, where the generator
/// determines its draws.
pub open spec fn foretold_spins<R: MonteCarloRngInterface>(rng: R, n: nat) -> Option<(Seq<i8>, R)>
    decreases n,
{
    if n == 0 {
        Some((Seq::empty(), rng))
    } else {
        match foretold_spins(rng, (n - 1) as nat) {
            None => None,
            Some(earlier) => match earlier.1.next_unit() {
                None => None,
                Some(draw) => Some((earlier.0.push(thermal_spin(draw.0)), draw.1)),
            },
        }
    }
}

/// Gives every cell of the grid, row by row, a spin drawn with
/// `thermal_state`.
pub fn thermalise<R: MonteCarloRngInterface>(spin_2d_arr: &mut PeriodicArray2D, rng: &mut R)
    requires
        old(spin_2d_arr).wf(),
    ensures
        final(spin_2d_arr).wf(),
        final(spin_2d_arr)@.rows == old(spin_2d_arr)@.rows,
        final(spin_2d_arr)@.columns == old(spin_2d_arr)@.columns,
        final(spin_2d_arr)@.is_ising(),
        foretold_spins(*old(rng), old(spin_2d_arr)@.total() as nat) matches Some(told)
            ==> final(spin_2d_arr)@.cells == told.0 && *final(rng) == told.1,
{
    let rows: i32 = spin_2d_arr.rows();
    let columns: i32 = spin_2d_arr.columns();
    let ghost first_rng = *rng;
    proof {
        spin_2d_arr.lemma_wf();
    }
    let mut i: i32 = 0;
    while i < rows
        invariant
            0 <= i <= rows,
            foretold_spins(first_rng, (i * columns) as nat) matches Some(told)
                ==> spin_2d_arr@.cells.take(i * columns) == told.0 && *rng == told.1,
            spin_2d_arr.wf(),
            spin_2d_arr@.wf(),
            spin_2d_arr@.rows == rows,
            spin_2d_arr@.columns == columns,
            rows == old(spin_2d_arr)@.rows,
            columns == old(spin_2d_arr)@.columns,
            forall|k: int| 0 <= k < i * columns ==> is_spin(#[trigger] spin_2d_arr@.cells[k]),
        decreases rows - i,
    {
        let mut j: i32 = 0;
        while j < columns
            invariant
                0 <= i < rows,
                0 <= j <= columns,
                spin_2d_arr.wf(),
                spin_2d_arr@.wf(),
                spin_2d_arr@.rows == rows,
                spin_2d_arr@.columns == columns,
                forall|k: int|
                    0 <= k < i * columns + j ==> is_spin(#[trigger] spin_2d_arr@.cells[k]),
                foretold_spins(first_rng, (i * columns + j) as nat) matches Some(told)
                    ==> spin_2d_arr@.cells.take(i * columns + j) == told.0 && *rng == told.1,
            decreases columns - j,
        {
            let ghost before = spin_2d_arr@.cells;
            let spin: i8 = thermal_state(rng);
            proof {
                lemma_index_decompose(spin_2d_arr@, i as int, j as int);
                lemma_index_in_range(spin_2d_arr@, i as int, j as int);
                assert(0 <= i * columns + j) by (nonlinear_arith)
                    requires
                        0 <= i,
                        0 <= j,
                        0 <= columns,
                ;
            }
            spin_2d_arr.write(i, j, spin);
            proof {
                spin_2d_arr.lemma_wf();
                let k = i * columns + j;
                assert(spin_2d_arr@.cells.take(k + 1) =~= before.take(k).push(spin));
            }
            j = j + 1;
        }
        proof {
            assert(i * columns + columns == (i + 1) * columns) by (nonlinear_arith);
        }
        i = i + 1;
    }
    proof {
        assert(spin_2d_arr@.cells.take(rows * columns) =~= spin_2d_arr@.cells);
    }
}

/// A `rows` by `columns` grid whose spins are drawn, row by row, with
/// `thermal_state`. Fails exactly when the extents are not valid; nothing
/// is drawn then.
pub fn thermal_lattice<R: MonteCarloRngInterface>(rows: i32, columns: i32, rng: &mut R) -> (res:
    Result<PeriodicArray2D, PeriodicArrayError>)
    ensures
        res is Ok <==> valid_dimensions(rows as int, columns as int),
        res is Ok ==> {
            let a = res->Ok_0;
            &&& a.wf()
            &&& a@.rows == rows
            &&& a@.columns == columns
            &&& a@.is_ising()
            &&& foretold_spins(*old(rng), (rows * columns) as nat) matches Some(told)
                ==> a@.cells == told.0 && *final(rng) == told.1
        },
        res is Err ==> dimension_error(res->Err_0) && *final(rng) == *old(rng),
{
    match PeriodicArray2D::new_with(rows, columns, spin_up) {
        Ok(mut spin_2d_arr) => {
            thermalise(&mut spin_2d_arr, rng);
            Ok(spin_2d_arr)
        },
        Err(e) => Err(e),
    }
}

} // verus!
