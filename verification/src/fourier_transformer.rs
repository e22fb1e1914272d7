//! The first Fourier modes of the spin field, as far as integers go.
//!
//! The mode of wave number zero is the total spin divided by the square root
//! of the number of cells. The mode of the first wave number along a row,
//! `q = 2 pi / columns`, is the sum over the columns `x` of the column's sum
//! of spins times `exp(i q x)`, divided by the same square root. Its squared
//! magnitude is therefore
//!
//! ```text
//! (1 / cells) * sum over d in [0, columns) of correlation(d) * cos(q d)
//! ```
//!
//! where `correlation(d)` adds up, over the columns, the product of the sums
//! of two columns `d` apart. The sums and their correlations are integers,
//! and they are what this module computes.

use vstd::prelude::*;
use vstd::arithmetic::div_mod::lemma_mod_twice;
use crate::periodic_array_2d::{is_spin, lemma_index_in_range, Lattice, PeriodicArray2D};

verus! {

/// Sum of the spins of column `x` over the first `r` rows.
pub open spec fn column_sum_upto(l: Lattice, x: int, r: int) -> int
    decreases r,
{
    if r <= 0 {
        0
    } else {
        column_sum_upto(l, x, r - 1) + l.at(r - 1, x)
    }
}

/// Sum of the spins of column `x`, for any integer `x`.
pub open spec fn column_sum(l: Lattice, x: int) -> int {
    column_sum_upto(l, x, l.rows)
}

/// Sum, over the first `c` columns `x`, of the product of the sums of the
/// columns `x` and `x + d`.
pub open spec fn column_correlation_upto(l: Lattice, d: int, c: int) -> int
    decreases c,
{
    if c <= 0 {
        0
    } else {
        column_correlation_upto(l, d, c - 1) + column_sum(l, c - 1) * column_sum(l, c - 1 + d)
    }
}

/// Sum, over all columns `x`, of the product of the sums of the columns `x`
/// and `x + d`.
pub open spec fn column_correlation(l: Lattice, d: int) -> int {
    column_correlation_upto(l, d, l.columns)
}

/// A column's sum over `r` rows lies between `-128 r` and `127 r`, and
/// between `-r` and `r` where every spin is `+1` or `-1`.
pub proof fn lemma_column_sum_bounds(l: Lattice, x: int, r: int)
    requires
        l.wf(),
        0 <= r <= l.rows,
    ensures
        -128 * r <= column_sum_upto(l, x, r) <= 127 * r,
        l.is_ising() ==> -r <= column_sum_upto(l, x, r) <= r,
    decreases r,
{
    if r > 0 {
        lemma_column_sum_bounds(l, x, r - 1);
        lemma_index_in_range(l, r - 1, x);
        if l.is_ising() {
            assert(is_spin(l.cells[l.index(r - 1, x)]));
        }
    }
}

/// The columns repeat with the width of the grid.
pub proof fn lemma_column_sum_wraps(l: Lattice, x: int, r: int)
    requires
        l.wf(),
    ensures
        column_sum_upto(l, x, r) == column_sum_upto(l, x % l.columns, r),
    decreases r,
{
    if r > 0 {
        lemma_column_sum_wraps(l, x, r - 1);
        lemma_mod_twice(x, l.columns);
    }
}

/// The correlation of the columns of a grid of `+1` and `-1` lies between
/// minus and plus the number of cells times the number of rows.
pub proof fn lemma_column_correlation_bounds(l: Lattice, d: int, c: int)
    requires
        l.wf(),
        l.is_ising(),
        0 <= c <= l.columns,
    ensures
        -(c * (l.rows * l.rows)) <= column_correlation_upto(l, d, c) <= c * (l.rows * l.rows),
        c == l.columns ==> -0x3fff_ffff_0000_0001 <= column_correlation(l, d)
            <= 0x3fff_ffff_0000_0001,
    decreases c,
{
    let r = l.rows;
    if c > 0 {
        lemma_column_correlation_bounds(l, d, c - 1);
        lemma_column_sum_bounds(l, c - 1, r);
        lemma_column_sum_bounds(l, c - 1 + d, r);
        let a = column_sum(l, c - 1);
        let b = column_sum(l, c - 1 + d);
        assert(-(r * r) <= a * b <= r * r) by (nonlinear_arith)
            requires
                -r <= a <= r,
                -r <= b <= r,
        ;
        assert(c * (r * r) == (c - 1) * (r * r) + r * r) by (nonlinear_arith);
    }
    if c == l.columns {
        assert(c * (r * r) <= 0x3fff_ffff_0000_0001) by (nonlinear_arith)
            requires
                0 < r,
                0 < c,
                r * c <= 0x7fff_ffff,
        ;
    }
}

/// The sum of the spins of each column.
pub fn column_sums(spins: &PeriodicArray2D) -> (sums: Vec<i64>)
    requires
        spins.wf(),
    ensures
        sums@.len() == spins@.columns,
        forall|x: int| 0 <= x < sums@.len() ==> #[trigger] sums@[x] == column_sum(spins@, x),
{
    let rows: i32 = spins.rows();
    let columns: i32 = spins.columns();
    let ghost l = spins@;
    proof {
        spins.lemma_wf();
    }
    let mut sums: Vec<i64> = Vec::with_capacity(columns as usize);
    let mut x: i32 = 0;
    while x < columns
        invariant
            0 <= x <= columns,
            rows == l.rows,
            columns == l.columns,
            l == spins@,
            l.wf(),
            spins.wf(),
            sums@.len() == x,
            forall|k: int| 0 <= k < x ==> #[trigger] sums@[k] == column_sum(l, k),
        decreases columns - x,
    {
        let mut total: i64 = 0;
        let mut y: i32 = 0;
        while y < rows
            invariant
                0 <= y <= rows,
                0 <= x < columns,
                rows == l.rows,
                columns == l.columns,
                l == spins@,
                l.wf(),
                spins.wf(),
                total == column_sum_upto(l, x as int, y as int),
            decreases rows - y,
        {
            proof {
                lemma_column_sum_bounds(l, x as int, y as int);
            }
            total = total + spins.at_unchecked(y, x) as i64;
            y = y + 1;
        }
        sums.push(total);
        x = x + 1;
    }
    sums
}

/// For each distance `d` below the number of columns, the sum over the
/// columns of the product of the sums of two columns `d` apart.
pub fn column_correlations(spins: &PeriodicArray2D) -> (correlations: Vec<i128>)
    requires
        spins.wf(),
    ensures
        correlations@.len() == spins@.columns,
        forall|d: int|
            0 <= d < correlations@.len() ==> #[trigger] correlations@[d] == column_correlation(
                spins@,
                d,
            ),
{
    let sums: Vec<i64> = column_sums(spins);
    let columns: usize = sums.len();
    let ghost l = spins@;
    proof {
        spins.lemma_wf();
    }
    let mut correlations: Vec<i128> = Vec::with_capacity(columns);
    let mut d: usize = 0;
    while d < columns
        invariant
            0 <= d <= columns,
            columns == l.columns,
            columns <= i32::MAX,
            l.rows <= i32::MAX,
            l.wf(),
            sums@.len() == columns,
            forall|x: int| 0 <= x < columns ==> #[trigger] sums@[x] == column_sum(l, x),
            correlations@.len() == d,
            forall|k: int| 0 <= k < d ==> #[trigger] correlations@[k] == column_correlation(l, k),
        decreases columns - d,
    {
        let mut total: i128 = 0;
        let mut x: usize = 0;
        while x < columns
            invariant
                0 <= x <= columns,
                0 <= d < columns,
                columns == l.columns,
                columns <= i32::MAX,
                l.rows <= i32::MAX,
                l.wf(),
                sums@.len() == columns,
                forall|k: int| 0 <= k < columns ==> #[trigger] sums@[k] == column_sum(l, k),
                total == column_correlation_upto(l, d as int, x as int),
                -0x1_0000_0000_0000_0000_0000 * x <= total <= 0x1_0000_0000_0000_0000_0000 * x,
            decreases columns - x,
        {
            let partner: usize = if x + d >= columns {
                x + d - columns
            } else {
                x + d
            };
            let a: i128 = sums[x] as i128;
            let b: i128 = sums[partner] as i128;
            proof {
                lemma_column_sum_bounds(l, x as int, l.rows);
                lemma_column_sum_bounds(l, partner as int, l.rows);
                lemma_column_sum_wraps(l, x + d, l.rows);
                if x + d >= columns {
                    vstd::arithmetic::div_mod::lemma_fundamental_div_mod_converse(
                        x + d,
                        columns as int,
                        1,
                        partner as int,
                    );
                } else {
                    vstd::arithmetic::div_mod::lemma_small_mod((x + d) as nat, columns as nat);
                }
                assert(b == column_sum(l, x + d));
                assert(-0x1_0000_0000_0000_0000_0000 <= a * b <= 0x1_0000_0000_0000_0000_0000)
                    by (nonlinear_arith)
                    requires
                        -0x40_0000_0000 <= a <= 0x40_0000_0000,
                        -0x40_0000_0000 <= b <= 0x40_0000_0000,
                ;
            }
            total = total + a * b;
            x = x + 1;
        }
        correlations.push(total);
        d = d + 1;
    }
    correlations
}

} // verus!
