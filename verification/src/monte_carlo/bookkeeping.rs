//! Why the running totals of a simulation stay exact.
//!
//! A step of the dynamics reports the changes that it makes to the total
//! spin and to the coupling energy, so that the totals can be kept up by
//! adding instead of being recomputed from all cells. The lemmas here show
//! when the reported changes are the true ones: of the total spin always, of
//! the coupling energy on every grid with at least two rows and two columns.

use vstd::prelude::*;
use vstd::arithmetic::div_mod::{
    lemma_fundamental_div_mod,
    lemma_fundamental_div_mod_converse,
    lemma_small_mod,
};
use crate::monte_carlo::metropolis::{
    accepts_everything,
    bond_sum,
    bond_term,
    class_index,
    coupling_energy,
    flip_energy_delta,
    lemma_flip_keeps_ising,
    lemma_neighbour_sum_class,
    neighbour_sum,
    rejects_uphill,
    sweep_happened,
    trace_happened,
    trace_admissible,
    trace_energy_delta,
    trace_lattice,
    trace_spin_delta,
    Acceptance,
    Proposal,
};
use crate::monte_carlo::SpinEnergyFluctuation;
use crate::periodic_array_2d::{is_spin, lemma_index_decompose, lemma_index_in_range, Lattice};

verus! {

/// The remainder of the successor: one more, or back to zero at the end.
pub proof fn lemma_mod_successor(x: int, n: int)
    requires
        0 < n,
    ensures
        (x + 1) % n == if x % n + 1 < n {
            x % n + 1
        } else {
            0
        },
{
    let q = x / n;
    let r = x % n;
    lemma_fundamental_div_mod(x, n);
    if r + 1 < n {
        assert(x + 1 == q * n + (r + 1)) by (nonlinear_arith)
            requires
                x == n * q + r,
        ;
        lemma_fundamental_div_mod_converse(x + 1, n, q, r + 1);
    } else {
        assert(x + 1 == (q + 1) * n + 0) by (nonlinear_arith)
            requires
                x == n * q + r,
                r + 1 == n,
        ;
        lemma_fundamental_div_mod_converse(x + 1, n, q + 1, 0);
    }
}

/// The remainder of the predecessor: one less, or the last one from zero.
pub proof fn lemma_mod_predecessor(x: int, n: int)
    requires
        0 < n,
    ensures
        (x - 1) % n == if x % n >= 1 {
            x % n - 1
        } else {
            n - 1
        },
{
    let q = x / n;
    let r = x % n;
    lemma_fundamental_div_mod(x, n);
    if r >= 1 {
        assert(x - 1 == q * n + (r - 1)) by (nonlinear_arith)
            requires
                x == n * q + r,
        ;
        lemma_fundamental_div_mod_converse(x - 1, n, q, r - 1);
    } else {
        assert(x - 1 == (q - 1) * n + (n - 1)) by (nonlinear_arith)
            requires
                x == n * q + r,
                r == 0,
        ;
        lemma_fundamental_div_mod_converse(x - 1, n, q - 1, n - 1);
    }
}

/// A row and a column inside the grid are determined by the linear
/// position they give.
pub proof fn lemma_position_unique(columns: int, a1: int, b1: int, a2: int, b2: int)
    requires
        0 < columns,
        0 <= b1 < columns,
        0 <= b2 < columns,
        a1 * columns + b1 == a2 * columns + b2,
    ensures
        a1 == a2,
        b1 == b2,
{
    lemma_fundamental_div_mod_converse(a1 * columns + b1, columns, a1, b1);
    lemma_fundamental_div_mod_converse(a2 * columns + b2, columns, a2, b2);
}

/// The position that `(i, j)` names, written with the wrapped coordinates.
pub proof fn lemma_index_wrapped(l: Lattice, i: int, j: int)
    requires
        l.wf(),
    ensures
        l.index(i, j) == (i % l.rows) * l.columns + (j % l.columns),
        l.index(i % l.rows, j % l.columns) == l.index(i, j),
        l.index(i, j) / l.columns == i % l.rows,
        l.index(i, j) % l.columns == j % l.columns,
{
    lemma_index_in_range(l, i, j);
    lemma_index_decompose(l, i % l.rows, j % l.columns);
}

/// A cell and its four neighbours are the same whether they are named by
/// `(i, j)` or by the wrapped coordinates.
pub proof fn lemma_neighbours_wrapped(l: Lattice, i: int, j: int)
    requires
        l.wf(),
    ensures
        l.at(i % l.rows, j % l.columns) == l.at(i, j),
        l.at(i % l.rows - 1, j % l.columns) == l.at(i - 1, j),
        l.at(i % l.rows + 1, j % l.columns) == l.at(i + 1, j),
        l.at(i % l.rows, j % l.columns - 1) == l.at(i, j - 1),
        l.at(i % l.rows, j % l.columns + 1) == l.at(i, j + 1),
        neighbour_sum(l, i % l.rows, j % l.columns) == neighbour_sum(l, i, j),
{
    let r = i % l.rows;
    let c = j % l.columns;
    vstd::arithmetic::div_mod::lemma_mod_twice(i, l.rows);
    vstd::arithmetic::div_mod::lemma_mod_twice(j, l.columns);
    lemma_mod_successor(i, l.rows);
    lemma_mod_successor(r, l.rows);
    lemma_mod_predecessor(i, l.rows);
    lemma_mod_predecessor(r, l.rows);
    lemma_mod_successor(j, l.columns);
    lemma_mod_successor(c, l.columns);
    lemma_mod_predecessor(j, l.columns);
    lemma_mod_predecessor(c, l.columns);
}

/// What flipping the spin at `(i, j)` adds to the bond term of the cell at
/// linear position `k`: something for the flipped cell itself, for the cell
/// one row before it and for the cell one column before it, and nothing
/// for any other cell.
pub open spec fn bond_term_change(l: Lattice, i: int, j: int, k: int) -> int {
    let s = l.at(i, j) as int;
    (if k == l.index(i, j) {
        -2 * s * (l.at(i + 1, j) + l.at(i, j + 1))
    } else {
        0
    }) + (if k == l.index(i - 1, j) {
        -2 * s * l.at(i - 1, j)
    } else {
        0
    }) + (if k == l.index(i, j - 1) {
        -2 * s * l.at(i, j - 1)
    } else {
        0
    })
}

/// The sum of `bond_term_change` over the first `n` cells.
pub open spec fn bond_sum_change(l: Lattice, i: int, j: int, n: int) -> int {
    let s = l.at(i, j) as int;
    (if l.index(i, j) < n {
        -2 * s * (l.at(i + 1, j) + l.at(i, j + 1))
    } else {
        0
    }) + (if l.index(i - 1, j) < n {
        -2 * s * l.at(i - 1, j)
    } else {
        0
    }) + (if l.index(i, j - 1) < n {
        -2 * s * l.at(i, j - 1)
    } else {
        0
    })
}

/// On a grid with at least two rows and two columns, a cell, the cell one
/// row before it and the cell one column before it are three different
/// cells, and the cell is not its own neighbour.
pub proof fn lemma_neighbours_distinct(l: Lattice, i: int, j: int)
    requires
        l.wf(),
        l.rows >= 2,
        l.columns >= 2,
    ensures
        l.index(i - 1, j) != l.index(i, j),
        l.index(i + 1, j) != l.index(i, j),
        l.index(i, j - 1) != l.index(i, j),
        l.index(i, j + 1) != l.index(i, j),
        l.index(i - 1, j) != l.index(i, j - 1),
{
    lemma_index_in_range(l, i, j);
    lemma_index_in_range(l, i - 1, j);
    lemma_index_in_range(l, i + 1, j);
    lemma_index_in_range(l, i, j - 1);
    lemma_index_in_range(l, i, j + 1);
    lemma_mod_successor(i, l.rows);
    lemma_mod_predecessor(i, l.rows);
    lemma_mod_successor(j, l.columns);
    lemma_mod_predecessor(j, l.columns);
    let c = l.columns;
    if l.index(i - 1, j) == l.index(i, j) {
        lemma_position_unique(c, (i - 1) % l.rows, j % c, i % l.rows, j % c);
    }
    if l.index(i + 1, j) == l.index(i, j) {
        lemma_position_unique(c, (i + 1) % l.rows, j % c, i % l.rows, j % c);
    }
    if l.index(i, j - 1) == l.index(i, j) {
        lemma_position_unique(c, i % l.rows, (j - 1) % c, i % l.rows, j % c);
    }
    if l.index(i, j + 1) == l.index(i, j) {
        lemma_position_unique(c, i % l.rows, (j + 1) % c, i % l.rows, j % c);
    }
    if l.index(i - 1, j) == l.index(i, j - 1) {
        lemma_position_unique(c, (i - 1) % l.rows, j % c, i % l.rows, (j - 1) % c);
    }
}

/// The cell whose neighbour one row further is the cell at `(i, j)` is the
/// cell at `(i - 1, j)` and no other; likewise for columns.
pub proof fn lemma_who_points_here(l: Lattice, i: int, j: int, k: int)
    requires
        l.wf(),
        0 <= k < l.total(),
    ensures
        l.index(k / l.columns + 1, k % l.columns) == l.index(i, j) <==> k == l.index(i - 1, j),
        l.index(k / l.columns, k % l.columns + 1) == l.index(i, j) <==> k == l.index(i, j - 1),
{
    let r = l.rows;
    let c = l.columns;
    let ki = k / c;
    let kj = k % c;
    lemma_fundamental_div_mod(k, c);
    assert(0 <= ki < r) by (nonlinear_arith)
        requires
            k == c * ki + kj,
            0 <= kj < c,
            0 <= k < r * c,
    ;
    assert(k == ki * c + kj) by (nonlinear_arith)
        requires
            k == c * ki + kj,
    ;
    lemma_small_mod(ki as nat, r as nat);
    lemma_small_mod(kj as nat, c as nat);
    lemma_index_in_range(l, i, j);
    lemma_index_in_range(l, i - 1, j);
    lemma_index_in_range(l, i, j - 1);
    lemma_index_in_range(l, ki + 1, kj);
    lemma_index_in_range(l, ki, kj + 1);
    lemma_mod_successor(ki, r);
    lemma_mod_successor(kj, c);
    lemma_mod_predecessor(i, r);
    lemma_mod_predecessor(j, c);
    // rows
    if l.index(ki + 1, kj) == l.index(i, j) {
        lemma_position_unique(c, (ki + 1) % r, kj % c, i % r, j % c);
    }
    if k == l.index(i - 1, j) {
        lemma_position_unique(c, ki, kj, (i - 1) % r, j % c);
    }
    // columns
    if l.index(ki, kj + 1) == l.index(i, j) {
        lemma_position_unique(c, ki % r, (kj + 1) % c, i % r, j % c);
    }
    if k == l.index(i, j - 1) {
        lemma_position_unique(c, ki, kj, i % r, (j - 1) % c);
    }
}

/// Flipping one spin changes the bond term of each cell by
/// `bond_term_change`.
pub proof fn lemma_bond_term_flip(l: Lattice, i: int, j: int, k: int)
    requires
        l.wf(),
        l.rows >= 2,
        l.columns >= 2,
        l.at(i, j) != i8::MIN,
        0 <= k < l.total(),
    ensures
        bond_term(l.flip(i, j), k) == bond_term(l, k) + bond_term_change(l, i, j, k),
{
    let m = l.flip(i, j);
    let c = l.index(i, j);
    let s = l.at(i, j) as int;
    let ki = k / l.columns;
    let kj = k % l.columns;
    let a = l.index(ki + 1, kj);
    let b = l.index(ki, kj + 1);
    lemma_index_in_range(l, i, j);
    lemma_index_in_range(l, ki + 1, kj);
    lemma_index_in_range(l, ki, kj + 1);
    lemma_neighbours_distinct(l, i, j);
    lemma_who_points_here(l, i, j, k);
    assert(m.cells == l.cells.update(c, (-s) as i8));
    assert(m.index(ki + 1, kj) == a);
    assert(m.index(ki, kj + 1) == b);
    let x = l.cells[k] as int;
    let p = l.cells[a] as int;
    let q = l.cells[b] as int;
    assert(bond_term(l, k) == x * (p + q));
    if k == c {
        // the flipped cell: its own spin changes, its two partners do not
        lemma_index_wrapped(l, i, j);
        lemma_mod_successor(i, l.rows);
        lemma_mod_successor(j, l.columns);
        lemma_mod_successor(i % l.rows, l.rows);
        lemma_mod_successor(j % l.columns, l.columns);
        vstd::arithmetic::div_mod::lemma_mod_twice(i, l.rows);
        vstd::arithmetic::div_mod::lemma_mod_twice(j, l.columns);
        assert(a == l.index(i + 1, j));
        assert(b == l.index(i, j + 1));
        assert(bond_term(m, k) == (-s) * (p + q));
        assert((-s) * (p + q) == s * (p + q) + (-2 * s * (p + q))) by (nonlinear_arith);
    } else if k == l.index(i - 1, j) {
        assert(a == c);
        assert(b != c);
        assert(bond_term(m, k) == x * ((-s) + q));
        assert(x * ((-s) + q) == x * (s + q) + (-2 * s * x)) by (nonlinear_arith);
    } else if k == l.index(i, j - 1) {
        assert(b == c);
        assert(a != c);
        assert(bond_term(m, k) == x * (p + (-s)));
        assert(x * (p + (-s)) == x * (p + s) + (-2 * s * x)) by (nonlinear_arith);
    } else {
        assert(bond_term(m, k) == x * (p + q));
    }
}

/// Flipping one spin changes the bond sum of the first `n` cells by
/// `bond_sum_change`.
pub proof fn lemma_bond_sum_flip(l: Lattice, i: int, j: int, n: int)
    requires
        l.wf(),
        l.rows >= 2,
        l.columns >= 2,
        l.at(i, j) != i8::MIN,
        0 <= n <= l.total(),
    ensures
        bond_sum(l.flip(i, j), n) == bond_sum(l, n) + bond_sum_change(l, i, j, n),
    decreases n,
{
    lemma_index_in_range(l, i, j);
    lemma_index_in_range(l, i - 1, j);
    lemma_index_in_range(l, i, j - 1);
    if n > 0 {
        lemma_bond_sum_flip(l, i, j, n - 1);
        lemma_bond_term_flip(l, i, j, n - 1);
        lemma_neighbours_distinct(l, i, j);
    }
}

/// Incremental and full bookkeeping of the energy agree: on a grid with at
/// least two rows and two columns, flipping the spin at `(i, j)` changes the
/// coupling energy by exactly `flip_energy_delta`.
pub proof fn lemma_flip_energy(l: Lattice, i: int, j: int)
    requires
        l.wf(),
        l.rows >= 2,
        l.columns >= 2,
        l.at(i, j) != i8::MIN,
    ensures
        coupling_energy(l.flip(i, j)) == coupling_energy(l) + flip_energy_delta(l, i, j),
{
    lemma_index_in_range(l, i, j);
    lemma_index_in_range(l, i - 1, j);
    lemma_index_in_range(l, i, j - 1);
    lemma_bond_sum_flip(l, i, j, l.total());
    let s = l.at(i, j) as int;
    let d = l.at(i + 1, j) as int;
    let r = l.at(i, j + 1) as int;
    let u = l.at(i - 1, j) as int;
    let w = l.at(i, j - 1) as int;
    assert(-((-2 * s * (d + r)) + (-2 * s * u) + (-2 * s * w)) == 2 * s * (u + d + r + w))
        by (nonlinear_arith);
    assert(l.flip(i, j).total() == l.total());
}

/// Running totals stay exact over any number of proposals: after the
/// proposals of an admissible trace the grid is still a grid of `+1` and
/// `-1` of the same extent, its total spin is the old one plus the
/// changes that were reported, and, on a grid with at least two rows and two
/// columns, so is its coupling energy.
pub proof fn lemma_trace_totals(table: Seq<Acceptance>, l: Lattice, trace: Seq<Proposal>)
    requires
        l.wf(),
        l.is_ising(),
        trace_admissible(table, l, trace),
    ensures
        trace_lattice(l, trace).wf(),
        trace_lattice(l, trace).is_ising(),
        trace_lattice(l, trace).rows == l.rows,
        trace_lattice(l, trace).columns == l.columns,
        trace_lattice(l, trace).sum() == l.sum() + trace_spin_delta(l, trace),
        -2 * trace.len() <= trace_spin_delta(l, trace) <= 2 * trace.len(),
        -8 * trace.len() <= trace_energy_delta(l, trace) <= 8 * trace.len(),
        l.rows >= 2 && l.columns >= 2 ==> coupling_energy(trace_lattice(l, trace))
            == coupling_energy(l) + trace_energy_delta(l, trace),
    decreases trace.len(),
{
    if trace.len() > 0 {
        let before = trace_lattice(l, trace.drop_last());
        let p = trace.last();
        lemma_trace_totals(table, l, trace.drop_last());
        lemma_flip_keeps_ising(before, p.row, p.column);
        if p.accepted && l.rows >= 2 && l.columns >= 2 {
            lemma_index_in_range(before, p.row, p.column);
            assert(before.cells[before.index(p.row, p.column)] != i8::MIN) by {
                assert(is_spin(
                    before.cells[before.index(p.row, p.column)],
                ));
            }
            lemma_flip_energy(before, p.row, p.column);
        }
    }
}

/// With a table that accepts every pair for certain, as the Metropolis
/// rule does at infinite temperature, every proposal of an admissible trace
/// flips its spin.
pub proof fn lemma_certain_table_always_flips(
    table: Seq<Acceptance>,
    l: Lattice,
    trace: Seq<Proposal>,
    n: int,
)
    requires
        table.len() == 10,
        accepts_everything(table),
        l.wf(),
        l.is_ising(),
        trace_admissible(table, l, trace),
        0 <= n < trace.len(),
    ensures
        trace[n].accepted,
    decreases trace.len(),
{
    let before = trace_lattice(l, trace.drop_last());
    let p = trace.last();
    lemma_trace_totals(table, l, trace.drop_last());
    if n == trace.len() - 1 {
        lemma_neighbour_sum_class(before, p.row, p.column);
    } else {
        lemma_certain_table_always_flips(table, l, trace.drop_last(), n);
    }
}

/// With a table that never accepts a flip that raises the coupling energy,
/// as the Metropolis rule does at zero temperature for a positive coupling
/// constant and no field, the coupling energy never rises along an
/// admissible trace: on a grid with at least two rows and two columns it
/// ends no higher than it began.
pub proof fn lemma_frozen_table_never_climbs(
    table: Seq<Acceptance>,
    l: Lattice,
    trace: Seq<Proposal>,
)
    requires
        table.len() == 10,
        rejects_uphill(table),
        l.wf(),
        l.is_ising(),
        l.rows >= 2,
        l.columns >= 2,
        trace_admissible(table, l, trace),
    ensures
        coupling_energy(trace_lattice(l, trace)) <= coupling_energy(l),
        trace_energy_delta(l, trace) <= 0,
    decreases trace.len(),
{
    lemma_trace_totals(table, l, trace);
    if trace.len() > 0 {
        let before = trace_lattice(l, trace.drop_last());
        let p = trace.last();
        lemma_frozen_table_never_climbs(table, l, trace.drop_last());
        lemma_trace_totals(table, l, trace.drop_last());
        lemma_neighbour_sum_class(before, p.row, p.column);
        let s = before.at(p.row, p.column) as int;
        let n = neighbour_sum(before, p.row, p.column);
        if p.accepted {
            if s * n > 0 {
                assert(table[class_index(s, n)] == Acceptance::Draw(0));
            }
            assert(2 * s * n == 2 * (s * n)) by (nonlinear_arith);
        }
    }
}

/// What a sweep keeps and what it reports: the grid is still a grid of `+1`
/// and `-1` of the same extent, and the reported changes are the changes of
/// the total spin and, on a grid with at least two rows and two columns, of
/// the coupling energy.
pub proof fn lemma_sweep_totals(
    table: Seq<Acceptance>,
    before: Lattice,
    after: Lattice,
    delta: SpinEnergyFluctuation,
)
    requires
        before.wf(),
        before.is_ising(),
        sweep_happened(table, before, after, delta),
    ensures
        after.wf(),
        after.is_ising(),
        after.rows == before.rows,
        after.columns == before.columns,
        after.sum() == before.sum() + delta.0,
        before.rows >= 2 && before.columns >= 2 ==> coupling_energy(after) == coupling_energy(
            before,
        ) + delta.1,
{
    let trace = choose|trace: Seq<Proposal>|
        trace.len() == before.total() && trace_happened(table, before, trace, after, delta);
    lemma_trace_totals(table, before, trace);
}

/// Each bond term of a grid of `+1` and `-1` lies between -2 and 2, so the
/// coupling energy lies between minus and plus twice the number of cells.
pub proof fn lemma_coupling_energy_bounds(l: Lattice, n: int)
    requires
        l.wf(),
        l.is_ising(),
        0 <= n <= l.total(),
    ensures
        -2 * n <= bond_sum(l, n) <= 2 * n,
        n == l.total() ==> -2 * l.total() <= coupling_energy(l) <= 2 * l.total(),
    decreases n,
{
    if n > 0 {
        lemma_coupling_energy_bounds(l, n - 1);
        let k = n - 1;
        let i = k / l.columns;
        let j = k % l.columns;
        lemma_index_in_range(l, i + 1, j);
        lemma_index_in_range(l, i, j + 1);
        let x = l.cells[k] as int;
        let p = l.at(i + 1, j) as int;
        let q = l.at(i, j + 1) as int;
        assert(is_spin(l.cells[k]));
        assert(is_spin(l.cells[l.index(i + 1, j)]));
        assert(is_spin(l.cells[l.index(i, j + 1)]));
        assert(-2 <= x * (p + q) <= 2) by (nonlinear_arith)
            requires
                x == 1 || x == -1,
                -2 <= p + q <= 2,
        ;
    }
}

/// The changes of total spin that `deltas` report, added up.
pub open spec fn reported_spin(deltas: Seq<SpinEnergyFluctuation>) -> int
    decreases deltas.len(),
{
    if deltas.len() == 0 {
        0
    } else {
        reported_spin(deltas.drop_last()) + deltas.last().0
    }
}

/// The changes of coupling energy that `deltas` report, added up.
pub open spec fn reported_energy(deltas: Seq<SpinEnergyFluctuation>) -> int
    decreases deltas.len(),
{
    if deltas.len() == 0 {
        0
    } else {
        reported_energy(deltas.drop_last()) + deltas.last().1
    }
}

/// After any number of sweeps the running totals agree with the recomputed
/// ones: if each grid of `states` is taken to the next by a sweep that
/// reported the change at the same place of `deltas`, the total spin of the
/// last grid is that of the first plus all reported changes, and, on a grid
/// with at least two rows and two columns, so is its coupling energy.
pub proof fn lemma_sweeps_keep_totals(
    table: Seq<Acceptance>,
    states: Seq<Lattice>,
    deltas: Seq<SpinEnergyFluctuation>,
)
    requires
        states.len() == deltas.len() + 1,
        states[0].wf(),
        states[0].is_ising(),
        forall|t: int|
            0 <= t < deltas.len() ==> sweep_happened(
                table,
                #[trigger] states[t],
                states[t + 1],
                deltas[t],
            ),
    ensures
        states.last().wf(),
        states.last().is_ising(),
        states.last().rows == states[0].rows,
        states.last().columns == states[0].columns,
        states.last().sum() == states[0].sum() + reported_spin(deltas),
        states[0].rows >= 2 && states[0].columns >= 2 ==> coupling_energy(states.last())
            == coupling_energy(states[0]) + reported_energy(deltas),
    decreases deltas.len(),
{
    if deltas.len() > 0 {
        let n = deltas.len() - 1;
        let fewer_states = states.drop_last();
        let fewer_deltas = deltas.drop_last();
        assert forall|t: int| 0 <= t < fewer_deltas.len() implies sweep_happened(
            table,
            #[trigger] fewer_states[t],
            fewer_states[t + 1],
            fewer_deltas[t],
        ) by {
            assert(sweep_happened(table, states[t], states[t + 1], deltas[t]));
        }
        lemma_sweeps_keep_totals(table, fewer_states, fewer_deltas);
        assert(fewer_states.last() == states[n]);
        assert(sweep_happened(table, states[n], states[n + 1], deltas[n]));
        lemma_sweep_totals(table, states[n], states[n + 1], deltas[n]);
    }
}

/// On a grid of two rows and two columns every cell is joined to each of
/// its two neighbours by two bonds, and the coupling energy is minus twice
/// the sum of the four products of neighbouring spins.
pub proof fn lemma_two_by_two_energy(l: Lattice)
    requires
        l.wf(),
        l.rows == 2,
        l.columns == 2,
    ensures
        coupling_energy(l) == -2 * (l.cells[0] * l.cells[1] + l.cells[2] * l.cells[3] + l.cells[0]
            * l.cells[2] + l.cells[1] * l.cells[3]),
{
    let a = l.cells[0] as int;
    let b = l.cells[1] as int;
    let c = l.cells[2] as int;
    let d = l.cells[3] as int;
    assert(l.total() == 4) by (nonlinear_arith)
        requires
            l.rows == 2,
            l.columns == 2,
    ;
    assert(bond_sum(l, 0) == 0);
    assert(bond_term(l, 0) == a * (c + b));
    assert(bond_term(l, 1) == b * (d + a));
    assert(bond_term(l, 2) == c * (a + d));
    assert(bond_term(l, 3) == d * (b + c));
    assert(bond_sum(l, 1) == bond_sum(l, 0) + bond_term(l, 0));
    assert(bond_sum(l, 2) == bond_sum(l, 1) + bond_term(l, 1));
    assert(bond_sum(l, 3) == bond_sum(l, 2) + bond_term(l, 2));
    assert(bond_sum(l, 4) == bond_sum(l, 3) + bond_term(l, 3));
    assert(a * (c + b) + b * (d + a) + c * (a + d) + d * (b + c) == 2 * (a * b + c * d + a * c + b
        * d)) by (nonlinear_arith);
}

} // verus!
