//! Proposals, sweeps and energies.
//!
//! A proposal picks one cell. Flipping its spin `s`, whose four nearest
//! neighbours add up to `n`, changes the total spin by `-2 s` and the
//! coupling energy by `2 s n`; with coupling constant `J` and field `h` the
//! energy changes by `dE = 2 s (J n - h)`. Whether the flip is made is
//! decided by the entry of an acceptance table for the pair `(s, n)`, and,
//! where that entry asks for it, by one number drawn from `[0, 1)`.
//!
//! The Metropolis rule at inverse temperature `beta` accepts for certain
//! where `dE < 0`, and otherwise with probability `exp(-beta dE)`. Its table
//! holds `Always` for the pairs with `dE < 0`, and for the others `Draw` with
//! the probability times `UNIT_SCALE`, rounded up: a drawn fraction is below
//! the probability exactly when its numerator is below that threshold. The
//! library takes the table as it is given and does no arithmetic on
//! temperatures.

use vstd::prelude::*;
use crate::array_rng_interface::ArrayRngInterface;
use crate::monte_carlo::bookkeeping::{lemma_flip_energy, lemma_neighbours_wrapped};
use crate::monte_carlo::{MonteCarloRngInterface, SpinEnergyFluctuation, UNIT_SCALE};
use crate::periodic_array_2d::{
    get_mod,
    is_spin,
    lemma_cells_sum_update,
    lemma_index_decompose,
    lemma_index_in_range,
    Lattice,
    PeriodicArray2D,
};

verus! {

/// Sum of the four nearest neighbours of the cell at `(i, j)`.
pub open spec fn neighbour_sum(l: Lattice, i: int, j: int) -> int {
    l.at(i - 1, j) + l.at(i + 1, j) + l.at(i, j + 1) + l.at(i, j - 1)
}

/// Contribution of the cell at linear position `k` to the bond sum: its
/// spin times the sum of the neighbour one row further and the neighbour
/// one column further. Every bond of the torus belongs to exactly one cell
/// in this way.
pub open spec fn bond_term(l: Lattice, k: int) -> int {
    let i = k / l.columns;
    let j = k % l.columns;
    l.cells[k] * (l.at(i + 1, j) + l.at(i, j + 1))
}

/// Sum of the bond terms of the first `n` cells.
pub open spec fn bond_sum(l: Lattice, n: int) -> int
    decreases n,
{
    if n <= 0 {
        0
    } else {
        bond_sum(l, n - 1) + bond_term(l, n - 1)
    }
}

/// The energy of the grid for coupling constant one and no field: minus
/// the sum over all bonds of the product of the two spins.
pub open spec fn coupling_energy(l: Lattice) -> int {
    -bond_sum(l, l.total())
}

/// Change of the total spin when the spin at `(i, j)` is flipped.
pub open spec fn flip_spin_delta(l: Lattice, i: int, j: int) -> int {
    -2 * l.at(i, j)
}

/// Change of the coupling energy when the spin at `(i, j)` is flipped.
pub open spec fn flip_energy_delta(l: Lattice, i: int, j: int) -> int {
    2 * l.at(i, j) * neighbour_sum(l, i, j)
}

/// How a proposed flip is decided.
#[derive(Clone, Copy, Debug)]
pub enum Acceptance {
    /// The flip is made, and no number is drawn.
    Always,
    /// One number is drawn from `[0, 1)`, and the flip is made if its
    /// numerator over `UNIT_SCALE` is below this threshold.
    Draw(u64),
}

/// The decision for the drawn numerator `draw`.
pub open spec fn accepts(acceptance: Acceptance, draw: u64) -> bool {
    match acceptance {
        Acceptance::Always => true,
        Acceptance::Draw(threshold) => draw < threshold,
    }
}

/// The decisions that `acceptance` leaves open: a flip is made if the
/// entry is `Always` or its threshold covers every draw, and not made if the
/// threshold is zero.
pub open spec fn may_decide(acceptance: Acceptance, accepted: bool) -> bool {
    match acceptance {
        Acceptance::Always => accepted,
        Acceptance::Draw(threshold) => {
            &&& threshold == 0 ==> !accepted
            &&& threshold >= UNIT_SCALE ==> accepted
        },
    }
}

/// Whether `acceptance` accepts whatever is drawn.
pub open spec fn is_certain(acceptance: Acceptance) -> bool {
    match acceptance {
        Acceptance::Always => true,
        Acceptance::Draw(threshold) => threshold >= UNIT_SCALE,
    }
}

/// Every entry of the table accepts whatever is drawn.
pub open spec fn accepts_everything(table: Seq<Acceptance>) -> bool {
    forall|k: int| 0 <= k < table.len() ==> is_certain(#[trigger] table[k])
}

/// The table never accepts a flip that raises the coupling energy: the
/// entry for a spin and a sum of neighbours of the same sign has threshold
/// zero.
pub open spec fn rejects_uphill(table: Seq<Acceptance>) -> bool {
    forall|s: int, n: int|
        (s == 1 || s == -1) && is_neighbour_sum(n) && s * n > 0 ==> #[trigger] table[class_index(
            s,
            n,
        )] == Acceptance::Draw(0)
}

/// Whether `n` can be the sum of four spins.
pub open spec fn is_neighbour_sum(n: int) -> bool {
    n == -4 || n == -2 || n == 0 || n == 2 || n == 4
}

/// Position in an acceptance table of the entry for a spin `spin` whose
/// neighbours add up to `neighbours`: the five sums of a down spin come
/// first, in rising order, then the five sums of an up spin.
pub open spec fn class_index(spin: int, neighbours: int) -> int {
    (if spin == 1 {
        5int
    } else {
        0int
    }) + (neighbours + 4) / 2
}

/// Whether `acceptance` is a threshold of zero, which no draw is below.
pub fn is_zero_threshold(acceptance: Acceptance) -> (zero: bool)
    ensures
        zero == (acceptance == Acceptance::Draw(0)),
{
    match acceptance {
        Acceptance::Always => false,
        Acceptance::Draw(threshold) => threshold == 0,
    }
}

/// One decision rule for each of the ten pairs of a spin and the sum of
/// its neighbours.
pub struct AcceptanceTable {
    entries: [Acceptance; 10],
}

impl View for AcceptanceTable {
    type V = Seq<Acceptance>;

    closed spec fn view(&self) -> Seq<Acceptance> {
        self.entries@
    }
}

impl AcceptanceTable {
    /// The entry for a spin `spin` whose neighbours add up to `neighbours`.
    pub open spec fn spec_entry(&self, spin: int, neighbours: int) -> Acceptance {
        self@[class_index(spin, neighbours)]
    }

    /// A table has ten entries.
    pub proof fn lemma_len(&self)
        ensures
            self@.len() == 10,
    {
        vstd::array::array_len_matches_n(&self.entries);
    }

    /// The table with the given entries, in the order of `class_index`.
    pub fn new(entries: [Acceptance; 10]) -> (table: Self)
        ensures
            table@ == entries@,
    {
        AcceptanceTable { entries }
    }

    /// The table that gives every pair the same rule.
    pub fn uniform(acceptance: Acceptance) -> (table: Self)
        ensures
            table@ == Seq::new(10, |k: int| acceptance),
    {
        let entries: [Acceptance; 10] = [
            acceptance,
            acceptance,
            acceptance,
            acceptance,
            acceptance,
            acceptance,
            acceptance,
            acceptance,
            acceptance,
            acceptance,
        ];
        proof {
            vstd::array::array_len_matches_n(&entries);
            assert(entries@ =~= Seq::new(10, |k: int| acceptance));
        }
        AcceptanceTable { entries }
    }

    /// Whether every entry accepts whatever is drawn.
    pub fn is_certain_everywhere(&self) -> (certain: bool)
        ensures
            certain == accepts_everything(self@),
    {
        proof {
            self.lemma_len();
        }
        let mut k: usize = 0;
        while k < 10
            invariant
                0 <= k <= 10,
                self@.len() == 10,
                forall|m: int| 0 <= m < k ==> is_certain(#[trigger] self@[m]),
            decreases 10 - k,
        {
            let certain: bool = match self.entries[k] {
                Acceptance::Always => true,
                Acceptance::Draw(threshold) => threshold >= UNIT_SCALE,
            };
            if !certain {
                assert(!is_certain(self@[k as int]));
                return false;
            }
            k = k + 1;
        }
        true
    }

    /// Whether no flip that raises the coupling energy is ever accepted.
    pub fn never_climbs(&self) -> (frozen: bool)
        ensures
            frozen == rejects_uphill(self@),
    {
        proof {
            self.lemma_len();
            assert(class_index(-1, -4) == 0 && class_index(-1, -2) == 1);
            assert(class_index(1, 2) == 8 && class_index(1, 4) == 9);
        }
        let a: bool = is_zero_threshold(self.entries[0]);
        let b: bool = is_zero_threshold(self.entries[1]);
        let c: bool = is_zero_threshold(self.entries[8]);
        let d: bool = is_zero_threshold(self.entries[9]);
        let frozen: bool = a && b && c && d;
        proof {
            if frozen {
                assert forall|s: int, n: int|
                    (s == 1 || s == -1) && is_neighbour_sum(n) && s * n > 0 implies (
                    #[trigger] self@[class_index(s, n)]) == Acceptance::Draw(0) by {
                    if s == 1 {
                        assert(n == 2 || n == 4);
                    } else {
                        assert(n == -2 || n == -4);
                    }
                }
            } else {
                if !a {
                    assert(self@[class_index(-1, -4)] != Acceptance::Draw(0));
                } else if !b {
                    assert(self@[class_index(-1, -2)] != Acceptance::Draw(0));
                } else if !c {
                    assert(self@[class_index(1, 2)] != Acceptance::Draw(0));
                } else {
                    assert(self@[class_index(1, 4)] != Acceptance::Draw(0));
                }
            }
        }
        frozen
    }

    /// The entry for a spin `spin` whose neighbours add up to `neighbours`.
    pub fn entry(&self, spin: i8, neighbours: i32) -> (acceptance: Acceptance)
        requires
            is_spin(spin),
            is_neighbour_sum(neighbours as int),
        ensures
            acceptance == self.spec_entry(spin as int, neighbours as int),
    {
        let base: usize = if spin == 1 {
            5
        } else {
            0
        };
        let offset: usize = ((neighbours + 4) / 2) as usize;
        self.entries[base + offset]
    }
}

/// One step of the dynamics as it happened: the cell that was picked and
/// whether its spin was flipped.
pub struct Proposal {
    pub row: int,
    pub column: int,
    pub accepted: bool,
}

/// The proposal that picks the cell at `(row, column)`.
pub open spec fn proposal(row: int, column: int, accepted: bool) -> Proposal {
    Proposal { row, column, accepted }
}

/// The grid after the proposal `p`.
pub open spec fn proposal_lattice(l: Lattice, p: Proposal) -> Lattice {
    if p.accepted {
        l.flip(p.row, p.column)
    } else {
        l
    }
}

/// The change of the total spin that the proposal `p` makes.
pub open spec fn proposal_spin_delta(l: Lattice, p: Proposal) -> int {
    if p.accepted {
        flip_spin_delta(l, p.row, p.column)
    } else {
        0
    }
}

/// The change of the coupling energy that the proposal `p` is counted with.
pub open spec fn proposal_energy_delta(l: Lattice, p: Proposal) -> int {
    if p.accepted {
        flip_energy_delta(l, p.row, p.column)
    } else {
        0
    }
}

/// The proposal names a cell of the grid by its row and column, and its
/// decision is one that the table leaves open for that cell.
pub open spec fn proposal_admissible(table: Seq<Acceptance>, l: Lattice, p: Proposal) -> bool {
    &&& 0 <= p.row < l.rows
    &&& 0 <= p.column < l.columns
    &&& may_decide(
        table[class_index(l.at(p.row, p.column) as int, neighbour_sum(l, p.row, p.column))],
        p.accepted,
    )
}

/// The grid after the proposals of `trace`, first to last.
pub open spec fn trace_lattice(l: Lattice, trace: Seq<Proposal>) -> Lattice
    decreases trace.len(),
{
    if trace.len() == 0 {
        l
    } else {
        proposal_lattice(trace_lattice(l, trace.drop_last()), trace.last())
    }
}

/// The change of the total spin over the proposals of `trace`.
pub open spec fn trace_spin_delta(l: Lattice, trace: Seq<Proposal>) -> int
    decreases trace.len(),
{
    if trace.len() == 0 {
        0
    } else {
        trace_spin_delta(l, trace.drop_last()) + proposal_spin_delta(
            trace_lattice(l, trace.drop_last()),
            trace.last(),
        )
    }
}

/// The change of the coupling energy over the proposals of `trace`.
pub open spec fn trace_energy_delta(l: Lattice, trace: Seq<Proposal>) -> int
    decreases trace.len(),
{
    if trace.len() == 0 {
        0
    } else {
        trace_energy_delta(l, trace.drop_last()) + proposal_energy_delta(
            trace_lattice(l, trace.drop_last()),
            trace.last(),
        )
    }
}

/// Every proposal of `trace` is admissible on the grid that the proposals
/// before it have left.
pub open spec fn trace_admissible(table: Seq<Acceptance>, l: Lattice, trace: Seq<Proposal>) -> bool
    decreases trace.len(),
{
    trace.len() == 0 || {
        &&& trace_admissible(table, l, trace.drop_last())
        &&& proposal_admissible(table, trace_lattice(l, trace.drop_last()), trace.last())
    }
}

/// The proposal `p` is admissible on `before`, leaves `after`, and makes
/// the changes `delta`.
pub open spec fn proposal_happened(
    table: Seq<Acceptance>,
    before: Lattice,
    p: Proposal,
    after: Lattice,
    delta: SpinEnergyFluctuation,
) -> bool {
    &&& proposal_admissible(table, before, p)
    &&& after == proposal_lattice(before, p)
    &&& delta.0 == proposal_spin_delta(before, p)
    &&& delta.1 == proposal_energy_delta(before, p)
}

/// The proposals of `trace` are admissible one after the other on
/// `before`, leave `after`, and add up to the changes `delta`.
pub open spec fn trace_happened(
    table: Seq<Acceptance>,
    before: Lattice,
    trace: Seq<Proposal>,
    after: Lattice,
    delta: SpinEnergyFluctuation,
) -> bool {
    &&& trace_admissible(table, before, trace)
    &&& after == trace_lattice(before, trace)
    &&& delta.0 == trace_spin_delta(before, trace)
    &&& delta.1 == trace_energy_delta(before, trace)
}

/// The proposal that the generator `rng` makes on the grid `l`, and the
/// generator as the proposal leaves it, where the generator determines its
/// draws: a linear position is drawn and names the cell, and, if the entry
/// for that cell asks for it, a fraction is drawn and compared with the
/// threshold.
pub open spec fn foretold_proposal<R: MonteCarloRngInterface + ArrayRngInterface>(
    table: Seq<Acceptance>,
    l: Lattice,
    rng: R,
) -> Option<(Proposal, R)> {
    match rng.next_i32(0, l.total() as i32) {
        None => None,
        Some(pick) => {
            let cell = l.cell_at(pick.0 as int);
            let entry = table[class_index(
                l.at(cell.0, cell.1) as int,
                neighbour_sum(l, cell.0, cell.1),
            )];
            match entry {
                Acceptance::Always => Some((proposal(cell.0, cell.1, true), pick.1)),
                Acceptance::Draw(threshold) => match pick.1.next_unit() {
                    None => None,
                    Some(draw) => Some((proposal(cell.0, cell.1, draw.0 < threshold), draw.1)),
                },
            }
        },
    }
}

/// The first `n` proposals that the generator `rng` makes on the grid `l`,
/// one after the other, and the generator as they leave it, where the
/// generator determines its draws.
pub open spec fn foretold_trace<R: MonteCarloRngInterface + ArrayRngInterface>(
    table: Seq<Acceptance>,
    l: Lattice,
    rng: R,
    n: nat,
) -> Option<(Seq<Proposal>, R)>
    decreases n,
{
    if n == 0 {
        Some((Seq::empty(), rng))
    } else {
        match foretold_trace(table, l, rng, (n - 1) as nat) {
            None => None,
            Some(earlier) => match foretold_proposal(
                table,
                trace_lattice(l, earlier.0),
                earlier.1,
            ) {
                None => None,
                Some(last) => Some((earlier.0.push(last.0), last.1)),
            },
        }
    }
}

/// Every generator of the type `R` determines all its draws.
pub open spec fn foretells<R: MonteCarloRngInterface + ArrayRngInterface>() -> bool {
    &&& forall|rng: R, low: i32, high: i32| (#[trigger] rng.next_i32(low, high)) is Some
    &&& forall|rng: R| (#[trigger] rng.next_unit()) is Some
}

/// A generator that determines all its draws determines any number of
/// proposals.
pub proof fn lemma_foretold_trace_exists<R: MonteCarloRngInterface + ArrayRngInterface>(
    table: Seq<Acceptance>,
    l: Lattice,
    rng: R,
    n: nat,
)
    requires
        foretells::<R>(),
    ensures
        foretold_trace(table, l, rng, n) is Some,
        foretold_trace(table, l, rng, n)->Some_0.0.len() == n,
    decreases n,
{
    if n > 0 {
        lemma_foretold_trace_exists(table, l, rng, (n - 1) as nat);
        let earlier = foretold_trace(table, l, rng, (n - 1) as nat)->Some_0;
        let before = trace_lattice(l, earlier.0);
        let pick = earlier.1.next_i32(0, before.total() as i32);
        assert(pick is Some);
        assert(pick->Some_0.1.next_unit() is Some);
    }
}

/// One sweep took the grid from `before` to `after` and reported the
/// changes `delta`: as many admissible proposals as the grid has cells.
pub open spec fn sweep_happened(
    table: Seq<Acceptance>,
    before: Lattice,
    after: Lattice,
    delta: SpinEnergyFluctuation,
) -> bool {
    exists|trace: Seq<Proposal>|
        trace.len() == before.total() && trace_happened(table, before, trace, after, delta)
}

/// Four spins add up to -4, -2, 0, 2 or 4.
pub proof fn lemma_neighbour_sum_class(l: Lattice, i: int, j: int)
    requires
        l.wf(),
        l.is_ising(),
    ensures
        is_spin(l.at(i, j)),
        is_neighbour_sum(neighbour_sum(l, i, j)),
        0 <= class_index(l.at(i, j) as int, neighbour_sum(l, i, j)) < 10,
{
    lemma_index_in_range(l, i, j);
    lemma_index_in_range(l, i - 1, j);
    lemma_index_in_range(l, i + 1, j);
    lemma_index_in_range(l, i, j + 1);
    lemma_index_in_range(l, i, j - 1);
    assert(is_spin(l.cells[l.index(i, j)]));
    assert(is_spin(l.cells[l.index(i - 1, j)]));
    assert(is_spin(l.cells[l.index(i + 1, j)]));
    assert(is_spin(l.cells[l.index(i, j + 1)]));
    assert(is_spin(l.cells[l.index(i, j - 1)]));
}

/// A flip keeps the grid well formed and its spins `+1` or `-1`, and changes
/// the total spin by `flip_spin_delta`.
pub proof fn lemma_flip_keeps_ising(l: Lattice, i: int, j: int)
    requires
        l.wf(),
        l.is_ising(),
    ensures
        l.flip(i, j).wf(),
        l.flip(i, j).is_ising(),
        l.flip(i, j).rows == l.rows,
        l.flip(i, j).columns == l.columns,
        l.flip(i, j).sum() == l.sum() + flip_spin_delta(l, i, j),
        -2 <= flip_spin_delta(l, i, j) <= 2,
        -8 <= flip_energy_delta(l, i, j) <= 8,
{
    lemma_neighbour_sum_class(l, i, j);
    lemma_index_in_range(l, i, j);
    let k = l.index(i, j);
    let s = l.cells[k];
    let m = l.flip(i, j);
    let n = neighbour_sum(l, i, j);
    assert(-8 <= 2 * s * n <= 8) by (nonlinear_arith)
        requires
            s == 1 || s == -1,
            -4 <= n <= 4,
    ;
    assert(m.cells == l.cells.update(k, (-s) as i8));
    assert forall|x: int| 0 <= x < m.cells.len() implies is_spin(#[trigger] m.cells[x]) by {
        if x != k {
            assert(is_spin(l.cells[x]));
        }
    }
    lemma_cells_sum_update(l.cells, k, (-s) as i8);
}

/// Sum of the four nearest neighbours of the cell at `(i, j)`.
pub fn get_neighbour_sum(spin_2d_arr: &PeriodicArray2D, i: i32, j: i32) -> (neighbours: i32)
    requires
        spin_2d_arr.wf(),
    ensures
        neighbours == neighbour_sum(spin_2d_arr@, i as int, j as int),
        -512 <= neighbours <= 508,
{
    proof {
        spin_2d_arr.lemma_wf();
        lemma_neighbours_wrapped(spin_2d_arr@, i as int, j as int);
    }
    let row: i32 = get_mod(i, spin_2d_arr.rows());
    let column: i32 = get_mod(j, spin_2d_arr.columns());
    let left_right: i32 = spin_2d_arr.at_unchecked(row - 1, column) as i32
        + spin_2d_arr.at_unchecked(row + 1, column) as i32;
    let up_down: i32 = spin_2d_arr.at_unchecked(row, column + 1) as i32 + spin_2d_arr.at_unchecked(
        row,
        column - 1,
    ) as i32;
    left_right + up_down
}

/// The changes that flipping the spin at `(i, j)` would make: of the total
/// spin, and of the coupling energy.
pub fn get_delta_energy(spin_2d_arr: &PeriodicArray2D, i: i32, j: i32) -> (delta:
    SpinEnergyFluctuation)
    requires
        spin_2d_arr.wf(),
    ensures
        delta.0 == flip_spin_delta(spin_2d_arr@, i as int, j as int),
        delta.1 == flip_energy_delta(spin_2d_arr@, i as int, j as int),
{
    let spin: i32 = spin_2d_arr.at_unchecked(i, j) as i32;
    let neighbours: i32 = get_neighbour_sum(spin_2d_arr, i, j);
    assert(-0x20000 <= 2 * spin * neighbours <= 0x20000) by (nonlinear_arith)
        requires
            -128 <= spin <= 127,
            -512 <= neighbours <= 508,
    ;
    assert(2 * spin * neighbours == 2 * (spin * neighbours)) by (nonlinear_arith);
    let energy: i32 = 2 * (spin * neighbours);
    SpinEnergyFluctuation(-2 * (spin as i64), energy as i64)
}

/// The decision of `acceptance` for the drawn numerator `draw`.
pub fn decide(acceptance: Acceptance, draw: u64) -> (accepted: bool)
    ensures
        accepted == accepts(acceptance, draw),
{
    match acceptance {
        Acceptance::Always => true,
        Acceptance::Draw(threshold) => draw < threshold,
    }
}

/// Decides a proposal. For `Always` the answer is yes and the generator is
/// left alone; for `Draw` one number is drawn and compared with the
/// threshold.
pub fn accept_state<R: MonteCarloRngInterface>(acceptance: Acceptance, rng: &mut R) -> (accepted:
    bool)
    ensures
        may_decide(acceptance, accepted),
        acceptance is Always ==> *final(rng) == *old(rng),
        acceptance is Draw ==> (old(rng).next_unit() matches Some(next) ==> accepted == accepts(
            acceptance,
            next.0,
        ) && *final(rng) == next.1),
{
    match acceptance {
        Acceptance::Always => true,
        Acceptance::Draw(_) => {
            let draw: u64 = rng.generate_rand_unit();
            decide(acceptance, draw)
        },
    }
}

/// Carries out a decided proposal on the cell at `(i, j)`: flips the spin
/// if `accepted`, and returns the changes of total spin and coupling energy
/// that this made; leaves the grid alone and returns zeros otherwise.
pub fn apply_proposal(spin_2d_arr: &mut PeriodicArray2D, i: i32, j: i32, accepted: bool) -> (delta:
    SpinEnergyFluctuation)
    requires
        old(spin_2d_arr).wf(),
        old(spin_2d_arr)@.is_ising(),
    ensures
        final(spin_2d_arr).wf(),
        final(spin_2d_arr)@ == proposal_lattice(
            old(spin_2d_arr)@,
            proposal(i as int, j as int, accepted),
        ),
        delta.0 == proposal_spin_delta(old(spin_2d_arr)@, proposal(i as int, j as int, accepted)),
        delta.1 == proposal_energy_delta(
            old(spin_2d_arr)@,
            proposal(i as int, j as int, accepted),
        ),
{
    if accepted {
        proof {
            spin_2d_arr.lemma_wf();
            lemma_neighbour_sum_class(spin_2d_arr@, i as int, j as int);
        }
        let delta: SpinEnergyFluctuation = get_delta_energy(spin_2d_arr, i, j);
        let cell: &mut i8 = spin_2d_arr.at_mut_unchecked(i, j);
        *cell = -*cell;
        delta
    } else {
        SpinEnergyFluctuation(0, 0)
    }
}

/// One step of the dynamics: picks a cell at random, looks up the rule for
/// its spin and its neighbours, decides, and flips the spin if the decision
/// is yes. Returns the changes of total spin and coupling energy that the
/// step made, which are zero if the spin was not flipped.
pub fn perform_metropolis_proposal<R>(
    spin_2d_arr: &mut PeriodicArray2D,
    rng: &mut R,
    table: &AcceptanceTable,
) -> (delta: SpinEnergyFluctuation) where R: MonteCarloRngInterface + ArrayRngInterface
    requires
        old(spin_2d_arr).wf(),
        old(spin_2d_arr)@.is_ising(),
    ensures
        final(spin_2d_arr).wf(),
        final(spin_2d_arr)@.is_ising(),
        final(spin_2d_arr)@.rows == old(spin_2d_arr)@.rows,
        final(spin_2d_arr)@.columns == old(spin_2d_arr)@.columns,
        exists|p: Proposal|
            proposal_happened(table@, old(spin_2d_arr)@, p, final(spin_2d_arr)@, delta),
        foretold_proposal(table@, old(spin_2d_arr)@, *old(rng)) matches Some(told)
            ==> proposal_happened(table@, old(spin_2d_arr)@, told.0, final(spin_2d_arr)@, delta)
            && *final(rng) == told.1,
        final(spin_2d_arr)@.sum() == old(spin_2d_arr)@.sum() + delta.0,
        old(spin_2d_arr)@.rows >= 2 && old(spin_2d_arr)@.columns >= 2 ==> coupling_energy(
            final(spin_2d_arr)@,
        ) == coupling_energy(old(spin_2d_arr)@) + delta.1,
        delta.0 == -2 || delta.0 == 0 || delta.0 == 2,
        -8 <= delta.1 <= 8,
{
    let (i, j) = spin_2d_arr.get_random_point(rng);
    proof {
        spin_2d_arr.lemma_wf();
        lemma_neighbour_sum_class(spin_2d_arr@, i as int, j as int);
        lemma_flip_keeps_ising(spin_2d_arr@, i as int, j as int);
        if spin_2d_arr@.rows >= 2 && spin_2d_arr@.columns >= 2 {
            lemma_flip_energy(spin_2d_arr@, i as int, j as int);
        }
    }
    let spin: i8 = spin_2d_arr.at_unchecked(i, j);
    let neighbours: i32 = get_neighbour_sum(spin_2d_arr, i, j);
    let acceptance: Acceptance = table.entry(spin, neighbours);
    let accepted: bool = accept_state(acceptance, rng);
    let ghost p = proposal(i as int, j as int, accepted);
    let delta: SpinEnergyFluctuation = apply_proposal(spin_2d_arr, i, j, accepted);
    proof {
        assert(proposal_happened(table@, old(spin_2d_arr)@, p, spin_2d_arr@, delta));
    }
    delta
}

/// One sweep: as many proposals, one after the other, as the grid has
/// cells. Returns the changes of total spin and coupling energy that the
/// proposals made, added up.
pub fn perform_metropolis_sweep<R>(
    spin_2d_arr: &mut PeriodicArray2D,
    rng: &mut R,
    table: &AcceptanceTable,
) -> (delta: SpinEnergyFluctuation) where R: MonteCarloRngInterface + ArrayRngInterface
    requires
        old(spin_2d_arr).wf(),
        old(spin_2d_arr)@.is_ising(),
    ensures
        final(spin_2d_arr).wf(),
        final(spin_2d_arr)@.is_ising(),
        final(spin_2d_arr)@.rows == old(spin_2d_arr)@.rows,
        final(spin_2d_arr)@.columns == old(spin_2d_arr)@.columns,
        sweep_happened(table@, old(spin_2d_arr)@, final(spin_2d_arr)@, delta),
        foretold_trace(table@, old(spin_2d_arr)@, *old(rng), old(spin_2d_arr)@.total() as nat)
            matches Some(told) ==> trace_happened(
            table@,
            old(spin_2d_arr)@,
            told.0,
            final(spin_2d_arr)@,
            delta,
        ) && *final(rng) == told.1,
        final(spin_2d_arr)@.sum() == old(spin_2d_arr)@.sum() + delta.0,
        old(spin_2d_arr)@.rows >= 2 && old(spin_2d_arr)@.columns >= 2 ==> coupling_energy(
            final(spin_2d_arr)@,
        ) == coupling_energy(old(spin_2d_arr)@) + delta.1,
        -2 * old(spin_2d_arr)@.total() <= delta.0 <= 2 * old(spin_2d_arr)@.total(),
        -8 * old(spin_2d_arr)@.total() <= delta.1 <= 8 * old(spin_2d_arr)@.total(),
{
    let total: i32 = spin_2d_arr.total_number();
    let mut delta: SpinEnergyFluctuation = SpinEnergyFluctuation(0, 0);
    let ghost mut trace: Seq<Proposal> = Seq::empty();
    let mut k: i32 = 0;
    while k < total
        invariant
            0 <= k <= total,
            total == old(spin_2d_arr)@.total(),
                spin_2d_arr.wf(),
            spin_2d_arr@.is_ising(),
            spin_2d_arr@.rows == old(spin_2d_arr)@.rows,
            spin_2d_arr@.columns == old(spin_2d_arr)@.columns,
            trace.len() == k,
            trace_happened(table@, old(spin_2d_arr)@, trace, spin_2d_arr@, delta),
            foretold_trace(table@, old(spin_2d_arr)@, *old(rng), k as nat) matches Some(told)
                ==> trace == told.0 && *rng == told.1,
            spin_2d_arr@.sum() == old(spin_2d_arr)@.sum() + delta.0,
            old(spin_2d_arr)@.rows >= 2 && old(spin_2d_arr)@.columns >= 2 ==> coupling_energy(
                spin_2d_arr@,
            ) == coupling_energy(old(spin_2d_arr)@) + delta.1,
            -2 * k <= delta.0 <= 2 * k,
            -8 * k <= delta.1 <= 8 * k,
        decreases total - k,
    {
        let ghost before = spin_2d_arr@;
        let ghost told = foretold_proposal(table@, before, *rng);
        let step: SpinEnergyFluctuation = perform_metropolis_proposal(spin_2d_arr, rng, table);
        proof {
            let p = if told is Some {
                told->Some_0.0
            } else {
                choose|p: Proposal| proposal_happened(table@, before, p, spin_2d_arr@, step)
            };
            let longer = trace.push(p);
            assert(longer.drop_last() =~= trace);
            assert(longer.last() == p);
            trace = longer;
        }
        delta = delta + step;
        k = k + 1;
    }
    proof {
        assert(trace.len() == old(spin_2d_arr)@.total() && trace_happened(
            table@,
            old(spin_2d_arr)@,
            trace,
            spin_2d_arr@,
            delta,
        ));
    }
    delta
}

/// The coupling energy of the grid, recomputed from all its cells: minus
/// the sum, over the cells, of the spin times its neighbour one row further
/// and its neighbour one column further.
pub fn get_total_energy(spin_2d_arr: &PeriodicArray2D) -> (energy: i64)
    requires
        spin_2d_arr.wf(),
    ensures
        energy == coupling_energy(spin_2d_arr@),
{
    let rows: i32 = spin_2d_arr.rows();
    let columns: i32 = spin_2d_arr.columns();
    let ghost l = spin_2d_arr@;
    proof {
        spin_2d_arr.lemma_wf();
    }
    let mut bonds: i64 = 0;
    let mut i: i32 = 0;
    while i < rows
        invariant
            0 <= i <= rows,
            rows == l.rows,
            columns == l.columns,
            l == spin_2d_arr@,
            l.wf(),
            spin_2d_arr.wf(),
            bonds == bond_sum(l, i * columns),
            -0x8000 * (i * columns) <= bonds <= 0x8000 * (i * columns),
        decreases rows - i,
    {
        let mut j: i32 = 0;
        while j < columns
            invariant
                0 <= i < rows,
                0 <= j <= columns,
                rows == l.rows,
                columns == l.columns,
                l == spin_2d_arr@,
                l.wf(),
                spin_2d_arr.wf(),
                bonds == bond_sum(l, i * columns + j),
                -0x8000 * (i * columns + j) <= bonds <= 0x8000 * (i * columns + j),
            decreases columns - j,
        {
            let right: i64 = spin_2d_arr.at_unchecked(i + 1, j) as i64;
            let below: i64 = spin_2d_arr.at_unchecked(i, j + 1) as i64;
            let spin: i64 = spin_2d_arr.at_unchecked(i, j) as i64;
            proof {
                lemma_index_decompose(l, i as int, j as int);
                let k = i * columns + j;
                assert(bond_term(l, k) == spin * (right + below));
                assert(-0x8000 <= spin * (right + below) <= 0x8000) by (nonlinear_arith)
                    requires
                        -128 <= spin <= 127,
                        -256 <= right + below <= 254,
                ;
                assert(0 <= i * columns + j < rows * columns) by (nonlinear_arith)
                    requires
                        0 <= i < rows,
                        0 <= j < columns,
                ;
            }
            bonds = bonds + spin * (right + below);
            j = j + 1;
        }
        proof {
            assert(i * columns + columns == (i + 1) * columns) by (nonlinear_arith);
        }
        i = i + 1;
    }
    -bonds
}

} // verus!
