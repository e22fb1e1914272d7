//! A dense two-dimensional grid of spins on a torus.
//!
//! Cells are stored row by row. Every pair of integer coordinates names a
//! cell: a coordinate outside the grid is wrapped by the Euclidean remainder,
//! so that row `-1` is the last row and row `rows` is the first one again.

use vstd::prelude::*;
use vstd::arithmetic::div_mod::{lemma_fundamental_div_mod_converse, lemma_mod_multiples_vanish};
use crate::array_rng_interface::ArrayRngInterface;
use std::ops::Range;

verus! {

/// The mathematical model of a periodic grid: its extent and its cells in
/// row-major order.
pub struct Lattice {
    pub rows: int,
    pub columns: int,
    pub cells: Seq<i8>,
}

impl Lattice {
    /// Both extents are positive, the cell count fits an `i32`, and there is
    /// exactly one stored value per cell.
    pub open spec fn wf(self) -> bool {
        &&& 0 < self.rows
        &&& 0 < self.columns
        &&& self.rows * self.columns <= i32::MAX
        &&& self.cells.len() == self.rows * self.columns
    }

    /// Number of cells.
    pub open spec fn total(self) -> int {
        self.rows * self.columns
    }

    /// Position in `cells` of the cell that the coordinates `(i, j)` name.
    pub open spec fn index(self, i: int, j: int) -> int {
        (i % self.rows) * self.columns + (j % self.columns)
    }

    /// The spin at `(i, j)`, for any integers `i` and `j`.
    pub open spec fn at(self, i: int, j: int) -> i8 {
        self.cells[self.index(i, j)]
    }

    /// The grid with the cell at `(i, j)` replaced by `value`.
    pub open spec fn write(self, i: int, j: int, value: i8) -> Lattice {
        Lattice { cells: self.cells.update(self.index(i, j), value), ..self }
    }

    /// The grid with the spin at `(i, j)` negated.
    pub open spec fn flip(self, i: int, j: int) -> Lattice {
        self.write(i, j, (-self.at(i, j)) as i8)
    }

    /// Row and column of the cell at linear position `x`.
    pub open spec fn cell_at(self, x: int) -> (int, int) {
        (x / self.columns, x % self.columns)
    }

    /// Total of all spins.
    pub open spec fn sum(self) -> int {
        cells_sum(self.cells)
    }

    /// Every cell holds `+1` or `-1`.
    pub open spec fn is_ising(self) -> bool {
        forall|k: int| 0 <= k < self.cells.len() ==> is_spin(#[trigger] self.cells[k])
    }
}

/// `+1` or `-1`.
pub open spec fn is_spin(s: i8) -> bool {
    s == 1 || s == -1
}

/// Sum of the entries of `s`.
pub open spec fn cells_sum(s: Seq<i8>) -> int
    decreases s.len(),
{
    if s.len() == 0 {
        0
    } else {
        cells_sum(s.drop_last()) + s.last()
    }
}

/// Extents that a grid can be built with: both positive, and the cell count
/// representable as an `i32`.
pub open spec fn valid_dimensions(rows: int, columns: int) -> bool {
    0 < rows && 0 < columns && rows * columns <= i32::MAX
}

/// A wrapped coordinate pair always lands inside the cell sequence.
pub proof fn lemma_index_in_range(l: Lattice, i: int, j: int)
    requires
        l.wf(),
    ensures
        0 <= i % l.rows < l.rows,
        0 <= j % l.columns < l.columns,
        0 <= l.index(i, j) < l.cells.len(),
{
    let r = i % l.rows;
    let c = j % l.columns;
    assert(0 <= r * l.columns + c < l.rows * l.columns) by (nonlinear_arith)
        requires
            0 <= r < l.rows,
            0 <= c < l.columns,
    ;
}

/// Distinct in-range coordinate pairs name distinct cells, and the linear
/// position determines the pair.
pub proof fn lemma_index_decompose(l: Lattice, i: int, j: int)
    requires
        l.wf(),
        0 <= i < l.rows,
        0 <= j < l.columns,
    ensures
        l.index(i, j) == i * l.columns + j,
        l.index(i, j) / l.columns == i,
        l.index(i, j) % l.columns == j,
{
    vstd::arithmetic::div_mod::lemma_small_mod(i as nat, l.rows as nat);
    vstd::arithmetic::div_mod::lemma_small_mod(j as nat, l.columns as nat);
    lemma_fundamental_div_mod_converse(i * l.columns + j, l.columns, i, j);
}

/// Periodicity: moving by any whole number of grid heights or widths comes
/// back to the same cell.
pub proof fn lemma_periodic(l: Lattice, i: int, j: int, k: int)
    requires
        l.wf(),
    ensures
        l.index(i + k * l.rows, j) == l.index(i, j),
        l.index(i, j + k * l.columns) == l.index(i, j),
        l.at(i + k * l.rows, j) == l.at(i, j),
        l.at(i, j + k * l.columns) == l.at(i, j),
{
    lemma_mod_multiples_vanish(k, i, l.rows);
    lemma_mod_multiples_vanish(k, j, l.columns);
    assert(l.rows * k + i == i + k * l.rows) by (nonlinear_arith);
    assert(l.columns * k + j == j + k * l.columns) by (nonlinear_arith);
}

/// Every entry lies between -128 and 127, so the sum of `n` entries lies
/// between `-128 n` and `127 n`.
pub proof fn lemma_cells_sum_bounds(s: Seq<i8>)
    ensures
        -128 * s.len() <= cells_sum(s) <= 127 * s.len(),
    decreases s.len(),
{
    if s.len() > 0 {
        lemma_cells_sum_bounds(s.drop_last());
    }
}

/// Replacing one entry changes the sum by the difference of the two values.
pub proof fn lemma_cells_sum_update(s: Seq<i8>, k: int, value: i8)
    requires
        0 <= k < s.len(),
    ensures
        cells_sum(s.update(k, value)) == cells_sum(s) - s[k] + value,
    decreases s.len(),
{
    let t = s.update(k, value);
    if k == s.len() - 1 {
        assert(t.drop_last() =~= s.drop_last());
    } else {
        lemma_cells_sum_update(s.drop_last(), k, value);
        assert(t.drop_last() =~= s.drop_last().update(k, value));
    }
}

/// A grid of spins that are all `+1` or `-1` has a sum between minus and plus
/// the number of cells.
pub proof fn lemma_ising_sum_bounds(s: Seq<i8>)
    requires
        forall|k: int| 0 <= k < s.len() ==> is_spin(#[trigger] s[k]),
    ensures
        -s.len() <= cells_sum(s) <= s.len(),
    decreases s.len(),
{
    if s.len() > 0 {
        let t = s.drop_last();
        assert forall|k: int| 0 <= k < t.len() implies is_spin(#[trigger] t[k]) by {
            assert(t[k] == s[k]);
        }
        lemma_ising_sum_bounds(t);
        assert(is_spin(s[s.len() - 1]));
    }
}

/// Remainder of `x` by a positive `n`, never negative.
pub fn get_mod(x: i32, n: i32) -> (r: i32)
    requires
        n > 0,
    ensures
        r == (x as int) % (n as int),
        0 <= r < n,
{
    let t: i32 = x % n;
    if t < 0 {
        proof {
            let q = (-(x as int)) / (n as int);
            assert(-(x as int) == (n as int) * q + (-(t as int))) by {
                vstd::arithmetic::div_mod::lemma_fundamental_div_mod(-(x as int), n as int);
            }
            assert(x as int == (-q - 1) * (n as int) + (t + n)) by (nonlinear_arith)
                requires
                    -(x as int) == (n as int) * q + (-(t as int)),
            ;
            lemma_fundamental_div_mod_converse(x as int, n as int, -q - 1, (t + n) as int);
        }
        t + n
    } else {
        proof {
            if x < 0 {
                let q = (-(x as int)) / (n as int);
                vstd::arithmetic::div_mod::lemma_fundamental_div_mod(-(x as int), n as int);
                assert(x as int == (-q) * (n as int) + 0) by (nonlinear_arith)
                    requires
                        -(x as int) == (n as int) * q + 0,
                ;
                lemma_fundamental_div_mod_converse(x as int, n as int, -q, 0);
            }
        }
        t
    }
}

/// Why a grid could not be built or a cell not be reached.
#[derive(Debug)]
pub struct PeriodicArrayError {
    from: String,
    message: String,
}

impl PeriodicArrayError {
    /// Name of the operation that failed.
    pub closed spec fn spec_from(&self) -> Seq<char> {
        self.from@
    }

    /// What went wrong.
    pub closed spec fn spec_message(&self) -> Seq<char> {
        self.message@
    }

    /// Text of the error as it is shown to a user.
    pub open spec fn spec_to_string(&self) -> Seq<char> {
        "from: "@ + self.spec_from() + ", msg: "@ + self.spec_message()
    }

    /// The error of the operation `from` with the message `message`.
    pub(crate) fn new(from: &str, message: &str) -> (e: Self)
        ensures
            e.spec_from() == from@,
            e.spec_message() == message@,
    {
        PeriodicArrayError { from: String::from_str(from), message: String::from_str(message) }
    }

    /// The error for extents that no grid can have.
    pub(crate) fn invalid_dimensions() -> (e: Self)
        ensures
            dimension_error(e),
    {
        PeriodicArrayError::new("PeriodicArray2D::new()", "Rows & columns need to be > 0.")
    }

    /// Name of the operation that failed.
    pub fn operation(&self) -> (s: &str)
        ensures
            s@ == self.spec_from(),
    {
        self.from.as_str()
    }

    /// What went wrong.
    pub fn message(&self) -> (s: &str)
        ensures
            s@ == self.spec_message(),
    {
        self.message.as_str()
    }

    /// The error as one line of text: `from: <operation>, msg: <message>`.
    pub fn to_string(&self) -> (s: String)
        ensures
            s@ == self.spec_to_string(),
    {
        let s = String::from_str("from: ");
        let s = s.concat(self.from.as_str());
        let s = s.concat(", msg: ");
        s.concat(self.message.as_str())
    }
}

impl<'a> From<&'a str> for PeriodicArrayError {
    /// The error that carries `error` as its message.
    fn from(error: &'a str) -> (e: Self)
        ensures
            e.spec_from() == "TryFromIntError"@,
            e.spec_message() == error@,
    {
        PeriodicArrayError::new("TryFromIntError", error)
    }
}

impl<'a> vstd::std_specs::convert::FromSpecImpl<&'a str> for PeriodicArrayError {
    /// The conversion is described by the contract of `from`, which speaks
    /// of the two texts of the error, and not by a value.
    open spec fn obeys_from_spec() -> bool {
        false
    }

    /// Not used, as `obeys_from_spec` is false.
    open spec fn from_spec(v: &'a str) -> Self {
        arbitrary()
    }
}

/// The error for extents that no grid can have.
pub open spec fn dimension_error(e: PeriodicArrayError) -> bool {
    &&& e.spec_from() == "PeriodicArray2D::new()"@
    &&& e.spec_message() == "Rows & columns need to be > 0."@
}

/// A periodic grid of spins.
pub struct PeriodicArray2D {
    data: Vec<i8>,
    rows: i32,
    columns: i32,
    number_of_spins: i32,
}

impl View for PeriodicArray2D {
    type V = Lattice;

    closed spec fn view(&self) -> Lattice {
        Lattice { rows: self.rows as int, columns: self.columns as int, cells: self.data@ }
    }
}

impl PeriodicArray2D {
    /// The representation invariant: the model is well formed and the cached
    /// cell count is the product of the extents.
    pub closed spec fn wf(&self) -> bool {
        &&& self@.wf()
        &&& self.number_of_spins == self.rows * self.columns
    }

    /// A well-formed grid has a well-formed model, whose extents fit an
    /// `i32`.
    pub proof fn lemma_wf(&self)
        requires
            self.wf(),
        ensures
            self@.wf(),
            self@.rows <= i32::MAX,
            self@.columns <= i32::MAX,
    {
    }

    /// Number of cells of a `rows` by `columns` grid, or the error when no
    /// such grid exists.
    pub fn get_total_elements_usize(rows: i32, columns: i32) -> (res: Result<
        usize,
        PeriodicArrayError,
    >)
        ensures
            res is Ok <==> valid_dimensions(rows as int, columns as int),
            res is Ok ==> res->Ok_0 == rows * columns,
            res is Err ==> dimension_error(res->Err_0),
    {
        if rows <= 0 || columns <= 0 {
            return Err(PeriodicArrayError::invalid_dimensions());
        }
        assert(0 < rows * columns <= 0x7fff_ffff * 0x7fff_ffff) by (nonlinear_arith)
            requires
                0 < rows <= 0x7fff_ffff,
                0 < columns <= 0x7fff_ffff,
        ;
        let product: i64 = (rows as i64) * (columns as i64);
        if product > i32::MAX as i64 {
            return Err(PeriodicArrayError::invalid_dimensions());
        }
        Ok(product as usize)
    }

    /// Number of rows.
    pub fn rows(&self) -> (r: i32)
        ensures
            r == self@.rows,
    {
        self.rows
    }

    /// Number of columns.
    pub fn columns(&self) -> (c: i32)
        ensures
            c == self@.columns,
    {
        self.columns
    }

    /// Rows and columns, in this order.
    pub fn shape(&self) -> (s: (i32, i32))
        ensures
            s.0 == self@.rows,
            s.1 == self@.columns,
    {
        (self.rows, self.columns)
    }

    /// The row coordinates that name each row once.
    pub fn rows_range(&self) -> (r: Range<i32>)
        ensures
            r.start == 0,
            r.end == self@.rows,
    {
        0..self.rows
    }

    /// The column coordinates that name each column once.
    pub fn columns_range(&self) -> (r: Range<i32>)
        ensures
            r.start == 0,
            r.end == self@.columns,
    {
        0..self.columns
    }

    /// Number of cells.
    pub fn total_number(&self) -> (n: i32)
        requires
            self.wf(),
        ensures
            n == self@.total(),
            n == self@.cells.len(),
    {
        self.number_of_spins
    }

    /// The linear positions that name each cell once.
    pub fn all_range(&self) -> (r: Range<i32>)
        requires
            self.wf(),
        ensures
            r.start == 0,
            r.end == self@.total(),
    {
        0..self.number_of_spins
    }

    /// Builds a `rows` by `columns` grid and fills it, cell after cell in
    /// row-major order, with what `generator` returns. Fails exactly when the
    /// extents are not valid; the generator is not called then.
    pub fn new_with<F: FnMut() -> i8>(rows: i32, columns: i32, generator: F) -> (res: Result<
        Self,
        PeriodicArrayError,
    >)
        requires
            call_requires(generator, ()),
        ensures
            res is Ok <==> valid_dimensions(rows as int, columns as int),
            res is Ok ==> {
                let a = res->Ok_0;
                &&& a.wf()
                &&& a@.rows == rows
                &&& a@.columns == columns
                &&& forall|k: int|
                    0 <= k < a@.cells.len() ==> call_ensures(generator, (), #[trigger] a@.cells[k])
            },
            res is Err ==> dimension_error(res->Err_0),
    {
        let n_elements: usize = match Self::get_total_elements_usize(rows, columns) {
            Ok(n) => n,
            Err(e) => {
                return Err(e);
            },
        };
        let mut source = generator;
        let mut data: Vec<i8> = Vec::with_capacity(n_elements);
        let mut k: usize = 0;
        while k < n_elements
            invariant
                k <= n_elements,
                data@.len() == k,
                source == generator,
                call_requires(generator, ()),
                forall|m: int| 0 <= m < k ==> call_ensures(generator, (), #[trigger] data@[m]),
            decreases n_elements - k,
        {
            let value = source();
            data.push(value);
            k = k + 1;
        }
        Ok(PeriodicArray2D { data, rows, columns, number_of_spins: n_elements as i32 })
    }

    /// Position in the storage of the cell that `(i, j)` names.
    fn get_index(&self, i: i32, j: i32) -> (index: usize)
        requires
            self.wf(),
        ensures
            index == self@.index(i as int, j as int),
            index < self@.cells.len(),
    {
        let r: i32 = get_mod(i, self.rows);
        let c: i32 = get_mod(j, self.columns);
        proof {
            lemma_index_in_range(self@, i as int, j as int);
        }
        let index: i64 = (r as i64) * (self.columns as i64) + (c as i64);
        index as usize
    }

    /// Refills every cell, in row-major order, with what `generator`
    /// returns. The extents stay as they are.
    pub fn reset<F: FnMut() -> i8>(&mut self, generator: F)
        requires
            old(self).wf(),
            call_requires(generator, ()),
        ensures
            final(self).wf(),
            final(self)@.rows == old(self)@.rows,
            final(self)@.columns == old(self)@.columns,
            forall|k: int|
                0 <= k < final(self)@.cells.len() ==> call_ensures(
                    generator,
                    (),
                    #[trigger] final(self)@.cells[k],
                ),
    {
        let mut source = generator;
        let n: usize = self.data.len();
        let mut k: usize = 0;
        while k < n
            invariant
                k <= n,
                n == self.data@.len(),
                self.wf(),
                self@.rows == old(self)@.rows,
                self@.columns == old(self)@.columns,
                source == generator,
                call_requires(generator, ()),
                forall|m: int| 0 <= m < k ==> call_ensures(generator, (), #[trigger] self.data@[m]),
            decreases n - k,
        {
            let value = source();
            self.data.set(k, value);
            k = k + 1;
        }
    }

    /// The spin at `(i, j)`; the result is always `Ok`.
    pub fn at(&self, i: i32, j: i32) -> (res: Result<i8, PeriodicArrayError>)
        requires
            self.wf(),
        ensures
            res is Ok,
            res->Ok_0 == self@.at(i as int, j as int),
    {
        let index: usize = self.get_index(i, j);
        if index < self.data.len() {
            Ok(self.data[index])
        } else {
            Err(PeriodicArrayError::new("PeriodicArray2D::at()", "Access out of bound"))
        }
    }

    /// The spin at `(i, j)`.
    pub fn at_unchecked(&self, i: i32, j: i32) -> (spin: i8)
        requires
            self.wf(),
        ensures
            spin == self@.at(i as int, j as int),
    {
        let index: usize = self.get_index(i, j);
        self.data[index]
    }

    /// The cell at `(i, j)`, to be written through; the result is always
    /// `Ok`. No other cell changes, whatever is written.
    pub fn at_mut(&mut self, i: i32, j: i32) -> (res: Result<&mut i8, PeriodicArrayError>)
        requires
            old(self).wf(),
        ensures
            res is Ok,
            *res->Ok_0 == old(self)@.at(i as int, j as int),
            final(self).wf(),
            final(self)@ == old(self)@.write(i as int, j as int, *final(res->Ok_0)),
    {
        let index: usize = self.get_index(i, j);
        if index < self.data.len() {
            Ok(&mut self.data[index])
        } else {
            Err(PeriodicArrayError::new("PeriodicArray2D::at_mut()", "Access out of bound"))
        }
    }

    /// The cell at `(i, j)`, to be written through. No other cell changes,
    /// whatever is written.
    pub fn at_mut_unchecked(&mut self, i: i32, j: i32) -> (cell: &mut i8)
        requires
            old(self).wf(),
        ensures
            *cell == old(self)@.at(i as int, j as int),
            final(self).wf(),
            final(self)@ == old(self)@.write(i as int, j as int, *final(cell)),
    {
        let index: usize = self.get_index(i, j);
        &mut self.data[index]
    }

    /// Stores `value` in the cell at `(i, j)`.
    pub fn write(&mut self, i: i32, j: i32, value: i8)
        requires
            old(self).wf(),
        ensures
            final(self).wf(),
            final(self)@ == old(self)@.write(i as int, j as int, value),
    {
        let index: usize = self.get_index(i, j);
        self.data.set(index, value);
    }

    /// Negates the spin at `(i, j)` and returns the new value.
    pub fn flip(&mut self, i: i32, j: i32) -> (spin: i8)
        requires
            old(self).wf(),
            old(self)@.at(i as int, j as int) != i8::MIN,
        ensures
            final(self).wf(),
            final(self)@ == old(self)@.flip(i as int, j as int),
            spin == -old(self)@.at(i as int, j as int),
            final(self)@.sum() == old(self)@.sum() + 2 * spin,
    {
        let index: usize = self.get_index(i, j);
        let spin: i8 = -self.data[index];
        proof {
            lemma_cells_sum_update(self.data@, index as int, spin);
        }
        self.data.set(index, spin);
        spin
    }

    /// Total of all spins, recomputed from the cells.
    pub fn sum(&self) -> (total: i64)
        requires
            self.wf(),
        ensures
            total == self@.sum(),
    {
        let n: usize = self.data.len();
        let mut total: i64 = 0;
        let mut k: usize = 0;
        while k < n
            invariant
                k <= n,
                n == self.data@.len(),
                n <= i32::MAX,
                total == cells_sum(self.data@.take(k as int)),
            decreases n - k,
        {
            proof {
                lemma_cells_sum_bounds(self.data@.take(k as int));
                assert(self.data@.take(k + 1).drop_last() =~= self.data@.take(k as int));
            }
            total = total + self.data[k] as i64;
            k = k + 1;
        }
        proof {
            assert(self.data@.take(n as int) =~= self.data@);
        }
        total
    }

    /// Whether every cell holds `+1` or `-1`.
    pub fn is_ising_state(&self) -> (b: bool)
        requires
            self.wf(),
        ensures
            b == self@.is_ising(),
    {
        let n: usize = self.data.len();
        let mut k: usize = 0;
        while k < n
            invariant
                k <= n,
                n == self.data@.len(),
                forall|m: int| 0 <= m < k ==> is_spin(#[trigger] self.data@[m]),
            decreases n - k,
        {
            let s: i8 = self.data[k];
            if s != 1 && s != -1 {
                assert(!is_spin(self@.cells[k as int]));
                return false;
            }
            k = k + 1;
        }
        true
    }

    /// Row and column of the cell at linear position `x`.
    pub fn cell_of_index(&self, x: i32) -> (cell: (i32, i32))
        requires
            self.wf(),
            0 <= x < self@.total(),
        ensures
            (cell.0 as int, cell.1 as int) == self@.cell_at(x as int),
            0 <= cell.0 < self@.rows,
            0 <= cell.1 < self@.columns,
            self@.index(cell.0 as int, cell.1 as int) == x,
    {
        let i: i32 = x / self.columns;
        let j: i32 = x % self.columns;
        proof {
            let c = self.columns as int;
            vstd::arithmetic::div_mod::lemma_fundamental_div_mod(x as int, c);
            assert(i < self.rows) by (nonlinear_arith)
                requires
                    x == c * i + j,
                    0 <= j,
                    0 < c,
                    x < self.rows * c,
            ;
            lemma_index_decompose(self@, i as int, j as int);
            assert(c * i == i * c) by (nonlinear_arith);
        }
        (i, j)
    }

    /// Draws a linear position in `[0, total)` from `rng` and returns its row
    /// and column.
    pub fn get_random_point<R: ArrayRngInterface>(&self, rng: &mut R) -> (cell: (i32, i32))
        requires
            self.wf(),
        ensures
            0 <= cell.0 < self@.rows,
            0 <= cell.1 < self@.columns,
            old(rng).next_i32(0, self@.total() as i32) matches Some(next) ==> (
            cell.0 as int,
            cell.1 as int,
            ) == self@.cell_at(next.0 as int) && *final(rng) == next.1,
    {
        assert(0 < self@.rows * self@.columns) by (nonlinear_arith)
            requires
                0 < self@.rows,
                0 < self@.columns,
        ;
        let x: i32 = rng.generate_rand_i32(0, self.number_of_spins);
        self.cell_of_index(x)
    }
}

} // verus!
