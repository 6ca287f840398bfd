//! A dense matrix in row-major order, its product and its text form.

use crate::convert::converts_to;
use crate::error::{Error, Operands};
use crate::inner_product::{
    dot, dot_in_range, is_zero, lemma_in_range_shorter, obeys_arithmetic, partial,
};
use crate::text::{join_range, joined, natural, natural_text, texts};
use std::fmt::Display;
use std::ops::{Add, AddAssign, Mul};
use vstd::arithmetic::div_mod::{
    lemma_div_pos_is_pos, lemma_fundamental_div_mod, lemma_fundamental_div_mod_converse,
    lemma_mod_bound, lemma_multiply_divide_lt,
};
use vstd::prelude::*;
use vstd::string::{to_string_from_display_ensures, StringExecFns};

verus! {

/// A matrix as a mathematical value: its two dimensions and its cells, one
/// row after the other.
pub struct Grid<T> {
    pub rows: nat,
    pub cols: nat,
    pub cells: Seq<T>,
}

impl<T> Grid<T> {
    /// There is exactly one cell for each pair of a row and a column.
    pub open spec fn well_formed(self) -> bool {
        self.cells.len() == self.rows * self.cols
    }

    /// The cell in row `i` and column `j`.
    pub open spec fn at(self, i: int, j: int) -> T {
        self.cells[i * self.cols + j]
    }

    /// Row `i`, from left to right.
    pub open spec fn row(self, i: int) -> Seq<T> {
        Seq::new(self.cols, |k: int| self.at(i, k))
    }

    /// Column `j`, from top to bottom.
    pub open spec fn column(self, j: int) -> Seq<T> {
        Seq::new(self.rows, |k: int| self.at(k, j))
    }
}

/// `c` is the product of `a` and `b`: it has the rows of `a` and the columns
/// of `b`, and its cell `(i, j)` is the inner product of row `i` of `a` and
/// column `j` of `b`.
pub open spec fn is_product<T: Add<Output = T> + Mul<Output = T>>(
    zero: T,
    a: Grid<T>,
    b: Grid<T>,
    c: Grid<T>,
) -> bool {
    &&& c.rows == a.rows
    &&& c.cols == b.cols
    &&& c.well_formed()
    &&& forall|i: int, j: int|
        0 <= i < a.rows && 0 <= j < b.cols ==> #[trigger] c.at(i, j) == dot(
            zero,
            a.row(i),
            b.column(j),
        )
}

/// Every operation of every cell of the product of `a` and `b` is one that
/// the element type allows: for the machine integers, none overflows.
pub open spec fn product_in_range<T: Add<Output = T> + Mul<Output = T>>(
    zero: T,
    a: Grid<T>,
    b: Grid<T>,
) -> bool {
    forall|i: int, j: int|
        0 <= i < a.rows && 0 <= j < b.cols ==> dot_in_range(
            zero,
            #[trigger] a.row(i),
            #[trigger] b.column(j),
        )
}

/// The text of a grid of texts: the rows between braces with a comma and a
/// space between two rows, and a space between two cells of a row.
pub open spec fn grid_text(g: Grid<Seq<char>>) -> Seq<char> {
    "{"@ + joined(Seq::new(g.rows, |i: int| joined(g.row(i), " "@)), ", "@) + "}"@
}

/// The text of a grid of texts together with its dimensions.
pub open spec fn labelled_grid_text(g: Grid<Seq<char>>) -> Seq<char> {
    "Matrix { row: "@ + natural_text(g.rows) + ", col: "@ + natural_text(g.cols) + ", data: "@
        + grid_text(g) + " }"@
}

/// `cells` holds, item by item, a text that the item's `Display` may produce.
pub open spec fn displayed_as<T: Display>(items: Seq<T>, cells: Seq<String>) -> bool {
    &&& cells.len() == items.len()
    &&& forall|i: int|
        0 <= i < items.len() ==> to_string_from_display_ensures::<T>(&items[i], #[trigger] cells[i])
}

/// Where a cell lies in the buffer, and how to find its row and column again.
proof fn lemma_cell_index(i: int, j: int, rows: int, cols: int)
    requires
        0 <= i < rows,
        0 <= j < cols,
    ensures
        0 <= i * cols <= i * cols + j < rows * cols,
        i * cols + cols <= rows * cols,
        (i * cols + j) / cols == i,
        (i * cols + j) % cols == j,
{
    assert(0 <= i * cols && i * cols + cols <= rows * cols) by (nonlinear_arith)
        requires
            0 <= i,
            i + 1 <= rows,
            0 <= cols,
    ;
    lemma_fundamental_div_mod_converse(i * cols + j, cols, i, j);
}

/// The row and the column of the cell that lies at position `at` of a buffer.
proof fn lemma_cell_position(at: int, rows: int, cols: int)
    requires
        0 <= at < rows * cols,
        0 <= rows,
        0 <= cols,
    ensures
        0 < cols,
        0 <= at / cols < rows,
        0 <= at % cols < cols,
        at == (at / cols) * cols + at % cols,
{
    assert(0 < cols) by (nonlinear_arith)
        requires
            0 <= at < rows * cols,
            0 <= rows,
            0 <= cols,
    ;
    lemma_fundamental_div_mod(at, cols);
    lemma_mod_bound(at, cols);
    lemma_div_pos_is_pos(at, cols);
    assert(at < cols * rows) by (nonlinear_arith)
        requires
            at < rows * cols,
    ;
    lemma_multiply_divide_lt(at, cols, rows);
    assert(cols * (at / cols) == (at / cols) * cols) by (nonlinear_arith);
}

/// Two matrices have at most one product.
pub proof fn lemma_product_is_unique<T: Add<Output = T> + Mul<Output = T>>(
    zero: T,
    a: Grid<T>,
    b: Grid<T>,
    c: Grid<T>,
    d: Grid<T>,
)
    requires
        is_product(zero, a, b, c),
        is_product(zero, a, b, d),
    ensures
        c == d,
{
    assert forall|at: int| 0 <= at < c.cells.len() implies c.cells[at] == d.cells[at] by {
        lemma_cell_position(at, a.rows as int, b.cols as int);
        let i = at / (b.cols as int);
        let j = at % (b.cols as int);
        assert(c.at(i, j) == d.at(i, j));
    }
    assert(c.cells =~= d.cells);
}

/// Where a row lies in the buffer.
proof fn lemma_row_span(i: int, rows: int, cols: int)
    requires
        0 <= i < rows,
        0 <= cols,
    ensures
        0 <= i * cols,
        i * cols + cols <= rows * cols,
{
    assert(0 <= i * cols && i * cols + cols <= rows * cols) by (nonlinear_arith)
        requires
            0 <= i,
            i + 1 <= rows,
            0 <= cols,
    ;
}

/// A dense matrix. Its buffer holds the rows one after the other, and is
/// meant to hold `row * col` items.
pub struct Matrix<T> {
    data: Vec<T>,
    row: usize,
    col: usize,
}

impl<T> View for Matrix<T> {
    type V = Grid<T>;

    closed spec fn view(&self) -> Grid<T> {
        Grid { rows: self.row as nat, cols: self.col as nat, cells: self.data@ }
    }
}

impl<T> Matrix<T> {
    /// A matrix of `row` rows and `col` columns over the items that `data`
    /// converts to. Nothing is checked: it is for the caller to hand in
    /// `row * col` items.
    pub fn new<D: Into<Vec<T>>>(data: D, row: usize, col: usize) -> (m: Self)
        ensures
            m@.rows == row,
            m@.cols == col,
            converts_to(data, m@.cells),
    {
        Self { data: data.into(), row, col }
    }

    /// The number of rows.
    pub fn row(&self) -> (n: usize)
        ensures
            n == self@.rows,
    {
        self.row
    }

    /// The number of columns.
    pub fn col(&self) -> (n: usize)
        ensures
            n == self@.cols,
    {
        self.col
    }

    /// The cells, one row after the other.
    pub fn data(&self) -> (cells: &Vec<T>)
        ensures
            cells@ == self@.cells,
    {
        &self.data
    }

    /// The matrix as text, such as `{1 2 3, 4 5 6}`: each cell as its
    /// `Display` writes it.
    pub fn to_string(&self) -> (text: String) where T: Display
        requires
            self@.well_formed(),
        ensures
            exists|cells: Seq<String>|
                displayed_as(self@.cells, cells) && text@ == grid_text(
                    (Grid { rows: self@.rows, cols: self@.cols, cells: texts(cells) }),
                ),
    {
        let cells = self.cell_texts();
        layout(&cells, self.row, self.col)
    }

    /// The matrix as text with its dimensions, such as
    /// `Matrix { row: 2, col: 3, data: {1 2 3, 4 5 6} }`.
    pub fn debug_string(&self) -> (text: String) where T: Display
        requires
            self@.well_formed(),
        ensures
            exists|cells: Seq<String>|
                displayed_as(self@.cells, cells) && text@ == labelled_grid_text(
                    (Grid { rows: self@.rows, cols: self@.cols, cells: texts(cells) }),
                ),
    {
        let cells = self.cell_texts();
        labelled_layout(&cells, self.row, self.col)
    }

    fn cell_texts(&self) -> (cells: Vec<String>) where T: Display
        ensures
            displayed_as(self@.cells, cells@),
    {
        let mut cells: Vec<String> = Vec::new();
        let mut i: usize = 0;
        while i < self.data.len()
            invariant
                i <= self.data@.len(),
                displayed_as(self.data@.take(i as int), cells@),
            decreases self.data@.len() - i,
        {
            let cell = self.data[i].to_string();
            cells.push(cell);
            i = i + 1;
        }
        assert(self.data@.take(i as int) =~= self.data@);
        cells
    }
}

/// Lays out `row * col` cell texts as a matrix: `{a b c, d e f}`.
pub fn layout(cells: &Vec<String>, row: usize, col: usize) -> (text: String)
    requires
        cells@.len() == row * col,
    ensures
        text@ == grid_text((Grid { rows: row as nat, cols: col as nat, cells: texts(cells@) })),
{
    let ghost g = Grid { rows: row as nat, cols: col as nat, cells: texts(cells@) };
    let mut lines: Vec<String> = Vec::new();
    let mut i: usize = 0;
    while i < row
        invariant
            i <= row,
            cells@.len() == row * col,
            g == (Grid { rows: row as nat, cols: col as nat, cells: texts(cells@) }),
            lines@.len() == i,
            forall|r: int| 0 <= r < i ==> (#[trigger] lines@[r])@ == joined(g.row(r), " "@),
        decreases row - i,
    {
        proof {
            lemma_row_span(i as int, row as int, col as int);
            assert(cells.len() == row * col);
        }
        let from = i * col;
        let line = join_range(cells, from, from + col, " ");
        assert(texts(cells@).subrange(from as int, from + col) =~= g.row(i as int));
        lines.push(line);
        i = i + 1;
    }
    let mut text = "{".to_owned();
    let body = join_range(&lines, 0, row, ", ");
    assert(texts(lines@).subrange(0, row as int) =~= Seq::new(
        g.rows,
        |i: int| joined(g.row(i), " "@),
    ));
    text.append(body.as_str());
    text.append("}");
    text
}

/// Lays out `row * col` cell texts as a matrix with its dimensions:
/// `Matrix { row: 2, col: 3, data: {a b c, d e f} }`.
pub fn labelled_layout(cells: &Vec<String>, row: usize, col: usize) -> (text: String)
    requires
        cells@.len() == row * col,
    ensures
        text@ == labelled_grid_text(
            (Grid { rows: row as nat, cols: col as nat, cells: texts(cells@) }),
        ),
{
    let mut text = "Matrix { row: ".to_owned();
    text.append(natural(row as u64).as_str());
    text.append(", col: ");
    text.append(natural(col as u64).as_str());
    text.append(", data: ");
    text.append(layout(cells, row, col).as_str());
    text.append(" }");
    text
}

/// The cell of the product that lies at position `at` of its buffer.
spec fn product_cell<T: Add<Output = T> + Mul<Output = T>>(
    zero: T,
    a: Grid<T>,
    b: Grid<T>,
    at: int,
) -> T {
    dot(zero, a.row(at / (b.cols as int)), b.column(at % (b.cols as int)))
}

/// The product of two matrices, where the left one has as many columns as
/// the right one has rows; other pairs are refused. Cell `(i, j)` of the
/// product is the inner product of row `i` of `a` and column `j` of `b`,
/// summed from left to right onto the element type's default value.
///
/// The operands hold all their cells, the product's cells can be counted in
/// a `usize`, and no `+` or `*` leaves what the element type allows: that is
/// for the caller to see to, and only where the dimensions fit.
pub fn multiply<T>(a: &Matrix<T>, b: &Matrix<T>) -> (r: Result<Matrix<T>, Error>) where
    T: Add<Output = T> + AddAssign + Mul<Output = T> + Copy + Default,

    requires
        a@.cols == b@.rows ==> {
            &&& a@.well_formed()
            &&& b@.well_formed()
            &&& a@.rows * b@.cols <= usize::MAX
            &&& obeys_arithmetic::<T>()
            &&& forall|zero: T| is_zero(zero) ==> product_in_range(zero, a@, b@)
        },
    ensures
        a@.cols != b@.rows ==> r is Err && r->Err_0 == Error::DimensionMismatch(Operands::Matrices),
        a@.cols == b@.rows ==> r is Ok && exists|zero: T|
            is_zero(zero) && is_product(zero, a@, b@, r->Ok_0@),
{
    if a.col != b.row {
        return Err(Error::DimensionMismatch(Operands::Matrices));
    }
    let zero = T::default();
    assert(is_zero(zero));
    let mut data: Vec<T> = Vec::with_capacity(a.row * b.col);
    let mut i: usize = 0;
    while i < a.row
        invariant
            i <= a.row,
            a.col == b.row,
            a@.well_formed(),
            b@.well_formed(),
            obeys_arithmetic::<T>(),
            product_in_range(zero, a@, b@),
            data@.len() == i * b.col,
            forall|at: int| 0 <= at < data@.len() ==> #[trigger] data@[at] == product_cell(zero, a@, b@, at),
        decreases a.row - i,
    {
        let mut j: usize = 0;
        while j < b.col
            invariant
                i < a.row,
                j <= b.col,
                a.col == b.row,
                a@.well_formed(),
                b@.well_formed(),
                obeys_arithmetic::<T>(),
                product_in_range(zero, a@, b@),
                data@.len() == i * b.col + j,
                forall|at: int|
                    0 <= at < data@.len() ==> #[trigger] data@[at] == product_cell(zero, a@, b@, at),
            decreases b.col - j,
        {
            let ghost left = a@.row(i as int);
            let ghost right = b@.column(j as int);
            let mut sum = zero;
            let mut k: usize = 0;
            while k < a.col
                invariant
                    i < a.row,
                    j < b.col,
                    k <= a.col,
                    a.col == b.row,
                    a@.well_formed(),
                    b@.well_formed(),
                    obeys_arithmetic::<T>(),
                    left == a@.row(i as int),
                    right == b@.column(j as int),
                    dot_in_range(zero, left, right),
                    sum == partial(zero, left, right, k as nat),
                decreases a.col - k,
            {
                proof {
                    lemma_in_range_shorter(zero, left, right, (k + 1) as nat, left.len());
                    lemma_cell_index(i as int, k as int, a.row as int, a.col as int);
                    lemma_cell_index(k as int, j as int, b.row as int, b.col as int);
                    assert(a.data.len() == a.row * a.col);
                    assert(b.data.len() == b.row * b.col);
                }
                sum = sum + a.data[i * a.col + k] * b.data[k * b.col + j];
                k = k + 1;
            }
            proof {
                lemma_cell_index(i as int, j as int, a.row as int, b.col as int);
            }
            data.push(sum);
            j = j + 1;
        }
        assert(i * b.col + b.col == (i + 1) * b.col) by (nonlinear_arith);
        i = i + 1;
    }
    let product = Matrix { data, row: a.row, col: b.col };
    assert forall|i: int, j: int| 0 <= i < a@.rows && 0 <= j < b@.cols implies #[trigger] product@.at(
        i,
        j,
    ) == dot(zero, a@.row(i), b@.column(j)) by {
        lemma_cell_index(i, j, a@.rows as int, b@.cols as int);
        assert(product@.at(i, j) == product_cell(zero, a@, b@, i * b@.cols + j));
    }
    Ok(product)
}

} // verus!
