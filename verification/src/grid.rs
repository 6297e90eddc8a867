//! A rectangular grid stored row by row.

use vstd::prelude::*;

verus! {

/// The cell `(row, col)` of a grid with `cols` columns lies inside the
/// storage of a grid with `rows` rows.
pub proof fn cell_in_bounds(rows: int, cols: int, row: int, col: int)
    requires
        0 <= row < rows,
        0 <= col < cols,
    ensures
        0 <= row * cols + col < rows * cols,
        0 <= row * cols,
        row * cols + cols <= rows * cols,
{
    assert(row * cols >= 0) by (nonlinear_arith)
        requires
            row >= 0,
            cols > 0,
    ;
    assert(row * cols + cols <= rows * cols) by (nonlinear_arith)
        requires
            row + 1 <= rows,
            cols > 0,
    ;
}

/// A grid of `rows` by `cols` cells.
#[derive(Debug, Clone, PartialEq, Eq)]
pub struct Grid2D<T> {
    data: Vec<T>,
    rows: usize,
    cols: usize,
}

impl<T: Clone> Grid2D<T> {
    /// A grid whose every cell is a clone of `default_value`. The number
    /// of cells must fit in a `usize`.
    pub fn new(rows: usize, cols: usize, default_value: T) -> (r: Grid2D<T>)
        requires
            rows * cols <= usize::MAX,
        ensures
            r.wf(),
            r.spec_rows() == rows,
            r.spec_cols() == cols,
            forall|i: int| 0 <= i < rows * cols ==> cloned(default_value, #[trigger] r@[i]),
    {
        let data = vec![default_value; rows * cols];
        Grid2D { data, rows, cols }
    }
}

impl<T> Grid2D<T> {
    /// The cells, row after row.
    pub closed spec fn view(&self) -> Seq<T> {
        self.data@
    }

    pub closed spec fn spec_rows(&self) -> int {
        self.rows as int
    }

    pub closed spec fn spec_cols(&self) -> int {
        self.cols as int
    }

    /// There are as many cells as rows times columns.
    pub open spec fn wf(&self) -> bool {
        self@.len() == self.spec_rows() * self.spec_cols()
    }

    /// The cell in row `row` and column `col`.
    pub open spec fn cell(&self, row: int, col: int) -> T {
        self@[row * self.spec_cols() + col]
    }

    pub open spec fn inside(&self, row: int, col: int) -> bool {
        0 <= row < self.spec_rows() && 0 <= col < self.spec_cols()
    }

    pub fn rows(&self) -> (r: usize)
        ensures
            r == self.spec_rows(),
    {
        self.rows
    }

    pub fn cols(&self) -> (r: usize)
        ensures
            r == self.spec_cols(),
    {
        self.cols
    }

    /// Where the cell `(row, col)` stands in the storage.
    pub fn linear_index(&self, row: usize, col: usize) -> (r: usize)
        requires
            self.wf(),
            self.inside(row as int, col as int),
        ensures
            r == row * self.spec_cols() + col,
            r < self@.len(),
    {
        let cells = self.data.len();
        proof {
            cell_in_bounds(self.rows as int, self.cols as int, row as int, col as int);
            assert(cells == self.rows * self.cols);
        }
        row * self.cols + col
    }

    /// The cell `(row, col)`, or nothing outside the grid.
    pub fn get(&self, row: usize, col: usize) -> (r: Option<&T>)
        requires
            self.wf(),
        ensures
            r is Some <==> self.inside(row as int, col as int),
            r is Some ==> *r.unwrap() == self.cell(row as int, col as int),
    {
        if row < self.rows && col < self.cols {
            let i = self.linear_index(row, col);
            Some(&self.data[i])
        } else {
            None
        }
    }

    /// Exclusive access to the cell `(row, col)`, or nothing outside the
    /// grid. No other cell changes.
    pub fn get_mut(&mut self, row: usize, col: usize) -> (r: Option<&mut T>)
        requires
            old(self).wf(),
        ensures
            r is Some <==> old(self).inside(row as int, col as int),
            r is Some ==> *r.unwrap() == old(self).cell(row as int, col as int),
            r is Some ==> final(self)@ == old(self)@.update(
                row * old(self).spec_cols() + col,
                *final(r.unwrap()),
            ),
            r is None ==> final(self)@ == old(self)@,
            final(self).spec_rows() == old(self).spec_rows(),
            final(self).spec_cols() == old(self).spec_cols(),
            final(self).wf(),
    {
        if row < self.rows && col < self.cols {
            let i = self.linear_index(row, col);
            Some(&mut self.data[i])
        } else {
            None
        }
    }

    /// The cell `(row, col)` of a grid that has it.
    pub fn index(&self, row: usize, col: usize) -> (r: &T)
        requires
            self.wf(),
            self.inside(row as int, col as int),
        ensures
            *r == self.cell(row as int, col as int),
    {
        let i = self.linear_index(row, col);
        &self.data[i]
    }

    /// Exclusive access to the cell `(row, col)` of a grid that has it.
    pub fn index_mut(&mut self, row: usize, col: usize) -> (r: &mut T)
        requires
            old(self).wf(),
            old(self).inside(row as int, col as int),
        ensures
            *r == old(self).cell(row as int, col as int),
            final(self)@ == old(self)@.update(row * old(self).spec_cols() + col, *final(r)),
            final(self).spec_rows() == old(self).spec_rows(),
            final(self).spec_cols() == old(self).spec_cols(),
            final(self).wf(),
    {
        let i = self.linear_index(row, col);
        &mut self.data[i]
    }

    /// The cells of row `row`, left to right.
    pub fn row(&self, row: usize) -> (r: &[T])
        requires
            self.wf(),
            0 <= row < self.spec_rows(),
            self.spec_cols() > 0,
        ensures
            r@ == self@.subrange(row * self.spec_cols(), row * self.spec_cols() + self.spec_cols()),
    {
        let cells = self.data.len();
        proof {
            cell_in_bounds(self.rows as int, self.cols as int, row as int, 0);
            assert(cells == self.rows * self.cols);
        }
        let start = row * self.cols;
        let end = start + self.cols;
        let whole = self.data.as_slice();
        &whole[start..end]
    }

    /// Exclusive access to the cells of row `row`. The other rows stay as
    /// they are; the grid stays well formed as long as the row keeps its
    /// length.
    pub fn row_mut(&mut self, row: usize) -> (r: &mut [T])
        requires
            old(self).wf(),
            0 <= row < old(self).spec_rows(),
            old(self).spec_cols() > 0,
        ensures
            r@ == old(self)@.subrange(
                row * old(self).spec_cols(),
                row * old(self).spec_cols() + old(self).spec_cols(),
            ),
            final(self)@ == old(self)@.subrange(0, row * old(self).spec_cols()) + final(r)@ + old(self)@.subrange(
                row * old(self).spec_cols() + old(self).spec_cols(),
                old(self)@.len() as int,
            ),
            final(self).spec_rows() == old(self).spec_rows(),
            final(self).spec_cols() == old(self).spec_cols(),
    {
        let cells = self.data.len();
        proof {
            cell_in_bounds(self.rows as int, self.cols as int, row as int, 0);
            assert(cells == self.rows * self.cols);
        }
        let start = row * self.cols;
        let width = self.cols;
        let whole = self.data.as_mut_slice();
        let (_, rest) = whole.split_at_mut(start);
        let (cells_of_row, _) = rest.split_at_mut(width);
        cells_of_row
    }
}

} // verus!
