//! The mathematical model of a two-dimensional array: its dimensions and its
//! cells in row-major order, with the operations on it as spec functions and
//! the laws of its addressing formula as proof functions.

use vstd::prelude::*;

verus! {

/// A grid of `height` rows and `width` columns, stored row after row in `cells`.
pub struct Grid<T> {
    pub width: nat,
    pub height: nat,
    pub cells: Seq<T>,
}

impl<T> Grid<T> {
    /// There is exactly one cell per coordinate pair, and a grid without
    /// columns has no rows and the other way round.
    pub open spec fn wf(self) -> bool {
        &&& self.cells.len() == self.width * self.height
        &&& (self.width == 0 <==> self.height == 0)
    }

    /// The number of cells.
    pub open spec fn size(self) -> nat {
        self.cells.len()
    }

    /// The position in `cells` that the addressing formula gives a coordinate
    /// pair. Nothing is checked here: the pair may lie outside the grid.
    pub open spec fn offset(self, row: int, column: int) -> int {
        self.width * row + column
    }

    /// The coordinate pair names a cell of the grid.
    pub open spec fn in_bounds(self, row: int, column: int) -> bool {
        0 <= row < self.height && 0 <= column < self.width
    }

    /// The cell that a coordinate pair is addressed to.
    pub open spec fn at(self, row: int, column: int) -> T {
        self.cells[self.offset(row, column)]
    }

    /// The grid with one cell replaced and everything else as it was.
    pub open spec fn write(self, row: int, column: int, value: T) -> Grid<T> {
        Grid {
            width: self.width,
            height: self.height,
            cells: self.cells.update(self.offset(row, column), value),
        }
    }

    /// The grid whose first `data.len()` cells are those of `data`, in order,
    /// and whose other cells are as they were.
    pub open spec fn overwrite_prefix(self, data: Seq<T>) -> Grid<T> {
        Grid {
            width: self.width,
            height: self.height,
            cells: Seq::new(
                self.cells.len(),
                |i: int| if i < data.len() { data[i] } else { self.cells[i] },
            ),
        }
    }
}

/// Every coordinate pair inside the grid is addressed to a position inside
/// the buffer.
pub proof fn lemma_offset_within_cells<T>(grid: Grid<T>, row: int, column: int)
    requires
        grid.wf(),
        grid.in_bounds(row, column),
    ensures
        0 <= grid.offset(row, column) < grid.size(),
{
    let w = grid.width as int;
    let h = grid.height as int;
    assert(0 <= w * row + column < w * h) by (nonlinear_arith)
        requires
            0 <= row < h,
            0 <= column < w,
    ;
}

/// Two coordinate pairs inside the grid that are addressed to the same
/// position are the same pair.
pub proof fn lemma_offset_injective<T>(
    grid: Grid<T>,
    row_a: int,
    column_a: int,
    row_b: int,
    column_b: int,
)
    requires
        grid.in_bounds(row_a, column_a),
        grid.in_bounds(row_b, column_b),
        grid.offset(row_a, column_a) == grid.offset(row_b, column_b),
    ensures
        row_a == row_b,
        column_a == column_b,
{
    let w = grid.width as int;
    assert(row_a == row_b) by (nonlinear_arith)
        requires
            0 <= column_a < w,
            0 <= column_b < w,
            w * row_a + column_a == w * row_b + column_b,
    ;
    assert(w * row_a == w * row_b);
}

/// Every position inside the buffer is the address of a coordinate pair
/// inside the grid: row `position / width`, column `position % width`.
pub proof fn lemma_offset_covers_cells<T>(grid: Grid<T>, position: int)
    requires
        grid.wf(),
        0 <= position < grid.size(),
    ensures
        grid.in_bounds(position / (grid.width as int), position % (grid.width as int)),
        grid.offset(position / (grid.width as int), position % (grid.width as int)) == position,
{
    let w = grid.width as int;
    let h = grid.height as int;
    assert(w > 0) by (nonlinear_arith)
        requires
            0 <= position < w * h,
            0 <= w,
    ;
    assert(0 <= position / w < h && 0 <= position % w < w && w * (position / w) + position % w
        == position) by (nonlinear_arith)
        requires
            0 <= position < w * h,
            w > 0,
    ;
}

/// Writing a cell of the grid keeps the dimensions and the invariant.
pub proof fn lemma_write_preserves_wf<T>(grid: Grid<T>, row: int, column: int, value: T)
    requires
        grid.wf(),
        grid.in_bounds(row, column),
    ensures
        grid.write(row, column, value).wf(),
        grid.write(row, column, value).width == grid.width,
        grid.write(row, column, value).height == grid.height,
        grid.write(row, column, value).size() == grid.size(),
{
    lemma_offset_within_cells(grid, row, column);
}

/// A cell that was just written holds the value written.
pub proof fn lemma_write_then_read<T>(grid: Grid<T>, row: int, column: int, value: T)
    requires
        grid.wf(),
        grid.in_bounds(row, column),
    ensures
        grid.write(row, column, value).in_bounds(row, column),
        grid.write(row, column, value).at(row, column) == value,
{
    lemma_offset_within_cells(grid, row, column);
}

/// Writing one cell leaves every other cell of the grid as it was.
pub proof fn lemma_write_keeps_other_cells<T>(
    grid: Grid<T>,
    row: int,
    column: int,
    value: T,
    other_row: int,
    other_column: int,
)
    requires
        grid.wf(),
        grid.in_bounds(row, column),
        grid.in_bounds(other_row, other_column),
        other_row != row || other_column != column,
    ensures
        grid.write(row, column, value).at(other_row, other_column) == grid.at(
            other_row,
            other_column,
        ),
{
    lemma_offset_within_cells(grid, row, column);
    lemma_offset_within_cells(grid, other_row, other_column);
    if grid.offset(row, column) == grid.offset(other_row, other_column) {
        lemma_offset_injective(grid, row, column, other_row, other_column);
    }
}

/// Overwriting a prefix keeps the dimensions and the invariant, puts `data`
/// in front, and leaves the cells behind it as they were.
pub proof fn lemma_overwrite_prefix<T>(grid: Grid<T>, data: Seq<T>)
    requires
        grid.wf(),
        data.len() <= grid.size(),
    ensures
        grid.overwrite_prefix(data).wf(),
        grid.overwrite_prefix(data).width == grid.width,
        grid.overwrite_prefix(data).height == grid.height,
        grid.overwrite_prefix(data).cells.subrange(0, data.len() as int) == data,
        grid.overwrite_prefix(data).cells.subrange(data.len() as int, grid.size() as int)
            == grid.cells.subrange(data.len() as int, grid.size() as int),
{
}

/// After a prefix was overwritten, a cell addressed to a position inside
/// the prefix holds what `data` holds at that position, and a cell behind
/// the prefix holds what it held before.
pub proof fn lemma_overwrite_prefix_then_read<T>(
    grid: Grid<T>,
    data: Seq<T>,
    row: int,
    column: int,
)
    requires
        grid.wf(),
        data.len() <= grid.size(),
        grid.in_bounds(row, column),
    ensures
        grid.overwrite_prefix(data).in_bounds(row, column),
        grid.offset(row, column) < data.len() ==> grid.overwrite_prefix(data).at(row, column)
            == data[grid.offset(row, column)],
        grid.offset(row, column) >= data.len() ==> grid.overwrite_prefix(data).at(row, column)
            == grid.at(row, column),
{
    lemma_offset_within_cells(grid, row, column);
}

} // verus!
