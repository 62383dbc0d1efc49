//! The executable two-dimensional array.

use crate::grid::{lemma_offset_within_cells, Grid};
use vstd::prelude::*;

verus! {

/// Message of the error that rejects data longer than the buffer.
pub const OVERSIZED_INPUT: &'static str = "Data to populate array is larger than the array";

/// Message of the error that rejects a row outside the array.
pub const INVALID_ROW: &'static str = "Invalid row for data access";

/// Message of the error that rejects a column outside the array.
pub const INVALID_COLUMN: &'static str = "Invalid column for data access";

/// `value` is one that `T::default()` may return.
pub open spec fn is_default_value<T: Default>(value: T) -> bool {
    call_ensures(T::default, (), value)
}

/// A fixed-size array of `height` rows and `width` columns, kept row after
/// row in one buffer of `width * height` cells.
#[derive(Debug)]
pub struct Array2D<T> {
    data: Vec<T>,
    width: usize,
    height: usize,
}

impl<T> View for Array2D<T> {
    type V = Grid<T>;

    closed spec fn view(&self) -> Grid<T> {
        Grid { width: self.width as nat, height: self.height as nat, cells: self.data@ }
    }
}

impl<T> Array2D<T> {
    /// Holds of every array at all times: the buffer has one cell per
    /// coordinate pair.
    #[verifier::type_invariant]
    pub open spec fn wf(&self) -> bool {
        self@.wf()
    }
}

impl<T: Default + Clone> Array2D<T> {
    /// An array of the given dimensions with every cell set to a default
    /// value of `T`. Where either dimension is zero the array is empty and
    /// both its dimensions are zero.
    pub fn new(width: usize, height: usize) -> (array: Self)
        requires
            width * height <= usize::MAX,
        ensures
            array@.wf(),
            array@.size() == width * height,
            width >= 1 && height >= 1 ==> (array@.width == width
                && array@.height == height
                && array@.size() == width * height),
            width < 1 || height < 1 ==> (array@.width == 0
                && array@.height == 0
                && array@.size() == 0),
            forall|i: int| 0 <= i < array@.size() ==> is_default_value(#[trigger] array@.cells[i]),
    {
        if width < 1 || height < 1 {
            assert(width * height == 0) by (nonlinear_arith)
                requires
                    width == 0 || height == 0,
            ;
            return Array2D { data: Vec::new(), width: 0, height: 0 };
        }
        let size: usize = width * height;
        let mut data: Vec<T> = Vec::with_capacity(size);
        while data.len() < size
            invariant
                data.len() <= size,
                forall|i: int| 0 <= i < data.len() ==> is_default_value(#[trigger] data@[i]),
            decreases size - data.len(),
        {
            data.push(T::default());
        }
        Array2D { data, width, height }
    }

    /// Writes `data` over the first `data.len()` cells of the buffer, in
    /// order, and leaves the cells behind them as they were. Data longer than
    /// the buffer is rejected, and then no cell changes.
    pub fn populate_array_with_data(&mut self, data: Vec<T>) -> (res: Result<(), &str>)
        ensures
            data@.len() <= old(self)@.size() ==> (res is Ok
                && final(self)@ == old(self)@.overwrite_prefix(data@)),
            data@.len() > old(self)@.size() ==> (res matches Err(message)
                && message@ == OVERSIZED_INPUT@
                && final(self)@ == old(self)@),
    {
        proof {
            use_type_invariant(&*self);
        }
        if data.len() > self.data.len() {
            return Err(OVERSIZED_INPUT);
        }
        let ghost before = self@;
        let ghost source = data@;
        let mut count: usize = 0;
        for item in it: data
            invariant
                count == it.index(),
                it.seq() == source,
                source.len() <= before.size() <= usize::MAX,
                self@.width == before.width,
                self@.height == before.height,
                self@.cells.len() == before.cells.len(),
                before.wf(),
                forall|i: int| 0 <= i < count ==> self@.cells[i] == source[i],
                forall|i: int| count <= i < before.cells.len() ==> self@.cells[i] == before.cells[i],
        {
            self.data[count] = item;
            count += 1;
        }
        assert(self@.cells =~= before.overwrite_prefix(source).cells);
        Ok(())
    }

    /// The number of cells.
    pub fn get_size(&self) -> (size: usize)
        ensures
            size == self@.size(),
            size == self@.width * self@.height,
    {
        proof {
            use_type_invariant(self);
        }
        self.data.len()
    }

    /// The number of rows.
    pub fn get_height(&self) -> (height: usize)
        ensures
            height == self@.height,
    {
        self.height
    }

    /// The number of columns.
    pub fn get_width(&self) -> (width: usize)
        ensures
            width == self@.width,
    {
        self.width
    }

    /// A copy of the cell at `row` and `column`. A row that is not below the
    /// height is rejected first, then a column that is not below the width;
    /// a coordinate equal to its dimension is outside the array.
    pub fn get_value_at(&self, row: usize, column: usize) -> (res: Result<T, &str>) where T: Copy
        ensures
            row >= self@.height ==> (res matches Err(message) && message@ == INVALID_ROW@),
            row < self@.height && column >= self@.width ==> (res matches Err(message)
                && message@ == INVALID_COLUMN@),
            row < self@.height && column < self@.width ==> res == Ok::<T, &str>(
                self@.at(row as int, column as int),
            ),
    {
        if row >= self.height {
            return Err(INVALID_ROW);
        }
        if column >= self.width {
            return Err(INVALID_COLUMN);
        }
        proof {
            use_type_invariant(self);
            lemma_offset_within_cells(self@, row as int, column as int);
            assert(self@.size() == self.data.len());
        }
        let index: usize = self.get_index(row, column);
        Ok(self.data[index])
    }

    /// Replaces the cell at `row` and `column`, which must name a cell of the
    /// array, and changes nothing else.
    pub fn set_value_at(&mut self, row: usize, column: usize, data: T)
        requires
            old(self)@.in_bounds(row as int, column as int),
        ensures
            final(self)@ == old(self)@.write(row as int, column as int, data),
    {
        proof {
            use_type_invariant(&*self);
            lemma_offset_within_cells(self@, row as int, column as int);
            assert(self@.size() == self.data.len());
        }
        let index: usize = self.get_index(row, column);
        self.data[index] = data;
    }

    /// The position in the buffer that the addressing formula gives a
    /// coordinate pair, `width * row + column`. The pair is not checked
    /// against the dimensions.
    pub fn get_index(&self, row: usize, column: usize) -> (index: usize)
        requires
            self@.width * row + column <= usize::MAX,
        ensures
            index == self@.width * row + column,
            index == self@.offset(row as int, column as int),
    {
        self.width * row + column
    }
}

impl<T: Clone> Clone for Array2D<T> {
    /// An array of the same dimensions whose cells are clones of this one's.
    fn clone(&self) -> (copy: Self)
        ensures
            copy@.width == self@.width,
            copy@.height == self@.height,
            copy@.size() == self@.size(),
            forall|i: int| 0 <= i < self@.size() ==> cloned(self@.cells[i], #[trigger] copy@.cells[i]),
    {
        proof {
            use_type_invariant(self);
        }
        Array2D { data: self.data.clone(), width: self.width, height: self.height }
    }
}

impl<T: Default> Default for Array2D<T> {
    /// The empty array.
    fn default() -> (array: Self)
        ensures
            array@.width == 0,
            array@.height == 0,
            array@.size() == 0,
    {
        Array2D { data: Vec::new(), width: 0, height: 0 }
    }
}

} // verus!
