//! The grid of cells: its dimensions and one packed bit per cell.

use vstd::prelude::*;
use crate::bits::{bit_at, bits_of, filled, put_bit, PackedBits};
use crate::board::Board;

verus! {

/// Why an operation on a grid was refused.
#[derive(Clone, Copy, Debug, PartialEq, Eq, Structural)]
pub enum GridError {
    /// A grid was asked for with a height or a width of zero.
    InvalidDimensions,
    /// A coordinate lies outside the grid.
    OutOfBounds,
    /// A seeding density above 100 percent.
    InvalidDensity,
}

/// The largest number of cells a grid can hold: the packed storage rounds
/// the cell count up to whole machine words, and the rounded count has to
/// fit in one.
pub const MAX_CELLS: usize = usize::MAX - 63;

/// A fixed-size rectangular grid of cells, each alive or dead.
///
/// The cell at `(row, col)` is bit `row * width + col` of the packed
/// storage. A grid never changes its size.
pub struct GridState {
    height: usize,
    width: usize,
    cells: PackedBits,
}

impl View for GridState {
    type V = Board;

    closed spec fn view(&self) -> Board {
        Board {
            height: self.height as nat,
            width: self.width as nat,
            cells: bits_of(self.cells),
        }
    }
}

impl GridState {
    #[verifier::type_invariant]
    spec fn inv(self) -> bool {
        &&& self.height >= 1
        &&& self.width >= 1
        &&& self.height * self.width <= MAX_CELLS
        &&& bits_of(self.cells).len() == self.height * self.width
    }

    /// A grid of the given size with every cell dead.
    ///
    /// A height or width of zero is refused. The cell count has to stay
    /// within [`MAX_CELLS`].
    pub fn new(height: usize, width: usize) -> (res: Result<GridState, GridError>)
        requires
            height * width <= MAX_CELLS,
        ensures
            res is Err <==> height == 0 || width == 0,
            res matches Err(e) ==> e == GridError::InvalidDimensions,
            res matches Ok(grid) ==> {
                &&& grid@ == Board::filled(height as nat, width as nat, false)
                &&& grid@.wf()
                &&& grid@.all_dead()
            },
    {
        if height == 0 || width == 0 {
            return Err(GridError::InvalidDimensions);
        }
        Ok(GridState::blank(height, width))
    }

    /// A grid with every cell dead, for dimensions known to be valid.
    pub(crate) fn blank(height: usize, width: usize) -> (grid: GridState)
        requires
            height >= 1,
            width >= 1,
            height * width <= MAX_CELLS,
        ensures
            grid@ == Board::filled(height as nat, width as nat, false),
            grid@.wf(),
            grid@.all_dead(),
    {
        let count: usize = height * width;
        let cells = filled(false, count as u64);
        proof {
            Board::lemma_filled(height as nat, width as nat, false);
        }
        GridState { height, width, cells }
    }

    /// The number of rows.
    pub fn height(&self) -> (h: usize)
        ensures
            h == self@.height,
            self@.wf(),
            self@.cells.len() <= MAX_CELLS,
    {
        proof {
            use_type_invariant(self);
        }
        self.height
    }

    /// The number of columns.
    pub fn width(&self) -> (w: usize)
        ensures
            w == self@.width,
            self@.wf(),
            self@.cells.len() <= MAX_CELLS,
    {
        proof {
            use_type_invariant(self);
        }
        self.width
    }

    /// The cell at a coordinate that is known to lie on the grid.
    pub(crate) fn cell(&self, row: usize, col: usize) -> (alive: bool)
        requires
            self@.contains(row as int, col as int),
        ensures
            alive == self@.alive(row as int, col as int),
    {
        proof {
            use_type_invariant(self);
            self@.lemma_index_in_range(row as int, col as int);
        }
        let position: usize = row * self.width + col;
        bit_at(&self.cells, position as u64)
    }

    /// Overwrites the cell at a coordinate that is known to lie on the grid.
    pub(crate) fn put(&mut self, row: usize, col: usize, value: bool)
        requires
            old(self)@.contains(row as int, col as int),
        ensures
            final(self)@ == old(self)@.set(row as int, col as int, value),
            final(self)@.wf(),
    {
        proof {
            use_type_invariant(&*self);
            self@.lemma_index_in_range(row as int, col as int);
            self@.lemma_set_alive(row as int, col as int, value, 0, 0);
        }
        let position: usize = row * self.width + col;
        put_bit(&mut self.cells, position as u64, value);
    }

    /// Whether the cell at `(row, col)` is alive; `OutOfBounds` for a
    /// coordinate that is not on the grid.
    pub fn get(&self, row: usize, col: usize) -> (res: Result<bool, GridError>)
        ensures
            self@.contains(row as int, col as int) ==> res == Ok::<bool, GridError>(
                self@.alive(row as int, col as int),
            ),
            !self@.contains(row as int, col as int) ==> res == Err::<bool, GridError>(
                GridError::OutOfBounds,
            ),
    {
        if row >= self.height || col >= self.width {
            return Err(GridError::OutOfBounds);
        }
        Ok(self.cell(row, col))
    }

    /// Overwrites the cell at `(row, col)` and leaves every other cell as it
    /// was; `OutOfBounds`, and no change at all, for a coordinate that is not
    /// on the grid.
    pub fn set(&mut self, row: usize, col: usize, value: bool) -> (res: Result<(), GridError>)
        ensures
            old(self)@.contains(row as int, col as int) ==> {
                &&& res is Ok
                &&& final(self)@ == old(self)@.set(row as int, col as int, value)
            },
            !old(self)@.contains(row as int, col as int) ==> {
                &&& res == Err::<(), GridError>(GridError::OutOfBounds)
                &&& final(self)@ == old(self)@
            },
            final(self)@.wf(),
    {
        proof {
            use_type_invariant(&*self);
        }
        if row >= self.height || col >= self.width {
            return Err(GridError::OutOfBounds);
        }
        self.put(row, col, value);
        Ok(())
    }
}

} // verus!
