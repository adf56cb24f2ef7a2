//! The generation engine: the rules of the game and the step from one
//! generation to the next.
//!
//! The rules are stated over the mathematical [`Board`]. The executable
//! [`step`] reads one grid and fills a fresh one, so every neighbour count is
//! taken from the generation being left, never from the one being built.

use vstd::prelude::*;
use crate::board::Board;
use crate::grid::{GridError, GridState};

verus! {

/// The rule of the game for one cell: a live cell stays alive with two or
/// three live neighbours, and a dead cell comes alive with exactly three.
pub open spec fn lives_on(alive: bool, live_neighbors: nat) -> bool {
    if alive {
        live_neighbors == 2 || live_neighbors == 3
    } else {
        live_neighbors == 3
    }
}

impl Board {
    /// One if a live cell sits at `(row, col)`, zero otherwise.
    pub open spec fn population(self, row: int, col: int) -> nat {
        if self.alive(row, col) {
            1
        } else {
            0
        }
    }

    /// The number of live cells among the eight coordinates around
    /// `(row, col)`. Coordinates off the board hold no live cell, so a cell
    /// on an edge or in a corner has fewer neighbours to count: the board does
    /// not wrap around.
    pub open spec fn live_neighbors(self, row: int, col: int) -> nat {
        self.population(row - 1, col - 1) + self.population(row - 1, col) + self.population(
            row - 1,
            col + 1,
        ) + self.population(row, col - 1) + self.population(row, col + 1) + self.population(
            row + 1,
            col - 1,
        ) + self.population(row + 1, col) + self.population(row + 1, col + 1)
    }

    /// Whether `(row, col)` holds a live cell in the next generation.
    pub open spec fn next_alive(self, row: int, col: int) -> bool {
        self.contains(row, col) && lives_on(self.alive(row, col), self.live_neighbors(row, col))
    }

    /// The next generation: a board of the same size on which every cell is
    /// decided by the rule, from this board alone.
    pub open spec fn step(self) -> Board {
        Board {
            height: self.height,
            width: self.width,
            cells: Seq::new(
                self.height * self.width,
                |i: int| self.next_alive(i / (self.width as int), i % (self.width as int)),
            ),
        }
    }

    /// The next generation keeps the size of the board, and its live cells
    /// are exactly those that the rule keeps or brings alive.
    pub proof fn lemma_step(self)
        requires
            self.wf(),
        ensures
            self.step().wf(),
            self.step().height == self.height,
            self.step().width == self.width,
            forall|row: int, col: int| #[trigger]
                self.step().alive(row, col) == self.next_alive(row, col),
    {
        let next = self.step();
        assert forall|row: int, col: int| #[trigger]
            next.alive(row, col) == self.next_alive(row, col) by {
            if self.contains(row, col) {
                self.lemma_index_in_range(row, col);
                self.lemma_index_inverse(row, col);
            }
        }
    }
}

/// The rule of the game for one cell, from its state and the number of its
/// live neighbours.
pub fn next_state(alive: bool, live_neighbors: u8) -> (next: bool)
    ensures
        next == lives_on(alive, live_neighbors as nat),
{
    if alive {
        if live_neighbors < 2 {
            false
        } else if live_neighbors > 3 {
            false
        } else {
            true
        }
    } else {
        live_neighbors == 3
    }
}

/// Counts the live neighbours of a cell that is known to lie on the grid.
fn count_live_neighbors(grid: &GridState, row: usize, col: usize) -> (count: u8)
    requires
        grid@.contains(row as int, col as int),
    ensures
        count == grid@.live_neighbors(row as int, col as int),
{
    let height = grid.height();
    let width = grid.width();
    let mut count: u8 = 0;
    if row != 0 {
        if col != 0 && grid.cell(row - 1, col - 1) {
            count += 1;
        }
        if grid.cell(row - 1, col) {
            count += 1;
        }
        if col != width - 1 && grid.cell(row - 1, col + 1) {
            count += 1;
        }
    }
    if col != 0 && grid.cell(row, col - 1) {
        count += 1;
    }
    if col != width - 1 && grid.cell(row, col + 1) {
        count += 1;
    }
    if row != height - 1 {
        if col != 0 && grid.cell(row + 1, col - 1) {
            count += 1;
        }
        if grid.cell(row + 1, col) {
            count += 1;
        }
        if col != width - 1 && grid.cell(row + 1, col + 1) {
            count += 1;
        }
    }
    count
}

/// The number of live cells among the up to eight neighbours of
/// `(row, col)`; `OutOfBounds` for a coordinate that is not on the grid.
pub fn live_neighbors(grid: &GridState, row: usize, col: usize) -> (res: Result<u8, GridError>)
    ensures
        res is Ok <==> grid@.contains(row as int, col as int),
        res matches Ok(count) ==> count == grid@.live_neighbors(row as int, col as int),
        res matches Err(e) ==> e == GridError::OutOfBounds,
{
    if row >= grid.height() || col >= grid.width() {
        return Err(GridError::OutOfBounds);
    }
    Ok(count_live_neighbors(grid, row, col))
}

/// Computes the next generation of `current` into a fresh grid of the same
/// size. `current` is only read.
pub fn step(current: &GridState) -> (next: GridState)
    ensures
        next@ == current@.step(),
        next@.wf(),
{
    let height = current.height();
    let width = current.width();
    let mut next = GridState::blank(height, width);
    let mut row: usize = 0;
    while row < height
        invariant
            row <= height,
            height == current@.height,
            width == current@.width,
            current@.wf(),
            next@.wf(),
            next@.height == height,
            next@.width == width,
            forall|r: int, c: int|
                0 <= r < row && 0 <= c < width ==> #[trigger] next@.alive(r, c)
                    == current@.next_alive(r, c),
        decreases height - row,
    {
        let mut col: usize = 0;
        while col < width
            invariant
                row < height,
                col <= width,
                height == current@.height,
                width == current@.width,
                current@.wf(),
                next@.wf(),
                next@.height == height,
                next@.width == width,
                forall|r: int, c: int|
                    0 <= r < height && 0 <= c < width && (r < row || (r == row && c < col))
                        ==> #[trigger] next@.alive(r, c) == current@.next_alive(r, c),
            decreases width - col,
        {
            let neighbors = count_live_neighbors(current, row, col);
            let value = next_state(current.cell(row, col), neighbors);
            let ghost before = next@;
            next.put(row, col, value);
            proof {
                assert forall|r: int, c: int|
                    0 <= r < height && 0 <= c < width && (r < row || (r == row && c < col + 1))
                        implies #[trigger] next@.alive(r, c) == current@.next_alive(r, c) by {
                    before.lemma_set_alive(row as int, col as int, value, r, c);
                }
            }
            col += 1;
        }
        row += 1;
    }
    proof {
        current@.lemma_step();
        assert(next@.same_cells(current@.step()));
        next@.lemma_same_cells_equal(current@.step());
    }
    next
}

} // verus!
