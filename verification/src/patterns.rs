//! What the rules do to a few well-known patterns, on boards of any size.
//!
//! Each pattern is described by the set of coordinates that are alive; the
//! statements hold wherever on the board the pattern sits, edges and corners
//! included unless a statement says otherwise.

use vstd::prelude::*;
use crate::board::Board;

verus! {

/// Whether `(r, c)` is one of the four cells of the two-by-two block whose
/// upper left cell is `(row, col)`.
pub open spec fn in_block(row: int, col: int, r: int, c: int) -> bool {
    row <= r <= row + 1 && col <= c <= col + 1
}

/// Whether `(r, c)` lies in the ring of twelve coordinates around the block
/// whose upper left cell is `(row, col)`.
pub open spec fn around_block(row: int, col: int, r: int, c: int) -> bool {
    row - 1 <= r <= row + 2 && col - 1 <= c <= col + 2 && !in_block(row, col, r, c)
}

/// Whether `(r, c)` is one of the three cells of the horizontal line
/// centred on `(row, col)`.
pub open spec fn in_horizontal_blinker(row: int, col: int, r: int, c: int) -> bool {
    r == row && col - 1 <= c <= col + 1
}

/// Whether `(r, c)` is one of the three cells of the vertical line centred
/// on `(row, col)`.
pub open spec fn in_vertical_blinker(row: int, col: int, r: int, c: int) -> bool {
    c == col && row - 1 <= r <= row + 1
}

impl Board {
    /// The live cells are exactly the block with upper left cell
    /// `(row, col)`; every other cell, around it or further away, is dead.
    pub open spec fn is_block(self, row: int, col: int) -> bool {
        forall|r: int, c: int| #[trigger] self.alive(r, c) == in_block(row, col, r, c)
    }

    /// The live cells are exactly the horizontal line of three centred on
    /// `(row, col)`.
    pub open spec fn is_horizontal_blinker(self, row: int, col: int) -> bool {
        forall|r: int, c: int| #[trigger] self.alive(r, c) == in_horizontal_blinker(row, col, r, c)
    }

    /// The live cells are exactly the vertical line of three centred on
    /// `(row, col)`.
    pub open spec fn is_vertical_blinker(self, row: int, col: int) -> bool {
        forall|r: int, c: int| #[trigger] self.alive(r, c) == in_vertical_blinker(row, col, r, c)
    }

    /// The only live cell is the one in the corner `(0, 0)`.
    pub open spec fn is_lone_corner(self) -> bool {
        forall|r: int, c: int| #[trigger] self.alive(r, c) == (r == 0 && c == 0)
    }

    /// Stasis: a board without live cells is its own next generation.
    pub proof fn lemma_empty_board_is_stable(self)
        requires
            self.wf(),
            self.all_dead(),
        ensures
            self.step() == self,
    {
        self.lemma_step();
        assert forall|r: int, c: int| #[trigger] self.step().alive(r, c) == self.alive(r, c) by {
            assert(self.live_neighbors(r, c) == 0);
        }
        self.step().lemma_same_cells_equal(self);
    }

    /// Still life: a board whose live cells are exactly one two-by-two block
    /// is its own next generation.
    pub proof fn lemma_block_is_stable(self, row: int, col: int)
        requires
            self.wf(),
            self.is_block(row, col),
        ensures
            self.step() == self,
    {
        self.lemma_step();
        assert forall|r: int, c: int| #[trigger] self.step().alive(r, c) == self.alive(r, c) by {
            assert(self.alive(row, col) && self.alive(row + 1, col + 1));
            if in_block(row, col, r, c) {
                assert(self.alive(r, c));
                assert(self.live_neighbors(r, c) == 3);
            } else {
                assert(!self.alive(r, c));
                assert(self.live_neighbors(r, c) <= 2);
            }
        }
        self.step().lemma_same_cells_equal(self);
    }

    /// Still life, locally: the four cells of a block whose surrounding ring
    /// is dead stay alive, each with exactly three live neighbours, whatever
    /// the rest of the board holds.
    pub proof fn lemma_block_survives(self, row: int, col: int)
        requires
            self.wf(),
            forall|r: int, c: int| in_block(row, col, r, c) ==> #[trigger] self.alive(r, c),
            forall|r: int, c: int| around_block(row, col, r, c) ==> !#[trigger] self.alive(r, c),
        ensures
            forall|r: int, c: int|
                in_block(row, col, r, c) ==> self.live_neighbors(r, c) == 3
                    && #[trigger] self.step().alive(r, c),
    {
        self.lemma_step();
        assert forall|r: int, c: int| in_block(row, col, r, c) implies self.live_neighbors(r, c)
            == 3 && #[trigger] self.step().alive(r, c) by {
            assert(self.alive(row, col) && self.alive(row, col + 1));
            assert(self.alive(row + 1, col) && self.alive(row + 1, col + 1));
            assert(forall|i: int, j: int|
                r - 1 <= i <= r + 1 && c - 1 <= j <= c + 1 ==> #[trigger] self.alive(i, j)
                    == in_block(row, col, i, j)) by {
                assert forall|i: int, j: int|
                    r - 1 <= i <= r + 1 && c - 1 <= j <= c + 1 implies #[trigger] self.alive(i, j)
                    == in_block(row, col, i, j) by {
                    if !in_block(row, col, i, j) {
                        assert(around_block(row, col, i, j));
                    }
                }
            }
            assert(self.alive(r, c));
        }
    }

    /// Oscillator, first half: a horizontal line of three that has a row
    /// above and a row below it becomes the vertical line of three through
    /// the same centre.
    pub proof fn lemma_horizontal_blinker_turns(self, row: int, col: int)
        requires
            self.wf(),
            self.is_horizontal_blinker(row, col),
            1 <= row < self.height - 1,
        ensures
            self.step().wf(),
            self.step().height == self.height,
            self.step().width == self.width,
            self.step().is_vertical_blinker(row, col),
    {
        self.lemma_step();
        assert forall|r: int, c: int| #[trigger]
            self.step().alive(r, c) == in_vertical_blinker(row, col, r, c) by {
            assert(self.alive(row, col - 1) && self.alive(row, col + 1));
            if in_vertical_blinker(row, col, r, c) {
                if r == row {
                    assert(self.live_neighbors(r, c) == 2);
                } else {
                    assert(self.live_neighbors(r, c) == 3);
                }
            } else if self.alive(r, c) {
                assert(self.live_neighbors(r, c) == 1);
            } else {
                assert(self.live_neighbors(r, c) <= 2);
            }
        }
    }

    /// Oscillator, second half: a vertical line of three that has a column
    /// to its left and a column to its right becomes the horizontal line of
    /// three through the same centre.
    pub proof fn lemma_vertical_blinker_turns(self, row: int, col: int)
        requires
            self.wf(),
            self.is_vertical_blinker(row, col),
            1 <= col < self.width - 1,
        ensures
            self.step().wf(),
            self.step().height == self.height,
            self.step().width == self.width,
            self.step().is_horizontal_blinker(row, col),
    {
        self.lemma_step();
        assert forall|r: int, c: int| #[trigger]
            self.step().alive(r, c) == in_horizontal_blinker(row, col, r, c) by {
            assert(self.alive(row - 1, col) && self.alive(row + 1, col));
            if in_horizontal_blinker(row, col, r, c) {
                if c == col {
                    assert(self.live_neighbors(r, c) == 2);
                } else {
                    assert(self.live_neighbors(r, c) == 3);
                }
            } else if self.alive(r, c) {
                assert(self.live_neighbors(r, c) == 1);
            } else {
                assert(self.live_neighbors(r, c) <= 2);
            }
        }
    }

    /// Oscillator: a horizontal line of three away from the top and bottom
    /// edges turns vertical in one generation and is back where it started
    /// after two.
    pub proof fn lemma_blinker_has_period_two(self, row: int, col: int)
        requires
            self.wf(),
            self.is_horizontal_blinker(row, col),
            1 <= row < self.height - 1,
        ensures
            self.step().is_vertical_blinker(row, col),
            self.step().step() == self,
    {
        self.lemma_horizontal_blinker_turns(row, col);
        assert(self.alive(row, col - 1) && self.alive(row, col + 1));
        self.step().lemma_vertical_blinker_turns(row, col);
        self.step().step().lemma_same_cells_equal(self);
    }

    /// No cell counts more than eight live neighbours.
    pub proof fn lemma_at_most_eight_neighbors(self, row: int, col: int)
        ensures
            self.live_neighbors(row, col) <= 8,
    {
    }

    /// Boundary: the corner cell `(0, 0)` has only three neighbours on the
    /// board, so it never counts more than three live ones, whatever the
    /// board holds.
    pub proof fn lemma_corner_counts_at_most_three(self)
        ensures
            self.live_neighbors(0, 0) <= 3,
    {
    }

    /// Boundary: a lone live cell in the corner `(0, 0)` counts no live
    /// neighbour, dies, and nothing is born around it.
    pub proof fn lemma_lone_corner_cell_dies(self)
        requires
            self.wf(),
            self.is_lone_corner(),
        ensures
            self.live_neighbors(0, 0) == 0,
            !self.step().alive(0, 0),
            self.step().all_dead(),
            self.step() == Board::filled(self.height, self.width, false),
    {
        self.lemma_step();
        assert forall|r: int, c: int| !#[trigger] self.step().alive(r, c) by {
            assert(self.live_neighbors(r, c) <= 1);
        }
        Board::lemma_filled(self.height, self.width, false);
        self.step().lemma_same_cells_equal(Board::filled(self.height, self.width, false));
    }

    /// Determinism: the next generation depends on the board and on nothing
    /// else, so equal boards have equal next generations.
    pub proof fn lemma_step_is_deterministic(self, other: Board)
        requires
            self == other,
        ensures
            self.step() == other.step(),
    {
    }
}

} // verus!
