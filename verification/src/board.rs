//! The mathematical board: what a grid is, apart from how it is stored.
//!
//! A board is a height, a width and one boolean per cell, laid out row by
//! row. Coordinates are unbounded integers here, and a coordinate outside the
//! board simply holds no live cell, so the edges need no special case in the
//! rules built on top of this model.

use vstd::prelude::*;

verus! {

/// A rectangular board of cells, stored row by row.
pub struct Board {
    pub height: nat,
    pub width: nat,
    pub cells: Seq<bool>,
}

impl Board {
    /// Both dimensions are positive and there is exactly one cell per
    /// coordinate.
    pub open spec fn wf(self) -> bool {
        &&& self.height >= 1
        &&& self.width >= 1
        &&& self.cells.len() == self.height * self.width
    }

    /// Whether `(row, col)` lies on the board.
    pub open spec fn contains(self, row: int, col: int) -> bool {
        0 <= row < self.height && 0 <= col < self.width
    }

    /// The position of `(row, col)` in the row-by-row layout.
    pub open spec fn index(self, row: int, col: int) -> int {
        row * self.width + col
    }

    /// Whether a live cell sits at `(row, col)`. Off the board there is none.
    pub open spec fn alive(self, row: int, col: int) -> bool {
        self.contains(row, col) && self.cells[self.index(row, col)]
    }

    /// This board with the cell at `(row, col)` overwritten.
    pub open spec fn set(self, row: int, col: int, value: bool) -> Board {
        Board { cells: self.cells.update(self.index(row, col), value), ..self }
    }

    /// The board of the given size whose cells all hold `value`.
    pub open spec fn filled(height: nat, width: nat, value: bool) -> Board {
        Board { height, width, cells: Seq::new(height * width, |i: int| value) }
    }

    /// Whether no cell of the board is alive.
    pub open spec fn all_dead(self) -> bool {
        forall|row: int, col: int| !#[trigger] self.alive(row, col)
    }

    /// Whether every cell of the board is alive.
    pub open spec fn all_alive(self) -> bool {
        forall|row: int, col: int| self.contains(row, col) ==> #[trigger] self.alive(row, col)
    }

    /// Whether two boards have the same size and the same live cells.
    pub open spec fn same_cells(self, other: Board) -> bool {
        &&& self.height == other.height
        &&& self.width == other.width
        &&& forall|row: int, col: int| #[trigger] self.alive(row, col) == other.alive(row, col)
    }

    /// A coordinate on the board has a position inside the cell sequence.
    pub proof fn lemma_index_in_range(self, row: int, col: int)
        requires
            self.wf(),
            self.contains(row, col),
        ensures
            0 <= self.index(row, col) < self.cells.len(),
    {
        let w = self.width as int;
        let h = self.height as int;
        assert(0 <= row * w && row * w + w <= h * w) by (nonlinear_arith)
            requires
                0 <= row < h,
                0 < w,
        ;
    }

    /// The layout gives back the coordinate it was computed from.
    pub proof fn lemma_index_inverse(self, row: int, col: int)
        requires
            self.wf(),
            self.contains(row, col),
        ensures
            self.index(row, col) / (self.width as int) == row,
            self.index(row, col) % (self.width as int) == col,
    {
        vstd::arithmetic::div_mod::lemma_fundamental_div_mod_converse(
            self.index(row, col),
            self.width as int,
            row,
            col,
        );
    }

    /// Every position of the cell sequence belongs to exactly one coordinate
    /// on the board: the quotient and remainder by the width.
    pub proof fn lemma_position_is_coordinate(self, position: int)
        requires
            self.wf(),
            0 <= position < self.cells.len(),
        ensures
            self.contains(position / (self.width as int), position % (self.width as int)),
            self.index(position / (self.width as int), position % (self.width as int))
                == position,
    {
        let w = self.width as int;
        let h = self.height as int;
        vstd::arithmetic::div_mod::lemma_fundamental_div_mod(position, w);
        vstd::arithmetic::div_mod::lemma_mod_bound(position, w);
        vstd::arithmetic::div_mod::lemma_div_pos_is_pos(position, w);
        assert(h * w == w * h) by (nonlinear_arith);
        vstd::arithmetic::div_mod::lemma_multiply_divide_lt(position, w, h);
        assert(w * (position / w) == (position / w) * w) by (nonlinear_arith);
    }

    /// Two coordinates on the board share a position only if they are the
    /// same coordinate.
    pub proof fn lemma_index_injective(self, row1: int, col1: int, row2: int, col2: int)
        requires
            self.wf(),
            self.contains(row1, col1),
            self.contains(row2, col2),
            self.index(row1, col1) == self.index(row2, col2),
        ensures
            row1 == row2,
            col1 == col2,
    {
        self.lemma_index_inverse(row1, col1);
        self.lemma_index_inverse(row2, col2);
    }

    /// Overwriting one cell changes that cell and no other.
    pub proof fn lemma_set_alive(self, row: int, col: int, value: bool, r: int, c: int)
        requires
            self.wf(),
            self.contains(row, col),
        ensures
            self.set(row, col, value).wf(),
            self.set(row, col, value).alive(r, c) == if r == row && c == col {
                value
            } else {
                self.alive(r, c)
            },
    {
        self.lemma_index_in_range(row, col);
        if self.contains(r, c) {
            self.lemma_index_in_range(r, c);
            if self.index(r, c) == self.index(row, col) {
                self.lemma_index_injective(r, c, row, col);
            }
        }
    }

    /// Boards with the same size and the same live cells are equal.
    pub proof fn lemma_same_cells_equal(self, other: Board)
        requires
            self.wf(),
            other.wf(),
            self.same_cells(other),
        ensures
            self == other,
    {
        assert forall|i: int| 0 <= i < self.cells.len() implies self.cells[i] == other.cells[i] by {
            self.lemma_position_is_coordinate(i);
            let w = self.width as int;
            assert(self.alive(i / w, i % w) == other.alive(i / w, i % w));
        }
        assert(self.cells =~= other.cells);
    }

    /// A filled board is well formed, and each of its cells holds the value
    /// it was filled with.
    pub proof fn lemma_filled(height: nat, width: nat, value: bool)
        requires
            height >= 1,
            width >= 1,
        ensures
            Board::filled(height, width, value).wf(),
            forall|row: int, col: int|
                #[trigger] Board::filled(height, width, value).alive(row, col) == (value
                    && Board::filled(height, width, value).contains(row, col)),
    {
        let b = Board::filled(height, width, value);
        assert forall|row: int, col: int| #[trigger] b.alive(row, col) == (value && b.contains(
            row,
            col,
        )) by {
            if b.contains(row, col) {
                b.lemma_index_in_range(row, col);
            }
        }
    }
}

} // verus!
