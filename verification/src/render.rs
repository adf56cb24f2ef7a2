//! The text of a grid, line by line: a frame of `-` and `|` around one
//! character per cell, `O` for a live cell and a blank for a dead one.
//!
//! Only the characters are decided here. Where they go on a screen is up to
//! whoever draws them.

use vstd::prelude::*;
use crate::board::Board;
use crate::grid::{GridError, GridState};

verus! {

/// The character that stands for a cell.
pub open spec fn cell_mark(alive: bool) -> char {
    if alive {
        'O'
    } else {
        ' '
    }
}

impl Board {
    /// The top and bottom line of the frame: a dash above every column and
    /// one above each of the two walls.
    pub open spec fn border_text(self) -> Seq<char> {
        Seq::new(self.width + 2, |i: int| '-')
    }

    /// The line for one row: a wall, the cells of the row in column order,
    /// and a wall.
    pub open spec fn row_text(self, row: int) -> Seq<char> {
        Seq::new(
            self.width + 2,
            |i: int|
                if i == 0 || i == self.width + 1 {
                    '|'
                } else {
                    cell_mark(self.alive(row, i - 1))
                },
        )
    }
}

/// The top and bottom line of the frame around `grid`.
pub fn border_line(grid: &GridState) -> (line: Vec<char>)
    ensures
        line@ == grid@.border_text(),
{
    let width = grid.width();
    proof {
        grid@.lemma_index_in_range(0, width - 1);
    }
    let mut line: Vec<char> = Vec::new();
    let mut written: usize = 0;
    while written < width + 2
        invariant
            written <= width + 2,
            width + 2 <= usize::MAX,
            line@.len() == written,
            forall|i: int| 0 <= i < written ==> #[trigger] line@[i] == '-',
        decreases width + 2 - written,
    {
        line.push('-');
        written += 1;
    }
    proof {
        assert(line@ =~= grid@.border_text());
    }
    line
}

/// The line for row `row` of `grid`, between its two walls; `OutOfBounds`
/// for a row that is not on the grid.
pub fn row_line(grid: &GridState, row: usize) -> (res: Result<Vec<char>, GridError>)
    ensures
        res is Ok <==> row < grid@.height,
        res matches Ok(line) ==> line@ == grid@.row_text(row as int),
        res matches Err(e) ==> e == GridError::OutOfBounds,
{
    let width = grid.width();
    if row >= grid.height() {
        return Err(GridError::OutOfBounds);
    }
    proof {
        grid@.lemma_index_in_range(0, width - 1);
    }
    let mut line: Vec<char> = Vec::new();
    line.push('|');
    let mut col: usize = 0;
    while col < width
        invariant
            col <= width,
            width == grid@.width,
            row < grid@.height,
            width + 2 <= usize::MAX,
            line@.len() == col + 1,
            forall|i: int| 0 <= i < col + 1 ==> #[trigger] line@[i] == grid@.row_text(row as int)[i],
        decreases width - col,
    {
        let mark = if grid.cell(row, col) {
            'O'
        } else {
            ' '
        };
        line.push(mark);
        col += 1;
    }
    line.push('|');
    proof {
        assert(line@ =~= grid@.row_text(row as int));
    }
    Ok(line)
}

} // verus!
