//! The seeder: fills a grid from random draws at a given density.
//!
//! Each cell gets one draw out of `0..100` and comes alive when its draw is
//! below the density, so a cell is alive with probability `density / 100`.
//! What a run of draws makes of a grid is stated exactly over the draws;
//! the randomness itself stays outside.

use vstd::prelude::*;
use rand::rngs::ThreadRng;
use crate::board::Board;
use crate::grid::{GridError, GridState, MAX_CELLS};
use crate::random::draw_percent;

verus! {

/// Whether every draw of the sequence lies in `0..100`.
pub open spec fn draws_in_range(draws: Seq<u8>) -> bool {
    forall|i: int| 0 <= i < draws.len() ==> #[trigger] draws[i] < 100
}

impl Board {
    /// The board of the same size on which the cell at each position is
    /// alive exactly if the draw at that position is below `density`.
    pub open spec fn seeded(self, density: u8, draws: Seq<u8>) -> Board {
        Board {
            height: self.height,
            width: self.width,
            cells: Seq::new(self.height * self.width, |i: int| draws[i] < density),
        }
    }

    /// At density 0 no draw brings a cell alive, and at density 100 every
    /// draw out of `0..100` does.
    pub proof fn lemma_seeded_density_bounds(self, density: u8, draws: Seq<u8>)
        requires
            self.wf(),
            draws.len() == self.cells.len(),
            draws_in_range(draws),
        ensures
            self.seeded(density, draws).wf(),
            density == 0 ==> self.seeded(density, draws) == Board::filled(
                self.height,
                self.width,
                false,
            ),
            density == 0 ==> self.seeded(density, draws).all_dead(),
            density == 100 ==> self.seeded(density, draws) == Board::filled(
                self.height,
                self.width,
                true,
            ),
            density == 100 ==> self.seeded(density, draws).all_alive(),
    {
        Board::lemma_filled(self.height, self.width, false);
        Board::lemma_filled(self.height, self.width, true);
        if density == 0 {
            assert(self.seeded(density, draws).cells =~= Board::filled(
                self.height,
                self.width,
                false,
            ).cells);
        }
        if density == 100 {
            assert(self.seeded(density, draws).cells =~= Board::filled(
                self.height,
                self.width,
                true,
            ).cells);
        }
    }
}

/// Overwrites every cell of `grid` from one draw per cell, row by row: the
/// cell at position `i` becomes alive exactly if `draws[i]` is below
/// `density`. There has to be exactly one draw for each cell.
///
/// A density above 100 is refused and leaves the grid as it was.
pub fn seed_from_draws(grid: &mut GridState, density: u8, draws: &[u8]) -> (res: Result<
    (),
    GridError,
>)
    requires
        draws@.len() == old(grid)@.cells.len(),
    ensures
        density > 100 ==> res == Err::<(), GridError>(GridError::InvalidDensity) && final(grid)@
            == old(grid)@,
        density <= 100 ==> res is Ok && final(grid)@ == old(grid)@.seeded(density, draws@),
        final(grid)@.wf(),
{
    let height = grid.height();
    let width = grid.width();
    if density > 100 {
        return Err(GridError::InvalidDensity);
    }
    let ghost target = grid@.seeded(density, draws@);
    let mut row: usize = 0;
    let mut position: usize = 0;
    while row < height
        invariant
            row <= height,
            height == grid@.height,
            width == grid@.width,
            grid@.wf(),
            grid@.cells.len() == draws@.len(),
            target == old(grid)@.seeded(density, draws@),
            target.height == height,
            target.width == width,
            position == row * width,
            position <= draws@.len() <= MAX_CELLS,
            forall|i: int| 0 <= i < position ==> #[trigger] grid@.cells[i] == (draws@[i] < density),
        decreases height - row,
    {
        let mut col: usize = 0;
        while col < width
            invariant
                row < height,
                col <= width,
                height == grid@.height,
                width == grid@.width,
                grid@.wf(),
                grid@.cells.len() == draws@.len(),
                position == row * width + col,
                position <= draws@.len() <= MAX_CELLS,
                forall|i: int|
                    0 <= i < position ==> #[trigger] grid@.cells[i] == (draws@[i] < density),
            decreases width - col,
        {
            proof {
                grid@.lemma_index_in_range(row as int, col as int);
            }
            let value = draws[position] < density;
            grid.put(row, col, value);
            col += 1;
            position += 1;
        }
        proof {
            assert(row * width + width == (row + 1) * width) by (nonlinear_arith);
            assert((row + 1) * width <= height * width) by (nonlinear_arith)
                requires
                    row + 1 <= height,
            ;
        }
        row += 1;
    }
    proof {
        assert(grid@.cells =~= target.cells);
    }
    Ok(())
}

/// Takes one draw out of `0..100` for each of `count` cells.
fn draw_cells(rng: &mut ThreadRng, count: usize) -> (draws: Vec<u8>)
    ensures
        draws@.len() == count,
        draws_in_range(draws@),
{
    let mut draws: Vec<u8> = Vec::new();
    let mut taken: usize = 0;
    while taken < count
        invariant
            taken <= count,
            draws@.len() == taken,
            draws_in_range(draws@),
        decreases count - taken,
    {
        let draw = draw_percent(rng);
        draws.push(draw);
        taken += 1;
    }
    draws
}

/// Overwrites every cell of `grid` at random: each cell, independently of
/// the others, becomes alive with probability `density / 100` and dead
/// otherwise. The generator is used for one draw per cell and nothing else.
///
/// A density above 100 is refused; the grid is then left as it was and
/// nothing is drawn. Whatever is drawn, density 0 leaves every cell dead and
/// density 100 leaves every cell alive.
pub fn seed(grid: &mut GridState, density: u8, rng: &mut ThreadRng) -> (res: Result<(), GridError>)
    ensures
        density > 100 ==> res == Err::<(), GridError>(GridError::InvalidDensity) && final(grid)@
            == old(grid)@,
        density <= 100 ==> res is Ok && exists|draws: Seq<u8>|
            {
                &&& draws.len() == old(grid)@.cells.len()
                &&& draws_in_range(draws)
                &&& final(grid)@ == #[trigger] old(grid)@.seeded(density, draws)
            },
        density == 0 ==> final(grid)@.all_dead(),
        density == 100 ==> final(grid)@.all_alive(),
        final(grid)@.wf(),
{
    let height = grid.height();
    let width = grid.width();
    if density > 100 {
        return Err(GridError::InvalidDensity);
    }
    let draws = draw_cells(rng, height * width);
    proof {
        grid@.lemma_seeded_density_bounds(density, draws@);
    }
    seed_from_draws(grid, density, draws.as_slice())
}

} // verus!
