use game_of_life::{seed, seed_from_draws, GridError, GridState};

fn count_live(grid: &GridState) -> usize {
    let mut count = 0;
    for row in 0..grid.height() {
        for col in 0..grid.width() {
            if grid.get(row, col).unwrap() {
                count += 1;
            }
        }
    }
    count
}

#[test]
fn density_zero_leaves_every_cell_dead() {
    let mut rng = rand::thread_rng();
    let mut grid = GridState::new(8, 11).unwrap();
    assert_eq!(seed(&mut grid, 0, &mut rng), Ok(()));
    assert_eq!(count_live(&grid), 0);
}

#[test]
fn density_zero_overwrites_live_cells() {
    let mut rng = rand::thread_rng();
    let mut grid = GridState::new(3, 3).unwrap();
    grid.set(1, 1, true).unwrap();
    grid.set(2, 2, true).unwrap();
    assert_eq!(seed(&mut grid, 0, &mut rng), Ok(()));
    assert_eq!(count_live(&grid), 0);
}

#[test]
fn density_hundred_makes_every_cell_alive() {
    let mut rng = rand::thread_rng();
    let mut grid = GridState::new(8, 11).unwrap();
    assert_eq!(seed(&mut grid, 100, &mut rng), Ok(()));
    assert_eq!(count_live(&grid), 88);
}

#[test]
fn seed_keeps_the_dimensions() {
    let mut rng = rand::thread_rng();
    let mut grid = GridState::new(8, 11).unwrap();
    assert_eq!(seed(&mut grid, 50, &mut rng), Ok(()));
    assert_eq!(grid.height(), 8);
    assert_eq!(grid.width(), 11);
    assert!(count_live(&grid) <= 88);
}

#[test]
fn seed_rejects_a_density_above_hundred() {
    let mut rng = rand::thread_rng();
    let mut grid = GridState::new(3, 3).unwrap();
    grid.set(0, 2, true).unwrap();
    assert_eq!(seed(&mut grid, 101, &mut rng), Err(GridError::InvalidDensity));
    assert_eq!(seed(&mut grid, 255, &mut rng), Err(GridError::InvalidDensity));
    for row in 0..3 {
        for col in 0..3 {
            assert_eq!(grid.get(row, col), Ok(row == 0 && col == 2));
        }
    }
}

#[test]
fn draws_below_the_density_come_alive() {
    let mut grid = GridState::new(2, 3).unwrap();
    let draws = vec![0, 49, 50, 99, 10, 75];
    assert_eq!(seed_from_draws(&mut grid, 50, &draws), Ok(()));
    assert_eq!(grid.get(0, 0), Ok(true));
    assert_eq!(grid.get(0, 1), Ok(true));
    assert_eq!(grid.get(0, 2), Ok(false));
    assert_eq!(grid.get(1, 0), Ok(false));
    assert_eq!(grid.get(1, 1), Ok(true));
    assert_eq!(grid.get(1, 2), Ok(false));
}

#[test]
fn draws_overwrite_every_cell() {
    let mut grid = GridState::new(2, 2).unwrap();
    grid.set(0, 0, true).unwrap();
    grid.set(1, 1, true).unwrap();
    let draws = vec![60, 20, 30, 80];
    assert_eq!(seed_from_draws(&mut grid, 40, &draws), Ok(()));
    assert_eq!(grid.get(0, 0), Ok(false));
    assert_eq!(grid.get(0, 1), Ok(true));
    assert_eq!(grid.get(1, 0), Ok(true));
    assert_eq!(grid.get(1, 1), Ok(false));
}

#[test]
fn draws_at_density_zero_and_hundred() {
    let draws = vec![0, 1, 50, 98, 99, 42];
    let mut grid = GridState::new(3, 2).unwrap();
    assert_eq!(seed_from_draws(&mut grid, 100, &draws), Ok(()));
    assert_eq!(count_live(&grid), 6);
    assert_eq!(seed_from_draws(&mut grid, 0, &draws), Ok(()));
    assert_eq!(count_live(&grid), 0);
    assert_eq!(seed_from_draws(&mut grid, 1, &draws), Ok(()));
    assert_eq!(count_live(&grid), 1);
    assert_eq!(grid.get(0, 0), Ok(true));
}

#[test]
fn draws_with_a_density_above_hundred_are_refused() {
    let draws = vec![0, 0, 0, 0];
    let mut grid = GridState::new(2, 2).unwrap();
    grid.set(1, 0, true).unwrap();
    assert_eq!(seed_from_draws(&mut grid, 101, &draws), Err(GridError::InvalidDensity));
    assert_eq!(count_live(&grid), 1);
    assert_eq!(grid.get(1, 0), Ok(true));
}

#[test]
fn seeded_share_follows_the_density() {
    // 10 000 independent cells: the live share stays far inside these bounds.
    let mut rng = rand::thread_rng();
    let mut grid = GridState::new(100, 100).unwrap();
    assert_eq!(seed(&mut grid, 50, &mut rng), Ok(()));
    let half = count_live(&grid);
    assert!(4000 < half && half < 6000);
    assert_eq!(seed(&mut grid, 10, &mut rng), Ok(()));
    let tenth = count_live(&grid);
    assert!(500 < tenth && tenth < 1500);
}

#[test]
fn two_seedings_differ() {
    let mut rng = rand::thread_rng();
    let mut first = GridState::new(100, 100).unwrap();
    let mut second = GridState::new(100, 100).unwrap();
    seed(&mut first, 50, &mut rng).unwrap();
    seed(&mut second, 50, &mut rng).unwrap();
    let mut differ = false;
    for row in 0..100 {
        for col in 0..100 {
            if first.get(row, col) != second.get(row, col) {
                differ = true;
            }
        }
    }
    assert!(differ);
}
