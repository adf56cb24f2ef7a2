use game_of_life::render::{border_line, row_line};
use game_of_life::{GridError, GridState};

fn text(line: Vec<char>) -> String {
    line.into_iter().collect()
}

#[test]
fn border_spans_the_cells_and_both_walls() {
    let grid = GridState::new(2, 5).unwrap();
    assert_eq!(text(border_line(&grid)), "-------");
}

#[test]
fn border_of_a_single_column() {
    let grid = GridState::new(3, 1).unwrap();
    assert_eq!(text(border_line(&grid)), "---");
}

#[test]
fn row_of_dead_cells_is_blank_between_the_walls() {
    let grid = GridState::new(2, 4).unwrap();
    assert_eq!(text(row_line(&grid, 0).unwrap()), "|    |");
    assert_eq!(text(row_line(&grid, 1).unwrap()), "|    |");
}

#[test]
fn row_marks_live_cells_in_column_order() {
    let mut grid = GridState::new(2, 4).unwrap();
    grid.set(0, 0, true).unwrap();
    grid.set(0, 3, true).unwrap();
    grid.set(1, 1, true).unwrap();
    assert_eq!(text(row_line(&grid, 0).unwrap()), "|O  O|");
    assert_eq!(text(row_line(&grid, 1).unwrap()), "| O  |");
}

#[test]
fn row_past_the_end_is_refused() {
    let grid = GridState::new(2, 4).unwrap();
    assert_eq!(row_line(&grid, 2), Err(GridError::OutOfBounds));
    assert_eq!(row_line(&grid, usize::MAX), Err(GridError::OutOfBounds));
}

#[test]
fn rows_follow_a_step() {
    let mut grid = GridState::new(3, 3).unwrap();
    grid.set(1, 0, true).unwrap();
    grid.set(1, 1, true).unwrap();
    grid.set(1, 2, true).unwrap();
    let next = game_of_life::step(&grid);
    assert_eq!(text(row_line(&next, 0).unwrap()), "| O |");
    assert_eq!(text(row_line(&next, 1).unwrap()), "| O |");
    assert_eq!(text(row_line(&next, 2).unwrap()), "| O |");
}
