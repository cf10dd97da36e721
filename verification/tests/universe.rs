use sdl_game_of_life::model::{MAX_SCALE, MIN_SCALE, SCALE_UNIT};
use sdl_game_of_life::{Cell, Universe};

/// Brings the cell `(row, col)` to life through the pixel at its top-left corner.
fn revive_cell(universe: &mut Universe, row: u32, col: u32) {
    let size = universe.cell_size() as i32;
    let x = universe.x_offset() + col as i32 * size;
    let y = universe.y_offset() + row as i32 * size;
    universe.revive(x, y);
}

/// The cells of the universe, row after row.
fn cells_of(universe: &Universe) -> Vec<Cell> {
    let mut cells = Vec::new();
    for row in 0..universe.height() {
        for col in 0..universe.width() {
            cells.push(universe.get_cell(row, col));
        }
    }
    cells
}

/// A universe of the given size whose live cells are the listed ones.
fn universe_with(height: u32, width: u32, alive: &[(u32, u32)]) -> Universe {
    let mut universe = Universe::new(height, width);
    for &(row, col) in alive {
        revive_cell(&mut universe, row, col);
    }
    universe
}

#[test]
fn new_universe_is_dead_paused_and_unmoved() {
    let universe = Universe::new(3, 4);
    assert_eq!(universe.height(), 3);
    assert_eq!(universe.width(), 4);
    assert_eq!(cells_of(&universe), vec![Cell::Dead; 12]);
    assert!(!universe.is_running());
    assert_eq!(universe.x_offset(), 0);
    assert_eq!(universe.y_offset(), 0);
    assert_eq!(universe.scale(), SCALE_UNIT);
    assert_eq!(universe.scale(), 10);
    assert_eq!(universe.cell_size(), 12);
}

#[test]
fn universe_without_rows_has_no_cells() {
    let mut universe = Universe::new(0, 5);
    assert_eq!(universe.render().len(), 0);
    assert_eq!(universe.get_by_coordinates(0, 0), None);
    universe.run();
    universe.tick();
    assert_eq!(universe.render().len(), 0);
}

#[test]
fn universe_without_columns_has_no_cells() {
    let mut universe = Universe::new(5, 0);
    assert_eq!(universe.render().len(), 0);
    assert_eq!(universe.get_by_coordinates(0, 0), None);
    universe.revive(0, 0);
    universe.reset();
    assert_eq!(universe.render().len(), 0);
}

#[test]
fn index_is_row_major() {
    let universe = Universe::new(3, 4);
    assert_eq!(universe.get_index(0, 0), 0);
    assert_eq!(universe.get_index(0, 3), 3);
    assert_eq!(universe.get_index(1, 0), 4);
    assert_eq!(universe.get_index(2, 3), 11);
}

#[test]
fn origin_counts_the_far_corner() {
    let universe = universe_with(4, 5, &[(3, 4)]);
    assert_eq!(universe.get_cell(3, 4), Cell::Alive);
    assert_eq!(universe.get_live_neighbors(0, 0), 1);
}

#[test]
fn far_corner_counts_the_origin() {
    let universe = universe_with(4, 5, &[(0, 0)]);
    assert_eq!(universe.get_live_neighbors(3, 4), 1);
}

#[test]
fn neighbors_wrap_on_every_edge() {
    let universe = universe_with(4, 5, &[(0, 2), (3, 2), (1, 0), (1, 4)]);
    // Top edge sees the bottom row, bottom edge sees the top row.
    assert_eq!(universe.get_live_neighbors(0, 1), 3);
    assert_eq!(universe.get_live_neighbors(3, 3), 2);
    assert_eq!(universe.get_live_neighbors(3, 2), 1);
    assert_eq!(universe.get_live_neighbors(0, 2), 1);
    // Left edge sees the rightmost column, right edge sees the leftmost.
    assert_eq!(universe.get_live_neighbors(1, 0), 1);
    assert_eq!(universe.get_live_neighbors(1, 4), 1);
    assert_eq!(universe.get_live_neighbors(2, 0), 2);
    assert_eq!(universe.get_live_neighbors(0, 4), 2);
    assert_eq!(universe.get_live_neighbors(2, 2), 1);
}

#[test]
fn cell_is_not_its_own_neighbor() {
    let universe = universe_with(3, 3, &[(1, 1)]);
    assert_eq!(universe.get_live_neighbors(1, 1), 0);
    assert_eq!(universe.get_live_neighbors(0, 0), 1);
    assert_eq!(universe.get_live_neighbors(2, 2), 1);
}

#[test]
fn neighbors_in_the_middle_are_counted_once_each() {
    let universe = universe_with(
        5,
        5,
        &[(1, 1), (1, 2), (1, 3), (2, 1), (2, 2), (2, 3), (3, 1), (3, 2), (3, 3)],
    );
    assert_eq!(universe.get_live_neighbors(2, 2), 8);
    assert_eq!(universe.get_live_neighbors(1, 1), 3);
    assert_eq!(universe.get_live_neighbors(1, 2), 5);
    assert_eq!(universe.get_live_neighbors(0, 0), 1);
    assert_eq!(universe.get_live_neighbors(0, 2), 3);
    assert_eq!(universe.get_live_neighbors(4, 4), 1);
}

#[test]
fn single_cell_torus_meets_itself_eight_times() {
    let mut universe = Universe::new(1, 1);
    assert_eq!(universe.get_live_neighbors(0, 0), 0);
    universe.revive(0, 0);
    assert_eq!(universe.get_live_neighbors(0, 0), 8);
}

#[test]
fn two_by_two_torus_counts_cells_again() {
    let universe = universe_with(2, 2, &[(0, 1)]);
    // Left and right of (0, 0) are both (0, 1).
    assert_eq!(universe.get_live_neighbors(0, 0), 2);
    // (0, 1) is not among its own neighbors: those lie in the other row or column.
    assert_eq!(universe.get_live_neighbors(0, 1), 0);
    // The four diagonals of (1, 0) are all (0, 1).
    assert_eq!(universe.get_live_neighbors(1, 0), 4);
    assert_eq!(universe.get_live_neighbors(1, 1), 2);
}

#[test]
fn rule_for_a_live_cell() {
    let expected = [
        Cell::Dead,
        Cell::Dead,
        Cell::Alive,
        Cell::Alive,
        Cell::Dead,
        Cell::Dead,
        Cell::Dead,
        Cell::Dead,
        Cell::Dead,
    ];
    for neighbors in 0..=8u8 {
        assert_eq!(Cell::Alive.next(neighbors), expected[neighbors as usize]);
    }
}

#[test]
fn rule_for_a_dead_cell() {
    for neighbors in 0..=8u8 {
        let expected = if neighbors == 3 { Cell::Alive } else { Cell::Dead };
        assert_eq!(Cell::Dead.next(neighbors), expected);
    }
}

#[test]
fn is_alive_tells_the_states_apart() {
    assert!(Cell::Alive.is_alive());
    assert!(!Cell::Dead.is_alive());
}

#[test]
fn block_is_a_still_life() {
    let mut universe = universe_with(4, 4, &[(1, 1), (1, 2), (2, 1), (2, 2)]);
    let before = cells_of(&universe);
    universe.run();
    universe.tick();
    assert_eq!(cells_of(&universe), before);
    universe.tick();
    assert_eq!(cells_of(&universe), before);
}

#[test]
fn block_around_the_corner_is_a_still_life() {
    let mut universe = universe_with(3, 3, &[(2, 2), (2, 0), (0, 2), (0, 0)]);
    let before = cells_of(&universe);
    universe.run();
    universe.tick();
    assert_eq!(cells_of(&universe), before);
}

#[test]
fn block_dies_on_a_torus_of_two_rows() {
    let mut universe = universe_with(2, 4, &[(0, 1), (0, 2), (1, 1), (1, 2)]);
    universe.run();
    universe.tick();
    assert_eq!(universe.get_cell(0, 1), Cell::Dead);
    assert_eq!(universe.get_cell(1, 2), Cell::Dead);
}

#[test]
fn blinker_returns_after_two_generations() {
    let mut universe = universe_with(5, 5, &[(2, 1), (2, 2), (2, 3)]);
    let row_blinker = cells_of(&universe);
    let column_blinker = cells_of(&universe_with(5, 5, &[(1, 2), (2, 2), (3, 2)]));
    assert_ne!(row_blinker, column_blinker);
    universe.run();
    universe.tick();
    assert_eq!(cells_of(&universe), column_blinker);
    universe.tick();
    assert_eq!(cells_of(&universe), row_blinker);
}

#[test]
fn blinker_across_the_edge_returns_after_two_generations() {
    let mut universe = universe_with(4, 4, &[(0, 3), (0, 0), (0, 1)]);
    let row_blinker = cells_of(&universe);
    let column_blinker = cells_of(&universe_with(4, 4, &[(3, 0), (0, 0), (1, 0)]));
    universe.run();
    universe.tick();
    assert_eq!(cells_of(&universe), column_blinker);
    universe.tick();
    assert_eq!(cells_of(&universe), row_blinker);
}

#[test]
fn new_generation_reads_only_the_old_one() {
    // A glider: every cell of the next generation depends on cells that a
    // pass in place would already have changed.
    let mut universe = universe_with(6, 6, &[(0, 1), (1, 2), (2, 0), (2, 1), (2, 2)]);
    universe.run();
    universe.tick();
    let expected = cells_of(&universe_with(6, 6, &[(1, 0), (1, 2), (2, 1), (2, 2), (3, 1)]));
    assert_eq!(cells_of(&universe), expected);
}

#[test]
fn paused_tick_changes_nothing() {
    let mut universe = universe_with(5, 5, &[(2, 1), (2, 2), (2, 3)]);
    let before = cells_of(&universe);
    assert!(!universe.is_running());
    universe.tick();
    assert_eq!(cells_of(&universe), before);
    universe.run();
    universe.pause();
    universe.tick();
    universe.tick();
    assert_eq!(cells_of(&universe), before);
    assert!(!universe.is_running());
}

#[test]
fn full_torus_of_three_by_three_dies() {
    let mut universe = Universe::new(3, 3);
    for row in 0..3 {
        for col in 0..3 {
            revive_cell(&mut universe, row, col);
        }
    }
    assert_eq!(cells_of(&universe), vec![Cell::Alive; 9]);
    for row in 0..3 {
        for col in 0..3 {
            assert_eq!(universe.get_live_neighbors(row, col), 8);
        }
    }
    universe.run();
    universe.tick();
    assert_eq!(cells_of(&universe), vec![Cell::Dead; 9]);
}

#[test]
fn toggling_twice_restores_the_flag() {
    let mut universe = universe_with(3, 3, &[(1, 1), (0, 2)]);
    let before = cells_of(&universe);
    let flag = universe.is_running();
    universe.toggle_state();
    assert_eq!(universe.is_running(), !flag);
    assert_eq!(cells_of(&universe), before);
    universe.toggle_state();
    assert_eq!(universe.is_running(), flag);
    assert_eq!(cells_of(&universe), before);
}

#[test]
fn run_and_pause_set_the_flag() {
    let mut universe = Universe::new(2, 2);
    universe.run();
    assert!(universe.is_running());
    universe.run();
    assert!(universe.is_running());
    universe.pause();
    assert!(!universe.is_running());
    universe.pause();
    assert!(!universe.is_running());
}

#[test]
fn shift_adds_to_the_offsets() {
    let mut universe = Universe::new(2, 2);
    universe.shift(5, -7);
    assert_eq!((universe.x_offset(), universe.y_offset()), (5, -7));
    universe.shift(-15, 7);
    assert_eq!((universe.x_offset(), universe.y_offset()), (-10, 0));
    universe.shift(10, 0);
    universe.shift(i32::MAX, i32::MIN);
    assert_eq!((universe.x_offset(), universe.y_offset()), (i32::MAX, i32::MIN));
}

#[test]
fn cell_size_is_twelve_tenths_of_the_scale_rounded_down() {
    let mut universe = Universe::new(1, 1);
    assert_eq!(universe.cell_size(), 12);
    universe.increment_scale(1);
    assert_eq!(universe.scale(), 11);
    assert_eq!(universe.cell_size(), 13);
    universe.increment_scale(4);
    assert_eq!(universe.scale(), 15);
    assert_eq!(universe.cell_size(), 18);
    universe.increment_scale(-6);
    assert_eq!(universe.scale(), 9);
    assert_eq!(universe.cell_size(), 10);
    universe.increment_scale(-8);
    assert_eq!(universe.scale(), 1);
    assert_eq!(universe.cell_size(), 1);
    universe.increment_scale(1);
    assert_eq!(universe.cell_size(), 2);
    universe.increment_scale(5);
    assert_eq!(universe.scale(), 7);
    assert_eq!(universe.cell_size(), 8);
}

#[test]
fn scale_stops_at_its_bounds() {
    let mut universe = Universe::new(1, 1);
    universe.increment_scale(-10);
    assert_eq!(universe.scale(), MIN_SCALE);
    assert_eq!(universe.scale(), 1);
    universe.increment_scale(i32::MIN);
    assert_eq!(universe.scale(), 1);
    assert_eq!(universe.cell_size(), 1);
    universe.increment_scale(i32::MAX);
    assert_eq!(universe.scale(), MAX_SCALE);
    assert_eq!(universe.scale(), 1_000_000_000);
    assert_eq!(universe.cell_size(), 1_200_000_000);
    universe.increment_scale(1);
    assert_eq!(universe.scale(), 1_000_000_000);
    universe.increment_scale(-1);
    assert_eq!(universe.scale(), 999_999_999);
    assert_eq!(universe.cell_size(), 1_199_999_998);
}

#[test]
fn reset_kills_every_cell_and_keeps_the_rest() {
    let mut universe = universe_with(3, 4, &[(0, 0), (1, 2), (2, 3)]);
    universe.run();
    universe.shift(3, 4);
    universe.increment_scale(5);
    universe.reset();
    assert_eq!(cells_of(&universe), vec![Cell::Dead; 12]);
    assert_eq!(universe.height(), 3);
    assert_eq!(universe.width(), 4);
    assert!(universe.is_running());
    assert_eq!((universe.x_offset(), universe.y_offset()), (3, 4));
    assert_eq!(universe.scale(), 15);
}

#[test]
fn kill_and_revive_set_the_cell_under_the_pixel() {
    let mut universe = Universe::new(3, 3);
    universe.revive(13, 25);
    assert_eq!(universe.get_cell(2, 1), Cell::Alive);
    assert_eq!(cells_of(&universe).iter().filter(|c| **c == Cell::Alive).count(), 1);
    universe.revive(13, 25);
    assert_eq!(universe.get_cell(2, 1), Cell::Alive);
    universe.kill(23, 35);
    assert_eq!(universe.get_cell(2, 1), Cell::Dead);
    assert_eq!(cells_of(&universe), vec![Cell::Dead; 9]);
    universe.kill(23, 35);
    assert_eq!(cells_of(&universe), vec![Cell::Dead; 9]);
}

#[test]
fn kill_and_revive_off_the_grid_do_nothing() {
    let mut universe = universe_with(3, 3, &[(1, 1)]);
    let before = cells_of(&universe);
    universe.revive(-1, 0);
    universe.revive(0, -1);
    universe.revive(36, 0);
    universe.revive(0, 36);
    universe.revive(i32::MAX, i32::MAX);
    universe.revive(i32::MIN, i32::MIN);
    universe.kill(-1, 13);
    universe.kill(13, 36);
    assert_eq!(cells_of(&universe), before);
}
