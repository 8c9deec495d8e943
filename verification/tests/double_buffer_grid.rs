use game_of_life::border_policy::BorderPolicy;
use game_of_life::cell_state::CellState;
use game_of_life::double_buffer_grid::DoubleBufferGrid;

#[test]
fn new_grid_is_dead_at_generation_zero() {
    let grid = DoubleBufferGrid::new(4, 3);
    assert_eq!(grid.current_generation(), 0);
    assert_eq!(grid.get_read_grid(), &vec![CellState::Dead; 12]);
    assert_eq!(grid.get_render_grid(), &vec![CellState::Dead; 12]);
    assert!(grid.is_well_formed());
    assert!(grid.can_step());
}

#[test]
fn new_grid_without_cells_has_empty_buffers() {
    for (width, height) in [(0, 0), (0, 5), (5, 0)] {
        let grid = DoubleBufferGrid::new(width, height);
        assert!(grid.get_read_grid().is_empty());
        assert!(grid.get_render_grid().is_empty());
        assert!(grid.is_well_formed());
    }
}

#[test]
fn read_and_write_buffers_are_two_buffers() {
    let mut grid = DoubleBufferGrid::new(2, 2);
    let read = grid.get_read_grid().as_ptr();
    let render = grid.get_render_grid().as_ptr();
    let write = grid.get_write_grid().as_ptr();
    assert_ne!(read, write);
    assert_eq!(render, write);
}

#[test]
fn add_cycle_swaps_the_buffers() {
    let mut grid = DoubleBufferGrid::new(2, 2);
    let read = grid.get_read_grid().as_ptr();
    let render = grid.get_render_grid().as_ptr();
    grid.add_cycle();
    assert_eq!(grid.current_generation(), 1);
    assert_eq!(grid.get_read_grid().as_ptr(), render);
    assert_eq!(grid.get_render_grid().as_ptr(), read);
    assert_eq!(grid.get_write_grid().as_ptr(), read);
    grid.add_cycle();
    assert_eq!(grid.current_generation(), 2);
    assert_eq!(grid.get_read_grid().as_ptr(), read);
    assert_eq!(grid.get_render_grid().as_ptr(), render);
}

#[test]
fn write_buffer_is_what_is_rendered() {
    let mut grid = DoubleBufferGrid::new(3, 1);
    grid.get_write_grid()[1] = CellState::Alive(4);
    assert_eq!(
        grid.get_render_grid(),
        &vec![CellState::Dead, CellState::Alive(4), CellState::Dead]
    );
    assert_eq!(grid.get_read_grid(), &vec![CellState::Dead; 3]);
    grid.add_cycle();
    assert_eq!(
        grid.get_read_grid(),
        &vec![CellState::Dead, CellState::Alive(4), CellState::Dead]
    );
    assert_eq!(grid.get_render_grid(), &vec![CellState::Dead; 3]);
}

#[test]
fn seed_cell_writes_both_buffers() {
    let mut grid = DoubleBufferGrid::new(2, 2);
    grid.seed_cell(3, true);
    let expected = vec![CellState::Dead, CellState::Dead, CellState::Dead, CellState::Alive(0)];
    assert_eq!(grid.get_read_grid(), &expected);
    assert_eq!(grid.get_render_grid(), &expected);
    grid.get_write_grid()[0] = CellState::Alive(9);
    grid.seed_cell(0, false);
    grid.seed_cell(3, true);
    assert_eq!(grid.get_read_grid(), &expected);
    assert_eq!(grid.get_render_grid(), &expected);
    assert_eq!(grid.current_generation(), 0);
}

#[test]
fn randomize_leaves_both_buffers_alike_and_all_ages_zero() {
    let mut grid = DoubleBufferGrid::new(16, 9);
    grid.randomize();
    assert_eq!(grid.get_read_grid(), grid.get_render_grid());
    assert_eq!(grid.get_read_grid().len(), 144);
    for cell in grid.get_render_grid() {
        assert!(matches!(cell, CellState::Dead | CellState::Alive(0)));
    }
    assert_eq!(grid.current_generation(), 0);
    assert!(grid.is_well_formed());
}

#[test]
fn randomize_resets_ages_and_keeps_the_generation() {
    let mut grid = DoubleBufferGrid::new(8, 8);
    for cell in grid.get_write_grid().iter_mut() {
        *cell = CellState::Alive(17);
    }
    grid.add_cycle();
    grid.add_cycle();
    grid.add_cycle();
    grid.randomize();
    assert_eq!(grid.current_generation(), 3);
    assert_eq!(grid.get_read_grid(), grid.get_render_grid());
    for cell in grid.get_read_grid() {
        assert!(matches!(cell, CellState::Dead | CellState::Alive(0)));
    }
}

#[test]
fn randomize_draws_both_states() {
    let mut grid = DoubleBufferGrid::new(64, 64);
    grid.randomize();
    let alive = grid.get_render_grid().iter().filter(|cell| cell.is_alive()).count();
    assert!(alive > 0);
    assert!(alive < 64 * 64);
}

#[test]
fn randomize_on_a_grid_without_cells_changes_nothing() {
    let mut grid = DoubleBufferGrid::new(0, 7);
    grid.randomize();
    assert!(grid.get_read_grid().is_empty());
    assert!(grid.get_render_grid().is_empty());
    assert_eq!(grid.current_generation(), 0);
}

#[test]
fn neighbours_are_counted_in_the_read_buffer() {
    let mut grid = DoubleBufferGrid::new(3, 3);
    grid.get_write_grid()[0] = CellState::Alive(0);
    assert_eq!(grid.get_alive_neighbours_at_point(1, 1, BorderPolicy::Clamp), 0);
    grid.add_cycle();
    assert_eq!(grid.get_alive_neighbours_at_point(1, 1, BorderPolicy::Clamp), 1);
    assert_eq!(grid.get_alive_neighbours_at_point(0, 0, BorderPolicy::Clamp), 0);
    assert_eq!(grid.get_alive_neighbours_at_point(2, 2, BorderPolicy::Clamp), 0);
    assert_eq!(grid.get_alive_neighbours_at_point(2, 2, BorderPolicy::Wrap), 1);
}

#[test]
fn corner_cell_under_clamp_and_wrap() {
    let mut grid = DoubleBufferGrid::new(3, 3);
    grid.seed_cell(0, true);
    assert_eq!(grid.get_alive_neighbours_at_point(0, 0, BorderPolicy::Clamp), 0);
    assert_eq!(grid.get_alive_neighbours_at_point(0, 0, BorderPolicy::Wrap), 0);
    assert_eq!(grid.get_alive_neighbours_at_point(2, 2, BorderPolicy::Wrap), 1);
    assert_eq!(grid.get_alive_neighbours_at_point(2, 2, BorderPolicy::Clamp), 0);
}

#[test]
fn misshapen_write_buffer_is_detected() {
    let mut grid = DoubleBufferGrid::new(2, 2);
    grid.get_write_grid().pop();
    assert!(!grid.is_well_formed());
    assert!(!grid.can_step());
    grid.get_write_grid().push(CellState::Dead);
    assert!(grid.is_well_formed());
    assert!(grid.can_step());
}

#[test]
fn cell_at_the_largest_age_stops_the_grid() {
    let mut grid = DoubleBufferGrid::new(2, 2);
    grid.get_write_grid()[2] = CellState::Alive(usize::MAX);
    assert!(!grid.can_step());
    grid.get_write_grid()[2] = CellState::Alive(usize::MAX - 1);
    assert!(grid.can_step());
    grid.get_write_grid()[2] = CellState::Alive(usize::MAX);
    grid.add_cycle();
    assert_eq!(grid.get_read_grid()[2], CellState::Alive(usize::MAX));
    assert!(grid.can_step());
}
