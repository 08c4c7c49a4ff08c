use game_of_life::grid::CellState::{Alive, Dead};
use game_of_life::grid::{CellState, Grid, ALIVE_CHANCE, CHANCE_SCALE};
use rand::rngs::StdRng;
use rand::{Rng, SeedableRng};

fn grid_with_alive_cells(width: usize, height: usize, alive_positions: &[(usize, usize)]) -> Grid {
    let mut grid = Grid::new(width, height);
    for &(row, col) in alive_positions {
        grid.cells[row][col] = Alive;
    }
    grid
}

#[test]
fn new_initializes_dead_cells() {
    let grid = Grid::new(3, 2);
    assert_eq!(grid.cells.len(), 2);
    assert!(grid.cells.iter().all(|row| row.len() == 3));
    assert!(grid.cells.iter().all(|row| row.iter().all(|cell| *cell == Dead)));
}

#[test]
fn randomize_with_seed_is_deterministic() {
    let mut grid = Grid::new(2, 3);
    let mut rng = StdRng::seed_from_u64(42);
    grid.randomize_with_rng(&mut rng);

    let mut rng = StdRng::seed_from_u64(42);
    let mut expected = vec![vec![Dead; 2]; 3];
    for row in expected.iter_mut() {
        for cell in row.iter_mut() {
            *cell = if rng.random_bool(0.5) { Alive } else { Dead };
        }
    }

    assert_eq!(grid.cells, expected);
    let alive_count = grid.cells.iter().flatten().filter(|cell| **cell == Alive).count();
    assert!(alive_count > 0);
    assert!(alive_count < grid.cells.len() * grid.cells[0].len());
}

#[test]
fn alive_neighbors_wraps_around_edges() {
    let grid = grid_with_alive_cells(3, 3, &[(0, 2), (2, 0), (2, 2)]);
    assert_eq!(grid.alive_neighbors(0, 0), 3);
}

#[test]
fn alive_neighbors_counts_zero_for_isolated_cell() {
    let grid = Grid::new(3, 3);
    assert_eq!(grid.alive_neighbors(1, 1), 0);
}

#[test]
fn advance_returns_false_for_static_pattern() {
    let mut grid = grid_with_alive_cells(4, 4, &[(1, 1), (1, 2), (2, 1), (2, 2)]);
    assert!(!grid.advance());
}

#[test]
fn lonely_alive_cell_dies() {
    let mut grid = grid_with_alive_cells(3, 3, &[(1, 1)]);
    assert!(grid.advance());
    assert_eq!(grid.cells[1][1], Dead);
}

#[test]
fn alive_cell_with_two_neighbors_survives() {
    let mut grid = grid_with_alive_cells(3, 3, &[(1, 0), (1, 1), (1, 2)]);
    assert!(grid.advance());
    assert_eq!(grid.cells[1][1], Alive);
}

#[test]
fn overcrowded_cell_dies() {
    let mut grid = grid_with_alive_cells(3, 3, &[(1, 1), (0, 1), (1, 0), (1, 2), (2, 1)]);
    assert!(grid.advance());
    assert_eq!(grid.cells[1][1], Dead);
}

#[test]
fn dead_cell_with_three_neighbors_revives() {
    let mut grid = grid_with_alive_cells(3, 3, &[(0, 1), (1, 0), (1, 2)]);
    assert!(grid.advance());
    assert_eq!(grid.cells[1][1], Alive);
}

#[test]
fn static_pattern_is_left_as_it_was() {
    let block = [(1, 1), (1, 2), (2, 1), (2, 2)];
    let mut grid = grid_with_alive_cells(5, 4, &block);
    let before = grid.cells.clone();
    assert!(!grid.advance());
    assert_eq!(grid.cells, before);
    assert!(!grid.advance());
    assert_eq!(grid.cells, before);
}

#[test]
fn barren_grid_does_not_change() {
    let mut grid = Grid::new(4, 3);
    assert!(!grid.advance());
    assert!(grid.cells.iter().all(|row| row.iter().all(|cell| *cell == Dead)));
}

#[test]
fn blinker_oscillates_with_period_two() {
    let mut grid = grid_with_alive_cells(5, 5, &[(2, 1), (2, 2), (2, 3)]);
    let horizontal = grid.cells.clone();
    assert!(grid.advance());
    let vertical = grid_with_alive_cells(5, 5, &[(1, 2), (2, 2), (3, 2)]);
    assert_eq!(grid.cells, vertical.cells);
    assert!(grid.advance());
    assert_eq!(grid.cells, horizontal);
}

#[test]
fn glider_crosses_the_edge_of_the_torus() {
    let glider = [(0, 1), (1, 2), (2, 0), (2, 1), (2, 2)];
    let mut grid = grid_with_alive_cells(6, 6, &glider);
    for _ in 0..4 {
        assert!(grid.advance());
    }
    let moved = grid_with_alive_cells(6, 6, &[(1, 2), (2, 3), (3, 1), (3, 2), (3, 3)]);
    assert_eq!(grid.cells, moved.cells);
    for _ in 4..24 {
        assert!(grid.advance());
    }
    let start = grid_with_alive_cells(6, 6, &glider);
    assert_eq!(grid.cells, start.cells);
}

#[test]
fn single_cell_grid_is_its_own_eight_neighbors() {
    let mut grid = grid_with_alive_cells(1, 1, &[(0, 0)]);
    assert_eq!(grid.alive_neighbors(0, 0), 8);
    assert!(grid.advance());
    assert_eq!(grid.cells[0][0], Dead);
    assert!(!grid.advance());
}

#[test]
fn two_column_grid_counts_the_side_neighbor_twice() {
    let grid = grid_with_alive_cells(2, 3, &[(1, 1)]);
    assert_eq!(grid.alive_neighbors(1, 0), 2);
    assert_eq!(grid.alive_neighbors(0, 0), 2);
    assert_eq!(grid.alive_neighbors(1, 1), 0);
}

#[test]
fn getters_report_the_shape_and_the_cells() {
    let grid = grid_with_alive_cells(3, 2, &[(1, 2)]);
    assert_eq!(grid.columns(), 3);
    assert_eq!(grid.rows(), 2);
    assert_eq!(grid.cell(1, 2), CellState::Alive);
    assert_eq!(grid.cell(0, 2), CellState::Dead);
}

#[test]
fn seed_fills_the_grid_in_row_major_order() {
    let mut grid = Grid::new(3, 2);
    let draws = vec![true, false, false, false, true, true];
    assert!(grid.seed(&draws));
    assert_eq!(grid.cells, vec![vec![Alive, Dead, Dead], vec![Dead, Alive, Alive]]);
}

#[test]
fn seed_refuses_a_wrong_number_of_draws() {
    let mut grid = grid_with_alive_cells(3, 2, &[(0, 0)]);
    let before = grid.cells.clone();
    assert!(!grid.seed(&vec![true; 5]));
    assert_eq!(grid.cells, before);
    assert!(!grid.seed(&vec![true; 7]));
    assert_eq!(grid.cells, before);
    assert!(!grid.seed(&Vec::new()));
    assert_eq!(grid.cells, before);
}

#[test]
fn randomize_with_rng_matches_seeding_from_the_same_draws() {
    let mut grid = Grid::new(7, 5);
    let mut rng = StdRng::seed_from_u64(2024);
    grid.randomize_with_rng(&mut rng);

    let mut rng = StdRng::seed_from_u64(2024);
    let draws: Vec<bool> = (0..35).map(|_| rng.random_bool(0.5)).collect();
    let mut expected = Grid::new(7, 5);
    assert!(expected.seed(&draws));
    assert_eq!(grid.cells, expected.cells);
    assert_eq!(grid.columns(), 7);
    assert_eq!(grid.rows(), 5);
}

#[test]
fn randomize_with_rng_advances_the_generator() {
    let mut rng = StdRng::seed_from_u64(7);
    let mut first = Grid::new(8, 8);
    first.randomize_with_rng(&mut rng);
    let mut second = Grid::new(8, 8);
    second.randomize_with_rng(&mut rng);
    assert_ne!(first.cells, second.cells);
}

#[test]
fn randomize_keeps_the_shape() {
    let mut grid = Grid::new(6, 4);
    grid.randomize();
    assert_eq!(grid.cells.len(), 4);
    assert!(grid.cells.iter().all(|row| row.len() == 6));
    assert!(grid.is_consistent());
    let alive = grid.cells.iter().flatten().filter(|cell| **cell == Alive).count();
    assert!(alive <= 24);
}

#[test]
fn a_cell_is_alive_with_a_chance_of_one_half() {
    assert_eq!((ALIVE_CHANCE, CHANCE_SCALE), (1, 2));
    let mut grid = Grid::new(100, 100);
    let mut rng = StdRng::seed_from_u64(1);
    grid.randomize_with_rng(&mut rng);
    let alive = grid.cells.iter().flatten().filter(|cell| **cell == Alive).count();
    assert!(alive > 4500 && alive < 5500, "{alive} of 10000 cells are alive");
}
