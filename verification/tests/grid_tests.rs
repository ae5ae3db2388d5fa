use life_grid::grid_state::{default_pattern, grid, GridState};

/// Collects every live coordinate of `g`, row-major.
fn live_cells(g: &GridState) -> Vec<(usize, usize)> {
    let mut alive = Vec::new();
    for r in 0..g.rows() {
        for c in 0..g.cols() {
            if g.read(r, c) {
                alive.push((r, c));
            }
        }
    }
    alive
}

#[test]
fn new_grid_is_all_dead() {
    let g = GridState::new(4, 7);
    assert_eq!(g.rows(), 4);
    assert_eq!(g.cols(), 7);
    assert_eq!(live_cells(&g), vec![]);
}

#[test]
fn step_on_all_dead_stays_dead() {
    let mut g = GridState::new(4, 4);
    g.step();
    assert_eq!(live_cells(&g), vec![]);
}

#[test]
fn seed_reflects_exact_coordinates() {
    let mut g = GridState::new(5, 5);
    let pattern = vec![(0, 0), (2, 3), (4, 4)];
    assert!(g.seed(&pattern));
    assert_eq!(live_cells(&g), vec![(0, 0), (2, 3), (4, 4)]);
}

#[test]
fn seed_rejects_out_of_bounds_row() {
    let mut g = GridState::new(5, 5);
    let pattern = vec![(1, 1), (5, 0)];
    assert!(!g.seed(&pattern));
    assert_eq!(live_cells(&g), vec![]);
}

#[test]
fn seed_rejects_out_of_bounds_col() {
    let mut g = GridState::new(5, 5);
    let pattern = vec![(0, 5)];
    assert!(!g.seed(&pattern));
    assert_eq!(live_cells(&g), vec![]);
}

#[test]
fn lone_live_cell_dies() {
    let mut g = GridState::new(3, 3);
    assert!(g.seed(&vec![(1, 1)]));
    g.step();
    assert_eq!(live_cells(&g), vec![]);
}

#[test]
fn live_cell_with_one_neighbor_dies() {
    let mut g = GridState::new(4, 4);
    assert!(g.seed(&vec![(1, 1), (1, 2)]));
    g.step();
    assert_eq!(live_cells(&g), vec![]);
}

#[test]
fn block_survives() {
    let mut g = GridState::new(4, 4);
    let block = vec![(1, 1), (1, 2), (2, 1), (2, 2)];
    assert!(g.seed(&block));
    g.step();
    assert_eq!(live_cells(&g), block);
}

#[test]
fn overcrowded_cell_dies() {
    // A plus shape: the center has four live neighbors and dies.
    let mut g = GridState::new(5, 5);
    assert!(g.seed(&vec![(1, 2), (2, 1), (2, 2), (2, 3), (3, 2)]));
    g.step();
    assert!(!g.read(2, 2));
}

#[test]
fn birth_on_exactly_three_neighbors() {
    // An L of three cells: (2, 2) has exactly three live neighbors
    // and is born; the three live cells each have two and survive.
    let mut g = GridState::new(4, 4);
    assert!(g.seed(&vec![(1, 1), (1, 2), (2, 1)]));
    g.step();
    assert_eq!(live_cells(&g), vec![(1, 1), (1, 2), (2, 1), (2, 2)]);
}

#[test]
fn dead_cell_with_two_neighbors_stays_dead() {
    let mut g = GridState::new(4, 4);
    assert!(g.seed(&vec![(1, 1), (1, 3)]));
    g.step();
    assert!(!g.read(1, 2));
}

#[test]
fn corner_cell_counts_no_wrapped_neighbors() {
    // With only (0, 0) alive on a 3x3 grid, every neighbor count is
    // at most one, so the step kills the corner and births nothing:
    // off-grid coordinates never count as neighbors.
    let mut g = GridState::new(3, 3);
    assert!(g.seed(&vec![(0, 0)]));
    g.step();
    assert_eq!(live_cells(&g), vec![]);
}

#[test]
fn blinker_oscillates_with_period_two() {
    let mut g = GridState::new(10, 10);
    let row = vec![(5, 4), (5, 5), (5, 6)];
    assert!(g.seed(&row));
    g.step();
    assert_eq!(live_cells(&g), vec![(4, 5), (5, 5), (6, 5)]);
    g.step();
    assert_eq!(live_cells(&g), row);
}

#[test]
fn default_pattern_lists_the_configured_cells() {
    let p = default_pattern();
    assert_eq!(p, vec![(10, 11), (10, 12), (10, 13), (11, 10), (11, 11), (11, 12)]);
}

#[test]
fn grid_writes_default_pattern_into_buffer() {
    let mut buf = vec![vec![false; 50]; 50];
    grid(&mut buf, 50, 50);
    let mut alive = Vec::new();
    for r in 0..50 {
        for c in 0..50 {
            if buf[r][c] {
                alive.push((r, c));
            }
        }
    }
    assert_eq!(alive, vec![(10, 11), (10, 12), (10, 13), (11, 10), (11, 11), (11, 12)]);
}

#[test]
fn grid_leaves_too_small_buffer_unchanged() {
    let mut buf = vec![vec![false; 5]; 5];
    grid(&mut buf, 5, 5);
    assert_eq!(buf, vec![vec![false; 5]; 5]);
}
