use life_pipeline::grid::{grid_index, neighbor_count, read_cell, wrap_add_one, wrap_sub_one};

fn grid_from(n: usize, alive: &[(usize, usize)]) -> Vec<u32> {
    let mut cells = vec![0u32; n * n];
    for &(r, c) in alive {
        cells[r * n + c] = 1;
    }
    cells
}

#[test]
fn wrap_reaches_opposite_edge() {
    assert_eq!(wrap_sub_one(0, 5), 4);
    assert_eq!(wrap_add_one(4, 5), 0);
    assert_eq!(wrap_sub_one(3, 5), 2);
    assert_eq!(wrap_add_one(0, 5), 1);
    // A 1-cell axis wraps onto itself in both directions.
    assert_eq!(wrap_sub_one(0, 1), 0);
    assert_eq!(wrap_add_one(0, 1), 0);
}

#[test]
fn corner_sees_opposite_corners() {
    // The neighbors of (0, 0) on a 4x4 torus include (3, 3), (3, 0) and
    // (0, 3); a cell alive in each of those is counted.
    let cells = grid_from(4, &[(3, 3), (3, 0), (0, 3)]);
    assert_eq!(neighbor_count(&cells, 4, 0, 0), 3);
    // An interior cell of the same grid sees none of them.
    assert_eq!(neighbor_count(&cells, 4, 1, 1), 0);
    // (3, 0)'s own neighborhood wraps to (0, 3) and contains (3, 3).
    assert_eq!(neighbor_count(&cells, 4, 3, 0), 2);
}

#[test]
fn full_neighborhood_count() {
    // All 8 neighbors of the center of a 3x3 grid alive, the center dead.
    let alive: Vec<(usize, usize)> = vec![
        (0, 0), (0, 1), (0, 2), (1, 0), (1, 2), (2, 0), (2, 1), (2, 2),
    ];
    let cells = grid_from(3, &alive);
    assert_eq!(neighbor_count(&cells, 3, 1, 1), 8);
}

#[test]
fn row_major_indexing() {
    assert_eq!(grid_index(4, 0, 0), 0);
    assert_eq!(grid_index(4, 1, 2), 6);
    assert_eq!(grid_index(4, 3, 3), 15);
    let cells = grid_from(4, &[(1, 2)]);
    assert_eq!(read_cell(&cells, 4, 1, 2), 1);
    assert_eq!(read_cell(&cells, 4, 2, 1), 0);
}
