use hex_life::{Cell, Universe};

/// Builds a width-by-height grid, all cells dead except the listed (row, col)
/// coordinates.
fn grid(width: u32, height: u32, alive: &[(u32, u32)]) -> Universe {
    let mut cells = vec![Cell::Dead; (width * height) as usize];
    for &(row, col) in alive {
        cells[(row * width + col) as usize] = Cell::Alive;
    }
    Universe::with_cells(width, height, cells)
}

#[test]
fn tick_is_deterministic() {
    let alive = [(0, 1), (1, 0), (1, 1), (2, 2)];
    let mut a = grid(3, 3, &alive);
    let mut b = grid(3, 3, &alive);
    a.tick();
    b.tick();
    assert_eq!(a.cells(), b.cells());
    a.tick();
    b.tick();
    assert_eq!(a.cells(), b.cells());
}

#[test]
fn neighbor_count_is_bounded() {
    let full: Vec<(u32, u32)> = (0..4u32)
        .flat_map(|r| (0..5u32).map(move |c| (r, c)))
        .collect();
    let u = grid(5, 4, &full);
    for row in 0..4 {
        for col in 0..5 {
            let n = u.live_neighbor_count(row, col);
            assert!(n <= 6);
        }
    }
    assert_eq!(u.live_neighbor_count(2, 2), 6);
}

#[test]
fn toroidal_wrap_reaches_opposite_corner() {
    // In a 4x4 grid the bottom row is odd, so the offset neighbor of (3, 3)
    // in the row below wraps to (0, 0) across both edges at once.
    let mut u = grid(4, 4, &[]);
    assert_eq!(u.live_neighbor_count(3, 3), 0);
    u.toogle_cell(0, 0);
    assert_eq!(u.live_neighbor_count(3, 3), 1);
    u.toogle_cell(0, 0);
    assert_eq!(u.live_neighbor_count(3, 3), 0);
}

#[test]
fn even_row_offset_wraps_left() {
    // Row 0 is even, so the offset neighbor of (0, 0) sits one column to the
    // left, wrapping to the last column; its row below is row 1, its row
    // above wraps to row 2.
    let u = grid(3, 3, &[(2, 2)]);
    assert_eq!(u.live_neighbor_count(0, 0), 1);
}

#[test]
fn rule_table_matches_all_fourteen_combinations() {
    for n in 0u8..=6 {
        let expected_alive = match n {
            0 | 1 => Cell::Dead,       // underpopulation
            2 | 3 => Cell::Alive,      // stable survival
            _ => Cell::Dead,           // overpopulation
        };
        let expected_dead = if n == 3 { Cell::Alive } else { Cell::Dead };
        assert_eq!(Cell::Alive.next(n), expected_alive);
        assert_eq!(Cell::Dead.next(n), expected_dead);
    }
}

#[test]
fn all_dead_grid_stays_all_dead() {
    let mut u = grid(3, 3, &[]);
    u.tick();
    assert!(u.cells().iter().all(|&c| c == Cell::Dead));
    u.tick();
    assert!(u.cells().iter().all(|&c| c == Cell::Dead));
}

#[test]
fn lone_cell_dies_and_nothing_is_born() {
    let mut u = grid(3, 3, &[(1, 1)]);
    u.tick();
    assert!(u.cells().iter().all(|&c| c == Cell::Dead));
}

#[test]
fn cell_with_three_live_neighbors_is_alive_next() {
    // (0, 1), (0, 2) and (1, 0) are three of the six hex neighbors of (1, 1):
    // directly above, the odd-row offset above, and to the left.
    let mut born = grid(3, 3, &[(0, 1), (0, 2), (1, 0)]);
    assert_eq!(born.live_neighbor_count(1, 1), 3);
    born.tick();
    assert_eq!(born.cells()[4], Cell::Alive);

    let mut survives = grid(3, 3, &[(0, 1), (0, 2), (1, 0), (1, 1)]);
    assert_eq!(survives.live_neighbor_count(1, 1), 3);
    survives.tick();
    assert_eq!(survives.cells()[4], Cell::Alive);
}

#[test]
fn toggle_twice_restores_the_grid() {
    let mut u = grid(3, 4, &[(0, 0), (1, 2), (3, 1)]);
    let before = u.cells().clone();
    u.toogle_cell(2, 1);
    assert_eq!(u.cells()[2 * 3 + 1], Cell::Alive);
    for (i, (&now, &was)) in u.cells().iter().zip(before.iter()).enumerate() {
        if i != 2 * 3 + 1 {
            assert_eq!(now, was);
        }
    }
    u.toogle_cell(2, 1);
    assert_eq!(u.cells(), &before);
}

#[test]
fn cell_toogle_flips_between_states() {
    let mut c = Cell::Dead;
    c.toogle();
    assert_eq!(c, Cell::Alive);
    c.toogle();
    assert_eq!(c, Cell::Dead);
}

#[test]
fn to_count_is_zero_or_one() {
    assert_eq!(Cell::Dead.to_count(), 0);
    assert_eq!(Cell::Alive.to_count(), 1);
}

#[test]
fn render_is_deterministic() {
    let u = grid(3, 3, &[(0, 0), (1, 1), (2, 0)]);
    let first = u.render();
    let second = u.render();
    assert_eq!(first, second);
    assert_eq!(first.as_bytes(), second.as_bytes());
}

#[test]
fn render_draws_glyphs_rows_and_stagger() {
    let u = grid(2, 2, &[(0, 0), (1, 1)]);
    assert_eq!(u.render(), " ⬢ ⬡ \n⬡ ⬢ \n");
}

#[test]
fn neighbor_count_exact_value() {
    let u = grid(3, 3, &[(0, 1), (1, 0), (1, 1), (1, 2), (2, 2)]);
    // Neighbors of (1, 1): above (0, 1) alive, offset above (0, 2) dead,
    // below (2, 1) dead, offset below (2, 2) alive, left (1, 0) alive,
    // right (1, 2) alive.
    assert_eq!(u.live_neighbor_count(1, 1), 4);
}

#[test]
fn single_cell_torus_is_its_own_six_neighbors() {
    let mut u = grid(1, 1, &[(0, 0)]);
    assert_eq!(u.live_neighbor_count(0, 0), 6);
    // A live cell with six neighbors dies of overpopulation.
    u.tick();
    assert_eq!(u.cells()[0], Cell::Dead);
    assert_eq!(u.live_neighbor_count(0, 0), 0);
}

#[test]
fn dimensions_and_cells_are_exposed() {
    let u = grid(5, 2, &[(1, 4)]);
    assert_eq!(u.width(), 5);
    assert_eq!(u.height(), 2);
    assert_eq!(u.cells().len(), 10);
    assert_eq!(u.cells()[9], Cell::Alive);
    assert_eq!(u.cells()[0], Cell::Dead);
}
