use game_of_life::Cell;
use game_of_life::GridError;
use game_of_life::Universe;
use game_of_life::apply_rule;

fn blank(width: u32, height: u32) -> Vec<Cell> {
    vec![Cell::Dead; (width * height) as usize]
}

fn grid_with_alive(width: u32, height: u32, alive: &[(u32, u32)]) -> Universe {
    let mut cells = blank(width, height);
    for &(row, col) in alive {
        cells[(row * width + col) as usize] = Cell::Alive;
    }
    Universe::from_cells(width, height, cells).unwrap()
}

#[test]
fn new_default_dimensions() {
    let u = Universe::new();
    assert_eq!(u.get_width(), 64);
    assert_eq!(u.get_height(), 64);
    assert_eq!(u.get_cell().len(), 64 * 64);
}

#[test]
fn initial_pattern_parity() {
    let u = Universe::new();
    let cells = u.get_cell();
    for i in 0..cells.len() {
        let expected = if i % 2 == 0 || i % 7 == 0 { Cell::Alive } else { Cell::Dead };
        assert_eq!(cells[i], expected);
    }
}

#[test]
fn neighbor_count_in_range() {
    let u = Universe::new();
    for row in 0..u.get_height() {
        for col in 0..u.get_width() {
            let count = u.neighbor_count(row, col).unwrap();
            assert!(count <= 8);
        }
    }
}

#[test]
fn neighbor_count_shift_invariant() {
    // The same one-cell neighborhood, placed around the center and around
    // the wrapping corner, yields the same count.
    let center = grid_with_alive(8, 8, &[(4, 4)]);
    assert_eq!(center.neighbor_count(3, 3).unwrap(), 1);
    let corner = grid_with_alive(8, 8, &[(7, 7)]);
    assert_eq!(corner.neighbor_count(0, 0).unwrap(), 1);
}

#[test]
fn wraparound_corner_counts() {
    // The neighbor count at (0, 0) includes the cell at (H-1, W-1).
    let u = grid_with_alive(4, 4, &[(3, 3)]);
    assert_eq!(u.neighbor_count(0, 0).unwrap(), 1);
}

#[test]
fn rule_table() {
    assert_eq!(apply_rule(Cell::Alive, 0), Cell::Dead);
    assert_eq!(apply_rule(Cell::Alive, 1), Cell::Dead);
    assert_eq!(apply_rule(Cell::Alive, 2), Cell::Alive);
    assert_eq!(apply_rule(Cell::Alive, 3), Cell::Alive);
    for n in 4..=8 {
        assert_eq!(apply_rule(Cell::Alive, n), Cell::Dead);
    }
    for n in 0..=8 {
        let expected = if n == 3 { Cell::Alive } else { Cell::Dead };
        assert_eq!(apply_rule(Cell::Dead, n), expected);
    }
}

#[test]
fn block_still_life() {
    let mut u = grid_with_alive(6, 6, &[(2, 2), (2, 3), (3, 2), (3, 3)]);
    let start = u.get_cell().clone();
    for _ in 0..10 {
        u.tick();
        assert_eq!(*u.get_cell(), start);
    }
}

#[test]
fn blinker_oscillates() {
    let mut u = grid_with_alive(5, 5, &[(2, 1), (2, 2), (2, 3)]);
    let horizontal = u.get_cell().clone();
    let vertical = grid_with_alive(5, 5, &[(1, 2), (2, 2), (3, 2)]);
    u.tick();
    assert_eq!(*u.get_cell(), *vertical.get_cell());
    u.tick();
    assert_eq!(*u.get_cell(), horizontal);
}

#[test]
fn determinism_repeated_construction() {
    let mut a = Universe::new();
    let mut b = Universe::new();
    assert_eq!(*a.get_cell(), *b.get_cell());
    for _ in 0..5 {
        a.tick();
        b.tick();
        assert_eq!(*a.get_cell(), *b.get_cell());
    }
}

#[test]
fn zero_width_rejected() {
    let r = Universe::with_size(0, 5);
    assert_eq!(r.err().unwrap(), GridError::InvalidDimensions);
}

#[test]
fn zero_height_rejected() {
    let r = Universe::with_size(5, 0);
    assert_eq!(r.err().unwrap(), GridError::InvalidDimensions);
}

#[test]
fn from_cells_length_mismatch_rejected() {
    let r = Universe::from_cells(2, 2, vec![Cell::Dead; 3]);
    assert_eq!(r.err().unwrap(), GridError::InvalidDimensions);
}

#[test]
fn from_cells_zero_dimension_rejected() {
    let r = Universe::from_cells(0, 0, Vec::new());
    assert_eq!(r.err().unwrap(), GridError::InvalidDimensions);
}

#[test]
fn cells_length_stable_over_ticks() {
    let mut u = Universe::new();
    for _ in 0..100 {
        u.tick();
        assert_eq!(u.get_cell().len(), (u.get_width() * u.get_height()) as usize);
    }
}

#[test]
fn render_small_grid() {
    let u = grid_with_alive(2, 2, &[(0, 0), (1, 1)]);
    assert_eq!(u.render(), "◼◻\n◻◼\n");
}

#[test]
fn render_one_line_per_row() {
    let u = Universe::new();
    let text = u.render();
    let lines: Vec<&str> = text.lines().collect();
    assert_eq!(lines.len(), 64);
    for line in lines {
        assert_eq!(line.chars().count(), 64);
    }
}

#[test]
fn get_index_row_major() {
    let u = Universe::with_size(4, 3).unwrap();
    assert_eq!(u.get_index(0, 0), 0);
    assert_eq!(u.get_index(1, 2), 6);
    assert_eq!(u.get_index(2, 3), 11);
}

#[test]
fn checked_index_validates() {
    let u = Universe::with_size(4, 3).unwrap();
    assert_eq!(u.checked_index(1, 2).unwrap(), 6);
    assert_eq!(u.checked_index(3, 0).err().unwrap(), GridError::InvalidCoordinate);
    assert_eq!(u.checked_index(0, 4).err().unwrap(), GridError::InvalidCoordinate);
}

#[test]
fn neighbor_count_out_of_range() {
    let u = Universe::new();
    assert_eq!(u.neighbor_count(64, 0).err().unwrap(), GridError::InvalidCoordinate);
    assert_eq!(u.neighbor_count(0, 64).err().unwrap(), GridError::InvalidCoordinate);
}

#[test]
fn cell_integer_projection() {
    assert_eq!(Cell::Dead.as_u8(), 0);
    assert_eq!(Cell::Alive.as_u8(), 1);
}

#[test]
fn live_neighbor_count_direct_query() {
    let u = grid_with_alive(5, 5, &[(1, 1), (1, 2), (1, 3)]);
    assert_eq!(u.live_neighbor_count(2, 2), 3);
    assert_eq!(u.live_neighbor_count(0, 2), 3);
    assert_eq!(u.live_neighbor_count(1, 2), 2);
}
