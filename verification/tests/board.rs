use tetris::grid::Grid;
use tetris::tetromino::Tetrimonos;
use tetris::{GRID_HEIGHT, GRID_WIDTH};

fn empty_rows() -> Vec<Vec<Tetrimonos>> {
    vec![vec![Tetrimonos::BLANK; GRID_WIDTH]; GRID_HEIGHT]
}

#[test]
fn new_board_is_all_blank() {
    let g = Grid::new();
    assert_eq!(g.grid.len(), GRID_HEIGHT);
    for row in g.grid.iter() {
        assert_eq!(row.len(), GRID_WIDTH);
        for cell in row.iter() {
            assert_eq!(*cell, Tetrimonos::BLANK);
        }
    }
}

#[test]
fn in_bounds_matches_dimensions() {
    let g = Grid::new();
    assert!(g.in_bounds(0, 0));
    assert!(g.in_bounds(19, 9));
    assert!(!g.in_bounds(-1, 0));
    assert!(!g.in_bounds(0, -1));
    assert!(!g.in_bounds(20, 0));
    assert!(!g.in_bounds(0, 10));
}

#[test]
fn is_empty_sees_occupancy_and_bounds() {
    let mut rows = empty_rows();
    rows[4][7] = Tetrimonos::T;
    let g = Grid { grid: rows };
    assert!(g.is_empty(4, 6));
    assert!(!g.is_empty(4, 7));
    assert!(!g.is_empty(-1, 0));
    assert!(!g.is_empty(20, 0));
}

#[test]
fn place_writes_exactly_four_cells() {
    let mut g = Grid::new();
    let cells = vec![(19, 3), (19, 4), (19, 5), (19, 6)];
    g.place(Tetrimonos::I, &cells);
    for r in 0..GRID_HEIGHT {
        for c in 0..GRID_WIDTH {
            if r == 19 && (3..=6).contains(&c) {
                assert_eq!(g.grid[r][c], Tetrimonos::I);
            } else {
                assert_eq!(g.grid[r][c], Tetrimonos::BLANK);
            }
        }
    }
}

#[test]
fn clean_rows_without_full_rows_changes_nothing() {
    let mut rows = empty_rows();
    rows[10][0] = Tetrimonos::S;
    rows[19][9] = Tetrimonos::Z;
    // A nearly full row still counts as not full.
    for c in 0..GRID_WIDTH - 1 {
        rows[18][c] = Tetrimonos::O;
    }
    let mut g = Grid { grid: rows.clone() };
    let removed = g.clean_rows();
    assert_eq!(removed, 0);
    assert_eq!(g.grid, rows);
}

#[test]
fn clean_rows_drops_two_full_rows_and_shifts_content_down() {
    let mut rows = empty_rows();
    for c in 0..GRID_WIDTH {
        rows[3][c] = Tetrimonos::J;
        rows[7][c] = Tetrimonos::L;
    }
    rows[0][0] = Tetrimonos::I;
    rows[2][2] = Tetrimonos::T;
    rows[5][5] = Tetrimonos::S;
    rows[19][9] = Tetrimonos::L;
    let mut g = Grid { grid: rows };
    let removed = g.clean_rows();
    assert_eq!(removed, 2);
    // Two fresh blank rows on top.
    for c in 0..GRID_WIDTH {
        assert_eq!(g.grid[0][c], Tetrimonos::BLANK);
        assert_eq!(g.grid[1][c], Tetrimonos::BLANK);
    }
    // Content above the cleared rows moved down, order preserved.
    assert_eq!(g.grid[2][0], Tetrimonos::I);
    assert_eq!(g.grid[4][2], Tetrimonos::T);
    assert_eq!(g.grid[6][5], Tetrimonos::S);
    // Content below both cleared rows is unmoved.
    assert_eq!(g.grid[19][9], Tetrimonos::L);
    // No full row survives.
    for r in 0..GRID_HEIGHT {
        assert!(g.grid[r].iter().any(|c| *c == Tetrimonos::BLANK));
    }
}

#[test]
fn clean_rows_clears_a_completely_full_board() {
    let g_rows = vec![vec![Tetrimonos::O; GRID_WIDTH]; GRID_HEIGHT];
    let mut g = Grid { grid: g_rows };
    let removed = g.clean_rows();
    assert_eq!(removed, GRID_HEIGHT);
    assert_eq!(g.grid, empty_rows());
}

#[test]
fn duplicate_copies_every_cell() {
    let mut rows = empty_rows();
    rows[1][1] = Tetrimonos::Z;
    rows[17][8] = Tetrimonos::J;
    let g = Grid { grid: rows };
    let d = g.duplicate();
    assert_eq!(d.grid, g.grid);
}
