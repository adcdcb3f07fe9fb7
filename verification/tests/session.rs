use tetris::game::{Intent, Tetris};
use tetris::grid::Grid;
use tetris::level::Level;
use tetris::piece::Piece;
use tetris::tetromino::Tetrimonos;
use tetris::{GRID_HEIGHT, GRID_WIDTH};

fn empty_rows() -> Vec<Vec<Tetrimonos>> {
    vec![vec![Tetrimonos::BLANK; GRID_WIDTH]; GRID_HEIGHT]
}

fn session_with(piece: Piece) -> Tetris {
    Tetris {
        score: 0,
        total_lines: 0,
        level: Level { number: 1 },
        piece,
        last_tetris: false,
    }
}

/// Ticks the session until the current piece locks (or the game ends) and
/// returns whether the game is over.
fn run_to_lock(t: &mut Tetris) -> bool {
    for _ in 0..100 {
        let at_rest = t.piece.position == t.piece.shadow_position;
        let game_over = t.update();
        if at_rest || game_over {
            return game_over;
        }
    }
    panic!("piece never locked");
}

/// Rows 16..=19 filled except for column 5: an upright I completes all four.
fn tetris_well() -> Vec<Vec<Tetrimonos>> {
    let mut rows = empty_rows();
    for r in 16..GRID_HEIGHT {
        for c in 0..GRID_WIDTH {
            if c != 5 {
                rows[r][c] = Tetrimonos::O;
            }
        }
    }
    rows
}

#[test]
fn single_row_clear_scores_one_hundred_at_level_one() {
    let mut rows = empty_rows();
    for c in 0..GRID_WIDTH {
        if !(3..=6).contains(&c) {
            rows[19][c] = Tetrimonos::T;
        }
    }
    let mut t = session_with(Piece::spawn(Grid { grid: rows }, Tetrimonos::I, 0));
    let game_over = run_to_lock(&mut t);
    assert!(!game_over);
    assert_eq!(t.score, 100);
    assert_eq!(t.total_lines, 1);
    assert_eq!(t.level.number, 1);
    assert!(!t.last_tetris);
}

#[test]
fn back_to_back_tetris_scores_800_then_1200() {
    let mut t = session_with(Piece::spawn(Grid { grid: tetris_well() }, Tetrimonos::I, 1));
    assert!(!run_to_lock(&mut t));
    assert_eq!(t.score, 800);
    assert_eq!(t.total_lines, 4);
    assert!(t.last_tetris);

    t.piece = Piece::spawn(Grid { grid: tetris_well() }, Tetrimonos::I, 1);
    assert!(!run_to_lock(&mut t));
    assert_eq!(t.score, 800 + 1200);
    assert_eq!(t.total_lines, 8);
    assert!(t.last_tetris);
}

#[test]
fn double_row_clear_scores_per_row_and_clears_the_flag() {
    let mut t = session_with(Piece::spawn(Grid { grid: tetris_well() }, Tetrimonos::I, 1));
    assert!(!run_to_lock(&mut t));
    assert_eq!(t.score, 800);
    assert!(t.last_tetris);

    // Rows 18 and 19 filled except columns 3 and 4: a spawned O completes both.
    let mut rows = empty_rows();
    for r in 18..GRID_HEIGHT {
        for c in 0..GRID_WIDTH {
            if c != 3 && c != 4 {
                rows[r][c] = Tetrimonos::S;
            }
        }
    }
    t.piece = Piece::spawn(Grid { grid: rows }, Tetrimonos::O, 0);
    assert!(!run_to_lock(&mut t));
    assert_eq!(t.score, 800 + 200);
    assert_eq!(t.total_lines, 6);
    assert!(!t.last_tetris);
}

#[test]
fn lock_without_clear_resets_the_back_to_back_flag() {
    let mut t = session_with(Piece::spawn(Grid { grid: tetris_well() }, Tetrimonos::I, 1));
    assert!(!run_to_lock(&mut t));
    assert!(t.last_tetris);

    // The board is empty again after the clear; the next lock clears nothing.
    let board = t.piece.environment.duplicate();
    t.piece = Piece::spawn(board, Tetrimonos::T, 0);
    assert!(!run_to_lock(&mut t));
    assert_eq!(t.score, 800);
    assert_eq!(t.total_lines, 4);
    assert!(!t.last_tetris);
}

#[test]
fn reaching_ten_lines_raises_the_level() {
    let mut rows = empty_rows();
    for c in 0..GRID_WIDTH {
        if !(3..=6).contains(&c) {
            rows[19][c] = Tetrimonos::J;
        }
    }
    let mut t = Tetris {
        score: 0,
        total_lines: 9,
        level: Level { number: 1 },
        piece: Piece::spawn(Grid { grid: rows }, Tetrimonos::I, 0),
        last_tetris: false,
    };
    assert_eq!(t.level.number, 1);
    assert!(!run_to_lock(&mut t));
    assert_eq!(t.total_lines, 10);
    assert_eq!(t.level.number, 2);
}

#[test]
fn level_stays_at_one_below_ten_lines() {
    let mut rows = empty_rows();
    for c in 0..GRID_WIDTH {
        if !(3..=6).contains(&c) {
            rows[19][c] = Tetrimonos::J;
        }
    }
    let mut t = Tetris {
        score: 0,
        total_lines: 8,
        level: Level { number: 1 },
        piece: Piece::spawn(Grid { grid: rows }, Tetrimonos::I, 0),
        last_tetris: false,
    };
    assert!(!run_to_lock(&mut t));
    assert_eq!(t.total_lines, 9);
    assert_eq!(t.level.number, 1);
}

#[test]
fn scoring_scales_with_the_level() {
    let mut rows = empty_rows();
    for c in 0..GRID_WIDTH {
        if !(3..=6).contains(&c) {
            rows[19][c] = Tetrimonos::T;
        }
    }
    let mut t = Tetris {
        score: 0,
        total_lines: 12,
        level: Level { number: 2 },
        piece: Piece::spawn(Grid { grid: rows }, Tetrimonos::I, 0),
        last_tetris: false,
    };
    assert!(!run_to_lock(&mut t));
    assert_eq!(t.score, 200);
    assert_eq!(t.total_lines, 13);
    assert_eq!(t.level.number, 2);
}

#[test]
fn gravity_tick_lowers_a_hanging_piece() {
    let mut t = session_with(Piece::spawn(Grid::new(), Tetrimonos::I, 0));
    assert_eq!(t.piece.position, (2, 5));
    let game_over = t.update();
    assert!(!game_over);
    assert_eq!(t.piece.position, (3, 5));
    assert_eq!(t.score, 0);
    assert_eq!(t.total_lines, 0);
}

#[test]
fn blocked_spawn_ends_the_game_without_merging() {
    let mut rows = empty_rows();
    for c in 3..=6 {
        rows[1][c] = Tetrimonos::Z;
    }
    let before = rows.clone();
    let mut t = session_with(Piece::spawn(Grid { grid: rows }, Tetrimonos::I, 0));
    assert_eq!(t.piece.position, t.piece.shadow_position);
    let game_over = t.update();
    assert!(game_over);
    assert_eq!(t.piece.environment.grid, before);
    assert_eq!(t.score, 0);
    assert_eq!(t.total_lines, 0);
}

#[test]
fn i_piece_drops_to_the_bottom_and_locks_four_cells() {
    let mut t = session_with(Piece::spawn(Grid::new(), Tetrimonos::I, 0));
    let game_over = run_to_lock(&mut t);
    assert!(!game_over);
    let board = &t.piece.environment.grid;
    let mut occupied = 0;
    for r in 0..GRID_HEIGHT {
        for c in 0..GRID_WIDTH {
            if board[r][c] != Tetrimonos::BLANK {
                occupied += 1;
                assert_eq!(board[r][c], Tetrimonos::I);
                assert_eq!(r, 19);
                assert!((3..=6).contains(&c));
            }
        }
    }
    assert_eq!(occupied, 4);
    assert_eq!(t.score, 0);
    assert_eq!(t.total_lines, 0);
    assert!(!t.last_tetris);
}

#[test]
fn intents_drive_the_piece() {
    let mut t = session_with(Piece::spawn(Grid::new(), Tetrimonos::T, 0));
    t.apply_intent(Intent::ShiftLeft);
    assert_eq!(t.piece.position, (2, 4));
    t.apply_intent(Intent::ShiftRight);
    t.apply_intent(Intent::ShiftRight);
    assert_eq!(t.piece.position, (2, 6));
    t.apply_intent(Intent::SoftDropStep);
    assert_eq!(t.piece.position, (3, 6));
    t.apply_intent(Intent::Rotate);
    assert_eq!(t.piece.state, 1);
    assert_eq!(t.score, 0);
}

#[test]
fn fresh_session_starts_empty_at_level_one() {
    let t = Tetris::new();
    assert_eq!(t.score, 0);
    assert_eq!(t.total_lines, 0);
    assert_eq!(t.level.number, 1);
    assert!(!t.last_tetris);
    assert_eq!(t.piece.position, (2, 5));
    for row in t.piece.environment.grid.iter() {
        for cell in row.iter() {
            assert_eq!(*cell, Tetrimonos::BLANK);
        }
    }
}

#[test]
fn speed_table_is_pinned() {
    let table = [
        (1, 750),
        (2, 670),
        (3, 590),
        (4, 520),
        (5, 440),
        (6, 360),
        (7, 280),
        (8, 200),
        (9, 125),
        (10, 90),
        (11, 80),
        (12, 80),
        (13, 80),
        (14, 60),
        (15, 60),
        (16, 60),
        (17, 45),
        (18, 45),
        (19, 45),
        (20, 30),
        (25, 30),
        (30, 30),
        (31, 20),
        (100, 20),
    ];
    for (n, ms) in table.iter() {
        let l = Level { number: *n };
        assert_eq!(l.get_speed(), *ms, "level {}", n);
    }
}
