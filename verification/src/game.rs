use vstd::prelude::*;
use crate::tetromino::{Tetrimonos, spec_offset, lemma_offsets_in_range, in_off_range};
use crate::grid::{
    grid_wf, spec_kept, spec_place, blank_rows, blank_row, cells_int, no_full_row, row_full,
    lemma_kept_rows_not_full, lemma_clear_after_merge_bounded, Grid,
};
use crate::piece::{
    Piece, spec_collides, abs_cells, cell_blocked, shift_post, rotate_post,
    lemma_not_collides_bounds,
};
use crate::level::Level;
use crate::{GRID_HEIGHT, GRID_WIDTH};

verus! {

/// A discrete input intent for the falling piece, as handed over by the
/// host's input translation.
#[derive(Copy, Clone, Debug, PartialEq, Eq, Structural)]
pub enum Intent {
    ShiftLeft,
    ShiftRight,
    SoftDropStep,
    Rotate,
}

/// The game session: score, cleared-line total, derived level, the falling
/// piece (which owns the current board), and the back-to-back flag that is
/// armed by a four-row clear.
pub struct Tetris {
    pub score: i32,
    pub total_lines: i32,
    pub level: Level,
    pub piece: Piece,
    pub last_tetris: bool,
}

/// The board after the piece's four cells are written at its resting
/// projection.
pub open spec fn merged_grid(p: Piece) -> Seq<Seq<Tetrimonos>> {
    spec_place(
        p.environment@,
        p.tetrimono,
        abs_cells(p.tetrimono, p.state as int, p.shadow_position.0 as int, p.shadow_position.1 as int),
    )
}

/// The number of rows a lock of piece `p` clears.
pub open spec fn spec_rows_cleared(p: Piece) -> int {
    GRID_HEIGHT - spec_kept(merged_grid(p)).len()
}

/// The board after the lock: merged, with full rows removed and as many
/// blank rows prepended.
pub open spec fn cleared_grid(p: Piece) -> Seq<Seq<Tetrimonos>> {
    blank_rows(spec_rows_cleared(p)) + spec_kept(merged_grid(p))
}

/// Points awarded for a lock that clears `rows` rows at the given level: a
/// back-to-back four-row clear is worth 1200 per level, a plain four-row
/// clear 800 per level, any other clear 100 per level and row.
pub open spec fn spec_score_gain(level: int, rows: int, back_to_back: bool) -> int {
    if rows == 4 && back_to_back {
        1200 * level
    } else if rows == 4 {
        800 * level
    } else if rows > 0 {
        100 * level * rows
    } else {
        0
    }
}

/// A freshly spawned piece over board `g`: well-formed, anchored at the
/// canonical spawn coordinate (row 2, middle column), with its resting
/// projection computed. The kind and rotation state are whatever the die
/// rolled.
pub open spec fn spawned_over(p: Piece, g: Seq<Seq<Tetrimonos>>) -> bool {
    &&& p.wf()
    &&& p.environment@ == g
    &&& p.position.0 == 2 && p.position.1 as int == GRID_WIDTH as int / 2
}

/// The session after one tick. While the piece hangs above its resting
/// projection it falls one row and nothing else changes. Once it rests, a
/// still-blocked resting position means the spawn itself was blocked: the
/// game is over and the session is untouched. Otherwise the piece locks:
/// the board is merged and cleared, the score grows by the scoring rule at
/// the pre-lock level, the line total and level advance, the back-to-back
/// flag records whether exactly four rows cleared, and a fresh piece spawns
/// over the new board.
pub open spec fn update_post(o: Tetris, n: Tetris, game_over: bool) -> bool {
    let p = o.piece;
    if p.position != p.shadow_position {
        &&& !game_over
        &&& n.score == o.score
        &&& n.total_lines == o.total_lines
        &&& n.level == o.level
        &&& n.last_tetris == o.last_tetris
        &&& shift_post(p, n.piece, (1i64, 0i64))
    } else if spec_collides(
        p.environment@,
        p.tetrimono,
        p.state as int,
        p.shadow_position.0 as int,
        p.shadow_position.1 as int,
    ) {
        &&& game_over
        &&& n == o
    } else {
        let rows = spec_rows_cleared(p);
        &&& !game_over
        &&& n.score as int == o.score as int + spec_score_gain(o.level.number as int, rows, o.last_tetris)
        &&& n.total_lines as int == o.total_lines as int + rows
        &&& n.level.number as int == n.total_lines as int / 10 + 1
        &&& n.last_tetris == (rows == 4)
        &&& spawned_over(n.piece, cleared_grid(p))
    }
}

impl Tetris {
    /// Session well-formedness: a well-formed piece, non-negative counters,
    /// and the level derived from the line total.
    pub open spec fn wf(self) -> bool {
        &&& self.piece.wf()
        &&& no_full_row(self.piece.environment@)
        &&& 0 <= self.score
        &&& 0 <= self.total_lines
        &&& self.level.number as int == self.total_lines as int / 10 + 1
    }

    /// Starts a session: zero score and lines, level one, the back-to-back
    /// flag down, and a random piece spawned over an empty board.
    pub fn new() -> (t: Tetris)
        ensures
            t.wf(),
            t.score == 0,
            t.total_lines == 0,
            t.level.number == 1,
            !t.last_tetris,
            t.piece.environment@ == blank_rows(GRID_HEIGHT as int),
    {
        let t = Tetris {
            score: 0,
            total_lines: 0,
            level: Level::new(),
            piece: Piece::new(Grid::new()),
            last_tetris: false,
        };
        proof {
            assert forall|r: int| 0 <= r < t.piece.environment@.len() implies !row_full(
                #[trigger] t.piece.environment@[r],
            ) by {
                assert(t.piece.environment@[r] == blank_row());
                assert(blank_row()[0] == Tetrimonos::BLANK);
            }
        }
        t
    }

    /// Merges the piece's four cells into the board at its resting
    /// projection, clears full rows, and spawns a fresh piece over the new
    /// board; returns how many rows were cleared. Score, lines, level and
    /// the back-to-back flag are untouched.
    pub fn assimilate_piece(&mut self) -> (rows: usize)
        requires
            old(self).wf(),
            !spec_collides(
                old(self).piece.environment@,
                old(self).piece.tetrimono,
                old(self).piece.state as int,
                old(self).piece.shadow_position.0 as int,
                old(self).piece.shadow_position.1 as int,
            ),
        ensures
            final(self).wf(),
            rows as int == spec_rows_cleared(old(self).piece),
            rows <= 4,
            spawned_over(final(self).piece, cleared_grid(old(self).piece)),
            final(self).score == old(self).score,
            final(self).total_lines == old(self).total_lines,
            final(self).level == old(self).level,
            final(self).last_tetris == old(self).last_tetris,
    {
        let (y, x) = self.piece.shadow_position;
        let state = self.piece.state;
        let ghost t = self.piece.tetrimono;
        let ghost g0 = self.piece.environment@;
        proof {
            lemma_offsets_in_range(t, state as int);
            lemma_not_collides_bounds(g0, t, state as int, y as int, x as int);
        }
        let mut cells: Vec<(usize, usize)> = Vec::new();
        for i in 0..4
            invariant
                *self == *old(self),
                old(self).wf(),
                t == self.piece.tetrimono,
                g0 == self.piece.environment@,
                state == self.piece.state,
                y == self.piece.shadow_position.0,
                x == self.piece.shadow_position.1,
                -1 <= y as int <= GRID_HEIGHT + 1,
                -1 <= x as int <= GRID_WIDTH + 1,
                !spec_collides(g0, t, state as int, y as int, x as int),
                forall|k: int| 0 <= k < 4 ==> in_off_range(#[trigger] spec_offset(t, state as int, k)),
                cells@.len() == i,
                forall|k: int| 0 <= k < i ==> #[trigger] cells_int(cells@)[k]
                    == abs_cells(t, state as int, y as int, x as int)[k],
                forall|k: int| 0 <= k < i ==> (#[trigger] cells@[k]).0 < GRID_HEIGHT
                    && cells@[k].1 < GRID_WIDTH,
        {
            let (dy, dx) = self.piece.positions[state][i];
            proof {
                assert(self.piece.positions@[state as int]@[i as int] == (dy, dx));
                assert(dy as int == spec_offset(t, state as int, i as int).0);
                assert(dx as int == spec_offset(t, state as int, i as int).1);
                assert(!cell_blocked(
                    g0,
                    y as int + spec_offset(t, state as int, i as int).0,
                    x as int + spec_offset(t, state as int, i as int).1,
                ));
            }
            let r = y + dy;
            let c = x + dx;
            let ghost cells_pre = cells@;
            cells.push((r as usize, c as usize));
            proof {
                assert forall|k: int| 0 <= k < i + 1 implies #[trigger] cells_int(cells@)[k]
                    == abs_cells(t, state as int, y as int, x as int)[k] by {
                    if k < i {
                        assert(cells@[k] == cells_pre[k]);
                        assert(cells_int(cells_pre)[k]
                            == abs_cells(t, state as int, y as int, x as int)[k]);
                    } else {
                        assert(cells@[k] == (r as usize, c as usize));
                    }
                }
            }
        }
        let mut grid = self.piece.environment.duplicate();
        grid.place(self.piece.tetrimono, &cells);
        proof {
            assert(cells_int(cells@) =~= abs_cells(t, state as int, y as int, x as int));
            assert(grid@ == merged_grid(old(self).piece));
        }
        proof {
            lemma_clear_after_merge_bounded(
                g0,
                old(self).piece.tetrimono,
                abs_cells(t, state as int, y as int, x as int),
            );
        }
        let rows_removed = grid.clean_rows();
        proof {
            let merged = merged_grid(old(self).piece);
            lemma_kept_rows_not_full(merged);
            assert forall|r: int| 0 <= r < grid@.len() implies !row_full(#[trigger] grid@[r]) by {
                if r < rows_removed as int {
                    assert(grid@[r] == blank_row());
                    assert(blank_row()[0] == Tetrimonos::BLANK);
                } else {
                    assert(grid@[r] == spec_kept(merged)[r - rows_removed]);
                }
            }
        }
        self.piece = Piece::new(grid);
        rows_removed
    }

    /// One gravity tick of the session state machine; returns whether the
    /// game is over.
    pub fn update(&mut self) -> (game_over: bool)
        requires
            old(self).wf(),
            old(self).score as int + 1200 * (old(self).level.number as int) <= i32::MAX,
            old(self).total_lines as int + 4 <= i32::MAX,
        ensures
            final(self).wf(),
            update_post(*old(self), *final(self), game_over),
    {
        if self.piece.position.0 != self.piece.shadow_position.0
            || self.piece.position.1 != self.piece.shadow_position.1 {
            self.piece.shift((1, 0));
            false
        } else {
            let (y, x) = self.piece.shadow_position;
            let state = self.piece.state;
            if self.piece.collides_with_environment(x, y, state) {
                true
            } else {
                let rows_reduced = self.assimilate_piece();
                let level_num = self.level.number;
                let ghost lv = level_num as int;
                let ghost rw = rows_reduced as int;
                if rows_reduced > 0 {
                    if rows_reduced == 4 && self.last_tetris {
                        self.score = self.score + 1200 * level_num;
                    } else if rows_reduced == 4 {
                        self.score = self.score + 800 * level_num;
                    } else {
                        proof {
                            assert(0 <= 100 * lv * rw <= 1200 * lv) by (nonlinear_arith)
                                requires
                                    1 <= rw <= 3,
                                    1 <= lv,
                            ;
                        }
                        self.score = self.score + 100 * level_num * (rows_reduced as i32);
                    }
                }
                self.last_tetris = rows_reduced == 4;
                self.total_lines = self.total_lines + (rows_reduced as i32);
                self.level.number = self.total_lines / 10 + 1;
                false
            }
        }
    }

    /// Applies one input intent to the falling piece: a lateral shift, a
    /// soft-drop step, or a rotation. Score, lines, level and the
    /// back-to-back flag are untouched.
    pub fn apply_intent(&mut self, intent: Intent)
        requires
            old(self).wf(),
        ensures
            final(self).wf(),
            final(self).score == old(self).score,
            final(self).total_lines == old(self).total_lines,
            final(self).level == old(self).level,
            final(self).last_tetris == old(self).last_tetris,
            match intent {
                Intent::ShiftLeft => shift_post(old(self).piece, final(self).piece, (0i64, -1i64)),
                Intent::ShiftRight => shift_post(old(self).piece, final(self).piece, (0i64, 1i64)),
                Intent::SoftDropStep => shift_post(old(self).piece, final(self).piece, (1i64, 0i64)),
                Intent::Rotate => rotate_post(old(self).piece, final(self).piece),
            },
    {
        match intent {
            Intent::ShiftLeft => self.piece.shift((0, -1)),
            Intent::ShiftRight => self.piece.shift((0, 1)),
            Intent::SoftDropStep => self.piece.shift((1, 0)),
            Intent::Rotate => self.piece.rotate(),
        }
    }
}

} // verus!
