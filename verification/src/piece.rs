use vstd::prelude::*;
use crate::tetromino::{
    Tetrimonos, spec_offset, positions_match, generate_positions, in_off_range,
    lemma_offsets_in_range, kind_from_index,
};
use crate::grid::{Grid, grid_wf};
use crate::rng::random_below;
use crate::{GRID_HEIGHT, GRID_WIDTH};

verus! {

/// The falling piece: its kind, cached rotation tables, anchor position,
/// cached resting projection, rotation state, and the board it is tested
/// against. Coordinates are (row, column) pairs; rows grow downward.
pub struct Piece {
    pub tetrimono: Tetrimonos,
    pub positions: [[(i64, i64); 4]; 4],
    pub position: (i64, i64),
    pub shadow_position: (i64, i64),
    pub state: usize,
    pub environment: Grid,
}

/// A cell is blocked when it lies off the board or is already occupied.
pub open spec fn cell_blocked(g: Seq<Seq<Tetrimonos>>, r: int, c: int) -> bool {
    !(0 <= r < GRID_HEIGHT && 0 <= c < GRID_WIDTH) || g[r][c] != Tetrimonos::BLANK
}

/// The four absolute cells of kind `t` in state `s` anchored at row `y`,
/// column `x`.
pub open spec fn abs_cells(t: Tetrimonos, s: int, y: int, x: int) -> Seq<(int, int)> {
    Seq::new(4, |i: int| (y + spec_offset(t, s, i).0, x + spec_offset(t, s, i).1))
}

/// An anchor collides when any of the four cells it spans is blocked.
pub open spec fn spec_collides(
    g: Seq<Seq<Tetrimonos>>,
    t: Tetrimonos,
    s: int,
    y: int,
    x: int,
) -> bool {
    exists|i: int| 0 <= i < 4 && cell_blocked(
        g,
        y + spec_offset(t, s, i).0,
        x + spec_offset(t, s, i).1,
    )
}

/// Far off the board in any direction, every anchor collides.
pub proof fn lemma_far_collides(g: Seq<Seq<Tetrimonos>>, t: Tetrimonos, s: int, y: int, x: int)
    requires
        0 <= s < 4,
        y <= -2 || y >= GRID_HEIGHT + 2 || x <= -2 || x >= GRID_WIDTH + 2,
    ensures
        spec_collides(g, t, s, y, x),
{
    lemma_offsets_in_range(t, s);
    assert(in_off_range(spec_offset(t, s, 0)));
    assert(cell_blocked(g, y + spec_offset(t, s, 0).0, x + spec_offset(t, s, 0).1));
}

/// A collision-free anchor lies on the board or within one cell of it.
pub proof fn lemma_not_collides_bounds(
    g: Seq<Seq<Tetrimonos>>,
    t: Tetrimonos,
    s: int,
    y: int,
    x: int,
)
    requires
        0 <= s < 4,
        !spec_collides(g, t, s, y, x),
    ensures
        -1 <= y <= GRID_HEIGHT + 1,
        -1 <= x <= GRID_WIDTH + 1,
{
    if y <= -2 || y >= GRID_HEIGHT + 2 || x <= -2 || x >= GRID_WIDTH + 2 {
        lemma_far_collides(g, t, s, y, x);
    }
}

/// Resting projection: starting from anchor row `y0`, the piece can fall
/// straight down through collision-free rows until the row below `ry`
/// collides; a blocked anchor rests on itself.
pub open spec fn is_resting(
    g: Seq<Seq<Tetrimonos>>,
    t: Tetrimonos,
    s: int,
    x: int,
    y0: int,
    ry: int,
) -> bool {
    if spec_collides(g, t, s, y0, x) {
        ry == y0
    } else {
        &&& y0 <= ry
        &&& forall|r: int| y0 <= r <= ry ==> !spec_collides(g, t, s, r, x)
        &&& spec_collides(g, t, s, ry + 1, x)
    }
}

impl Piece {
    /// Core well-formedness: a well-formed board, a playable kind, a rotation
    /// state index below four, the cached tables of the kind, and an anchor
    /// on or within one cell of the board.
    pub open spec fn wf_core(self) -> bool {
        &&& grid_wf(self.environment@)
        &&& self.tetrimono != Tetrimonos::BLANK
        &&& self.state < 4
        &&& positions_match(self.positions, self.tetrimono)
        &&& -1 <= self.position.0 as int <= GRID_HEIGHT + 1
        &&& -1 <= self.position.1 as int <= GRID_WIDTH + 1
    }

    /// The cached resting projection is the true projection of the anchor:
    /// same column, reached by falling straight down.
    pub open spec fn shadow_ok(self) -> bool {
        &&& self.shadow_position.1 == self.position.1
        &&& is_resting(
            self.environment@,
            self.tetrimono,
            self.state as int,
            self.position.1 as int,
            self.position.0 as int,
            self.shadow_position.0 as int,
        )
    }

    pub open spec fn wf(self) -> bool {
        self.wf_core() && self.shadow_ok()
    }

    /// Tests the four cells of rotation state `state` anchored at row `y`,
    /// column `x`: true when any lies off the board or on an occupied cell.
    pub fn collides_with_environment(&self, x: i64, y: i64, state: usize) -> (r: bool)
        requires
            grid_wf(self.environment@),
            positions_match(self.positions, self.tetrimono),
            state < 4,
        ensures
            r == spec_collides(self.environment@, self.tetrimono, state as int, y as int, x as int),
    {
        let ghost g = self.environment@;
        let ghost t = self.tetrimono;
        if y <= -2 || y >= (GRID_HEIGHT as i64) + 2 || x <= -2 || x >= (GRID_WIDTH as i64) + 2 {
            proof {
                lemma_far_collides(g, t, state as int, y as int, x as int);
            }
            return true;
        }
        proof {
            lemma_offsets_in_range(t, state as int);
        }
        for i in 0..4
            invariant
                grid_wf(g),
                g == self.environment@,
                t == self.tetrimono,
                positions_match(self.positions, t),
                state < 4,
                -1 <= y <= (GRID_HEIGHT as i64) + 1,
                -1 <= x <= (GRID_WIDTH as i64) + 1,
                forall|k: int| 0 <= k < 4 ==> in_off_range(#[trigger] spec_offset(t, state as int, k)),
                forall|k: int| 0 <= k < i ==> !cell_blocked(
                    g,
                    y + spec_offset(t, state as int, k).0,
                    x + spec_offset(t, state as int, k).1,
                ),
        {
            let (dy, dx) = self.positions[state][i];
            proof {
                assert(self.positions@[state as int]@[i as int] == (dy, dx));
                assert(dy as int == spec_offset(t, state as int, i as int).0);
                assert(dx as int == spec_offset(t, state as int, i as int).1);
            }
            let ry = y + dy;
            let rx = x + dx;
            if !self.environment.is_empty(ry, rx) {
                proof {
                    assert(cell_blocked(
                        g,
                        y + spec_offset(t, state as int, i as int).0,
                        x + spec_offset(t, state as int, i as int).1,
                    ));
                }
                return true;
            }
        }
        false
    }

    /// Recomputes the cached resting projection by sliding the anchor down
    /// one row at a time until the next row collides. A blocked anchor
    /// projects onto itself, so the lock check sees the blockage.
    pub fn calculate_fall_position(&mut self)
        requires
            old(self).wf_core(),
        ensures
            final(self).wf(),
            final(self).tetrimono == old(self).tetrimono,
            final(self).positions == old(self).positions,
            final(self).position == old(self).position,
            final(self).state == old(self).state,
            final(self).environment == old(self).environment,
    {
        let (y0, x) = self.position;
        let state = self.state;
        let ghost g = self.environment@;
        let ghost t = self.tetrimono;
        if self.collides_with_environment(x, y0, state) {
            self.shadow_position = (y0, x);
            return;
        }
        proof {
            lemma_not_collides_bounds(g, t, state as int, y0 as int, x as int);
        }
        let mut y = y0;
        while !self.collides_with_environment(x, y + 1, state)
            invariant
                *self == *old(self),
                old(self).wf_core(),
                g == self.environment@,
                t == self.tetrimono,
                state == self.state,
                y0 == self.position.0,
                x == self.position.1,
                y0 <= y,
                -1 <= y <= (GRID_HEIGHT as i64) + 1,
                forall|r: int| y0 <= r <= y ==> !spec_collides(g, t, state as int, r, x as int),
            decreases (GRID_HEIGHT as int) + 1 - y,
        {
            proof {
                lemma_not_collides_bounds(g, t, state as int, y as int + 1, x as int);
            }
            y = y + 1;
        }
        self.shadow_position = (y, x);
    }

    /// Proposes the next rotation state at the unchanged anchor; commits it
    /// and recomputes the resting projection when collision-free, otherwise
    /// leaves the piece exactly as it was.
    pub fn rotate(&mut self)
        requires
            old(self).wf(),
        ensures
            final(self).wf(),
            rotate_post(*old(self), *final(self)),
    {
        let prospective_state = (self.state + 1) % 4;
        let (y, x) = self.position;
        if !self.collides_with_environment(x, y, prospective_state) {
            self.state = prospective_state;
            self.calculate_fall_position();
        }
    }

    /// Proposes the anchor moved by `dir` (row delta, column delta) at the
    /// unchanged rotation state; commits it and recomputes the resting
    /// projection when collision-free, otherwise leaves the piece exactly as
    /// it was.
    pub fn shift(&mut self, dir: (i64, i64))
        requires
            old(self).wf(),
        ensures
            final(self).wf(),
            shift_post(*old(self), *final(self), dir),
    {
        let ghost g = self.environment@;
        let ghost t = self.tetrimono;
        let ghost ny0 = self.position.0 as int + dir.0 as int;
        let ghost nx0 = self.position.1 as int + dir.1 as int;
        if dir.0 < -100 || dir.0 > 100 || dir.1 < -100 || dir.1 > 100 {
            proof {
                lemma_far_collides(g, t, self.state as int, ny0, nx0);
            }
            return;
        }
        let (y, x) = self.position;
        let ny = y + dir.0;
        let nx = x + dir.1;
        if !self.collides_with_environment(nx, ny, self.state) {
            proof {
                lemma_not_collides_bounds(g, t, self.state as int, ny as int, nx as int);
            }
            self.position = (ny, nx);
            self.calculate_fall_position();
        }
    }

    /// Builds a piece of the given playable kind and rotation state over the
    /// given board, anchored at the canonical spawn coordinate, with its
    /// resting projection computed.
    pub fn spawn(grid: Grid, t: Tetrimonos, state: usize) -> (p: Piece)
        requires
            grid_wf(grid@),
            t != Tetrimonos::BLANK,
            state < 4,
        ensures
            p.wf(),
            p.environment@ == grid@,
            p.tetrimono == t,
            p.state == state,
            p.position.0 == 2 && p.position.1 == GRID_WIDTH as i64 / 2,
    {
        let mut p = Piece {
            positions: generate_positions(&t),
            position: (2, (GRID_WIDTH as i64) / 2),
            shadow_position: (0, 0),
            state,
            tetrimono: t,
            environment: grid,
        };
        p.calculate_fall_position();
        p
    }

    /// Builds a piece over the given board with a kind drawn uniformly from
    /// the seven playable kinds and a rotation state drawn uniformly from the
    /// four states.
    pub fn new(grid: Grid) -> (p: Piece)
        requires
            grid_wf(grid@),
        ensures
            p.wf(),
            p.environment@ == grid@,
            p.position.0 == 2 && p.position.1 == GRID_WIDTH as i64 / 2,
    {
        let k = random_below(7);
        let t = kind_from_index(k);
        let s = random_below(4);
        Piece::spawn(grid, t, s as usize)
    }
}

/// The piece after a rotation attempt: unchanged if the proposed state
/// collides at the anchor, else the same piece in the next rotation state
/// with a fresh resting projection.
pub open spec fn rotate_post(o: Piece, n: Piece) -> bool {
    let ns = (o.state as int + 1) % 4;
    if spec_collides(o.environment@, o.tetrimono, ns, o.position.0 as int, o.position.1 as int) {
        n == o
    } else {
        &&& n.tetrimono == o.tetrimono
        &&& n.positions == o.positions
        &&& n.environment == o.environment
        &&& n.position == o.position
        &&& n.state as int == ns
        &&& n.shadow_ok()
    }
}

/// The piece after a shift attempt: unchanged if the moved anchor collides,
/// else the same piece at the moved anchor with a fresh resting projection.
pub open spec fn shift_post(o: Piece, n: Piece, dir: (i64, i64)) -> bool {
    let ny = o.position.0 as int + dir.0 as int;
    let nx = o.position.1 as int + dir.1 as int;
    if spec_collides(o.environment@, o.tetrimono, o.state as int, ny, nx) {
        n == o
    } else {
        &&& n.tetrimono == o.tetrimono
        &&& n.positions == o.positions
        &&& n.environment == o.environment
        &&& n.state == o.state
        &&& n.position.0 as int == ny && n.position.1 as int == nx
        &&& n.shadow_ok()
    }
}

/// Law: from any collision-free position, the resting projection shares the
/// anchor's column and never lies above the anchor: during projection,
/// gravity only moves a piece down, never sideways.
pub proof fn lemma_projection_below_anchor(p: Piece)
    requires
        p.wf(),
        !spec_collides(
            p.environment@,
            p.tetrimono,
            p.state as int,
            p.position.0 as int,
            p.position.1 as int,
        ),
    ensures
        p.shadow_position.1 == p.position.1,
        p.position.0 <= p.shadow_position.0,
{
}

} // verus!
