use vstd::prelude::*;
use crate::tetromino::Tetrimonos;
use crate::{GRID_HEIGHT, GRID_WIDTH};

verus! {

/// The board: a fixed 20-row by 10-column grid of cell tags, where a blank
/// cell is unoccupied.
#[derive(Clone, PartialEq)]
pub struct Grid {
    pub grid: Vec<Vec<Tetrimonos>>,
}

/// The rows of a vector of rows, as mathematical sequences.
pub open spec fn vecs_view(s: Seq<Vec<Tetrimonos>>) -> Seq<Seq<Tetrimonos>> {
    Seq::new(s.len(), |i: int| s[i]@)
}

impl View for Grid {
    type V = Seq<Seq<Tetrimonos>>;

    open spec fn view(&self) -> Seq<Seq<Tetrimonos>> {
        vecs_view(self.grid@)
    }
}

/// A well-formed board has exactly the fixed dimensions.
pub open spec fn grid_wf(g: Seq<Seq<Tetrimonos>>) -> bool {
    &&& g.len() == GRID_HEIGHT
    &&& forall|r: int| 0 <= r < g.len() ==> (#[trigger] g[r]).len() == GRID_WIDTH
}

/// A row contains at least one blank cell.
pub open spec fn row_has_blank(row: Seq<Tetrimonos>) -> bool {
    exists|j: int| 0 <= j < row.len() && row[j] == Tetrimonos::BLANK
}

/// A row is full when every one of its cells is occupied.
pub open spec fn row_full(row: Seq<Tetrimonos>) -> bool {
    forall|j: int| 0 <= j < row.len() ==> row[j] != Tetrimonos::BLANK
}

/// The rows of `g` that are not full, in their original order.
pub open spec fn spec_kept(g: Seq<Seq<Tetrimonos>>) -> Seq<Seq<Tetrimonos>>
    decreases g.len(),
{
    if g.len() == 0 {
        Seq::empty()
    } else if row_has_blank(g.last()) {
        spec_kept(g.drop_last()).push(g.last())
    } else {
        spec_kept(g.drop_last())
    }
}

/// A row of blank cells at the board width.
pub open spec fn blank_row() -> Seq<Tetrimonos> {
    Seq::new(GRID_WIDTH as nat, |j: int| Tetrimonos::BLANK)
}

/// `n` blank rows.
pub open spec fn blank_rows(n: int) -> Seq<Seq<Tetrimonos>>
    recommends
        n >= 0,
{
    Seq::new(n as nat, |i: int| blank_row())
}

/// No row of the board is completely occupied.
pub open spec fn no_full_row(g: Seq<Seq<Tetrimonos>>) -> bool {
    forall|r: int| 0 <= r < g.len() ==> !row_full(#[trigger] g[r])
}

/// The number of full rows of `g`.
pub open spec fn count_full(g: Seq<Seq<Tetrimonos>>) -> int
    decreases g.len(),
{
    if g.len() == 0 {
        0
    } else {
        count_full(g.drop_last()) + if row_full(g.last()) {
            1int
        } else {
            0int
        }
    }
}

/// The kept rows and the full rows partition the board's rows.
pub proof fn lemma_kept_plus_full(g: Seq<Seq<Tetrimonos>>)
    ensures
        spec_kept(g).len() + count_full(g) == g.len(),
        0 <= count_full(g) <= g.len(),
    decreases g.len(),
{
    if g.len() > 0 {
        lemma_kept_plus_full(g.drop_last());
        let row = g.last();
        if row_has_blank(row) {
            assert(!row_full(row));
        } else {
            assert(forall|j: int| 0 <= j < row.len() ==> row[j] != Tetrimonos::BLANK);
        }
    }
}

/// Every kept row keeps its blank cell: clearing never leaves a full row.
pub proof fn lemma_kept_rows_not_full(g: Seq<Seq<Tetrimonos>>)
    ensures
        forall|r: int| 0 <= r < spec_kept(g).len() ==> !row_full(#[trigger] spec_kept(g)[r]),
    decreases g.len(),
{
    if g.len() > 0 {
        let prefix = g.drop_last();
        lemma_kept_rows_not_full(prefix);
        if row_has_blank(g.last()) {
            assert forall|r: int| 0 <= r < spec_kept(g).len() implies !row_full(
                #[trigger] spec_kept(g)[r],
            ) by {
                if r < spec_kept(prefix).len() {
                    assert(spec_kept(g)[r] == spec_kept(prefix)[r]);
                } else {
                    assert(spec_kept(g)[r] == g.last());
                }
            }
        }
    }
}

/// How many of the cells `cs` lie in rows above row `k`.
pub open spec fn cells_in_rows_below(cs: Seq<(int, int)>, k: int) -> int
    decreases cs.len(),
{
    if cs.len() == 0 {
        0
    } else {
        cells_in_rows_below(cs.drop_last(), k) + if cs.last().0 < k {
            1int
        } else {
            0int
        }
    }
}

pub proof fn lemma_cells_below_bounds(cs: Seq<(int, int)>, k: int)
    ensures
        0 <= cells_in_rows_below(cs, k) <= cs.len(),
    decreases cs.len(),
{
    if cs.len() > 0 {
        lemma_cells_below_bounds(cs.drop_last(), k);
    }
}

pub proof fn lemma_cells_below_mono(cs: Seq<(int, int)>, k1: int, k2: int)
    requires
        k1 <= k2,
    ensures
        cells_in_rows_below(cs, k1) <= cells_in_rows_below(cs, k2),
    decreases cs.len(),
{
    if cs.len() > 0 {
        lemma_cells_below_mono(cs.drop_last(), k1, k2);
    }
}

/// A cell in row `r` is counted as soon as the bound passes that row.
pub proof fn lemma_cells_below_step(cs: Seq<(int, int)>, r: int)
    requires
        exists|i: int| 0 <= i < cs.len() && (#[trigger] cs[i]).0 == r,
    ensures
        cells_in_rows_below(cs, r + 1) >= cells_in_rows_below(cs, r) + 1,
    decreases cs.len(),
{
    let i = choose|i: int| 0 <= i < cs.len() && (#[trigger] cs[i]).0 == r;
    if i == cs.len() - 1 {
        lemma_cells_below_mono(cs.drop_last(), r, r + 1);
    } else {
        assert(cs.drop_last()[i] == cs[i]);
        lemma_cells_below_step(cs.drop_last(), r);
    }
}

/// Each full row of a merged board contains one of the merged cells, as the
/// board had no full row before the merge; so up to row `k`, the merged
/// board has no more full rows than merged cells.
pub proof fn lemma_merge_full_rows_bounded(
    g: Seq<Seq<Tetrimonos>>,
    t: Tetrimonos,
    cs: Seq<(int, int)>,
    k: int,
)
    requires
        grid_wf(g),
        no_full_row(g),
        0 <= k <= GRID_HEIGHT,
    ensures
        count_full(spec_place(g, t, cs).take(k)) <= cells_in_rows_below(cs, k),
    decreases k,
{
    let m = spec_place(g, t, cs);
    if k == 0 {
        assert(m.take(0) =~= Seq::empty());
        lemma_cells_below_bounds(cs, 0);
    } else {
        lemma_merge_full_rows_bounded(g, t, cs, k - 1);
        assert(m.take(k).drop_last() =~= m.take(k - 1));
        let r = k - 1;
        assert(m.take(k).last() == m[r]);
        if row_full(m[r]) {
            // The row was not full before the merge, so it had a blank cell;
            // only a merged cell can have filled it.
            assert(!row_full(g[r]));
            assert(row_has_blank(g[r])) by {
                if !row_has_blank(g[r]) {
                    assert(forall|j: int| 0 <= j < g[r].len() ==> g[r][j] != Tetrimonos::BLANK);
                }
            }
            let c0 = choose|j: int| 0 <= j < g[r].len() && g[r][j] == Tetrimonos::BLANK;
            assert(m[r][c0] != Tetrimonos::BLANK);
            assert(cs.contains((r, c0)));
            let i = choose|i: int| 0 <= i < cs.len() && cs[i] == (r, c0);
            assert(cs[i].0 == r);
            lemma_cells_below_step(cs, r);
        } else {
            lemma_cells_below_mono(cs, k - 1, k);
        }
    }
}

/// Law: merging four cells into a board with no full row completes at most
/// four rows, so a single lock never clears more than four.
pub proof fn lemma_clear_after_merge_bounded(
    g: Seq<Seq<Tetrimonos>>,
    t: Tetrimonos,
    cs: Seq<(int, int)>,
)
    requires
        grid_wf(g),
        no_full_row(g),
        cs.len() == 4,
    ensures
        0 <= GRID_HEIGHT - spec_kept(spec_place(g, t, cs)).len() <= 4,
{
    let m = spec_place(g, t, cs);
    lemma_kept_plus_full(m);
    lemma_merge_full_rows_bounded(g, t, cs, GRID_HEIGHT as int);
    assert(m.take(GRID_HEIGHT as int) =~= m);
    lemma_cells_below_bounds(cs, GRID_HEIGHT as int);
}

/// Keeping the non-full rows preserves each row's width.
pub proof fn lemma_kept_widths(g: Seq<Seq<Tetrimonos>>)
    requires
        forall|r: int| 0 <= r < g.len() ==> (#[trigger] g[r]).len() == GRID_WIDTH,
    ensures
        forall|r: int| 0 <= r < spec_kept(g).len() ==> (#[trigger] spec_kept(g)[r]).len() == GRID_WIDTH,
    decreases g.len(),
{
    if g.len() > 0 {
        let prefix = g.drop_last();
        assert forall|r: int| 0 <= r < prefix.len() implies (#[trigger] prefix[r]).len()
            == GRID_WIDTH by {
            assert(prefix[r] == g[r]);
        }
        lemma_kept_widths(prefix);
        if row_has_blank(g.last()) {
            assert(g.last() == g[g.len() - 1]);
            assert forall|r: int| 0 <= r < spec_kept(g).len() implies (#[trigger] spec_kept(
                g,
            )[r]).len() == GRID_WIDTH by {
                if r < spec_kept(prefix).len() {
                    assert(spec_kept(g)[r] == spec_kept(prefix)[r]);
                } else {
                    assert(spec_kept(g)[r] == g.last());
                }
            }
        }
    }
}

/// Law: a board with no full row keeps every row, so clearing removes zero
/// rows, prepends zero blank rows, and leaves the board unchanged.
pub proof fn lemma_kept_all_when_no_full_row(g: Seq<Seq<Tetrimonos>>)
    requires
        forall|r: int| 0 <= r < g.len() ==> !row_full(#[trigger] g[r]),
        forall|r: int| 0 <= r < g.len() ==> (#[trigger] g[r]).len() > 0,
    ensures
        spec_kept(g) == g,
        g.len() - spec_kept(g).len() == 0,
        blank_rows(g.len() - spec_kept(g).len()) + spec_kept(g) == g,
    decreases g.len(),
{
    assert(blank_rows(0) + g =~= g);
    if g.len() > 0 {
        let prefix = g.drop_last();
        assert(forall|r: int| 0 <= r < prefix.len() ==> prefix[r] == g[r]);
        lemma_kept_all_when_no_full_row(prefix);
        let row = g.last();
        assert(row_has_blank(row)) by {
            // The last row is not full, so some cell of it is blank.
            assert(!row_full(row));
            if !row_has_blank(row) {
                assert(forall|j: int| 0 <= j < row.len() ==> row[j] != Tetrimonos::BLANK);
            }
        }
        assert(spec_kept(g) =~= g);
    }
}

/// The board after a piece of kind `t` is written into the cells `cs`: `t`
/// at every position of `cs` and the old cell everywhere else.
pub open spec fn spec_place(
    g: Seq<Seq<Tetrimonos>>,
    t: Tetrimonos,
    cs: Seq<(int, int)>,
) -> Seq<Seq<Tetrimonos>> {
    Seq::new(
        GRID_HEIGHT as nat,
        |r: int| Seq::new(
            GRID_WIDTH as nat,
            |c: int| if cs.contains((r, c)) {
                t
            } else {
                g[r][c]
            },
        ),
    )
}

/// The coordinates of `cs`, as mathematical integer pairs.
pub open spec fn cells_int(cs: Seq<(usize, usize)>) -> Seq<(int, int)> {
    Seq::new(cs.len(), |i: int| (cs[i].0 as int, cs[i].1 as int))
}

/// Builds one all-blank row.
fn blank_row_vec() -> (v: Vec<Tetrimonos>)
    ensures
        v@ == blank_row(),
{
    let mut row: Vec<Tetrimonos> = Vec::new();
    for c in 0..GRID_WIDTH
        invariant
            row@.len() == c,
            forall|j: int| 0 <= j < c ==> row@[j] == Tetrimonos::BLANK,
    {
        row.push(Tetrimonos::BLANK);
    }
    proof {
        assert(row@ =~= blank_row());
    }
    row
}

/// Copies a row cell by cell.
fn copy_row(row: &Vec<Tetrimonos>) -> (v: Vec<Tetrimonos>)
    ensures
        v@ == row@,
{
    let mut out: Vec<Tetrimonos> = Vec::new();
    let n = row.len();
    for j in 0..n
        invariant
            n == row@.len(),
            out@.len() == j,
            forall|k: int| 0 <= k < j ==> out@[k] == row@[k],
    {
        out.push(row[j]);
    }
    proof {
        assert(out@ =~= row@);
    }
    out
}

/// Scans a row for a blank cell.
fn row_any_blank(row: &Vec<Tetrimonos>) -> (b: bool)
    ensures
        b == row_has_blank(row@),
{
    let n = row.len();
    for j in 0..n
        invariant
            n == row@.len(),
            forall|k: int| 0 <= k < j ==> row@[k] != Tetrimonos::BLANK,
    {
        if row[j] == Tetrimonos::BLANK {
            return true;
        }
    }
    false
}

/// Tests whether the coordinate `(r, c)` is one of the four cells `cs`.
fn cells_cover(cs: &Vec<(usize, usize)>, r: usize, c: usize) -> (b: bool)
    ensures
        b == cells_int(cs@).contains((r as int, c as int)),
{
    let n = cs.len();
    for i in 0..n
        invariant
            n == cs@.len(),
            forall|k: int| 0 <= k < i ==> cells_int(cs@)[k] != (r as int, c as int),
    {
        let p = cs[i];
        if p.0 == r && p.1 == c {
            proof {
                assert(cells_int(cs@)[i as int] == (r as int, c as int));
            }
            return true;
        }
    }
    false
}

impl Grid {
    /// Builds the empty board: all cells blank, at the fixed dimensions.
    pub fn new() -> (g: Grid)
        ensures
            grid_wf(g@),
            g@ == blank_rows(GRID_HEIGHT as int),
    {
        let mut rows: Vec<Vec<Tetrimonos>> = Vec::new();
        for r in 0..GRID_HEIGHT
            invariant
                rows@.len() == r,
                forall|i: int| 0 <= i < r ==> (#[trigger] rows@[i])@ == blank_row(),
        {
            rows.push(blank_row_vec());
        }
        let g = Grid { grid: rows };
        proof {
            assert(g@ =~= blank_rows(GRID_HEIGHT as int));
        }
        g
    }

    /// Copies the board cell by cell.
    pub fn duplicate(&self) -> (g: Grid)
        ensures
            g@ == self@,
    {
        let mut rows: Vec<Vec<Tetrimonos>> = Vec::new();
        let n = self.grid.len();
        for r in 0..n
            invariant
                n == self.grid@.len(),
                rows@.len() == r,
                forall|i: int| 0 <= i < r ==> (#[trigger] rows@[i])@ == self.grid@[i]@,
        {
            rows.push(copy_row(&self.grid[r]));
        }
        let g = Grid { grid: rows };
        proof {
            assert(g@ =~= self@);
        }
        g
    }

    /// Writes `kind` into each of the four given cells; every other cell is
    /// untouched.
    pub fn place(&mut self, kind: Tetrimonos, cells: &Vec<(usize, usize)>)
        requires
            grid_wf(old(self)@),
            cells@.len() == 4,
            forall|i: int| 0 <= i < 4 ==> (#[trigger] cells@[i]).0 < GRID_HEIGHT
                && cells@[i].1 < GRID_WIDTH,
        ensures
            grid_wf(final(self)@),
            final(self)@ == spec_place(old(self)@, kind, cells_int(cells@)),
    {
        let ghost g0 = self@;
        let mut rows: Vec<Vec<Tetrimonos>> = Vec::new();
        for r in 0..GRID_HEIGHT
            invariant
                self@ == g0,
                grid_wf(g0),
                cells@.len() == 4,
                rows@.len() == r,
                forall|i: int| 0 <= i < r ==> (#[trigger] rows@[i])@
                    == spec_place(g0, kind, cells_int(cells@))[i],
        {
            let mut row: Vec<Tetrimonos> = Vec::new();
            for c in 0..GRID_WIDTH
                invariant
                    self@ == g0,
                    grid_wf(g0),
                    cells@.len() == 4,
                    r < GRID_HEIGHT,
                    row@.len() == c,
                    forall|j: int| 0 <= j < c ==> row@[j]
                        == spec_place(g0, kind, cells_int(cells@))[r as int][j],
            {
                let cell: Tetrimonos;
                if cells_cover(cells, r, c) {
                    cell = kind;
                } else {
                    proof {
                        assert(self.grid@[r as int]@ == g0[r as int]);
                    }
                    cell = self.grid[r][c];
                }
                row.push(cell);
            }
            proof {
                assert(row@ =~= spec_place(g0, kind, cells_int(cells@))[r as int]);
            }
            rows.push(row);
        }
        self.grid = rows;
        proof {
            assert(self@ =~= spec_place(g0, kind, cells_int(cells@)));
        }
    }

    /// Removes every full row, keeps the remaining rows in order, and
    /// prepends as many blank rows at the top; returns how many rows were
    /// removed.
    pub fn clean_rows(&mut self) -> (n: usize)
        requires
            grid_wf(old(self)@),
        ensures
            grid_wf(final(self)@),
            n as int == GRID_HEIGHT - spec_kept(old(self)@).len(),
            final(self)@ == blank_rows(n as int) + spec_kept(old(self)@),
    {
        let ghost g0 = self@;
        let mut kept: Vec<Vec<Tetrimonos>> = Vec::new();
        for i in 0..GRID_HEIGHT
            invariant
                self@ == g0,
                grid_wf(g0),
                vecs_view(kept@) == spec_kept(g0.take(i as int)),
                kept@.len() <= i,
        {
            let ghost pre = g0.take(i as int);
            if row_any_blank(&self.grid[i]) {
                kept.push(copy_row(&self.grid[i]));
            }
            proof {
                let cur = g0.take(i + 1);
                assert(cur.drop_last() =~= pre);
                assert(cur.last() == g0[i as int]);
                assert(vecs_view(kept@) =~= spec_kept(cur));
            }
        }
        proof {
            assert(g0.take(GRID_HEIGHT as int) =~= g0);
        }
        let removed = GRID_HEIGHT - kept.len();
        let mut rows: Vec<Vec<Tetrimonos>> = Vec::new();
        for r in 0..removed
            invariant
                rows@.len() == r,
                forall|i: int| 0 <= i < r ==> (#[trigger] rows@[i])@ == blank_row(),
        {
            rows.push(blank_row_vec());
        }
        rows.append(&mut kept);
        self.grid = rows;
        proof {
            lemma_kept_widths(g0);
            assert(self@ =~= blank_rows(removed as int) + spec_kept(g0));
        }
        removed
    }

    /// True exactly when the coordinate lies on the board.
    pub fn in_bounds(&self, row: i64, col: i64) -> (r: bool)
        ensures
            r == (0 <= row < GRID_HEIGHT && 0 <= col < GRID_WIDTH),
    {
        0 <= row && row < GRID_HEIGHT as i64 && 0 <= col && col < GRID_WIDTH as i64
    }

    /// True exactly when the coordinate lies on the board and that cell is
    /// unoccupied.
    pub fn is_empty(&self, row: i64, col: i64) -> (r: bool)
        requires
            grid_wf(self@),
        ensures
            r == (0 <= row < GRID_HEIGHT && 0 <= col < GRID_WIDTH
                && self@[row as int][col as int] == Tetrimonos::BLANK),
    {
        if !self.in_bounds(row, col) {
            return false;
        }
        let cell = self.grid[row as usize][col as usize];
        cell == Tetrimonos::BLANK
    }
}

} // verus!
