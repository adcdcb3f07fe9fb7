use vstd::prelude::*;
use crate::color::Colors;

verus! {

/// The seven playable tetromino kinds, plus a blank sentinel that marks an
/// unfilled board cell and is never spawned as a piece.
#[allow(non_camel_case_types)]
#[derive(Copy, Clone, Debug, PartialEq, Eq, Structural)]
pub enum Tetrimonos {
    I,
    O,
    T,
    S,
    Z,
    J,
    L,
    BLANK,
}

impl Tetrimonos {
    /// The color tag drawn for this kind; the blank sentinel maps to the
    /// translucent background color.
    pub open spec fn spec_color(self) -> Colors {
        match self {
            Tetrimonos::I => Colors::CYAN,
            Tetrimonos::O => Colors::YELLOW,
            Tetrimonos::T => Colors::PURPLE,
            Tetrimonos::S => Colors::GREEN,
            Tetrimonos::Z => Colors::RED,
            Tetrimonos::J => Colors::BLUE,
            Tetrimonos::L => Colors::ORANGE,
            Tetrimonos::BLANK => Colors::BACKGROUND,
        }
    }

    /// Returns the color tag of this kind.
    pub fn generate_color(&self) -> (c: Colors)
        ensures
            c == self.spec_color(),
    {
        match self {
            Tetrimonos::I => Colors::CYAN,
            Tetrimonos::O => Colors::YELLOW,
            Tetrimonos::T => Colors::PURPLE,
            Tetrimonos::S => Colors::GREEN,
            Tetrimonos::Z => Colors::RED,
            Tetrimonos::J => Colors::BLUE,
            Tetrimonos::L => Colors::ORANGE,
            Tetrimonos::BLANK => Colors::BACKGROUND,
        }
    }
}

/// The playable kind assigned to each index in 0..7, in declaration order.
/// Indices outside that range map to the blank sentinel.
pub open spec fn spec_kind_from_index(k: int) -> Tetrimonos {
    if k == 0 {
        Tetrimonos::I
    } else if k == 1 {
        Tetrimonos::O
    } else if k == 2 {
        Tetrimonos::T
    } else if k == 3 {
        Tetrimonos::S
    } else if k == 4 {
        Tetrimonos::Z
    } else if k == 5 {
        Tetrimonos::J
    } else if k == 6 {
        Tetrimonos::L
    } else {
        Tetrimonos::BLANK
    }
}

/// Maps a die roll in 0..7 to the playable kind with that index.
pub fn kind_from_index(k: u32) -> (t: Tetrimonos)
    requires
        k < 7,
    ensures
        t == spec_kind_from_index(k as int),
        t != Tetrimonos::BLANK,
{
    if k == 0 {
        Tetrimonos::I
    } else if k == 1 {
        Tetrimonos::O
    } else if k == 2 {
        Tetrimonos::T
    } else if k == 3 {
        Tetrimonos::S
    } else if k == 4 {
        Tetrimonos::Z
    } else if k == 5 {
        Tetrimonos::J
    } else {
        Tetrimonos::L
    }
}

/// The handcrafted rotation tables: for each kind, four rotation states, each
/// an ordered list of the four (row delta, column delta) cell offsets of that
/// orientation relative to the piece anchor.
pub open spec fn spec_positions(t: Tetrimonos) -> Seq<Seq<(int, int)>> {
    match t {
        Tetrimonos::I => seq![
            seq![(-1, -2), (-1, -1), (-1, 0), (-1, 1)],
            seq![(-2, 0), (-1, 0), (0, 0), (1, 0)],
            seq![(0, -2), (0, -1), (0, 0), (0, 1)],
            seq![(-2, -1), (-1, -1), (0, -1), (1, -1)],
        ],
        Tetrimonos::O => seq![
            seq![(-1, -2), (-2, -2), (-1, -1), (-2, -1)],
            seq![(-1, -2), (-2, -2), (-1, -1), (-2, -1)],
            seq![(-1, -2), (-2, -2), (-1, -1), (-2, -1)],
            seq![(-1, -2), (-2, -2), (-1, -1), (-2, -1)],
        ],
        Tetrimonos::T => seq![
            seq![(-1, -2), (-1, -1), (-2, -1), (-1, 0)],
            seq![(-2, -1), (-1, -1), (0, -1), (-1, 0)],
            seq![(-1, -2), (-1, -1), (0, -1), (-1, 0)],
            seq![(-1, -2), (-2, -1), (-1, -1), (0, -1)],
        ],
        Tetrimonos::S => seq![
            seq![(-1, -2), (-1, -1), (-2, -1), (-2, 0)],
            seq![(-2, -1), (-1, -1), (-1, 0), (0, 0)],
            seq![(0, -2), (0, -1), (-1, -1), (-1, 0)],
            seq![(-2, -2), (-1, -2), (-1, -1), (0, -1)],
        ],
        Tetrimonos::Z => seq![
            seq![(-2, -2), (-2, -1), (-1, -1), (-1, 0)],
            seq![(0, -1), (-1, -1), (-1, 0), (-2, 0)],
            seq![(-1, -2), (-1, -1), (0, -1), (0, 0)],
            seq![(0, -2), (-1, -2), (-1, -1), (-2, -1)],
        ],
        Tetrimonos::J => seq![
            seq![(-2, -2), (-1, -2), (-1, -1), (-1, 0)],
            seq![(0, -1), (-1, -1), (-2, -1), (-2, 0)],
            seq![(-1, -2), (-1, -1), (-1, 0), (0, 0)],
            seq![(0, -2), (0, -1), (-1, -1), (-2, -1)],
        ],
        Tetrimonos::L => seq![
            seq![(-1, -2), (-1, -1), (-1, 0), (-2, 0)],
            seq![(-2, -1), (-1, -1), (0, -1), (0, 0)],
            seq![(0, -2), (-1, -2), (-1, -1), (-1, 0)],
            seq![(-2, -2), (-2, -1), (-1, -1), (0, -1)],
        ],
        Tetrimonos::BLANK => seq![
            seq![(0, 0), (0, 0), (0, 0), (0, 0)],
            seq![(0, 0), (0, 0), (0, 0), (0, 0)],
            seq![(0, 0), (0, 0), (0, 0), (0, 0)],
            seq![(0, 0), (0, 0), (0, 0), (0, 0)],
        ],
    }
}

/// The offset of cell `i` of kind `t` in rotation state `s`.
pub open spec fn spec_offset(t: Tetrimonos, s: int, i: int) -> (int, int)
    recommends
        0 <= s < 4,
        0 <= i < 4,
{
    spec_positions(t)[s][i]
}

/// Every offset of every kind lies within two cells of the anchor.
pub open spec fn in_off_range(o: (int, int)) -> bool {
    -2 <= o.0 <= 1 && -2 <= o.1 <= 1
}

pub proof fn lemma_offsets_in_range(t: Tetrimonos, s: int)
    requires
        0 <= s < 4,
    ensures
        forall|i: int| 0 <= i < 4 ==> in_off_range(#[trigger] spec_offset(t, s, i)),
{
    assert forall|i: int| 0 <= i < 4 implies in_off_range(#[trigger] spec_offset(t, s, i)) by {
        match t {
            Tetrimonos::I => {},
            Tetrimonos::O => {},
            Tetrimonos::T => {},
            Tetrimonos::S => {},
            Tetrimonos::Z => {},
            Tetrimonos::J => {},
            Tetrimonos::L => {},
            Tetrimonos::BLANK => {},
        }
    }
}

/// Law: in every rotation state each playable kind occupies exactly four
/// pairwise distinct relative cells, while the blank sentinel has four
/// identical zero offsets.
pub proof fn lemma_offsets_distinct(t: Tetrimonos, s: int)
    requires
        0 <= s < 4,
    ensures
        spec_positions(t).len() == 4,
        spec_positions(t)[s].len() == 4,
        t != Tetrimonos::BLANK ==> forall|i: int, j: int|
            0 <= i < j < 4 ==> #[trigger] spec_offset(t, s, i) != #[trigger] spec_offset(t, s, j),
        t == Tetrimonos::BLANK ==> forall|i: int|
            0 <= i < 4 ==> #[trigger] spec_offset(t, s, i) == (0int, 0int),
{
    assert forall|i: int, j: int| 0 <= i < j < 4 && t != Tetrimonos::BLANK
        implies #[trigger] spec_offset(t, s, i) != #[trigger] spec_offset(t, s, j) by {
        match t {
            Tetrimonos::I => {},
            Tetrimonos::O => {},
            Tetrimonos::T => {},
            Tetrimonos::S => {},
            Tetrimonos::Z => {},
            Tetrimonos::J => {},
            Tetrimonos::L => {},
            Tetrimonos::BLANK => {},
        }
    }
}

/// The cached offset table carried by a live piece agrees with the rotation
/// tables of its kind, entry for entry.
pub open spec fn positions_match(p: [[(i64, i64); 4]; 4], t: Tetrimonos) -> bool {
    forall|s: int, i: int| 0 <= s < 4 && 0 <= i < 4 ==> {
        let o = (#[trigger] p@[s]@[i]);
        o.0 as int == spec_offset(t, s, i).0 && o.1 as int == spec_offset(t, s, i).1
    }
}

/// Builds the full rotation table of a kind, matching the rotation tables
/// entry for entry.
pub fn generate_positions(t: &Tetrimonos) -> (r: [[(i64, i64); 4]; 4])
    ensures
        positions_match(r, *t),
{
    match t {
        Tetrimonos::I => [
            [(-1, -2), (-1, -1), (-1, 0), (-1, 1)],
            [(-2, 0), (-1, 0), (0, 0), (1, 0)],
            [(0, -2), (0, -1), (0, 0), (0, 1)],
            [(-2, -1), (-1, -1), (0, -1), (1, -1)],
        ],
        Tetrimonos::O => [
            [(-1, -2), (-2, -2), (-1, -1), (-2, -1)],
            [(-1, -2), (-2, -2), (-1, -1), (-2, -1)],
            [(-1, -2), (-2, -2), (-1, -1), (-2, -1)],
            [(-1, -2), (-2, -2), (-1, -1), (-2, -1)],
        ],
        Tetrimonos::T => [
            [(-1, -2), (-1, -1), (-2, -1), (-1, 0)],
            [(-2, -1), (-1, -1), (0, -1), (-1, 0)],
            [(-1, -2), (-1, -1), (0, -1), (-1, 0)],
            [(-1, -2), (-2, -1), (-1, -1), (0, -1)],
        ],
        Tetrimonos::S => [
            [(-1, -2), (-1, -1), (-2, -1), (-2, 0)],
            [(-2, -1), (-1, -1), (-1, 0), (0, 0)],
            [(0, -2), (0, -1), (-1, -1), (-1, 0)],
            [(-2, -2), (-1, -2), (-1, -1), (0, -1)],
        ],
        Tetrimonos::Z => [
            [(-2, -2), (-2, -1), (-1, -1), (-1, 0)],
            [(0, -1), (-1, -1), (-1, 0), (-2, 0)],
            [(-1, -2), (-1, -1), (0, -1), (0, 0)],
            [(0, -2), (-1, -2), (-1, -1), (-2, -1)],
        ],
        Tetrimonos::J => [
            [(-2, -2), (-1, -2), (-1, -1), (-1, 0)],
            [(0, -1), (-1, -1), (-2, -1), (-2, 0)],
            [(-1, -2), (-1, -1), (-1, 0), (0, 0)],
            [(0, -2), (0, -1), (-1, -1), (-2, -1)],
        ],
        Tetrimonos::L => [
            [(-1, -2), (-1, -1), (-1, 0), (-2, 0)],
            [(-2, -1), (-1, -1), (0, -1), (0, 0)],
            [(0, -2), (-1, -2), (-1, -1), (-1, 0)],
            [(-2, -2), (-2, -1), (-1, -1), (0, -1)],
        ],
        Tetrimonos::BLANK => [
            [(0, 0), (0, 0), (0, 0), (0, 0)],
            [(0, 0), (0, 0), (0, 0), (0, 0)],
            [(0, 0), (0, 0), (0, 0), (0, 0)],
            [(0, 0), (0, 0), (0, 0), (0, 0)],
        ],
    }
}

} // verus!
