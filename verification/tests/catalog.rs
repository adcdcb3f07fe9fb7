use tetris::color::Colors;
use tetris::tetromino::{generate_positions, kind_from_index, Tetrimonos};

#[test]
fn colors_have_expected_channels() {
    assert_eq!(Colors::CYAN.get_color(), (115, 218, 255, 255));
    assert_eq!(Colors::YELLOW.get_color(), (255, 255, 54, 255));
    assert_eq!(Colors::PURPLE.get_color(), (134, 54, 255, 255));
    assert_eq!(Colors::GREEN.get_color(), (158, 255, 54, 255));
    assert_eq!(Colors::RED.get_color(), (255, 87, 54, 255));
    assert_eq!(Colors::BLUE.get_color(), (74, 54, 255, 255));
    assert_eq!(Colors::ORANGE.get_color(), (255, 155, 54, 255));
    assert_eq!(Colors::BACKGROUND.get_color(), (180, 202, 237, 128));
}

#[test]
fn kinds_map_to_their_colors() {
    assert_eq!(Tetrimonos::I.generate_color(), Colors::CYAN);
    assert_eq!(Tetrimonos::O.generate_color(), Colors::YELLOW);
    assert_eq!(Tetrimonos::T.generate_color(), Colors::PURPLE);
    assert_eq!(Tetrimonos::S.generate_color(), Colors::GREEN);
    assert_eq!(Tetrimonos::Z.generate_color(), Colors::RED);
    assert_eq!(Tetrimonos::J.generate_color(), Colors::BLUE);
    assert_eq!(Tetrimonos::L.generate_color(), Colors::ORANGE);
    assert_eq!(Tetrimonos::BLANK.generate_color(), Colors::BACKGROUND);
}

#[test]
fn kind_index_covers_all_playable_kinds() {
    let expected = [
        Tetrimonos::I,
        Tetrimonos::O,
        Tetrimonos::T,
        Tetrimonos::S,
        Tetrimonos::Z,
        Tetrimonos::J,
        Tetrimonos::L,
    ];
    for k in 0..7u32 {
        assert_eq!(kind_from_index(k), expected[k as usize]);
        assert_ne!(kind_from_index(k), Tetrimonos::BLANK);
    }
}

#[test]
fn i_piece_offsets_are_pinned() {
    let p = generate_positions(&Tetrimonos::I);
    assert_eq!(p[0], [(-1, -2), (-1, -1), (-1, 0), (-1, 1)]);
    assert_eq!(p[1], [(-2, 0), (-1, 0), (0, 0), (1, 0)]);
    assert_eq!(p[2], [(0, -2), (0, -1), (0, 0), (0, 1)]);
    assert_eq!(p[3], [(-2, -1), (-1, -1), (0, -1), (1, -1)]);
}

#[test]
fn j_and_l_offsets_are_pinned() {
    let j = generate_positions(&Tetrimonos::J);
    assert_eq!(j[0], [(-2, -2), (-1, -2), (-1, -1), (-1, 0)]);
    assert_eq!(j[3], [(0, -2), (0, -1), (-1, -1), (-2, -1)]);
    let l = generate_positions(&Tetrimonos::L);
    assert_eq!(l[0], [(-1, -2), (-1, -1), (-1, 0), (-2, 0)]);
    assert_eq!(l[1], [(-2, -1), (-1, -1), (0, -1), (0, 0)]);
}

#[test]
fn o_piece_is_identical_in_all_states() {
    let p = generate_positions(&Tetrimonos::O);
    for s in 1..4 {
        assert_eq!(p[s], p[0]);
    }
    assert_eq!(p[0], [(-1, -2), (-2, -2), (-1, -1), (-2, -1)]);
}

#[test]
fn playable_kinds_have_four_distinct_offsets_per_state() {
    let kinds = [
        Tetrimonos::I,
        Tetrimonos::O,
        Tetrimonos::T,
        Tetrimonos::S,
        Tetrimonos::Z,
        Tetrimonos::J,
        Tetrimonos::L,
    ];
    for t in kinds.iter() {
        let p = generate_positions(t);
        for s in 0..4 {
            for i in 0..4 {
                for j in (i + 1)..4 {
                    assert_ne!(p[s][i], p[s][j], "kind {:?} state {}", t, s);
                }
            }
        }
    }
}

#[test]
fn blank_kind_has_four_zero_offsets() {
    let p = generate_positions(&Tetrimonos::BLANK);
    for s in 0..4 {
        for i in 0..4 {
            assert_eq!(p[s][i], (0, 0));
        }
    }
}
