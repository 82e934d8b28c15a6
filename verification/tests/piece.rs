use grid_game::{Piece, Rgb};

#[test]
fn empty_cell_has_no_color() {
    assert_eq!(Piece::Empty.color(), None);
}

#[test]
fn red_piece_is_pure_red() {
    assert_eq!(Piece::Red.color(), Some(Rgb { r: 255, g: 0, b: 0 }));
    assert_eq!(Rgb::red(), Rgb { r: 255, g: 0, b: 0 });
}

#[test]
fn black_piece_is_black() {
    assert_eq!(Piece::Black.color(), Some(Rgb { r: 0, g: 0, b: 0 }));
    assert_eq!(Rgb::black(), Rgb { r: 0, g: 0, b: 0 });
}

#[test]
fn symbols_are_dash_r_and_b() {
    assert_eq!(Piece::Empty.symbol(), "-");
    assert_eq!(Piece::Red.symbol(), "R");
    assert_eq!(Piece::Black.symbol(), "B");
}

#[test]
fn sample_zero_one_two_select_the_three_pieces() {
    assert_eq!(Piece::from_sample(0), Piece::Empty);
    assert_eq!(Piece::from_sample(1), Piece::Red);
    assert_eq!(Piece::from_sample(2), Piece::Black);
}

#[test]
fn any_other_sample_selects_black() {
    for n in [-1, 3, 4, 100, i32::MAX, i32::MIN] {
        assert_eq!(Piece::from_sample(n), Piece::Black);
    }
}

#[test]
fn opponents_are_each_other() {
    assert_eq!(Piece::Red.opponent(), Piece::Black);
    assert_eq!(Piece::Black.opponent(), Piece::Red);
    assert_eq!(Piece::Red.opponent().opponent(), Piece::Red);
}

#[test]
fn empty_has_no_opponent() {
    assert_eq!(Piece::Empty.opponent(), Piece::Empty);
}
