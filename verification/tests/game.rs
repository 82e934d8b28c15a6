use grid_game::{Area, DrawCommand, Game, Piece, Rgb, PLACEMENT_LIMIT};

const BLACK: Rgb = Rgb { r: 0, g: 0, b: 0 };
const RED: Rgb = Rgb { r: 255, g: 0, b: 0 };

fn game(width: i32, height: i32) -> Game {
    Game::new(Area::new(width, height).expect("positive sides"))
}

/// A pixel in the middle of the cell in `row` and `col` of a 500 by 300 board.
fn middle(row: usize, col: usize) -> (usize, usize) {
    (100 * col + 50, 60 * row + 30)
}

#[test]
fn placement_limit_is_four() {
    assert_eq!(PLACEMENT_LIMIT, 4);
}

#[test]
fn new_game_is_empty_and_red_begins() {
    let g = game(500, 300);
    assert_eq!(g.current_player(), Piece::Red);
    assert_eq!(g.pieces_dropped(Piece::Red), 0);
    assert_eq!(g.pieces_dropped(Piece::Black), 0);
    assert_eq!(g.pieces_dropped(Piece::Empty), 0);
    assert_eq!(g.board().count_pieces(Piece::Empty), 25);
    assert_eq!(g.board().area(), Area::new(500, 300).unwrap());
    assert_eq!(g.to_string(), "-----\n-----\n-----\n-----\n-----\n");
}

#[test]
fn first_click_places_red_and_second_click_on_it_is_ignored() {
    let mut g = game(500, 300);
    assert_eq!(g.handle_click(0, 0), Some((0, 0)));
    assert_eq!(g.board().piece_at(0, 0), Some(Piece::Red));
    assert_eq!(g.current_player(), Piece::Black);

    let before = g;
    assert_eq!(g.handle_click(0, 0), None);
    assert_eq!(g, before);
    assert_eq!(g.board().piece_at(0, 0), Some(Piece::Red));
    assert_eq!(g.current_player(), Piece::Black);
    assert_eq!(g.to_string(), "R----\n-----\n-----\n-----\n-----\n");
}

#[test]
fn click_fills_the_cell_under_the_pixel_and_no_other() {
    for row in 0..5 {
        for col in 0..5 {
            let mut g = game(500, 300);
            let (x, y) = middle(row, col);
            assert_eq!(g.handle_click(x, y), Some((row, col)));
            for r in 0..5 {
                for c in 0..5 {
                    let expected = if (r, c) == (row, col) { Piece::Red } else { Piece::Empty };
                    assert_eq!(g.board().piece_at(r, c), Some(expected));
                }
            }
        }
    }
}

#[test]
fn click_scales_the_pixel_by_the_grid_and_divides_by_the_area() {
    // 7 by 3 pixels: column = 5 * x / 7, row = 5 * y / 3.
    let mut g = game(7, 3);
    assert_eq!(g.handle_click(4, 2), Some((3, 2)));
    assert_eq!(g.handle_click(6, 1), Some((1, 4)));
    assert_eq!(g.handle_click(1, 0), Some((0, 0)));
    assert_eq!(g.handle_click(0, 0), None);
    assert_eq!(g.to_string(), "R----\n----B\n-----\n--R--\n-----\n");
}

#[test]
fn players_alternate_after_each_accepted_click() {
    let mut g = game(500, 300);
    let mut expected = Piece::Red;
    for col in 0..5 {
        assert_eq!(g.current_player(), expected);
        let (x, y) = middle(2, col);
        assert_eq!(g.handle_click(x, y), Some((2, col)));
        assert_eq!(g.board().piece_at(2, col), Some(expected));
        expected = expected.opponent();
    }
    assert_eq!(g.current_player(), Piece::Black);
    assert_eq!(g.pieces_dropped(Piece::Red), 3);
    assert_eq!(g.pieces_dropped(Piece::Black), 2);
    assert_eq!(g.to_string(), "-----\n-----\nRBRBR\n-----\n-----\n");
}

#[test]
fn rejected_click_keeps_the_turn() {
    let mut g = game(500, 300);
    assert_eq!(g.handle_click(10, 10), Some((0, 0)));
    for (x, y) in [(10, 10), (99, 59), (500, 10), (10, 300), (usize::MAX, usize::MAX)] {
        let before = g;
        assert_eq!(g.handle_click(x, y), None);
        assert_eq!(g.current_player(), Piece::Black);
        assert_eq!(g, before);
    }
}

#[test]
fn click_outside_the_area_is_ignored() {
    let mut g = game(500, 300);
    let fresh = g;
    assert_eq!(g.handle_click(500, 0), None);
    assert_eq!(g.handle_click(0, 300), None);
    assert_eq!(g.handle_click(500, 300), None);
    assert_eq!(g.handle_click(100_000, 5), None);
    assert_eq!(g.handle_click(usize::MAX, 0), None);
    assert_eq!(g.handle_click(0, usize::MAX), None);
    assert_eq!(g, fresh);
    assert_eq!(g.handle_click(499, 299), Some((4, 4)));
}

#[test]
fn occupied_cell_keeps_its_piece() {
    let mut g = game(500, 300);
    assert_eq!(g.handle_click(150, 90), Some((1, 1)));
    // Black clicks on red's piece, anywhere in that cell.
    for (x, y) in [(150, 90), (100, 60), (199, 119)] {
        assert_eq!(g.handle_click(x, y), None);
        assert_eq!(g.board().piece_at(1, 1), Some(Piece::Red));
    }
    assert_eq!(g.handle_click(250, 90), Some((1, 2)));
    // Red clicks on black's piece and on its own.
    assert_eq!(g.handle_click(250, 90), None);
    assert_eq!(g.handle_click(150, 90), None);
    assert_eq!(g.board().piece_at(1, 1), Some(Piece::Red));
    assert_eq!(g.board().piece_at(1, 2), Some(Piece::Black));
    assert_eq!(g.pieces_dropped(Piece::Red), 1);
    assert_eq!(g.pieces_dropped(Piece::Black), 1);
}

#[test]
fn fifth_piece_of_a_player_is_refused() {
    let mut g = game(500, 300);
    // Eight placements: rows 0 and 1, columns 0 to 3.
    for i in 0..8 {
        let (x, y) = middle(i / 4, i % 4);
        assert_eq!(g.handle_click(x, y), Some((i / 4, i % 4)));
    }
    assert_eq!(g.pieces_dropped(Piece::Red), 4);
    assert_eq!(g.pieces_dropped(Piece::Black), 4);
    assert_eq!(g.current_player(), Piece::Red);
    assert_eq!(g.to_string(), "RBRB-\nRBRB-\n-----\n-----\n-----\n");

    let full = g;
    for row in 0..5 {
        for col in 0..5 {
            let (x, y) = middle(row, col);
            assert_eq!(g.handle_click(x, y), None);
            assert_eq!(g, full);
        }
    }
    assert_eq!(g.board().count_pieces(Piece::Red), 4);
    assert_eq!(g.board().count_pieces(Piece::Black), 4);
    assert_eq!(g.current_player(), Piece::Red);
}

#[test]
fn counts_follow_the_pieces_on_the_grid() {
    let mut g = game(500, 300);
    let clicks = [(0, 0), (0, 0), (4, 4), (2, 2), (4, 4), (700, 0), (1, 3), (3, 1), (0, 4)];
    for (row, col) in clicks {
        let (x, y) = middle(row, col);
        g.handle_click(x, y);
        let red = g.pieces_dropped(Piece::Red);
        let black = g.pieces_dropped(Piece::Black);
        assert_eq!(g.board().count_pieces(Piece::Red), red);
        assert_eq!(g.board().count_pieces(Piece::Black), black);
        assert!(red <= PLACEMENT_LIMIT && black <= PLACEMENT_LIMIT);
        let ahead = if g.current_player() == Piece::Black { 1 } else { 0 };
        assert_eq!(red, black + ahead);
    }
    assert_eq!(g.to_string(), "R---B\n---B-\n--R--\n-R---\n----B\n");
}

#[test]
fn game_draws_the_lines_and_then_the_pieces() {
    let mut g = game(500, 300);
    assert_eq!(g.handle_click(499, 0), Some((0, 4)));
    assert_eq!(g.handle_click(120, 130), Some((2, 1)));
    assert_eq!(g.handle_click(0, 299), Some((4, 0)));

    let commands = g.draw();
    let lines = g.board().draw_lines();
    assert_eq!(lines.len(), 31);
    assert_eq!(&commands[..31], &lines[..]);
    assert_eq!(
        &commands[31..],
        &[
            DrawCommand::SetColor(RED),
            DrawCommand::FilledCircle { x: 450, y: 30, radius: 25, color: RED },
            DrawCommand::SetColor(BLACK),
            DrawCommand::FilledCircle { x: 150, y: 150, radius: 25, color: BLACK },
            DrawCommand::SetColor(RED),
            DrawCommand::FilledCircle { x: 50, y: 270, radius: 25, color: RED },
        ]
    );
    assert_eq!(&commands[31..], &g.board().draw_pieces()[..]);
}

#[test]
fn pieces_are_drawn_with_the_truncated_cell_sides() {
    // 503 by 301 pixels: cells of 100 by 60, radius 100 / 4.
    let mut g = game(503, 301);
    assert_eq!(g.handle_click(502, 300), Some((4, 4)));
    assert_eq!(
        g.board().draw_pieces(),
        vec![
            DrawCommand::SetColor(RED),
            DrawCommand::FilledCircle { x: 450, y: 270, radius: 25, color: RED },
        ]
    );
    // 14 by 9 pixels: cells of 2 by 1, radius 2 / 4.
    let mut g = game(14, 9);
    assert_eq!(g.handle_click(3, 2), Some((1, 1)));
    assert_eq!(
        g.board().draw_pieces(),
        vec![
            DrawCommand::SetColor(RED),
            DrawCommand::FilledCircle { x: 3, y: 1, radius: 0, color: RED },
        ]
    );
}

#[test]
fn jumble_keeps_turn_counts_and_area() {
    let mut g = game(500, 300);
    assert_eq!(g.handle_click(0, 0), Some((0, 0)));
    assert_eq!(g.handle_click(499, 299), Some((4, 4)));
    assert_eq!(g.handle_click(250, 150), Some((2, 2)));
    for _ in 0..10 {
        g.jumble();
        assert_eq!(g.current_player(), Piece::Black);
        assert_eq!(g.pieces_dropped(Piece::Red), 2);
        assert_eq!(g.pieces_dropped(Piece::Black), 1);
        assert_eq!(g.board().area(), Area::new(500, 300).unwrap());
        let b = g.board();
        assert_eq!(
            b.count_pieces(Piece::Empty) + b.count_pieces(Piece::Red) + b.count_pieces(Piece::Black),
            25
        );
    }
}

#[test]
fn jumble_fills_the_grid_with_all_three_values() {
    let mut g = game(500, 300);
    let mut seen = [0usize; 3];
    for _ in 0..200 {
        g.jumble();
        seen[0] += g.board().count_pieces(Piece::Empty);
        seen[1] += g.board().count_pieces(Piece::Red);
        seen[2] += g.board().count_pieces(Piece::Black);
    }
    assert_eq!(seen[0] + seen[1] + seen[2], 5000);
    for n in seen {
        assert!(n > 1300 && n < 2050, "{} of 5000", n);
    }
}

#[test]
fn click_after_jumble_follows_the_same_rules() {
    let mut g = game(500, 300);
    g.jumble();
    for row in 0..5 {
        for col in 0..5 {
            let before = g;
            let held = g.board().piece_at(row, col).unwrap();
            let player = g.current_player();
            let has_left = g.pieces_dropped(player) < PLACEMENT_LIMIT;
            let (x, y) = middle(row, col);
            let placed = g.handle_click(x, y);
            if held == Piece::Empty && has_left {
                assert_eq!(placed, Some((row, col)));
                assert_eq!(g.board().piece_at(row, col), Some(player));
                assert_eq!(g.current_player(), player.opponent());
                assert_eq!(g.pieces_dropped(player), before.pieces_dropped(player) + 1);
            } else {
                assert_eq!(placed, None);
                assert_eq!(g, before);
            }
        }
    }
}
