//! The values a grid cell can hold.

use vstd::prelude::*;
use crate::color::Rgb;

verus! {

/// What a cell holds: nothing, or the marker of one of the two players.
#[derive(Clone, Copy, Debug, PartialEq, Eq, Hash, Structural)]
pub enum Piece {
    /// No piece.
    Empty,
    /// A piece of the player who moves first.
    Red,
    /// A piece of the player who moves second.
    Black,
}

impl Piece {
    /// Whether this is the marker of a player.
    pub open spec fn is_player(self) -> bool {
        self != Piece::Empty
    }

    /// The player who moves after `self`; `Empty` has no opponent and stays.
    pub open spec fn spec_opponent(self) -> Piece {
        match self {
            Piece::Empty => Piece::Empty,
            Piece::Red => Piece::Black,
            Piece::Black => Piece::Red,
        }
    }

    /// The colour a piece is drawn in; an empty cell is not drawn.
    pub open spec fn spec_color(self) -> Option<Rgb> {
        match self {
            Piece::Empty => None,
            Piece::Red => Some(Rgb::red()),
            Piece::Black => Some(Rgb::black()),
        }
    }

    /// The character that stands for a piece in the text form of a board.
    pub open spec fn glyph(self) -> char {
        match self {
            Piece::Empty => '-',
            Piece::Red => 'R',
            Piece::Black => 'B',
        }
    }

    /// The piece that a drawn number selects: 0 is empty, 1 is red, and every
    /// other number is black.
    pub open spec fn spec_from_sample(n: i32) -> Piece {
        if n == 0 {
            Piece::Empty
        } else if n == 1 {
            Piece::Red
        } else {
            Piece::Black
        }
    }

    /// The player who moves after `self`; `Empty` has no opponent and stays.
    #[verifier::when_used_as_spec(spec_opponent)]
    pub fn opponent(self) -> (other: Piece)
        ensures
            other == self.spec_opponent(),
    {
        match self {
            Piece::Empty => Piece::Empty,
            Piece::Red => Piece::Black,
            Piece::Black => Piece::Red,
        }
    }

    /// The colour a piece is drawn in; an empty cell is not drawn.
    #[verifier::when_used_as_spec(spec_color)]
    pub fn color(self) -> (color: Option<Rgb>)
        ensures
            color == self.spec_color(),
    {
        match self {
            Piece::Empty => None,
            Piece::Red => Some(Rgb::red()),
            Piece::Black => Some(Rgb::black()),
        }
    }

    /// The text of a piece: its glyph as a string.
    pub fn symbol(self) -> (text: &'static str)
        ensures
            text@ == seq![self.glyph()],
    {
        match self {
            Piece::Empty => {
                proof {
                    reveal_strlit("-");
                }
                assert("-"@ =~= seq!['-']);
                "-"
            },
            Piece::Red => {
                proof {
                    reveal_strlit("R");
                }
                assert("R"@ =~= seq!['R']);
                "R"
            },
            Piece::Black => {
                proof {
                    reveal_strlit("B");
                }
                assert("B"@ =~= seq!['B']);
                "B"
            },
        }
    }

    /// The piece that a drawn number selects: 0 is empty, 1 is red, and every
    /// other number is black.
    #[verifier::when_used_as_spec(spec_from_sample)]
    pub fn from_sample(n: i32) -> (piece: Piece)
        ensures
            piece == Piece::spec_from_sample(n),
    {
        match n {
            0 => Piece::Empty,
            1 => Piece::Red,
            _ => Piece::Black,
        }
    }
}

} // verus!
