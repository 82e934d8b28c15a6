//! The turn-taking state machine.

use vstd::prelude::*;
use crate::area::{Area, COLS, ROWS};
use crate::board::Board;
use crate::piece::Piece;
use crate::render::{grid_lines, grid_text, piece_marks, DrawCommand};
use crate::tally::{lemma_count_absent, lemma_count_one_cell_changed, one_if};

verus! {

/// The most pieces a player may place in a game.
pub const PLACEMENT_LIMIT: usize = 4;

/// A game of two players, red and black, who place pieces in turn on the
/// empty cells of a board. Red begins. Each player may place
/// [`PLACEMENT_LIMIT`] pieces.
#[derive(Clone, Copy, Debug, PartialEq, Eq)]
pub struct Game {
    board: Board,
    current_player: Piece,
    red_dropped: usize,
    black_dropped: usize,
}

impl Game {
    /// Validity of a game: the board is valid, it is the turn of one of the
    /// two players, and neither has placed more pieces than the limit allows.
    /// Every game that executable code holds is valid.
    #[verifier::type_invariant]
    pub closed spec fn wf(self) -> bool {
        &&& self.board.wf()
        &&& self.current_player.is_player()
        &&& self.red_dropped <= PLACEMENT_LIMIT
        &&& self.black_dropped <= PLACEMENT_LIMIT
    }

    /// The board of the game.
    pub closed spec fn spec_board(&self) -> &Board {
        &self.board
    }

    /// The player whose turn it is.
    pub closed spec fn spec_current_player(&self) -> Piece {
        self.current_player
    }

    /// How many pieces `player` has placed so far.
    pub closed spec fn dropped(&self, player: Piece) -> nat {
        match player {
            Piece::Empty => 0,
            Piece::Red => self.red_dropped as nat,
            Piece::Black => self.black_dropped as nat,
        }
    }

    /// Whether a click on the pixel `(x, y)` places a piece: the pixel lies
    /// inside the board's area, the player whose turn it is has pieces left
    /// to place, and the cell that the pixel falls in is empty.
    pub open spec fn accepts(&self, x: int, y: int) -> bool {
        let area = self.board().area();
        &&& area.contains(x, y)
        &&& self.dropped(self.current_player()) < PLACEMENT_LIMIT
        &&& self.board().cell(area.row_of(y), area.col_of(x)) == Piece::Empty
    }

    /// Whether the grid shows what the players have placed by turns: each
    /// player has as many pieces on the grid as the game has counted, and red,
    /// who begins, is one piece ahead exactly while it is black's turn.
    pub open spec fn in_play(&self) -> bool {
        &&& self.board().count(Piece::Red) == self.dropped(Piece::Red)
        &&& self.board().count(Piece::Black) == self.dropped(Piece::Black)
        &&& self.dropped(Piece::Red) == self.dropped(Piece::Black) + one_if(
            self.current_player() == Piece::Black,
        )
    }

    /// What validity says in terms of what a game shows.
    pub proof fn lemma_valid(self)
        requires
            self.wf(),
        ensures
            self.board().wf(),
            self.current_player() == Piece::Red || self.current_player() == Piece::Black,
            self.dropped(Piece::Red) <= PLACEMENT_LIMIT,
            self.dropped(Piece::Black) <= PLACEMENT_LIMIT,
            self.dropped(Piece::Empty) == 0,
    {
    }

    /// While the grid shows what the players have placed by turns, no player
    /// has more pieces on the grid than the limit allows.
    pub proof fn lemma_limit_on_grid(self, player: Piece)
        requires
            self.wf(),
            self.in_play(),
            player.is_player(),
        ensures
            self.board().count(player) <= PLACEMENT_LIMIT,
    {
    }

    /// Once the player whose turn it is has placed every piece the limit
    /// allows, so has the other player, and no click places a piece any more.
    pub proof fn lemma_allotment_exhausted(self)
        requires
            self.wf(),
            self.in_play(),
            self.dropped(self.current_player()) >= PLACEMENT_LIMIT,
        ensures
            self.current_player() == Piece::Red,
            self.dropped(Piece::Red) == PLACEMENT_LIMIT,
            self.dropped(Piece::Black) == PLACEMENT_LIMIT,
            forall|x: int, y: int| !self.accepts(x, y),
    {
    }

    /// A new game on an empty board in the given area. Red moves first.
    pub fn new(area: Area) -> (game: Game)
        ensures
            game.board().area() == area,
            game.board().is_empty(),
            game.current_player() == Piece::Red,
            game.dropped(Piece::Red) == 0,
            game.dropped(Piece::Black) == 0,
            game.in_play(),
    {
        let board = Board::new(area);
        proof {
            use_type_invariant(&board);
            lemma_count_absent(board.grid(), Piece::Red);
            lemma_count_absent(board.grid(), Piece::Black);
        }
        Game { board, current_player: Piece::Red, red_dropped: 0, black_dropped: 0 }
    }

    /// The board of the game.
    #[verifier::when_used_as_spec(spec_board)]
    pub fn board(&self) -> (board: &Board)
        ensures
            board == self.spec_board(),
    {
        &self.board
    }

    /// The player whose turn it is.
    #[verifier::when_used_as_spec(spec_current_player)]
    pub fn current_player(&self) -> (player: Piece)
        ensures
            player == self.spec_current_player(),
            player == Piece::Red || player == Piece::Black,
    {
        proof {
            use_type_invariant(self);
        }
        self.current_player
    }

    /// How many pieces `player` has placed so far; none for `Piece::Empty`.
    pub fn pieces_dropped(&self, player: Piece) -> (n: usize)
        ensures
            n == self.dropped(player),
            n <= PLACEMENT_LIMIT,
    {
        proof {
            use_type_invariant(self);
        }
        match player {
            Piece::Empty => 0,
            Piece::Red => self.red_dropped,
            Piece::Black => self.black_dropped,
        }
    }

    /// Fills every cell of the board with a piece drawn at random from the
    /// three values a cell can hold, each cell on its own: for each cell, in
    /// row-major order, a number from 0 to 2 is drawn, and the cell takes the
    /// piece that the number selects. Area, turn and counts stay as they are.
    pub fn jumble(&mut self)
        ensures
            final(self).board().area() == old(self).board().area(),
            final(self).current_player() == old(self).current_player(),
            forall|player: Piece| final(self).dropped(player) == old(self).dropped(player),
            exists|samples: Seq<i32>| final(self).board().holds_samples(samples),
            forall|r: int, c: int|
                0 <= r < ROWS && 0 <= c < COLS ==> ({
                    let piece = #[trigger] final(self).board().cell(r, c);
                    piece == Piece::Empty || piece == Piece::Red || piece == Piece::Black
                }),
    {
        proof {
            use_type_invariant(&*self);
        }
        let mut board = self.board;
        board.jumble();
        proof {
            use_type_invariant(&board);
        }
        self.board = board;
    }

    /// Handles a click on the pixel `(x, y)`.
    ///
    /// The click is accepted if the pixel lies inside the board's area, the
    /// player whose turn it is has placed fewer pieces than the limit allows,
    /// and the cell that the pixel falls in is empty. An accepted click puts
    /// the player's piece into that cell, counts it, passes the turn to the
    /// other player, and returns the row and column of the cell. Any other
    /// click changes nothing and returns `None`.
    pub fn handle_click(&mut self, x: usize, y: usize) -> (placed: Option<(usize, usize)>)
        ensures
            final(self).board().area() == old(self).board().area(),
            placed.is_some() <==> old(self).accepts(x as int, y as int),
            // An accepted click fills the one cell that the pixel falls in
            // and leaves every other cell as it was.
            placed matches Some((row, col)) ==> ({
                &&& row == old(self).board().area().row_of(y as int)
                &&& col == old(self).board().area().col_of(x as int)
                &&& row < ROWS
                &&& col < COLS
                &&& final(self).board().cell(row as int, col as int) == old(self).current_player()
                &&& forall|r: int, c: int|
                    0 <= r < ROWS && 0 <= c < COLS && !(r == row && c == col)
                        ==> final(self).board().cell(r, c) == old(self).board().cell(r, c)
            }),
            // An accepted click counts the piece for the player who placed it
            // and passes the turn to the other player.
            placed.is_some() ==> ({
                let player = old(self).current_player();
                &&& final(self).current_player() == player.opponent()
                &&& final(self).current_player() != player
                &&& final(self).dropped(player) == old(self).dropped(player) + 1
                &&& final(self).dropped(player.opponent()) == old(self).dropped(player.opponent())
            }),
            // A rejected click changes nothing: not the grid, not the turn,
            // not the counts.
            placed.is_none() ==> *final(self) == *old(self),
            placed.is_none() ==> final(self).current_player() == old(self).current_player(),
            // A player who has reached the limit places nothing.
            old(self).dropped(old(self).current_player()) >= PLACEMENT_LIMIT
                ==> final(self).board().grid() == old(self).board().grid(),
            // An occupied cell keeps its piece.
            forall|r: int, c: int|
                0 <= r < ROWS && 0 <= c < COLS && old(self).board().cell(r, c) != Piece::Empty
                    ==> final(self).board().cell(r, c) == old(self).board().cell(r, c),
            // No player ever exceeds the limit.
            final(self).dropped(Piece::Red) <= PLACEMENT_LIMIT,
            final(self).dropped(Piece::Black) <= PLACEMENT_LIMIT,
            // Clicks keep the grid and the counts in step.
            old(self).in_play() ==> final(self).in_play(),
    {
        proof {
            use_type_invariant(&*self);
        }
        let player = self.current_player;
        let (row, col) = match self.board.area().locate(x, y) {
            Some(cell) => cell,
            None => {
                return None;
            },
        };
        if self.pieces_dropped(player) >= PLACEMENT_LIMIT {
            return None;
        }
        match self.board.piece_at(row, col) {
            Some(Piece::Empty) => {},
            _ => {
                return None;
            },
        }
        self.board.place(row, col, player);
        proof {
            let before = old(self).board().grid();
            let after = self.board().grid();
            old(self).board().lemma_grid_shape();
            lemma_count_one_cell_changed(before, after, row as int, col as int, Piece::Red);
            lemma_count_one_cell_changed(before, after, row as int, col as int, Piece::Black);
        }
        self.next_turn();
        Some((row, col))
    }

    /// Counts a placed piece for the player whose turn it is and passes the
    /// turn to the other player.
    fn next_turn(&mut self)
        requires
            old(self).dropped(old(self).current_player()) < PLACEMENT_LIMIT,
        ensures
            final(self).board() == old(self).board(),
            final(self).current_player() == old(self).current_player().opponent(),
            final(self).dropped(old(self).current_player()) == old(self).dropped(
                old(self).current_player(),
            ) + 1,
            final(self).dropped(old(self).current_player().opponent()) == old(self).dropped(
                old(self).current_player().opponent(),
            ),
    {
        proof {
            use_type_invariant(&*self);
        }
        match self.current_player {
            Piece::Empty => (),
            Piece::Red => {
                self.red_dropped += 1;
                self.current_player = Piece::Black;
            },
            Piece::Black => {
                self.black_dropped += 1;
                self.current_player = Piece::Red;
            },
        }
    }

    /// The commands that draw the game: the grid lines, then the pieces.
    pub fn draw(&self) -> (commands: Vec<DrawCommand>)
        ensures
            commands@ == grid_lines(self.board().area()) + piece_marks(
                self.board().area(),
                self.board().grid(),
            ),
    {
        self.board.draw()
    }

    /// The text form of the board: a line for each row, holding one
    /// character for each cell.
    pub fn to_string(&self) -> (text: String)
        ensures
            text@ == grid_text(self.board().grid()),
    {
        self.board.to_string()
    }
}

} // verus!
