//! The grid of cells and its rendering.

use vstd::prelude::*;
use crate::area::{Area, COLS, ROWS};
use crate::color::Rgb;
use crate::piece::Piece;
use crate::random::random_in;
use crate::render::{
    grid_lines, grid_lines_upto, grid_text, piece_marks, piece_marks_upto, DrawCommand,
};
use crate::tally::{count, count_upto, is_grid};

verus! {

/// A grid of five rows of five cells, drawn into an area.
#[derive(Clone, Copy, Debug, PartialEq, Eq)]
pub struct Board {
    area: Area,
    pieces: [[Piece; COLS]; ROWS],
}

impl Board {
    /// Validity of a board: its area is valid. Every board that executable
    /// code holds is valid.
    #[verifier::type_invariant]
    pub closed spec fn wf(self) -> bool {
        self.area.wf()
    }

    /// The area the board is drawn in.
    pub closed spec fn spec_area(&self) -> Area {
        self.area
    }

    /// The cells of the board, row by row.
    pub closed spec fn grid(&self) -> Seq<Seq<Piece>> {
        Seq::new(ROWS as nat, |r: int| Seq::new(COLS as nat, |c: int| self.pieces[r][c]))
    }

    /// What the cell in `row` and `col` holds.
    #[verifier::inline]
    pub open spec fn cell(&self, row: int, col: int) -> Piece {
        self.grid()[row][col]
    }

    /// Whether every cell is empty.
    pub open spec fn is_empty(&self) -> bool {
        forall|r: int, c: int| 0 <= r < ROWS && 0 <= c < COLS ==> self.cell(r, c) == Piece::Empty
    }

    /// How many cells hold `piece`.
    pub open spec fn count(&self, piece: Piece) -> nat {
        count(self.grid(), piece)
    }

    /// Whether the first `cells` cells of the grid, in row-major order, hold
    /// the pieces that the numbers of `samples` select, one number for each
    /// of these cells, and each number lies between 0 and 2.
    pub open spec fn holds_samples_upto(&self, samples: Seq<i32>, cells: int) -> bool {
        &&& samples.len() == cells
        &&& forall|k: int| 0 <= k < cells ==> 0 <= #[trigger] samples[k] <= 2
        &&& forall|r: int, c: int|
            0 <= r < ROWS && 0 <= c < COLS && COLS * r + c < cells ==> self.cell(r, c)
                == Piece::from_sample(samples[COLS * r + c])
    }

    /// Whether the grid holds, cell by cell in row-major order, the pieces
    /// that the numbers of `samples` select: one number for each cell, each
    /// between 0 and 2.
    pub open spec fn holds_samples(&self, samples: Seq<i32>) -> bool {
        self.holds_samples_upto(samples, ROWS * COLS)
    }

    /// The grid always has five rows of five cells.
    pub proof fn lemma_grid_shape(self)
        ensures
            is_grid(self.grid()),
    {
    }

    /// An empty board in the given area.
    pub fn new(area: Area) -> (board: Board)
        ensures
            board.area() == area,
            board.is_empty(),
    {
        proof {
            use_type_invariant(&area);
        }
        Board { area, pieces: [[Piece::Empty; COLS]; ROWS] }
    }

    /// The area the board is drawn in.
    #[verifier::when_used_as_spec(spec_area)]
    pub fn area(&self) -> (area: Area)
        ensures
            area == self.spec_area(),
            area.wf(),
    {
        proof {
            use_type_invariant(&self.area);
        }
        self.area
    }

    /// What the cell in `row` and `col` holds; `None` outside the grid.
    pub fn piece_at(&self, row: usize, col: usize) -> (piece: Option<Piece>)
        ensures
            piece == (if row < ROWS && col < COLS {
                Some(self.cell(row as int, col as int))
            } else {
                None
            }),
    {
        if row < ROWS && col < COLS {
            Some(self.pieces[row][col])
        } else {
            None
        }
    }

    /// How many cells hold `piece`.
    pub fn count_pieces(&self, piece: Piece) -> (n: usize)
        ensures
            n == self.count(piece),
            n <= ROWS * COLS,
    {
        let mut n: usize = 0;
        let mut row: usize = 0;
        while row < ROWS
            invariant
                row <= ROWS,
                n == count_upto(self.grid(), piece, (COLS * row) as nat),
                n <= COLS * row,
            decreases ROWS - row,
        {
            let mut col: usize = 0;
            while col < COLS
                invariant
                    row < ROWS,
                    col <= COLS,
                    n == count_upto(self.grid(), piece, (COLS * row + col) as nat),
                    n <= COLS * row + col,
                decreases COLS - col,
            {
                proof {
                    assert(self.grid()[row as int][col as int]
                        == self.pieces[row as int][col as int]);
                }
                if self.pieces[row][col] == piece {
                    n += 1;
                }
                col += 1;
            }
            row += 1;
        }
        n
    }

    /// Puts `piece` into the cell in `row` and `col`.
    pub(crate) fn place(&mut self, row: usize, col: usize, piece: Piece)
        requires
            row < ROWS,
            col < COLS,
        ensures
            final(self).wf(),
            final(self).area() == old(self).area(),
            final(self).grid() == old(self).grid().update(
                row as int,
                old(self).grid()[row as int].update(col as int, piece),
            ),
        no_unwind
    {
        proof {
            use_type_invariant(&*self);
        }
        self.pieces[row][col] = piece;
        proof {
            let expected = old(self).grid().update(
                row as int,
                old(self).grid()[row as int].update(col as int, piece),
            );
            assert forall|r: int| 0 <= r < ROWS implies #[trigger] self.grid()[r]
                =~= expected[r] by {
                assert forall|c: int| 0 <= c < COLS implies self.grid()[r][c]
                    == expected[r][c] by {
                    assert(old(self).grid()[r][c] == old(self).pieces[r][c]);
                }
            }
            assert(self.grid() =~= expected);
        }
    }

    /// Width and height of a drawn cell: a fifth of the area's sides, rounded
    /// down.
    pub fn cell_sides(&self) -> (sides: (i32, i32))
        ensures
            sides.0 == self.area().cell_width(),
            sides.1 == self.area().cell_height(),
    {
        let area = self.area();
        proof {
            area.lemma_sides_positive();
        }
        let width = area.width() / (COLS as i32);
        let height = area.height() / (ROWS as i32);
        (width, height)
    }

    /// The commands that draw the grid lines: black is selected, then for
    /// each of the five grid indices six line segments follow.
    pub fn draw_lines(&self) -> (commands: Vec<DrawCommand>)
        ensures
            commands@ == grid_lines(self.area()),
    {
        let area = self.area();
        let width = area.width();
        let height = area.height();
        let (cell_width, cell_height) = self.cell_sides();
        let mut commands: Vec<DrawCommand> = Vec::new();
        commands.push(DrawCommand::SetColor(Rgb::black()));
        let mut i: i32 = 0;
        while i < 5
            invariant
                0 <= i <= 5,
                area.wf(),
                width == area.width(),
                height == area.height(),
                cell_width == area.cell_width(),
                cell_height == area.cell_height(),
                commands@ == grid_lines_upto(area, i as int),
            decreases 5 - i,
        {
            proof {
                area.lemma_positions_in_area(i as int);
                area.lemma_positions_in_area(0);
            }
            let left = cell_width / 2;
            let top = cell_height / 2;
            let right = width - cell_width / 2;
            let bottom = height - cell_height / 2;
            let x = cell_width / 2 + i * cell_width;
            let y = cell_height / 2 + i * cell_height;
            commands.push(DrawCommand::Line { x1: left, y1: y, x2: right, y2: y });
            commands.push(DrawCommand::Line { x1: x, y1: top, x2: x, y2: bottom });
            commands.push(DrawCommand::Line { x1: left, y1: y, x2: x, y2: top });
            commands.push(DrawCommand::Line { x1: x, y1: bottom, x2: right, y2: y });
            commands.push(DrawCommand::Line { x1: left, y1: y, x2: width - x, y2: bottom });
            commands.push(DrawCommand::Line { x1: x, y1: top, x2: right, y2: height - y });
            i += 1;
        }
        commands
    }

    /// The commands that draw the pieces, cell by cell in row-major order:
    /// for each occupied cell the owner's colour is selected and a filled
    /// circle is drawn around the centre of the cell.
    pub fn draw_pieces(&self) -> (commands: Vec<DrawCommand>)
        ensures
            commands@ == piece_marks(self.area(), self.grid()),
    {
        let area = self.area();
        let (width, height) = self.cell_sides();
        let mut commands: Vec<DrawCommand> = Vec::new();
        let mut line: usize = 0;
        while line < ROWS
            invariant
                line <= ROWS,
                area.wf(),
                area == self.area(),
                width == area.cell_width(),
                height == area.cell_height(),
                commands@ == piece_marks_upto(area, self.grid(), (COLS * line) as nat),
            decreases ROWS - line,
        {
            let mut column: usize = 0;
            while column < COLS
                invariant
                    line < ROWS,
                    column <= COLS,
                    area.wf(),
                    area == self.area(),
                    width == area.cell_width(),
                    height == area.cell_height(),
                    commands@ == piece_marks_upto(
                        area,
                        self.grid(),
                        (COLS * line + column) as nat,
                    ),
                decreases COLS - column,
            {
                let piece = self.pieces[line][column];
                proof {
                    area.lemma_positions_in_area(line as int);
                    area.lemma_positions_in_area(column as int);
                    assert(self.grid()[line as int][column as int] == piece);
                    assert(width * column == column * width) by (nonlinear_arith);
                    assert(height * line == line * height) by (nonlinear_arith);
                }
                if let Some(color) = piece.color() {
                    let x = (width / 2) + width * (column as i32);
                    let y = (height / 2) + height * (line as i32);
                    commands.push(DrawCommand::SetColor(color));
                    commands.push(DrawCommand::FilledCircle { x, y, radius: width / 4, color });
                }
                column += 1;
            }
            line += 1;
        }
        commands
    }

    /// The commands that draw the board: the grid lines, then the pieces.
    pub fn draw(&self) -> (commands: Vec<DrawCommand>)
        ensures
            commands@ == grid_lines(self.area()) + piece_marks(self.area(), self.grid()),
    {
        let mut commands = self.draw_lines();
        let mut pieces = self.draw_pieces();
        commands.append(&mut pieces);
        commands
    }

    /// The text form of the board: a line for each row, holding one
    /// character for each cell.
    pub fn to_string(&self) -> (text: String)
        ensures
            text@ == grid_text(self.grid()),
    {
        let mut text = String::new();
        let mut row: usize = 0;
        while row < ROWS
            invariant
                row <= ROWS,
                text@ == grid_text(self.grid()).subrange(0, 6 * row),
            decreases ROWS - row,
        {
            let mut col: usize = 0;
            while col < COLS
                invariant
                    row < ROWS,
                    col <= COLS,
                    text@ == grid_text(self.grid()).subrange(0, 6 * row + col),
                decreases COLS - col,
            {
                let piece = self.pieces[row][col];
                proof {
                    assert(self.grid()[row as int][col as int] == piece);
                }
                text.append(piece.symbol());
                col += 1;
            }
            proof {
                reveal_strlit("\n");
            }
            text.append("\n");
            row += 1;
        }
        text
    }

    /// Fills every cell with a piece drawn at random from the three values a
    /// cell can hold, each cell on its own: for each cell, in row-major
    /// order, a number from 0 to 2 is drawn, and the cell takes the piece that
    /// the number selects. The area stays as it is.
    pub fn jumble(&mut self)
        ensures
            final(self).area() == old(self).area(),
            exists|samples: Seq<i32>| final(self).holds_samples(samples),
            forall|r: int, c: int|
                0 <= r < ROWS && 0 <= c < COLS ==> ({
                    let piece = #[trigger] final(self).cell(r, c);
                    piece == Piece::Empty || piece == Piece::Red || piece == Piece::Black
                }),
    {
        proof {
            use_type_invariant(&*self);
        }
        let ghost mut samples: Seq<i32> = Seq::empty();
        let mut row: usize = 0;
        while row < ROWS
            invariant
                row <= ROWS,
                self.wf(),
                self.area() == old(self).area(),
                self.holds_samples_upto(samples, COLS * row),
            decreases ROWS - row,
        {
            let mut col: usize = 0;
            while col < COLS
                invariant
                    row < ROWS,
                    col <= COLS,
                    self.wf(),
                    self.area() == old(self).area(),
                    self.holds_samples_upto(samples, COLS * row + col),
                decreases COLS - col,
            {
                let ghost filled = self.grid();
                let ghost earlier = samples;
                let sample = random_in(0, 2);
                self.pieces[row][col] = Piece::from_sample(sample);
                proof {
                    samples = earlier.push(sample);
                    assert forall|r: int, c: int|
                        0 <= r < ROWS && 0 <= c < COLS && COLS * r + c < COLS * row + col + 1
                        implies self.cell(r, c) == Piece::from_sample(samples[COLS * r + c]) by {
                        if r == row && c == col {
                            assert(samples[COLS * r + c] == sample);
                        } else {
                            assert(self.cell(r, c) == filled[r][c]);
                            assert(samples[COLS * r + c] == earlier[COLS * r + c]);
                        }
                    }
                }
                col += 1;
            }
            row += 1;
        }
        proof {
            assert(self.holds_samples(samples));
        }
    }
}

} // verus!
