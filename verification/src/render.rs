//! Drawing: what a board asks a drawing surface to do, and in which order.

use vstd::prelude::*;
use crate::area::Area;
use crate::color::Rgb;
use crate::piece::Piece;

verus! {

/// One step of rendering, in surface coordinates with the origin at the top
/// left. A caller replays the commands in order on its drawing surface and
/// converts the numbers to what that surface takes.
#[derive(Clone, Copy, Debug, PartialEq, Eq, Structural)]
pub enum DrawCommand {
    /// Select the colour that following lines are drawn with.
    SetColor(Rgb),
    /// Draw a line segment from `(x1, y1)` to `(x2, y2)`.
    Line { x1: i32, y1: i32, x2: i32, y2: i32 },
    /// Draw a filled circle of the given colour around `(x, y)`.
    FilledCircle { x: i32, y: i32, radius: i32, color: Rgb },
}

/// The line segment from `(x1, y1)` to `(x2, y2)`.
pub open spec fn segment(x1: int, y1: int, x2: int, y2: int) -> DrawCommand {
    DrawCommand::Line { x1: x1 as i32, y1: y1 as i32, x2: x2 as i32, y2: y2 as i32 }
}

/// The `kind`-th of the six segments drawn for grid index `i`. In this
/// order they are: the `i`-th horizontal line; the `i`-th vertical line; the
/// diagonal from the left end of that horizontal line to the top end of that
/// vertical line; the diagonal from the bottom end of the vertical line to
/// the right end of the horizontal line; the diagonal from the left end of
/// the horizontal line down to the bottom border, where the vertical line
/// counted from the right would end; and the diagonal from the top end of
/// the vertical line to the right border, where the horizontal line counted
/// from the bottom would end.
pub open spec fn grid_segment(area: Area, i: int, kind: int) -> DrawCommand {
    let left = area.column_x(0);
    let top = area.row_y(0);
    let right = area.right_x();
    let bottom = area.bottom_y();
    let x = area.column_x(i);
    let y = area.row_y(i);
    if kind == 0 {
        segment(left, y, right, y)
    } else if kind == 1 {
        segment(x, top, x, bottom)
    } else if kind == 2 {
        segment(left, y, x, top)
    } else if kind == 3 {
        segment(x, bottom, right, y)
    } else if kind == 4 {
        segment(left, y, area.width() - x, bottom)
    } else {
        segment(x, top, right, area.height() - y)
    }
}

/// The commands that draw the grid: black is selected, then the six segments
/// of index 0 follow, then those of index 1, and so on for `count` indices.
pub open spec fn grid_lines_upto(area: Area, count: int) -> Seq<DrawCommand> {
    seq![DrawCommand::SetColor(Rgb::black())] + Seq::new(
        (6 * count) as nat,
        |k: int| grid_segment(area, k / 6, k % 6),
    )
}

/// The commands that draw the whole grid.
pub open spec fn grid_lines(area: Area) -> Seq<DrawCommand> {
    grid_lines_upto(area, 5)
}

/// The commands that draw what the cell in `row` and `col` holds: nothing for
/// an empty cell; otherwise the owner's colour is selected and a filled
/// circle of that colour is drawn around the centre of the cell.
pub open spec fn piece_mark(area: Area, piece: Piece, row: int, col: int) -> Seq<DrawCommand> {
    match piece.color() {
        None => Seq::empty(),
        Some(color) => seq![
            DrawCommand::SetColor(color),
            DrawCommand::FilledCircle {
                x: area.column_x(col) as i32,
                y: area.row_y(row) as i32,
                radius: area.piece_radius() as i32,
                color,
            },
        ],
    }
}

/// The marks of the first `count` cells of the grid in row-major order, one
/// cell after the other.
pub open spec fn piece_marks_upto(area: Area, grid: Seq<Seq<Piece>>, count: nat) -> Seq<
    DrawCommand,
>
    decreases count,
{
    if count == 0 {
        Seq::empty()
    } else {
        let k = count - 1;
        piece_marks_upto(area, grid, k as nat) + piece_mark(area, grid[k / 5][k % 5], k / 5, k % 5)
    }
}

/// The marks of all cells of the grid.
pub open spec fn piece_marks(area: Area, grid: Seq<Seq<Piece>>) -> Seq<DrawCommand> {
    piece_marks_upto(area, grid, 25)
}

/// The text form of a grid: one line per row, each made of the glyphs of the
/// row's cells and closed by a line feed.
pub open spec fn grid_text(grid: Seq<Seq<Piece>>) -> Seq<char> {
    Seq::new(
        30,
        |k: int|
            if k % 6 == 5 {
                '\n'
            } else {
                grid[k / 6][k % 6].glyph()
            },
    )
}

} // verus!
