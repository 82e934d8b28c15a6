//! Counting the pieces on a grid.

use vstd::prelude::*;
use crate::piece::Piece;

verus! {

/// Whether `grid` has the shape of a board: five rows of five cells.
pub open spec fn is_grid(grid: Seq<Seq<Piece>>) -> bool {
    &&& grid.len() == 5
    &&& forall|r: int| 0 <= r < 5 ==> (#[trigger] grid[r]).len() == 5
}

/// One if `holds`, else zero.
pub open spec fn one_if(holds: bool) -> nat {
    if holds {
        1
    } else {
        0
    }
}

/// How many of the first `cells` cells of `grid`, in row-major order, hold
/// `piece`.
pub open spec fn count_upto(grid: Seq<Seq<Piece>>, piece: Piece, cells: nat) -> nat
    decreases cells,
{
    if cells == 0 {
        0
    } else {
        let k = cells - 1;
        count_upto(grid, piece, k as nat) + one_if(grid[k / 5][k % 5] == piece)
    }
}

/// How many cells of `grid` hold `piece`.
pub open spec fn count(grid: Seq<Seq<Piece>>, piece: Piece) -> nat {
    count_upto(grid, piece, 25)
}

proof fn lemma_count_upto_absent(grid: Seq<Seq<Piece>>, piece: Piece, cells: nat)
    requires
        cells <= 25,
        forall|r: int, c: int| 0 <= r < 5 && 0 <= c < 5 ==> grid[r][c] != piece,
    ensures
        count_upto(grid, piece, cells) == 0,
    decreases cells,
{
    if cells > 0 {
        lemma_count_upto_absent(grid, piece, (cells - 1) as nat);
    }
}

proof fn lemma_count_upto_one_cell_changed(
    before: Seq<Seq<Piece>>,
    after: Seq<Seq<Piece>>,
    row: int,
    col: int,
    piece: Piece,
    cells: nat,
)
    requires
        0 <= row < 5,
        0 <= col < 5,
        cells <= 25,
        forall|r: int, c: int|
            0 <= r < 5 && 0 <= c < 5 && !(r == row && c == col) ==> after[r][c] == before[r][c],
    ensures
        count_upto(after, piece, cells) + one_if(5 * row + col < cells && before[row][col] == piece)
            == count_upto(before, piece, cells) + one_if(
            5 * row + col < cells && after[row][col] == piece,
        ),
    decreases cells,
{
    if cells > 0 {
        lemma_count_upto_one_cell_changed(before, after, row, col, piece, (cells - 1) as nat);
        let k = cells - 1;
        if k == 5 * row + col {
            assert(k / 5 == row && k % 5 == col);
        } else {
            assert(!(k / 5 == row && k % 5 == col));
        }
    }
}

/// A grid on which no cell holds `piece` counts none of it.
pub proof fn lemma_count_absent(grid: Seq<Seq<Piece>>, piece: Piece)
    requires
        forall|r: int, c: int| 0 <= r < 5 && 0 <= c < 5 ==> grid[r][c] != piece,
    ensures
        count(grid, piece) == 0,
{
    lemma_count_upto_absent(grid, piece, 25);
}

/// When two grids differ in the cell in `row` and `col` at most, their counts
/// of `piece` differ by what that cell adds to each of them.
pub proof fn lemma_count_one_cell_changed(
    before: Seq<Seq<Piece>>,
    after: Seq<Seq<Piece>>,
    row: int,
    col: int,
    piece: Piece,
)
    requires
        0 <= row < 5,
        0 <= col < 5,
        forall|r: int, c: int|
            0 <= r < 5 && 0 <= c < 5 && !(r == row && c == col) ==> after[r][c] == before[r][c],
    ensures
        count(after, piece) + one_if(before[row][col] == piece) == count(before, piece) + one_if(
            after[row][col] == piece,
        ),
{
    lemma_count_upto_one_cell_changed(before, after, row, col, piece, 25);
}

} // verus!
