//! The pixel extent of a board and the geometry derived from it: which cell
//! a pixel falls in, how large a cell is drawn, and where the grid lines run.

use vstd::prelude::*;

verus! {

/// Number of rows of the grid.
pub const ROWS: usize = 5;

/// Number of columns of the grid.
pub const COLS: usize = 5;

/// The size in pixels of the rectangle a board is drawn in. Both sides are
/// strictly positive.
#[derive(Clone, Copy, Debug, PartialEq, Eq)]
pub struct Area {
    w: i32,
    h: i32,
}

impl Area {
    /// Validity of an area: both sides are positive. Every area that
    /// executable code holds is valid.
    #[verifier::type_invariant]
    pub closed spec fn wf(self) -> bool {
        self.w >= 1 && self.h >= 1
    }

    /// Width of the area in pixels.
    pub closed spec fn spec_width(&self) -> i32 {
        self.w
    }

    /// Height of the area in pixels.
    pub closed spec fn spec_height(&self) -> i32 {
        self.h
    }

    /// Whether the pixel `(x, y)` lies inside the area.
    pub open spec fn contains(self, x: int, y: int) -> bool {
        0 <= x < self.width() && 0 <= y < self.height()
    }

    /// The column that the pixel column `x` falls in: `x` scaled by the
    /// number of columns and divided by the width.
    pub open spec fn col_of(self, x: int) -> int {
        COLS * x / (self.width() as int)
    }

    /// The row that the pixel row `y` falls in: `y` scaled by the number of
    /// rows and divided by the height.
    pub open spec fn row_of(self, y: int) -> int {
        ROWS * y / (self.height() as int)
    }

    /// Width of a drawn cell: the width divided by the number of columns,
    /// rounded down.
    pub open spec fn cell_width(self) -> int {
        (self.width() as int) / (COLS as int)
    }

    /// Height of a drawn cell: the height divided by the number of rows,
    /// rounded down.
    pub open spec fn cell_height(self) -> int {
        (self.height() as int) / (ROWS as int)
    }

    /// Horizontal position of the centre of column `i`, which is also where
    /// the `i`-th vertical grid line runs.
    pub open spec fn column_x(self, i: int) -> int {
        self.cell_width() / 2 + i * self.cell_width()
    }

    /// Vertical position of the centre of row `i`, which is also where the
    /// `i`-th horizontal grid line runs.
    pub open spec fn row_y(self, i: int) -> int {
        self.cell_height() / 2 + i * self.cell_height()
    }

    /// Horizontal position at which the grid lines end on the right.
    pub open spec fn right_x(self) -> int {
        self.width() - self.cell_width() / 2
    }

    /// Vertical position at which the grid lines end at the bottom.
    pub open spec fn bottom_y(self) -> int {
        self.height() - self.cell_height() / 2
    }

    /// Radius of the circle that shows a piece.
    pub open spec fn piece_radius(self) -> int {
        self.cell_width() / 4
    }

    /// The sides of a valid area are positive.
    pub proof fn lemma_sides_positive(self)
        requires
            self.wf(),
        ensures
            self.width() >= 1,
            self.height() >= 1,
    {
    }

    /// A pixel lies inside the area exactly if both its grid indices, as
    /// [`Area::row_of`] and [`Area::col_of`] give them, are indices of the grid.
    pub proof fn lemma_contains_iff_indices_in_grid(self, x: int, y: int)
        requires
            self.wf(),
        ensures
            self.contains(x, y) <==> 0 <= self.col_of(x) < COLS && 0 <= self.row_of(y) < ROWS,
    {
        let w = self.width() as int;
        let h = self.height() as int;
        assert((0 <= x <==> 0 <= 5 * x / w) && (x < w <==> 5 * x / w < 5)) by (nonlinear_arith)
            requires
                w >= 1,
        ;
        assert((0 <= y <==> 0 <= 5 * y / h) && (y < h <==> 5 * y / h < 5)) by (nonlinear_arith)
            requires
                h >= 1,
        ;
    }

    /// Every position the grid geometry names lies between 0 and the
    /// matching side of the area.
    pub proof fn lemma_positions_in_area(self, i: int)
        requires
            self.wf(),
            0 <= i < COLS,
            0 <= i < ROWS,
        ensures
            0 <= self.column_x(i) <= self.right_x() <= self.width(),
            0 <= self.row_y(i) <= self.bottom_y() <= self.height(),
            0 <= self.width() - self.column_x(i) <= self.width(),
            0 <= self.height() - self.row_y(i) <= self.height(),
            0 <= self.piece_radius() <= self.width(),
    {
        let cw = self.cell_width();
        let ch = self.cell_height();
        assert(0 <= i * cw <= 4 * cw) by (nonlinear_arith)
            requires
                0 <= i < 5,
                0 <= cw,
        ;
        assert(0 <= i * ch <= 4 * ch) by (nonlinear_arith)
            requires
                0 <= i < 5,
                0 <= ch,
        ;
    }

    /// An area of the given size, if both sides are positive.
    pub fn new(width: i32, height: i32) -> (area: Option<Area>)
        ensures
            area.is_some() <==> width >= 1 && height >= 1,
            area matches Some(a) ==> a.wf() && a.width() == width && a.height() == height,
    {
        if width >= 1 && height >= 1 {
            Some(Area { w: width, h: height })
        } else {
            None
        }
    }

    /// Width of the area in pixels.
    #[verifier::when_used_as_spec(spec_width)]
    pub fn width(&self) -> (w: i32)
        ensures
            w == self.spec_width(),
            self.wf(),
    {
        proof {
            use_type_invariant(self);
        }
        self.w
    }

    /// Height of the area in pixels.
    #[verifier::when_used_as_spec(spec_height)]
    pub fn height(&self) -> (h: i32)
        ensures
            h == self.spec_height(),
            self.wf(),
    {
        proof {
            use_type_invariant(self);
        }
        self.h
    }

    /// The grid cell, as `(row, column)`, that the pixel `(x, y)` falls in;
    /// `None` for a pixel outside the area.
    pub fn locate(&self, x: usize, y: usize) -> (cell: Option<(usize, usize)>)
        ensures
            cell.is_some() <==> self.contains(x as int, y as int),
            cell matches Some((row, col)) ==> ({
                &&& row == self.row_of(y as int)
                &&& col == self.col_of(x as int)
                &&& row < ROWS
                &&& col < COLS
            }),
    {
        proof {
            use_type_invariant(self);
            self.lemma_contains_iff_indices_in_grid(x as int, y as int);
        }
        if x >= self.w as usize || y >= self.h as usize {
            return None;
        }
        let col: u64 = 5 * (x as u64) / (self.w as u64);
        let row: u64 = 5 * (y as u64) / (self.h as u64);
        Some((row as usize, col as usize))
    }
}

} // verus!
