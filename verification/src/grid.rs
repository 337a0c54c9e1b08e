//! The geometry of the vector grid: cell indices, cell positions and the
//! cell nearest to a point.
//!
//! A cell is named by its row (the step along x, below the grid width) and
//! its column (the step along y, below the grid height). Cells are stored
//! densely, a whole line of rows for each column in turn.

use crate::fixed::{
    clamp_between, distance, lemma_round_div_near, lemma_round_div_sign, round_div, Point2,
};
use vstd::prelude::*;

verus! {

/// The largest magnitude of a viewport coordinate, a spacing or a vector
/// magnitude: a million pixels.
pub const MAX_COORD: i64 = 1_000_000_000_000;

/// The largest number of cells along either axis.
pub const MAX_GRID_DIM: usize = 4096;

/// Where the cells of a grid lie.
#[derive(Clone, Copy, Debug, PartialEq, Eq, Structural)]
pub struct GridLayout {
    /// The position of cell (0, 0).
    pub origin: Point2,
    /// The distance between neighbouring cells.
    pub spacing: i64,
    /// The number of rows.
    pub width: usize,
    /// The number of columns.
    pub height: usize,
}

impl GridLayout {
    /// The layout is not degenerate and within the supported range.
    pub open spec fn wf(&self) -> bool {
        &&& 0 < self.spacing <= MAX_COORD
        &&& 0 < self.width <= MAX_GRID_DIM
        &&& 0 < self.height <= MAX_GRID_DIM
        &&& -2 * MAX_COORD <= self.origin.x <= 2 * MAX_COORD
        &&& -2 * MAX_COORD <= self.origin.y <= 2 * MAX_COORD
    }

    /// The number of cells.
    pub open spec fn cells(&self) -> int {
        self.width * self.height
    }

    /// The flat index of cell (`row`, `col`).
    pub open spec fn spec_index(&self, row: int, col: int) -> int {
        row + col * self.width
    }

    /// The row of the cell stored at flat index `i`.
    pub open spec fn row_of(&self, i: int) -> int {
        i % (self.width as int)
    }

    /// The column of the cell stored at flat index `i`.
    pub open spec fn col_of(&self, i: int) -> int {
        i / (self.width as int)
    }

    /// The position of cell (`row`, `col`).
    pub open spec fn cell_position(&self, row: int, col: int) -> Point2 {
        Point2 {
            x: (self.origin.x + row * self.spacing) as i64,
            y: (self.origin.y + col * self.spacing) as i64,
        }
    }

    /// The row nearest to the abscissa `x`, kept inside the grid.
    pub open spec fn nearest_row(&self, x: int) -> int {
        clamp_between(round_div(x - self.origin.x, self.spacing as int), 0, self.width - 1)
    }

    /// The column nearest to the ordinate `y`, kept inside the grid.
    pub open spec fn nearest_col(&self, y: int) -> int {
        clamp_between(round_div(y - self.origin.y, self.spacing as int), 0, self.height - 1)
    }

    /// The flat index of the cell nearest to `xy`.
    pub open spec fn nearest_index(&self, xy: Point2) -> int {
        self.spec_index(self.nearest_row(xy.x as int), self.nearest_col(xy.y as int))
    }

    /// The number of cells.
    pub fn len(&self) -> (n: usize)
        requires
            self.wf(),
        ensures
            n == self.cells(),
            0 < n <= MAX_GRID_DIM * MAX_GRID_DIM,
    {
        proof {
            lemma_cells_bounded(*self);
        }
        self.width * self.height
    }

    /// The flat index of cell (`row`, `col`).
    pub fn index(&self, row: usize, col: usize) -> (i: usize)
        requires
            self.wf(),
            row < self.width,
            col < self.height,
        ensures
            i == row + col * self.width,
            i == self.spec_index(row as int, col as int),
            i < self.cells(),
    {
        proof {
            lemma_index_in_range(*self, row as int, col as int);
            lemma_cells_bounded(*self);
        }
        row + col * self.width
    }

    /// The position of cell (`row`, `col`).
    pub fn position(&self, row: usize, col: usize) -> (p: Point2)
        requires
            self.wf(),
            row < self.width,
            col < self.height,
        ensures
            p == self.cell_position(row as int, col as int),
            p.x == self.origin.x + row * self.spacing,
            p.y == self.origin.y + col * self.spacing,
    {
        proof {
            lemma_offset_bounded(row as int, self.spacing as int);
            lemma_offset_bounded(col as int, self.spacing as int);
        }
        Point2 {
            x: self.origin.x + (row as i64) * self.spacing,
            y: self.origin.y + (col as i64) * self.spacing,
        }
    }

    /// The flat index of the cell nearest to `xy`. A point beyond the grid
    /// is served by the cell at the edge it lies beyond.
    pub fn nearest(&self, xy: Point2) -> (i: usize)
        requires
            self.wf(),
        ensures
            i == self.nearest_index(xy),
            i < self.cells(),
    {
        let row: usize = nearest_step(xy.x, self.origin.x, self.spacing, self.width);
        let col: usize = nearest_step(xy.y, self.origin.y, self.spacing, self.height);
        self.index(row, col)
    }
}

/// The step nearest to `at` on an axis that starts at `origin` and has
/// `count` steps `spacing` apart.
fn nearest_step(at: i64, origin: i64, spacing: i64, count: usize) -> (k: usize)
    requires
        0 < spacing <= MAX_COORD,
        0 < count <= MAX_GRID_DIM,
    ensures
        k == clamp_between(round_div(at - origin, spacing as int), 0, count - 1),
        k < count,
{
    let d: i128 = at as i128 - origin as i128;
    if d <= 0 {
        proof {
            lemma_round_div_sign(d as int, spacing as int);
        }
        0
    } else {
        let q: i128 = (2 * d + spacing as i128) / (2 * spacing as i128);
        assert(q >= 0) by (nonlinear_arith)
            requires
                d > 0,
                spacing > 0,
                q == (2 * d + spacing) / (2 * spacing),
        ;
        if q >= count as i128 {
            count - 1
        } else {
            q as usize
        }
    }
}

/// A step count times a spacing stays far inside the 64-bit range.
pub proof fn lemma_offset_bounded(k: int, spacing: int)
    requires
        0 <= k < MAX_GRID_DIM,
        0 < spacing <= MAX_COORD,
    ensures
        0 <= k * spacing <= MAX_GRID_DIM * MAX_COORD,
{
    assert(0 <= k * spacing <= MAX_GRID_DIM * MAX_COORD) by (nonlinear_arith)
        requires
            0 <= k < MAX_GRID_DIM,
            0 < spacing <= MAX_COORD,
    ;
}

/// A well-formed grid has between one and `MAX_GRID_DIM` squared cells.
pub proof fn lemma_cells_bounded(layout: GridLayout)
    requires
        layout.wf(),
    ensures
        0 < layout.cells() <= MAX_GRID_DIM * MAX_GRID_DIM,
{
    let w = layout.width as int;
    let h = layout.height as int;
    assert(0 < w * h <= MAX_GRID_DIM * MAX_GRID_DIM) by (nonlinear_arith)
        requires
            0 < w <= MAX_GRID_DIM,
            0 < h <= MAX_GRID_DIM,
    ;
}

/// The flat index of a cell inside the grid is `row + col * width`, lies
/// below the number of cells, and gives the cell back.
pub proof fn lemma_index_in_range(layout: GridLayout, row: int, col: int)
    requires
        layout.wf(),
        0 <= row < layout.width,
        0 <= col < layout.height,
    ensures
        layout.spec_index(row, col) == row + col * layout.width,
        0 <= layout.spec_index(row, col) < layout.cells(),
        layout.row_of(layout.spec_index(row, col)) == row,
        layout.col_of(layout.spec_index(row, col)) == col,
{
    let w = layout.width as int;
    let h = layout.height as int;
    assert(0 <= col * w && row + col * w < w * h) by (nonlinear_arith)
        requires
            0 <= row < w,
            0 <= col < h,
    ;
    vstd::arithmetic::div_mod::lemma_fundamental_div_mod_converse(row + col * w, w, col, row);
}

/// No two cells inside the grid share a flat index.
pub proof fn lemma_index_unique(layout: GridLayout, row1: int, col1: int, row2: int, col2: int)
    requires
        layout.wf(),
        0 <= row1 < layout.width,
        0 <= col1 < layout.height,
        0 <= row2 < layout.width,
        0 <= col2 < layout.height,
        layout.spec_index(row1, col1) == layout.spec_index(row2, col2),
    ensures
        row1 == row2,
        col1 == col2,
{
    lemma_index_in_range(layout, row1, col1);
    lemma_index_in_range(layout, row2, col2);
}

/// Every flat index below the number of cells names one cell inside the
/// grid.
pub proof fn lemma_index_covers(layout: GridLayout, i: int)
    requires
        layout.wf(),
        0 <= i < layout.cells(),
    ensures
        0 <= layout.row_of(i) < layout.width,
        0 <= layout.col_of(i) < layout.height,
        layout.spec_index(layout.row_of(i), layout.col_of(i)) == i,
{
    let w = layout.width as int;
    let h = layout.height as int;
    vstd::arithmetic::div_mod::lemma_fundamental_div_mod(i, w);
    assert(0 <= i / w < h) by (nonlinear_arith)
        requires
            0 <= i < w * h,
            0 < w,
            i == w * (i / w) + i % w,
            0 <= i % w < w,
    ;
    assert(w * (i / w) == (i / w) * w) by (nonlinear_arith);
}

/// The nearest cell always lies inside the grid. A point at or beyond the
/// last row or column is served by that row or column, and a point at or
/// before the first by the first.
pub proof fn lemma_nearest_clamps(layout: GridLayout, xy: Point2)
    requires
        layout.wf(),
    ensures
        0 <= layout.nearest_row(xy.x as int) < layout.width,
        0 <= layout.nearest_col(xy.y as int) < layout.height,
        0 <= layout.nearest_index(xy) < layout.cells(),
        xy.x <= layout.origin.x ==> layout.nearest_row(xy.x as int) == 0,
        xy.y <= layout.origin.y ==> layout.nearest_col(xy.y as int) == 0,
        xy.x >= layout.origin.x + (layout.width - 1) * layout.spacing ==> layout.nearest_row(
            xy.x as int,
        ) == layout.width - 1,
        xy.y >= layout.origin.y + (layout.height - 1) * layout.spacing ==> layout.nearest_col(
            xy.y as int,
        ) == layout.height - 1,
{
    lemma_axis_clamps(xy.x as int, layout.origin.x as int, layout.spacing as int, layout.width as int);
    lemma_axis_clamps(xy.y as int, layout.origin.y as int, layout.spacing as int, layout.height as int);
    lemma_index_in_range(layout, layout.nearest_row(xy.x as int), layout.nearest_col(xy.y as int));
}

/// On one axis, no step lies nearer to `at` than the one the lookup takes.
pub proof fn lemma_axis_nearest(at: int, origin: int, spacing: int, count: int, other: int)
    requires
        spacing > 0,
        count > 0,
        0 <= other < count,
    ensures
        distance(
            at,
            origin + clamp_between(round_div(at - origin, spacing), 0, count - 1) * spacing,
        ) <= distance(at, origin + other * spacing),
{
    let d = at - origin;
    let q = round_div(d, spacing);
    let k = clamp_between(q, 0, count - 1);
    lemma_round_div_near(d, spacing);
    if q < 0 {
        assert(q * spacing <= -spacing) by (nonlinear_arith)
            requires
                q <= -1,
                spacing > 0,
        ;
        assert(other * spacing >= 0) by (nonlinear_arith)
            requires
                other >= 0,
                spacing > 0,
        ;
        assert(k * spacing == 0) by (nonlinear_arith)
            requires
                k == 0,
        ;
    } else if q > count - 1 {
        assert(q * spacing >= (count - 1) * spacing + spacing) by (nonlinear_arith)
            requires
                q >= count,
                spacing > 0,
        ;
        assert(other * spacing <= (count - 1) * spacing) by (nonlinear_arith)
            requires
                other <= count - 1,
                spacing > 0,
        ;
    } else if other > q {
        assert(other * spacing >= q * spacing + spacing) by (nonlinear_arith)
            requires
                other >= q + 1,
                spacing > 0,
        ;
    } else if other < q {
        assert(other * spacing <= q * spacing - spacing) by (nonlinear_arith)
            requires
                other <= q - 1,
                spacing > 0,
        ;
    }
}

/// No cell lies nearer to `xy` than the one the lookup takes, along either
/// axis: the cell it takes is a nearest one.
pub proof fn lemma_nearest_is_nearest(layout: GridLayout, xy: Point2, row: int, col: int)
    requires
        layout.wf(),
        0 <= row < layout.width,
        0 <= col < layout.height,
    ensures
        distance(
            xy.x as int,
            layout.origin.x + layout.nearest_row(xy.x as int) * layout.spacing,
        ) <= distance(xy.x as int, layout.origin.x + row * layout.spacing),
        distance(
            xy.y as int,
            layout.origin.y + layout.nearest_col(xy.y as int) * layout.spacing,
        ) <= distance(xy.y as int, layout.origin.y + col * layout.spacing),
        layout.cell_position(layout.nearest_row(xy.x as int), layout.nearest_col(xy.y as int)).x
            == layout.origin.x + layout.nearest_row(xy.x as int) * layout.spacing,
        layout.cell_position(layout.nearest_row(xy.x as int), layout.nearest_col(xy.y as int)).y
            == layout.origin.y + layout.nearest_col(xy.y as int) * layout.spacing,
{
    lemma_axis_nearest(
        xy.x as int,
        layout.origin.x as int,
        layout.spacing as int,
        layout.width as int,
        row,
    );
    lemma_axis_nearest(
        xy.y as int,
        layout.origin.y as int,
        layout.spacing as int,
        layout.height as int,
        col,
    );
    lemma_nearest_clamps(layout, xy);
    lemma_offset_bounded(layout.nearest_row(xy.x as int), layout.spacing as int);
    lemma_offset_bounded(layout.nearest_col(xy.y as int), layout.spacing as int);
}

/// The clamping of one axis.
pub proof fn lemma_axis_clamps(at: int, origin: int, spacing: int, count: int)
    requires
        spacing > 0,
        count > 0,
    ensures
        0 <= clamp_between(round_div(at - origin, spacing), 0, count - 1) < count,
        at <= origin ==> clamp_between(round_div(at - origin, spacing), 0, count - 1) == 0,
        at >= origin + (count - 1) * spacing ==> clamp_between(
            round_div(at - origin, spacing),
            0,
            count - 1,
        ) == count - 1,
{
    let d = at - origin;
    if d <= 0 {
        lemma_round_div_sign(d, spacing);
    }
    if d >= (count - 1) * spacing {
        assert(d >= 0) by (nonlinear_arith)
            requires
                d >= (count - 1) * spacing,
                count > 0,
                spacing > 0,
        ;
        assert((2 * d + spacing) / (2 * spacing) >= count - 1) by (nonlinear_arith)
            requires
                d >= (count - 1) * spacing,
                spacing > 0,
                count > 0,
        ;
    }
}

} // verus!
