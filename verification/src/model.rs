//! The mathematical model of a universe: a torus of cells with a run flag,
//! a pan offset and a zoom scale. Every contract of the executable
//! [`Universe`](crate::universe::Universe) is stated over this model.

use vstd::prelude::*;
use vstd::arithmetic::div_mod::{
    lemma_fundamental_div_mod,
    lemma_fundamental_div_mod_converse,
    lemma_mod_bound,
};
use crate::cell::Cell;
use crate::draw::{cell_color, DrawCommand, PixelRect};

verus! {

/// Side of the square that a cell takes at scale one, without its margin.
pub const LEG_SIZE: u32 = 10;

/// Margin on each side of a cell at scale one.
pub const SPACING: u32 = 1;

/// The scale is held in tenths: this many units make a factor of one.
pub const SCALE_UNIT: u32 = 10;

/// The smallest scale, a tenth. At this scale a cell is still one pixel wide.
pub const MIN_SCALE: u32 = 1;

/// The largest scale. It keeps the side of a cell below 2^31 pixels.
pub const MAX_SCALE: u32 = 1_000_000_000;

/// Side in pixels of the square that one cell takes on the screen at `scale`
/// tenths: the leg and both margins times the scale, rounded down.
pub open spec fn cell_size_at(scale: int) -> int {
    (LEG_SIZE + 2 * SPACING) * scale / (SCALE_UNIT as int)
}

/// `coord + delta` taken on a ring of `dim` places numbered from 0.
pub open spec fn wrap(coord: int, delta: int, dim: int) -> int {
    (coord + delta) % dim
}

/// The place before `coord` on a ring of `dim` places: before the first
/// place lies the last.
pub open spec fn ring_before(coord: int, dim: int) -> int {
    if coord == 0 {
        dim - 1
    } else {
        coord - 1
    }
}

/// The place after `coord` on a ring of `dim` places: after the last place
/// lies the first.
pub open spec fn ring_after(coord: int, dim: int) -> int {
    if coord == dim - 1 {
        0
    } else {
        coord + 1
    }
}

/// What a universe is, as plain mathematics.
pub struct UniverseView {
    /// Number of rows.
    pub height: nat,
    /// Number of columns.
    pub width: nat,
    /// The cells, row after row.
    pub cells: Seq<Cell>,
    /// Whether generations advance.
    pub running: bool,
    /// Pixel column of the grid's left edge.
    pub x_offset: int,
    /// Pixel row of the grid's top edge.
    pub y_offset: int,
    /// Zoom factor in tenths.
    pub scale: nat,
}

impl UniverseView {
    /// The values that a universe can take: one cell for each place of the grid,
    /// a scale within its bounds, and sizes and offsets that fit their machine types.
    pub open spec fn wf(self) -> bool {
        &&& self.height <= u32::MAX
        &&& self.width <= u32::MAX
        &&& self.cells.len() == self.height * self.width
        &&& i32::MIN <= self.x_offset <= i32::MAX
        &&& i32::MIN <= self.y_offset <= i32::MAX
        &&& MIN_SCALE <= self.scale <= MAX_SCALE
    }

    /// The universe as it is created: `height` rows and `width` columns of
    /// dead cells, paused, unmoved, at scale one.
    pub open spec fn created(height: nat, width: nat) -> UniverseView {
        UniverseView {
            height,
            width,
            cells: Seq::new(height * width, |i: int| Cell::Dead),
            running: false,
            x_offset: 0,
            y_offset: 0,
            scale: SCALE_UNIT as nat,
        }
    }

    /// Whether `(row, col)` names a cell of the grid.
    pub open spec fn has_cell(self, row: int, col: int) -> bool {
        0 <= row < self.height && 0 <= col < self.width
    }

    /// Position of cell `(row, col)` in the cell sequence.
    pub open spec fn index(self, row: int, col: int) -> int {
        row * self.width + col
    }

    /// The cell at `(row, col)`.
    pub open spec fn cell(self, row: int, col: int) -> Cell {
        self.cells[self.index(row, col)]
    }

    /// The cell that lies `(d_row, d_col)` away from `(row, col)`, around the edges.
    pub open spec fn neighbor(self, row: int, col: int, d_row: int, d_col: int) -> Cell {
        self.cell(wrap(row, d_row, self.height as int), wrap(col, d_col, self.width as int))
    }

    /// How many of the eight cells around `(row, col)` are alive. On a grid of
    /// fewer than three rows or columns one cell is met several times, and is
    /// counted each time.
    pub open spec fn live_neighbors(self, row: int, col: int) -> int {
        self.neighbor(row, col, -1, -1).population()
            + self.neighbor(row, col, -1, 0).population()
            + self.neighbor(row, col, -1, 1).population()
            + self.neighbor(row, col, 0, -1).population()
            + self.neighbor(row, col, 0, 1).population()
            + self.neighbor(row, col, 1, -1).population()
            + self.neighbor(row, col, 1, 0).population()
            + self.neighbor(row, col, 1, 1).population()
    }

    /// The cell at position `i` of the sequence, one generation on.
    pub open spec fn next_cell(self, i: int) -> Cell {
        self.cells[i].evolve(self.live_neighbors(i / (self.width as int), i % (self.width as int)))
    }

    /// All cells one generation on, each computed from the present generation.
    pub open spec fn next_cells(self) -> Seq<Cell> {
        Seq::new(self.cells.len(), |i: int| self.next_cell(i))
    }

    /// The universe after one tick: the next generation while running, itself while paused.
    pub open spec fn tick(self) -> UniverseView {
        if self.running {
            UniverseView { cells: self.next_cells(), ..self }
        } else {
            self
        }
    }

    /// The universe with the given run flag.
    pub open spec fn with_running(self, running: bool) -> UniverseView {
        UniverseView { running, ..self }
    }

    /// The universe with its run flag turned over.
    pub open spec fn toggle_state(self) -> UniverseView {
        self.with_running(!self.running)
    }

    /// The universe moved by `(x, y)` pixels.
    pub open spec fn shift(self, x: int, y: int) -> UniverseView {
        UniverseView { x_offset: self.x_offset + x, y_offset: self.y_offset + y, ..self }
    }

    /// The scale after `increment` tenths are added, held within its bounds.
    pub open spec fn scale_after(self, increment: int) -> nat {
        if self.scale + increment < MIN_SCALE {
            MIN_SCALE as nat
        } else if self.scale + increment > MAX_SCALE {
            MAX_SCALE as nat
        } else {
            (self.scale + increment) as nat
        }
    }

    /// The universe with `increment` tenths added to its scale.
    pub open spec fn increment_scale(self, increment: int) -> UniverseView {
        UniverseView { scale: self.scale_after(increment), ..self }
    }

    /// The universe with every cell dead.
    pub open spec fn reset(self) -> UniverseView {
        UniverseView { cells: Seq::new(self.cells.len(), |i: int| Cell::Dead), ..self }
    }

    /// The universe with the cell at position `i` replaced.
    pub open spec fn with_cell(self, i: int, cell: Cell) -> UniverseView {
        UniverseView { cells: self.cells.update(i, cell), ..self }
    }

    /// Side in pixels of the square that one cell takes on the screen.
    pub open spec fn cell_size(self) -> int {
        cell_size_at(self.scale as int)
    }

    /// The pixels that the cell `(row, col)` takes on the screen.
    pub open spec fn cell_rect(self, row: int, col: int) -> PixelRect {
        PixelRect {
            x: (self.x_offset + col * self.cell_size()) as i64,
            y: (self.y_offset + row * self.cell_size()) as i64,
            width: self.cell_size() as u32,
            height: self.cell_size() as u32,
        }
    }

    /// The rectangle to draw for the cell at position `i` of the sequence.
    pub open spec fn draw_command(self, i: int) -> DrawCommand {
        DrawCommand {
            rect: self.cell_rect(i / (self.width as int), i % (self.width as int)),
            color: cell_color(self.cells[i]),
        }
    }

    /// The picture of the universe: one rectangle for each cell, row after row.
    pub open spec fn render(self) -> Seq<DrawCommand> {
        Seq::new(self.cells.len(), |i: int| self.draw_command(i))
    }

    /// Column of cells, counted from the grid's left edge, that the pixel
    /// column `x` falls in. It is negative left of the grid.
    pub open spec fn col_at_pixel(self, x: int) -> int {
        (x - self.x_offset) / self.cell_size()
    }

    /// Row of cells, counted from the grid's top edge, that the pixel row `y`
    /// falls in. It is negative above the grid.
    pub open spec fn row_at_pixel(self, y: int) -> int {
        (y - self.y_offset) / self.cell_size()
    }

    /// Position in the sequence of the cell under the pixel `(x, y)`, if the
    /// pixel lies on the grid.
    pub open spec fn cell_at_pixel(self, x: int, y: int) -> Option<int> {
        if self.has_cell(self.row_at_pixel(y), self.col_at_pixel(x)) {
            Some(self.index(self.row_at_pixel(y), self.col_at_pixel(x)))
        } else {
            None
        }
    }

    /// The universe after the cell under the pixel `(x, y)` is set to `cell`;
    /// the universe itself if the pixel lies off the grid.
    pub open spec fn paint(self, x: int, y: int, cell: Cell) -> UniverseView {
        match self.cell_at_pixel(x, y) {
            Some(i) => self.with_cell(i, cell),
            None => self,
        }
    }
}

/// The side of a cell is twelve tenths of the scale, rounded down. Within the
/// bounds of the scale it is at least one pixel and fits in 32 bits.
pub proof fn lemma_cell_size(scale: int)
    ensures
        cell_size_at(scale) == 12 * scale / 10,
        MIN_SCALE <= scale <= MAX_SCALE ==> 1 <= cell_size_at(scale) <= 1_200_000_000,
{
    assert((LEG_SIZE + 2 * SPACING) * scale == 12 * scale) by (nonlinear_arith)
        requires
            LEG_SIZE + 2 * SPACING == 12,
    ;
}

/// Dividing by a positive number and rounding down keeps the sign: a
/// negative number gives a negative quotient, and a number that is not
/// negative gives a quotient between zero and itself.
pub proof fn lemma_quotient_sign(d: int, size: int)
    requires
        size > 0,
    ensures
        d < 0 ==> d / size < 0,
        d >= 0 ==> 0 <= d / size <= d,
{
    lemma_fundamental_div_mod(d, size);
    lemma_mod_bound(d, size);
    let q = d / size;
    assert(d < 0 ==> q < 0) by (nonlinear_arith)
        requires
            size > 0,
            d - size < size * q <= d,
    ;
    assert(d >= 0 ==> 0 <= q <= d) by (nonlinear_arith)
        requires
            size > 0,
            d - size < size * q <= d,
    ;
}

/// Row and column of a grid `width` wide determine the position in the
/// sequence, and the position determines them.
pub proof fn lemma_index_of_cell(height: int, width: int, row: int, col: int)
    requires
        0 <= row < height,
        0 <= col < width,
    ensures
        0 <= row * width + col < height * width,
        (row * width + col) / width == row,
        (row * width + col) % width == col,
{
    assert(0 <= row * width && (row + 1) * width <= height * width) by (nonlinear_arith)
        requires
            0 <= row < height,
            0 < width,
    ;
    assert((row + 1) * width == row * width + width) by (nonlinear_arith);
    lemma_fundamental_div_mod_converse(row * width + col, width, row, col);
}

/// Every position of the sequence is the position of one cell of the grid.
pub proof fn lemma_cell_of_index(height: int, width: int, i: int)
    requires
        0 <= i < height * width,
        0 <= height,
        0 <= width,
    ensures
        0 <= i / width < height,
        0 <= i % width < width,
        i == (i / width) * width + i % width,
{
    assert(width > 0) by (nonlinear_arith)
        requires
            0 <= i < height * width,
            0 <= height,
            0 <= width,
    ;
    lemma_fundamental_div_mod(i, width);
    lemma_mod_bound(i, width);
    let q = i / width;
    let r = i % width;
    assert(width * q == q * width) by (nonlinear_arith);
    assert(0 <= q < height) by (nonlinear_arith)
        requires
            i == q * width + r,
            0 <= r < width,
            0 <= i < height * width,
    ;
}

/// Moving by one on a ring is a step to the place before or after, and
/// both lie on the ring.
pub proof fn lemma_wrap(coord: int, dim: int)
    requires
        0 <= coord < dim,
    ensures
        wrap(coord, -1, dim) == ring_before(coord, dim),
        wrap(coord, 0, dim) == coord,
        wrap(coord, 1, dim) == ring_after(coord, dim),
        0 <= ring_before(coord, dim) < dim,
        0 <= ring_after(coord, dim) < dim,
{
    if coord == 0 {
        lemma_fundamental_div_mod_converse(-1, dim, -1, dim - 1);
    } else {
        lemma_fundamental_div_mod_converse(coord - 1, dim, 0, coord - 1);
    }
    lemma_fundamental_div_mod_converse(coord, dim, 0, coord);
    if coord == dim - 1 {
        lemma_fundamental_div_mod_converse(coord + 1, dim, 1, 0);
    } else {
        lemma_fundamental_div_mod_converse(coord + 1, dim, 0, coord + 1);
    }
}

} // verus!
