//! What a universe asks a canvas to draw: filled rectangles in pixel
//! coordinates, each with its color.

use vstd::prelude::*;
use crate::cell::Cell;

verus! {

/// A color by its red, green and blue parts.
#[derive(Clone, Copy, PartialEq, Eq, Structural, Debug)]
pub struct Rgb {
    pub r: u8,
    pub g: u8,
    pub b: u8,
}

/// The color that a cell is drawn in: white when alive, black when dead.
pub open spec fn cell_color(cell: Cell) -> Rgb {
    match cell {
        Cell::Alive => Rgb { r: 255, g: 255, b: 255 },
        Cell::Dead => Rgb { r: 0, g: 0, b: 0 },
    }
}

/// The color of the canvas where no cell is drawn.
pub open spec fn background_color() -> Rgb {
    Rgb { r: 120, g: 120, b: 120 }
}

impl Rgb {
    /// The color that `cell` is drawn in.
    pub fn of_cell(cell: Cell) -> (color: Rgb)
        ensures
            color == cell_color(cell),
    {
        match cell {
            Cell::Alive => Rgb { r: 255, g: 255, b: 255 },
            Cell::Dead => Rgb { r: 0, g: 0, b: 0 },
        }
    }

    /// The color that the canvas is cleared to before the cells are drawn.
    pub fn background() -> (color: Rgb)
        ensures
            color == background_color(),
    {
        Rgb { r: 120, g: 120, b: 120 }
    }
}

/// A rectangle of pixels: its top-left corner and its size. It covers the
/// columns from `x` up to, and not including, `x + width`, and the rows
/// likewise.
#[derive(Clone, Copy, PartialEq, Eq, Structural, Debug)]
pub struct PixelRect {
    pub x: i64,
    pub y: i64,
    pub width: u32,
    pub height: u32,
}

impl PixelRect {
    /// Whether the pixel `(x, y)` lies in the rectangle.
    pub open spec fn covers(self, x: int, y: int) -> bool {
        &&& self.x <= x < self.x + self.width
        &&& self.y <= y < self.y + self.height
    }

    /// Whether the pixel `(x, y)` lies in the rectangle.
    pub fn contains(&self, x: i32, y: i32) -> (inside: bool)
        ensures
            inside == self.covers(x as int, y as int),
    {
        let right: i128 = self.x as i128 + self.width as i128;
        let bottom: i128 = self.y as i128 + self.height as i128;
        self.x <= x as i64 && (x as i128) < right && self.y <= y as i64 && (y as i128) < bottom
    }
}

/// One filled rectangle to draw.
#[derive(Clone, Copy, PartialEq, Eq, Structural, Debug)]
pub struct DrawCommand {
    pub rect: PixelRect,
    pub color: Rgb,
}

} // verus!
