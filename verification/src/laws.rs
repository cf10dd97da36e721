//! Laws that hold of every universe, proved over the model: how counting
//! wraps, what pausing and toggling do, and how pixels and cells correspond.

use vstd::prelude::*;
use vstd::arithmetic::div_mod::{
    lemma_fundamental_div_mod,
    lemma_fundamental_div_mod_converse,
    lemma_mod_bound,
};
use crate::cell::Cell;
use crate::model::{
    lemma_cell_of_index,
    lemma_cell_size,
    lemma_index_of_cell,
    lemma_quotient_sign,
    lemma_wrap,
    UniverseView,
};

verus! {

/// Counting wraps around the corners: on every grid the cell in the last row
/// and last column is the neighbor above and left of the cell in the first
/// row and first column, so when it is alive the first cell has at least one
/// live neighbor.
pub proof fn lemma_origin_counts_far_corner(u: UniverseView)
    requires
        u.wf(),
        u.height >= 1,
        u.width >= 1,
    ensures
        u.neighbor(0, 0, -1, -1) == u.cell(u.height - 1, u.width - 1),
        u.live_neighbors(0, 0) >= u.cell(u.height - 1, u.width - 1).population(),
        u.cell(u.height - 1, u.width - 1) == Cell::Alive ==> u.live_neighbors(0, 0) >= 1,
{
    lemma_wrap(0, u.height as int);
    lemma_wrap(0, u.width as int);
}

/// A tick of a paused universe changes nothing, whatever its cells are.
pub proof fn lemma_paused_tick_is_identity(u: UniverseView)
    requires
        !u.running,
    ensures
        u.tick() == u,
{
}

/// Toggling the run flag twice gives the universe back: the flag as it was,
/// and the cells untouched by either toggle.
pub proof fn lemma_toggle_twice(u: UniverseView)
    ensures
        u.toggle_state().toggle_state() == u,
        u.toggle_state().cells == u.cells,
        u.toggle_state().running == !u.running,
{
}

/// A pixel that maps to a cell lies in the rectangle that is drawn for that
/// cell.
pub proof fn lemma_pixel_round_trip(u: UniverseView, x: int, y: int)
    requires
        u.wf(),
        i32::MIN <= x <= i32::MAX,
        i32::MIN <= y <= i32::MAX,
        u.cell_at_pixel(x, y) is Some,
    ensures
        0 <= u.cell_at_pixel(x, y).unwrap() < u.cells.len(),
        u.render()[u.cell_at_pixel(x, y).unwrap()].rect.covers(x, y),
        u.cell_rect(u.row_at_pixel(y), u.col_at_pixel(x)).covers(x, y),
{
    let size = u.cell_size();
    let row = u.row_at_pixel(y);
    let col = u.col_at_pixel(x);
    lemma_cell_size(u.scale as int);
    lemma_index_of_cell(u.height as int, u.width as int, row, col);
    lemma_fundamental_div_mod(x - u.x_offset, size);
    lemma_mod_bound(x - u.x_offset, size);
    lemma_fundamental_div_mod(y - u.y_offset, size);
    lemma_mod_bound(y - u.y_offset, size);
    assert(size * col == col * size && size * row == row * size) by (nonlinear_arith);
}

/// The picture and the pixel map are inverse to each other: the rectangle
/// that is drawn for a cell covers just the pixels that map to that cell. So
/// a pixel lies in one rectangle at most, and in none if it lies off the grid.
pub proof fn lemma_rect_covers_the_pixels_of_its_cell(u: UniverseView, i: int, x: int, y: int)
    requires
        u.wf(),
        0 <= i < u.cells.len(),
        i32::MIN <= x <= i32::MAX,
        i32::MIN <= y <= i32::MAX,
    ensures
        u.render()[i].rect.covers(x, y) <==> u.cell_at_pixel(x, y) == Some(i),
{
    let size = u.cell_size();
    let h = u.height as int;
    let w = u.width as int;
    let row = i / w;
    let col = i % w;
    lemma_cell_size(u.scale as int);
    lemma_cell_of_index(h, w, i);
    assert(0 <= col * size <= u32::MAX * size && 0 <= row * size <= u32::MAX * size) by (nonlinear_arith)
        requires
            0 <= col <= u32::MAX,
            0 <= row <= u32::MAX,
            0 < size,
    ;
    if u.render()[i].rect.covers(x, y) {
        lemma_fundamental_div_mod_converse(x - u.x_offset, size, col, x - u.x_offset - col * size);
        lemma_fundamental_div_mod_converse(y - u.y_offset, size, row, y - u.y_offset - row * size);
    }
    if u.cell_at_pixel(x, y) == Some(i) {
        lemma_index_of_cell(h, w, u.row_at_pixel(y), u.col_at_pixel(x));
        lemma_pixel_round_trip(u, x, y);
    }
}

/// A pixel left of the grid's left edge maps to no cell, and so does a pixel
/// above its top edge. The pixel one column left of the edge is the nearest
/// such pixel.
pub proof fn lemma_pixel_before_grid_is_off(u: UniverseView, x: int, y: int)
    requires
        u.wf(),
    ensures
        x < u.x_offset ==> u.cell_at_pixel(x, y) is None,
        y < u.y_offset ==> u.cell_at_pixel(x, y) is None,
        u.cell_at_pixel(u.x_offset - 1, y) is None,
        u.cell_at_pixel(x, u.y_offset - 1) is None,
{
    let size = u.cell_size();
    lemma_cell_size(u.scale as int);
    lemma_quotient_sign(-1, size);
    assert(u.col_at_pixel(u.x_offset - 1) == -1int / size);
    assert(u.row_at_pixel(u.y_offset - 1) == -1int / size);
    if x < u.x_offset {
        lemma_quotient_sign(x - u.x_offset, size);
    }
    if y < u.y_offset {
        lemma_quotient_sign(y - u.y_offset, size);
    }
}

} // verus!
