//! Two classic patterns and what a tick does to them: the block, which
//! stays as it is, and the blinker, which turns and comes back.

use vstd::prelude::*;
use crate::cell::Cell;
use crate::model::{
    lemma_cell_of_index,
    lemma_index_of_cell,
    lemma_wrap,
    ring_after,
    ring_before,
    wrap,
    UniverseView,
};

verus! {

/// Whether the live cells of `u` are just the cells of the grid at which
/// `pattern` holds.
pub open spec fn shows(u: UniverseView, pattern: spec_fn(int, int) -> bool) -> bool {
    forall|r: int, c: int| u.has_cell(r, c) ==> #[trigger] u.cell(r, c) == cell_if(pattern(r, c))
}

/// The block of two by two cells whose upper left cell is `(row, col)`, on a
/// grid of `height` rows and `width` columns. It may reach around the edges.
pub open spec fn block(height: int, width: int, row: int, col: int) -> spec_fn(int, int) -> bool {
    |r: int, c: int| (r == row || r == wrap(row, 1, height)) && (c == col || c == wrap(col, 1, width))
}

/// Three cells side by side in one row, the middle one at `(row, col)`, on a
/// grid of `width` columns.
pub open spec fn row_blinker(width: int, row: int, col: int) -> spec_fn(int, int) -> bool {
    |r: int, c: int| r == row && (c == wrap(col, -1, width) || c == col || c == wrap(col, 1, width))
}

/// Three cells one above the other in one column, the middle one at
/// `(row, col)`, on a grid of `height` rows.
pub open spec fn column_blinker(height: int, row: int, col: int) -> spec_fn(int, int) -> bool {
    |r: int, c: int| c == col && (r == wrap(row, -1, height) || r == row || r == wrap(row, 1, height))
}

/// The state of a cell that is alive just if `alive` holds.
pub open spec fn cell_if(alive: bool) -> Cell {
    if alive {
        Cell::Alive
    } else {
        Cell::Dead
    }
}

/// How many of the eight places around `(r, c)` the pattern holds at.
pub open spec fn pattern_neighbors(
    pattern: spec_fn(int, int) -> bool,
    height: int,
    width: int,
    r: int,
    c: int,
) -> int {
    let north = ring_before(r, height);
    let south = ring_after(r, height);
    let west = ring_before(c, width);
    let east = ring_after(c, width);
    let above = cell_if(pattern(north, west)).population() + cell_if(pattern(north, c)).population()
        + cell_if(pattern(north, east)).population();
    let beside = cell_if(pattern(r, west)).population() + cell_if(pattern(r, east)).population();
    let below = cell_if(pattern(south, west)).population() + cell_if(pattern(south, c)).population()
        + cell_if(pattern(south, east)).population();
    above + beside + below
}

/// In a universe that shows a pattern, the next state of a cell follows from
/// the pattern alone: from whether it holds at the cell, and at how many of
/// the eight places around it.
pub proof fn lemma_next_of_pattern(u: UniverseView, pattern: spec_fn(int, int) -> bool, r: int, c: int)
    requires
        u.wf(),
        u.has_cell(r, c),
        shows(u, pattern),
    ensures
        0 <= u.index(r, c) < u.cells.len(),
        u.live_neighbors(r, c) == pattern_neighbors(pattern, u.height as int, u.width as int, r, c),
        u.next_cell(u.index(r, c)) == cell_if(pattern(r, c)).evolve(
            pattern_neighbors(pattern, u.height as int, u.width as int, r, c),
        ),
{
    let h = u.height as int;
    let w = u.width as int;
    lemma_index_of_cell(h, w, r, c);
    lemma_wrap(r, h);
    lemma_wrap(c, w);
    let north = ring_before(r, h);
    let south = ring_after(r, h);
    let west = ring_before(c, w);
    let east = ring_after(c, w);
    assert(u.neighbor(r, c, -1, -1) == cell_if(pattern(north, west)));
    assert(u.neighbor(r, c, -1, 0) == cell_if(pattern(north, c)));
    assert(u.neighbor(r, c, -1, 1) == cell_if(pattern(north, east)));
    assert(u.neighbor(r, c, 0, -1) == cell_if(pattern(r, west)));
    assert(u.neighbor(r, c, 0, 1) == cell_if(pattern(r, east)));
    assert(u.neighbor(r, c, 1, -1) == cell_if(pattern(south, west)));
    assert(u.neighbor(r, c, 1, 0) == cell_if(pattern(south, c)));
    assert(u.neighbor(r, c, 1, 1) == cell_if(pattern(south, east)));
    assert(u.cell(r, c) == cell_if(pattern(r, c)));
}

/// A universe whose next cells are, place by place, the cells of a pattern
/// shows that pattern after a tick.
proof fn lemma_tick_shows(u: UniverseView, next: spec_fn(int, int) -> bool)
    requires
        u.wf(),
        u.running,
        forall|r: int, c: int| u.has_cell(r, c) ==> #[trigger] u.next_cell(u.index(r, c)) == cell_if(next(r, c)),
    ensures
        u.tick().wf(),
        shows(u.tick(), next),
{
    let v = u.tick();
    assert forall|r: int, c: int| v.has_cell(r, c) implies #[trigger] v.cell(r, c) == cell_if(
        next(r, c),
    ) by {
        lemma_index_of_cell(u.height as int, u.width as int, r, c);
        assert(v.cell(r, c) == u.next_cell(u.index(r, c)));
    }
}

/// Two universes that differ at most in their cells and show the same
/// pattern are the same.
proof fn lemma_same_pattern(u: UniverseView, v: UniverseView, pattern: spec_fn(int, int) -> bool)
    requires
        u.wf(),
        v.wf(),
        v == (UniverseView { cells: v.cells, ..u }),
        shows(u, pattern),
        shows(v, pattern),
    ensures
        u == v,
{
    assert forall|i: int| 0 <= i < u.cells.len() implies u.cells[i] == v.cells[i] by {
        lemma_cell_of_index(u.height as int, u.width as int, i);
        let r = i / (u.width as int);
        let c = i % (u.width as int);
        assert(u.cell(r, c) == cell_if(pattern(r, c)));
        assert(v.cell(r, c) == cell_if(pattern(r, c)));
    }
    assert(u.cells =~= v.cells);
}

/// Around every place of a grid of at least three rows and three columns, the
/// cells of a block are so many that the same block comes next.
proof fn lemma_block_neighbors(height: int, width: int, row: int, col: int, r: int, c: int)
    requires
        height >= 3,
        width >= 3,
        0 <= row < height,
        0 <= col < width,
        0 <= r < height,
        0 <= c < width,
    ensures
        cell_if(block(height, width, row, col)(r, c)).evolve(
            pattern_neighbors(block(height, width, row, col), height, width, r, c),
        ) == cell_if(block(height, width, row, col)(r, c)),
{
    lemma_wrap(row, height);
    lemma_wrap(col, width);
}

/// Around every place of a grid of at least three rows and four columns, the
/// cells of a row blinker are so many that the column blinker comes next.
proof fn lemma_row_blinker_neighbors(height: int, width: int, row: int, col: int, r: int, c: int)
    requires
        height >= 3,
        width >= 4,
        0 <= row < height,
        0 <= col < width,
        0 <= r < height,
        0 <= c < width,
    ensures
        cell_if(row_blinker(width, row, col)(r, c)).evolve(
            pattern_neighbors(row_blinker(width, row, col), height, width, r, c),
        ) == cell_if(column_blinker(height, row, col)(r, c)),
{
    lemma_wrap(row, height);
    lemma_wrap(col, width);
}

/// Around every place of a grid of at least four rows and three columns, the
/// cells of a column blinker are so many that the row blinker comes next.
proof fn lemma_column_blinker_neighbors(height: int, width: int, row: int, col: int, r: int, c: int)
    requires
        height >= 4,
        width >= 3,
        0 <= row < height,
        0 <= col < width,
        0 <= r < height,
        0 <= c < width,
    ensures
        cell_if(column_blinker(height, row, col)(r, c)).evolve(
            pattern_neighbors(column_blinker(height, row, col), height, width, r, c),
        ) == cell_if(row_blinker(width, row, col)(r, c)),
{
    lemma_wrap(row, height);
    lemma_wrap(col, width);
}

/// A block is a still life: on a grid of at least three rows and three
/// columns, a universe whose only live cells are a block of two by two is
/// left as it is by a tick.
pub proof fn lemma_block_is_still(u: UniverseView, row: int, col: int)
    requires
        u.wf(),
        u.height >= 3,
        u.width >= 3,
        u.has_cell(row, col),
        shows(u, block(u.height as int, u.width as int, row, col)),
    ensures
        u.next_cells() == u.cells,
        u.tick() == u,
{
    let h = u.height as int;
    let w = u.width as int;
    let pattern = block(h, w, row, col);
    assert forall|i: int| 0 <= i < u.cells.len() implies u.next_cell(i) == u.cells[i] by {
        lemma_cell_of_index(h, w, i);
        let r = i / w;
        let c = i % w;
        lemma_next_of_pattern(u, pattern, r, c);
        lemma_block_neighbors(h, w, row, col, r, c);
        assert(u.cell(r, c) == cell_if(pattern(r, c)));
    }
    assert(u.next_cells() =~= u.cells);
}

/// One tick turns a row blinker into the column blinker with the same middle
/// cell, on a running universe of at least three rows and four columns.
pub proof fn lemma_row_blinker_turns(u: UniverseView, row: int, col: int)
    requires
        u.wf(),
        u.running,
        u.height >= 3,
        u.width >= 4,
        u.has_cell(row, col),
        shows(u, row_blinker(u.width as int, row, col)),
    ensures
        u.tick().wf(),
        shows(u.tick(), column_blinker(u.height as int, row, col)),
{
    let h = u.height as int;
    let w = u.width as int;
    let next = column_blinker(h, row, col);
    assert forall|r: int, c: int| u.has_cell(r, c) implies #[trigger] u.next_cell(u.index(r, c))
        == cell_if(next(r, c)) by {
        lemma_next_of_pattern(u, row_blinker(w, row, col), r, c);
        lemma_row_blinker_neighbors(h, w, row, col, r, c);
    }
    lemma_tick_shows(u, next);
}

/// One tick turns a column blinker into the row blinker with the same middle
/// cell, on a running universe of at least four rows and three columns.
pub proof fn lemma_column_blinker_turns(u: UniverseView, row: int, col: int)
    requires
        u.wf(),
        u.running,
        u.height >= 4,
        u.width >= 3,
        u.has_cell(row, col),
        shows(u, column_blinker(u.height as int, row, col)),
    ensures
        u.tick().wf(),
        shows(u.tick(), row_blinker(u.width as int, row, col)),
{
    let h = u.height as int;
    let w = u.width as int;
    let next = row_blinker(w, row, col);
    assert forall|r: int, c: int| u.has_cell(r, c) implies #[trigger] u.next_cell(u.index(r, c))
        == cell_if(next(r, c)) by {
        lemma_next_of_pattern(u, column_blinker(h, row, col), r, c);
        lemma_column_blinker_neighbors(h, w, row, col, r, c);
    }
    lemma_tick_shows(u, next);
}

/// A row blinker and the column blinker with the same middle cell are
/// different patterns: the cell left of the middle belongs to the first only.
proof fn lemma_blinkers_differ(u: UniverseView, v: UniverseView, row: int, col: int)
    requires
        u.wf(),
        v.wf(),
        u.height == v.height,
        u.width == v.width,
        u.height >= 3,
        u.width >= 3,
        u.has_cell(row, col),
        shows(u, row_blinker(u.width as int, row, col)),
        shows(v, column_blinker(u.height as int, row, col)),
    ensures
        u.cells != v.cells,
{
    let w = u.width as int;
    lemma_wrap(col, w);
    lemma_wrap(row, u.height as int);
    let west = ring_before(col, w);
    assert(u.cell(row, west) == Cell::Alive);
    assert(v.cell(row, west) == Cell::Dead);
}

/// A blinker has period two: on a running universe of at least four rows and
/// four columns whose only live cells are three in a row, or three in a
/// column, one tick changes the cells and two ticks give the universe back.
pub proof fn lemma_blinker_has_period_two(u: UniverseView, row: int, col: int)
    requires
        u.wf(),
        u.running,
        u.height >= 4,
        u.width >= 4,
        u.has_cell(row, col),
        shows(u, row_blinker(u.width as int, row, col)) || shows(
            u,
            column_blinker(u.height as int, row, col),
        ),
    ensures
        u.tick().tick() == u,
        u.tick() != u,
{
    let h = u.height as int;
    let w = u.width as int;
    let v = u.tick();
    if shows(u, row_blinker(w, row, col)) {
        lemma_row_blinker_turns(u, row, col);
        lemma_column_blinker_turns(v, row, col);
        lemma_blinkers_differ(u, v, row, col);
        lemma_same_pattern(u, v.tick(), row_blinker(w, row, col));
    } else {
        lemma_column_blinker_turns(u, row, col);
        lemma_row_blinker_turns(v, row, col);
        lemma_blinkers_differ(v, u, row, col);
        lemma_same_pattern(u, v.tick(), column_blinker(h, row, col));
    }
}

} // verus!
