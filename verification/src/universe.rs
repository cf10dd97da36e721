//! The universe: the grid of cells together with the run flag, the pan
//! offset and the zoom scale of its picture.

use vstd::prelude::*;
use crate::cell::Cell;
use crate::draw::{DrawCommand, PixelRect, Rgb};
use crate::model::{
    lemma_cell_size,
    lemma_index_of_cell,
    lemma_quotient_sign,
    lemma_wrap,
    UniverseView,
    MAX_SCALE,
    MIN_SCALE,
    LEG_SIZE,
    SCALE_UNIT,
    SPACING,
};

verus! {

/// A torus of cells that lives by the rules of the Game of Life.
pub struct Universe {
    width: u32,
    height: u32,
    cells: Vec<Cell>,
    running: bool,
    x_offset: i32,
    y_offset: i32,
    scale: u32,
}

impl View for Universe {
    type V = UniverseView;

    closed spec fn view(&self) -> UniverseView {
        UniverseView {
            height: self.height as nat,
            width: self.width as nat,
            cells: self.cells@,
            running: self.running,
            x_offset: self.x_offset as int,
            y_offset: self.y_offset as int,
            scale: self.scale as nat,
        }
    }
}

impl Universe {
    /// What holds of every universe: it has one cell for each place of its
    /// grid, and its scale lies within the bounds.
    #[verifier::type_invariant]
    pub(crate) closed spec fn inv(self) -> bool {
        &&& self.cells@.len() == self.height * self.width
        &&& MIN_SCALE <= self.scale <= MAX_SCALE
    }

    /// The model of a universe is well formed.
    pub(crate) proof fn lemma_view_wf(self)
        requires
            self.inv(),
        ensures
            self@.wf(),
    {
    }

    /// Creates a universe of `height` rows and `width` columns in which every
    /// cell is dead. It is paused, unmoved, and at scale one.
    pub fn new(height: u32, width: u32) -> (universe: Universe)
        requires
            height * width <= isize::MAX,
        ensures
            universe@ == UniverseView::created(height as nat, width as nat),
            universe@.wf(),
    {
        let count: usize = (height as usize) * (width as usize);
        let cells: Vec<Cell> = vec![Cell::Dead; count];
        assert(cells@ =~= UniverseView::created(height as nat, width as nat).cells);
        Universe { width, height, cells, running: false, x_offset: 0, y_offset: 0, scale: SCALE_UNIT }
    }

    /// Position of the cell `(row, col)` in the cell sequence.
    pub fn get_index(&self, row: u32, col: u32) -> (index: usize)
        requires
            self@.has_cell(row as int, col as int),
        ensures
            index == self@.index(row as int, col as int),
            index < self@.cells.len(),
    {
        proof {
            use_type_invariant(self);
            lemma_index_of_cell(self.height as int, self.width as int, row as int, col as int);
            assert(self.cells.len() == self.height * self.width);
            assert(0 <= row * self.width) by (nonlinear_arith);
        }
        (row as usize) * (self.width as usize) + (col as usize)
    }

    /// The cell at `(row, col)`.
    pub fn get_cell(&self, row: u32, col: u32) -> (cell: Cell)
        requires
            self@.has_cell(row as int, col as int),
        ensures
            cell == self@.cell(row as int, col as int),
    {
        let index = self.get_index(row, col);
        self.cells[index]
    }

    /// What the cell at `(row, col)` adds to a count of live cells: 1 if it is
    /// alive, 0 if it is dead.
    fn population_at(&self, row: u32, col: u32) -> (population: u8)
        requires
            self@.has_cell(row as int, col as int),
        ensures
            population == self@.cell(row as int, col as int).population(),
    {
        match self.get_cell(row, col) {
            Cell::Alive => 1,
            Cell::Dead => 0,
        }
    }

    /// Counts the live cells among the eight neighbors of `(row, col)`; the
    /// grid's edges are joined to the opposite edges.
    pub fn get_live_neighbors(&self, row: u32, col: u32) -> (count: u8)
        requires
            self@.has_cell(row as int, col as int),
        ensures
            count == self@.live_neighbors(row as int, col as int),
            count <= 8,
            self@.wf(),
    {
        proof {
            use_type_invariant(self);
            lemma_wrap(row as int, self@.height as int);
            lemma_wrap(col as int, self@.width as int);
        }
        let north: u32 = if row == 0 { self.height - 1 } else { row - 1 };
        let south: u32 = if row == self.height - 1 { 0 } else { row + 1 };
        let west: u32 = if col == 0 { self.width - 1 } else { col - 1 };
        let east: u32 = if col == self.width - 1 { 0 } else { col + 1 };
        let above: u8 = self.population_at(north, west) + self.population_at(north, col)
            + self.population_at(north, east);
        let beside: u8 = self.population_at(row, west) + self.population_at(row, east);
        let below: u8 = self.population_at(south, west) + self.population_at(south, col)
            + self.population_at(south, east);
        above + beside + below
    }

    /// Computes the next generation of every cell from the present one.
    fn next_generation(&self) -> (next: Vec<Cell>)
        ensures
            next@ == self@.next_cells(),
    {
        proof {
            use_type_invariant(self);
        }
        let mut next: Vec<Cell> = Vec::with_capacity(self.cells.len());
        let mut row: u32 = 0;
        while row < self.height
            invariant
                row <= self.height,
                self.cells@.len() == self.height * self.width,
                next@.len() == row * self.width,
                forall|i: int| 0 <= i < next@.len() ==> next@[i] == self@.next_cell(i),
            decreases self.height - row,
        {
            let mut col: u32 = 0;
            while col < self.width
                invariant
                    row < self.height,
                    col <= self.width,
                    self.cells@.len() == self.height * self.width,
                    next@.len() == row * self.width + col,
                    forall|i: int| 0 <= i < next@.len() ==> next@[i] == self@.next_cell(i),
                decreases self.width - col,
            {
                let index = self.get_index(row, col);
                let live_neighbors = self.get_live_neighbors(row, col);
                proof {
                    lemma_index_of_cell(self.height as int, self.width as int, row as int, col as int);
                }
                next.push(self.cells[index].next(live_neighbors));
                col += 1;
            }
            proof {
                assert((row + 1) * self.width == row * self.width + self.width) by (nonlinear_arith);
            }
            row += 1;
        }
        assert(next@ =~= self@.next_cells());
        next
    }

    /// Side in pixels of the square that one cell takes on the screen.
    pub fn cell_size(&self) -> (size: u32)
        ensures
            size == self@.cell_size(),
            1 <= size <= i32::MAX,
            self@.wf(),
    {
        proof {
            use_type_invariant(self);
        }
        let span: u64 = (LEG_SIZE + 2 * SPACING) as u64;
        proof {
            lemma_cell_size(self.scale as int);
            assert(span * self.scale == 12 * self.scale) by (nonlinear_arith)
                requires
                    span == 12,
            ;
        }
        let product: u64 = span * (self.scale as u64);
        (product / (SCALE_UNIT as u64)) as u32
    }

    /// The rectangles that make the picture of the universe: one for each
    /// cell, row after row, white for a live cell and black for a dead one.
    pub fn render(&self) -> (commands: Vec<DrawCommand>)
        ensures
            commands@ == self@.render(),
            self@.wf(),
    {
        proof {
            use_type_invariant(self);
        }
        let size: u32 = self.cell_size();
        let mut commands: Vec<DrawCommand> = Vec::with_capacity(self.cells.len());
        let mut row: u32 = 0;
        while row < self.height
            invariant
                row <= self.height,
                self.cells@.len() == self.height * self.width,
                size == self@.cell_size(),
                1 <= size <= i32::MAX,
                commands@.len() == row * self.width,
                forall|i: int| 0 <= i < commands@.len() ==> commands@[i] == self@.draw_command(i),
            decreases self.height - row,
        {
            assert(0 <= row * size < 0x8000_0000_0000_0000 - 0x1_0000_0000) by (nonlinear_arith)
                requires
                    0 <= row <= u32::MAX,
                    1 <= size <= i32::MAX,
            ;
            let y: i64 = self.y_offset as i64 + (row as i64) * (size as i64);
            let mut col: u32 = 0;
            while col < self.width
                invariant
                    row < self.height,
                    col <= self.width,
                    self.cells@.len() == self.height * self.width,
                    size == self@.cell_size(),
                    1 <= size <= i32::MAX,
                    y == self.y_offset + row * size,
                    commands@.len() == row * self.width + col,
                    forall|i: int| 0 <= i < commands@.len() ==> commands@[i] == self@.draw_command(i),
                decreases self.width - col,
            {
                assert(0 <= col * size < 0x8000_0000_0000_0000 - 0x1_0000_0000) by (nonlinear_arith)
                    requires
                        0 <= col <= u32::MAX,
                        1 <= size <= i32::MAX,
                ;
                let x: i64 = self.x_offset as i64 + (col as i64) * (size as i64);
                let index = self.get_index(row, col);
                proof {
                    lemma_index_of_cell(self.height as int, self.width as int, row as int, col as int);
                }
                commands.push(
                    DrawCommand {
                        rect: PixelRect { x, y, width: size, height: size },
                        color: Rgb::of_cell(self.cells[index]),
                    },
                );
                col += 1;
            }
            proof {
                assert((row + 1) * self.width == row * self.width + self.width) by (nonlinear_arith);
            }
            row += 1;
        }
        assert(commands@ =~= self@.render());
        commands
    }

    /// Finds the cell under the pixel `(x, y)` and returns its position in
    /// the cell sequence, or `None` if the pixel lies off the grid.
    pub fn get_by_coordinates(&self, x: i32, y: i32) -> (found: Option<usize>)
        ensures
            match found {
                Some(index) => self@.cell_at_pixel(x as int, y as int) == Some(index as int)
                    && index < self@.cells.len(),
                None => self@.cell_at_pixel(x as int, y as int) is None,
            },
            self@.wf(),
    {
        proof {
            use_type_invariant(self);
        }
        let size: i64 = self.cell_size() as i64;
        let dx: i64 = x as i64 - self.x_offset as i64;
        let dy: i64 = y as i64 - self.y_offset as i64;
        proof {
            lemma_quotient_sign(dx as int, size as int);
            lemma_quotient_sign(dy as int, size as int);
        }
        if dx < 0 || dy < 0 {
            return None;
        }
        let col: i64 = dx / size;
        let row: i64 = dy / size;
        if row >= self.height as i64 || col >= self.width as i64 {
            return None;
        }
        Some(self.get_index(row as u32, col as u32))
    }

    /// Moves the game on by one generation if the universe is running, and
    /// does nothing if it is paused. Every cell's new state is computed from
    /// the generation before the call.
    pub fn tick(&mut self)
        ensures
            final(self)@ == old(self)@.tick(),
            !old(self)@.running ==> final(self)@ == old(self)@,
            final(self)@.wf(),
    {
        proof {
            use_type_invariant(&*self);
        }
        if self.running {
            self.cells = self.next_generation();
        }
    }

    /// Sets the cell under the pixel `(x, y)` to `cell`; does nothing if the
    /// pixel lies off the grid.
    fn paint(&mut self, x: i32, y: i32, cell: Cell)
        ensures
            final(self)@ == old(self)@.paint(x as int, y as int, cell),
            final(self)@.wf(),
    {
        proof {
            use_type_invariant(&*self);
        }
        match self.get_by_coordinates(x, y) {
            Some(index) => {
                self.cells[index] = cell;
            },
            None => {},
        }
    }

    /// Kills the cell under the pixel `(x, y)`; does nothing if the pixel
    /// lies off the grid.
    pub fn kill(&mut self, x: i32, y: i32)
        ensures
            final(self)@ == old(self)@.paint(x as int, y as int, Cell::Dead),
            final(self)@.wf(),
    {
        self.paint(x, y, Cell::Dead);
    }

    /// Brings the cell under the pixel `(x, y)` to life; does nothing if the
    /// pixel lies off the grid.
    pub fn revive(&mut self, x: i32, y: i32)
        ensures
            final(self)@ == old(self)@.paint(x as int, y as int, Cell::Alive),
            final(self)@.wf(),
    {
        self.paint(x, y, Cell::Alive);
    }

    /// Starts the game if it is paused and pauses it if it is running.
    pub fn toggle_state(&mut self)
        ensures
            final(self)@ == old(self)@.toggle_state(),
            final(self)@.wf(),
    {
        proof {
            use_type_invariant(&*self);
        }
        self.running = !self.running;
    }

    /// Pauses the game.
    pub fn pause(&mut self)
        ensures
            final(self)@ == old(self)@.with_running(false),
            final(self)@.wf(),
    {
        proof {
            use_type_invariant(&*self);
        }
        self.running = false;
    }

    /// Starts the game.
    pub fn run(&mut self)
        ensures
            final(self)@ == old(self)@.with_running(true),
            final(self)@.wf(),
    {
        proof {
            use_type_invariant(&*self);
        }
        self.running = true;
    }

    /// Moves the picture of the grid by `(x, y)` pixels.
    pub fn shift(&mut self, x: i32, y: i32)
        requires
            i32::MIN <= old(self)@.x_offset + x <= i32::MAX,
            i32::MIN <= old(self)@.y_offset + y <= i32::MAX,
        ensures
            final(self)@ == old(self)@.shift(x as int, y as int),
            final(self)@.wf(),
    {
        proof {
            use_type_invariant(&*self);
        }
        self.x_offset = self.x_offset + x;
        self.y_offset = self.y_offset + y;
    }

    /// Adds `increment` tenths to the scale. The scale stops at a tenth and
    /// at its largest value.
    pub fn increment_scale(&mut self, increment: i32)
        ensures
            final(self)@ == old(self)@.increment_scale(increment as int),
            final(self)@.wf(),
    {
        proof {
            use_type_invariant(&*self);
        }
        let sum: i64 = self.scale as i64 + increment as i64;
        if sum < MIN_SCALE as i64 {
            self.scale = MIN_SCALE;
        } else if sum > MAX_SCALE as i64 {
            self.scale = MAX_SCALE;
        } else {
            self.scale = sum as u32;
        }
    }

    /// Kills every cell. Size, offsets, scale and run flag stay as they are.
    pub fn reset(&mut self)
        ensures
            final(self)@ == old(self)@.reset(),
            final(self)@.wf(),
    {
        proof {
            use_type_invariant(&*self);
        }
        let cells: Vec<Cell> = vec![Cell::Dead; self.cells.len()];
        assert(cells@ =~= old(self)@.reset().cells);
        self.cells = cells;
    }

    /// Number of rows.
    pub fn height(&self) -> (height: u32)
        ensures
            height == self@.height,
    {
        self.height
    }

    /// Number of columns.
    pub fn width(&self) -> (width: u32)
        ensures
            width == self@.width,
    {
        self.width
    }

    /// Whether generations advance.
    pub fn is_running(&self) -> (running: bool)
        ensures
            running == self@.running,
    {
        self.running
    }

    /// Pixel column of the grid's left edge.
    pub fn x_offset(&self) -> (x_offset: i32)
        ensures
            x_offset == self@.x_offset,
    {
        self.x_offset
    }

    /// Pixel row of the grid's top edge.
    pub fn y_offset(&self) -> (y_offset: i32)
        ensures
            y_offset == self@.y_offset,
    {
        self.y_offset
    }

    /// The zoom factor in tenths.
    pub fn scale(&self) -> (scale: u32)
        ensures
            scale == self@.scale,
            MIN_SCALE <= scale <= MAX_SCALE,
    {
        proof {
            use_type_invariant(self);
        }
        self.scale
    }
}

} // verus!
