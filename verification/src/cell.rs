//! The state of one cell and the rule that takes it to the next generation.

use vstd::prelude::*;

verus! {

/// One cell of the grid.
#[derive(Clone, Copy, PartialEq, Eq, Structural, Debug)]
pub enum Cell {
    Dead,
    Alive,
}

impl Cell {
    /// 1 for a live cell, 0 for a dead one: what the cell adds to a neighbor count.
    pub open spec fn population(self) -> int {
        match self {
            Cell::Dead => 0,
            Cell::Alive => 1,
        }
    }

    /// The cell's state in the next generation, given its number of live neighbors:
    /// a live cell survives with two or three, a dead cell is born with exactly three.
    pub open spec fn evolve(self, live_neighbors: int) -> Cell {
        match self {
            Cell::Alive => if live_neighbors == 2 || live_neighbors == 3 {
                Cell::Alive
            } else {
                Cell::Dead
            },
            Cell::Dead => if live_neighbors == 3 {
                Cell::Alive
            } else {
                Cell::Dead
            },
        }
    }

    /// Whether the cell is alive.
    pub fn is_alive(self) -> (alive: bool)
        ensures
            alive == (self == Cell::Alive),
            alive == (self.population() == 1),
    {
        match self {
            Cell::Alive => true,
            Cell::Dead => false,
        }
    }

    /// Applies the rule of the game to one cell.
    pub fn next(self, live_neighbors: u8) -> (next: Cell)
        ensures
            next == self.evolve(live_neighbors as int),
    {
        match self {
            Cell::Alive => if live_neighbors == 2 || live_neighbors == 3 {
                Cell::Alive
            } else {
                Cell::Dead
            },
            Cell::Dead => if live_neighbors == 3 {
                Cell::Alive
            } else {
                Cell::Dead
            },
        }
    }
}

} // verus!
