use vstd::prelude::*;

verus! {

/// One cell of the grid: dead or alive. A cell is a pure value with no
/// identity beyond its state.
#[derive(Clone, Copy, Debug, PartialEq, Eq, Structural)]
pub enum Cell {
    Dead,
    Alive,
}

/// A cell's contribution to a live-neighbor count: a live cell counts as one,
/// a dead cell as nothing.
pub open spec fn cell_count(c: Cell) -> int {
    if c is Alive {
        1
    } else {
        0
    }
}

/// The opposite state.
pub open spec fn flip(c: Cell) -> Cell {
    match c {
        Cell::Alive => Cell::Dead,
        Cell::Dead => Cell::Alive,
    }
}

/// The transition rule, applied per cell and generation, first match wins:
/// a live cell with fewer than two live neighbors dies (underpopulation);
/// a live cell with two or three live neighbors survives;
/// a live cell with more than three live neighbors dies (overpopulation);
/// a dead cell with exactly three live neighbors is born;
/// every other cell keeps its state.
pub open spec fn next_cell(c: Cell, live_neighbors: int) -> Cell {
    if c is Alive && live_neighbors < 2 {
        Cell::Dead
    } else if c is Alive && (live_neighbors == 2 || live_neighbors == 3) {
        Cell::Alive
    } else if c is Alive && live_neighbors > 3 {
        Cell::Dead
    } else if c is Dead && live_neighbors == 3 {
        Cell::Alive
    } else {
        c
    }
}

impl Cell {
    /// Flips this cell between alive and dead.
    pub fn toogle(&mut self)
        ensures
            *final(self) == flip(*old(self)),
    {
        *self = match *self {
            Cell::Alive => Cell::Dead,
            Cell::Dead => Cell::Alive,
        };
    }

    /// This cell's contribution to a neighbor count, as a machine integer.
    pub fn to_count(&self) -> (n: u8)
        ensures
            n as int == cell_count(*self),
    {
        match *self {
            Cell::Alive => 1,
            Cell::Dead => 0,
        }
    }

    /// Applies the transition rule to this cell given its live-neighbor count.
    pub fn next(self, live_neighbors: u8) -> (r: Cell)
        ensures
            r == next_cell(self, live_neighbors as int),
    {
        match self {
            Cell::Alive => {
                if live_neighbors < 2 {
                    Cell::Dead
                } else if live_neighbors <= 3 {
                    Cell::Alive
                } else {
                    Cell::Dead
                }
            },
            Cell::Dead => {
                if live_neighbors == 3 {
                    Cell::Alive
                } else {
                    Cell::Dead
                }
            },
        }
    }
}

} // verus!
