//! A cellular automaton on a fixed-size toroidal grid with hexagonal
//! adjacency: each cell has six neighbors, found through row-parity-dependent
//! column offsets, and the grid wraps around at every edge. Generations are
//! advanced by a neighbor-counting survival rule, computed wholesale from a
//! snapshot of the prior generation.

pub mod cell;
pub mod grid;
pub mod laws;
pub mod render;

pub use cell::Cell;
pub use grid::Universe;
