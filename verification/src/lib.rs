//! Conway's Game of Life on a fixed-size two-dimensional grid.
//!
//! `rules` holds the mathematical model of the transition rule,
//! `grid_state` the cell grid and the generation step, and `sim`
//! the fixed-interval stepping loop that gates steps by wall-clock
//! timestamps. Rendering and windowing are left to the embedding
//! program, which reads the grid cell by cell.

pub mod grid_state;
pub mod rules;
pub mod sim;
