//! A finite 2D grid of terrain squares, each optionally occupied by a being,
//! together with the validation and application of single-step moves.
//!
//! The grid is a row-major sequence of squares; a move is attempted in one of
//! the four compass directions and either relocates the being atomically or
//! fails with a typed error, leaving the grid unchanged.

pub mod grid;
pub mod laws;
pub mod terrain;
