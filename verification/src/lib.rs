//! Conway's Game of Life on a fixed-size torus.
//!
//! [`Universe`] owns the cells of one generation and advances them in place.
//! Its contracts are stated over [`Grid`], the mathematical model of a
//! generation.

pub mod cell;
pub mod error;
pub mod grid;
pub mod laws;
pub mod universe;

pub use cell::Cell;
pub use error::UniverseError;
pub use grid::Grid;
pub use universe::Universe;
