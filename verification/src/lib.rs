//! A fixed five-by-five grid of single-character text cells.
//!
//! A [`Grid`] starts out with the alphabet, the letter `q` left out, one
//! letter per [`Cell`] in row-major order.  A cell can be read, and it can be
//! overwritten with a value of at most one character; a longer value, or a
//! position outside the grid, is refused with a [`GridError`] and changes
//! nothing.
//!
//! What each operation returns and changes is stated over the mathematical
//! model in [`model`] and proved by Verus.  [`laws`] holds what follows from
//! those contracts for every grid.

pub mod cell;
pub mod error;
pub mod grid;
pub mod laws;
pub mod model;

pub use cell::Cell;
pub use error::GridError;
pub use grid::Grid;
