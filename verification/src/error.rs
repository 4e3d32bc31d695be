//! The validation errors that grid operations report.

use vstd::prelude::*;

verus! {

/// Why a grid operation did not accept its input.
///
/// Both conditions are local and recoverable: the grid is left exactly as it
/// was before the call.
#[derive(Clone, Copy, Debug, PartialEq, Eq, Structural)]
pub enum GridError {
    /// The offered value holds more than one character.
    InvalidInput,
    /// The row or the column lies outside the grid.
    OutOfBounds,
}

} // verus!
