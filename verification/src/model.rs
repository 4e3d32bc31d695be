//! The mathematical model of the grid: twenty-five cell values in row-major
//! order, each a sequence of at most one character.
//!
//! Every contract of the executable types is stated over the functions of
//! this module.

use vstd::prelude::*;
use crate::error::GridError;

verus! {

/// Number of rows of the grid.
pub const ROWS: i32 = 5;

/// Number of columns of the grid.
pub const COLS: i32 = 5;

/// Number of cells of the grid, `ROWS * COLS`.
pub const CELL_COUNT: usize = 25;

/// Largest number of characters a cell may hold.
pub const MAX_CELL_LEN: usize = 1;

/// The letters a fresh grid shows, in row-major order: the alphabet without
/// the letter `q`.
pub open spec fn initial_letters() -> Seq<char> {
    seq![
        'a', 'b', 'c', 'd', 'e',
        'f', 'g', 'h', 'i', 'j',
        'k', 'l', 'm', 'n', 'o',
        'p', 'r', 's', 't', 'u',
        'v', 'w', 'x', 'y', 'z',
    ]
}

/// The cell values of a fresh grid: cell `i` holds exactly the `i`-th of the
/// initial letters.
pub open spec fn initial_cells() -> Seq<Seq<char>> {
    Seq::new(CELL_COUNT as nat, |i: int| seq![initial_letters()[i]])
}

/// Whether `(row, col)` names a cell of the grid.
pub open spec fn in_bounds(row: int, col: int) -> bool {
    0 <= row < ROWS && 0 <= col < COLS
}

/// The row-major position of the cell at `(row, col)`.
pub open spec fn cell_index(row: int, col: int) -> int {
    row * COLS + col
}

/// Whether `value` fits into one cell.
pub open spec fn fits_cell(value: Seq<char>) -> bool {
    value.len() <= MAX_CELL_LEN
}

/// Whether `cells` is the content of some grid: twenty-five values, none
/// longer than one character.
pub open spec fn valid_cells(cells: Seq<Seq<char>>) -> bool {
    &&& cells.len() == CELL_COUNT
    &&& forall|i: int| 0 <= i < cells.len() ==> fits_cell(#[trigger] cells[i])
}

/// What reading the cell at `(row, col)` gives.
pub open spec fn cell_value(cells: Seq<Seq<char>>, row: int, col: int) -> Result<
    Seq<char>,
    GridError,
> {
    if in_bounds(row, col) {
        Ok(cells[cell_index(row, col)])
    } else {
        Err(GridError::OutOfBounds)
    }
}

/// What writing `value` into the cell at `(row, col)` gives: the new cell
/// values, or the reason why `value` is not accepted.  A value that is too
/// long is reported as such wherever it was meant to go.
pub open spec fn with_cell_value(
    cells: Seq<Seq<char>>,
    row: int,
    col: int,
    value: Seq<char>,
) -> Result<Seq<Seq<char>>, GridError> {
    if !fits_cell(value) {
        Err(GridError::InvalidInput)
    } else if !in_bounds(row, col) {
        Err(GridError::OutOfBounds)
    } else {
        Ok(cells.update(cell_index(row, col), value))
    }
}

} // verus!
