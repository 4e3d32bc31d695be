//! What holds of every grid, proved over the model that the contracts of
//! [`Grid`](crate::grid::Grid) are stated in.

use vstd::prelude::*;
use crate::error::GridError;
use crate::model::{
    cell_index, cell_value, fits_cell, in_bounds, initial_cells, initial_letters, valid_cells,
    with_cell_value, CELL_COUNT, COLS, ROWS,
};

verus! {

/// Row-major order: the grid has one cell for each position, and a position
/// inside the grid has an index below the number of cells, from which its
/// row and its column can be read back.  Distinct positions therefore have
/// distinct indices.
pub proof fn lemma_cell_index_is_row_major(row: int, col: int)
    requires
        in_bounds(row, col),
    ensures
        ROWS * COLS == CELL_COUNT,
        0 <= cell_index(row, col) < CELL_COUNT,
        cell_index(row, col) / (COLS as int) == row,
        cell_index(row, col) % (COLS as int) == col,
{
}

/// The initial letters are the alphabet in order with `q` left out: the
/// letters up to `p` stand at their alphabetic position, the letters from
/// `r` on stand one place earlier.
pub proof fn lemma_initial_letters_skip_q(i: int)
    requires
        0 <= i < CELL_COUNT,
    ensures
        initial_letters().len() == CELL_COUNT,
        initial_letters()[i] != 'q',
        i < 16 ==> initial_letters()[i] as int == 'a' as int + i,
        i >= 16 ==> initial_letters()[i] as int == 'a' as int + i + 1,
{
}

/// The content of a fresh grid is the content of a grid.
pub proof fn lemma_initial_cells_valid()
    ensures
        valid_cells(initial_cells()),
{
}

/// Reading any cell of a fresh grid gives exactly the initial letter at the
/// cell's row-major position, five times the row plus the column.
pub proof fn lemma_initial_cell_value(row: int, col: int)
    requires
        in_bounds(row, col),
    ensures
        cell_value(initial_cells(), row, col) == Ok::<Seq<char>, GridError>(
            seq![initial_letters()[5 * row + col]],
        ),
{
}

/// Reading outside the grid is refused as out of bounds, whatever the grid
/// holds.
pub proof fn lemma_read_outside_is_refused(cells: Seq<Seq<char>>, row: int, col: int)
    requires
        !in_bounds(row, col),
    ensures
        cell_value(cells, row, col) == Err::<Seq<char>, GridError>(GridError::OutOfBounds),
{
}

/// Round trip: a value of at most one character written to a cell of the
/// grid is accepted, and reading that cell afterwards gives the value back.
pub proof fn lemma_write_then_read(cells: Seq<Seq<char>>, row: int, col: int, value: Seq<char>)
    requires
        valid_cells(cells),
        in_bounds(row, col),
        fits_cell(value),
    ensures
        with_cell_value(cells, row, col, value) is Ok,
        cell_value(with_cell_value(cells, row, col, value)->Ok_0, row, col) == Ok::<
            Seq<char>,
            GridError,
        >(value),
{
}

/// A write that is accepted changes no cell but the one it names.
pub proof fn lemma_write_leaves_other_cells(
    cells: Seq<Seq<char>>,
    row: int,
    col: int,
    value: Seq<char>,
    other_row: int,
    other_col: int,
)
    requires
        valid_cells(cells),
        in_bounds(row, col),
        fits_cell(value),
        in_bounds(other_row, other_col),
        other_row != row || other_col != col,
    ensures
        cell_value(with_cell_value(cells, row, col, value)->Ok_0, other_row, other_col)
            == cell_value(cells, other_row, other_col),
{
}

/// A write that is accepted leaves a grid: still twenty-five cells, none
/// longer than one character.
pub proof fn lemma_write_preserves_validity(
    cells: Seq<Seq<char>>,
    row: int,
    col: int,
    value: Seq<char>,
)
    requires
        valid_cells(cells),
    ensures
        with_cell_value(cells, row, col, value) matches Ok(after) ==> valid_cells(after),
{
}

/// A value of more than one character is refused as invalid input, wherever
/// it was meant to go; a value that fits is refused only for a position
/// outside the grid.
pub proof fn lemma_write_refusals(cells: Seq<Seq<char>>, row: int, col: int, value: Seq<char>)
    ensures
        !fits_cell(value) <==> with_cell_value(cells, row, col, value) == Err::<
            Seq<Seq<char>>,
            GridError,
        >(GridError::InvalidInput),
        fits_cell(value) && !in_bounds(row, col) <==> with_cell_value(cells, row, col, value)
            == Err::<Seq<Seq<char>>, GridError>(GridError::OutOfBounds),
        fits_cell(value) && in_bounds(row, col) <==> with_cell_value(cells, row, col, value) is Ok,
{
}

} // verus!
