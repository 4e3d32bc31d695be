//! One storage slot of the grid.

use vstd::prelude::*;
use vstd::string::*;
use crate::error::GridError;
use crate::model::{fits_cell, MAX_CELL_LEN};

verus! {

/// A slot that holds nothing or exactly one character.
#[derive(Debug, PartialEq, Eq)]
pub struct Cell {
    value: String,
}

impl View for Cell {
    type V = Seq<char>;

    /// The characters the cell holds: none or one.
    closed spec fn view(&self) -> Seq<char> {
        self.value@
    }
}

impl Cell {
    #[verifier::type_invariant]
    spec fn within_limit(self) -> bool {
        fits_cell(self.value@)
    }

    /// Makes a cell that holds `value`, or refuses a value of more than one
    /// character.
    pub fn new(value: &str) -> (result: Result<Cell, GridError>)
        ensures
            (match result {
                Ok(cell) => fits_cell(value@) && cell@ == value@,
                Err(e) => !fits_cell(value@) && e == GridError::InvalidInput,
            }),
    {
        if value.unicode_len() > MAX_CELL_LEN {
            Err(GridError::InvalidInput)
        } else {
            Ok(Cell::of(value))
        }
    }

    /// Makes a cell of a `value` that is known to fit.
    pub(crate) fn of(value: &str) -> (cell: Cell)
        requires
            fits_cell(value@),
        ensures
            cell@ == value@,
    {
        Cell { value: String::from_str(value) }
    }

    /// The text the cell holds: empty, or one character.
    pub fn value(&self) -> (text: &str)
        ensures
            text@ == self@,
            fits_cell(text@),
    {
        proof {
            use_type_invariant(self);
        }
        self.value.as_str()
    }
}

} // verus!
