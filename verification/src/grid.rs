//! The grid itself: twenty-five cells in five rows of five.

use vstd::prelude::*;
use vstd::string::*;
use crate::cell::Cell;
use crate::error::GridError;
use crate::model::{
    cell_index, cell_value, fits_cell, in_bounds, initial_cells, valid_cells, with_cell_value,
    CELL_COUNT, COLS, ROWS,
};

verus! {

/// A five-by-five arrangement of cells, stored in row-major order.
///
/// A grid always has its twenty-five cells, and no cell ever holds more than
/// one character.
#[derive(Debug, PartialEq, Eq)]
pub struct Grid {
    cells: [Cell; CELL_COUNT],
}

impl View for Grid {
    type V = Seq<Seq<char>>;

    /// The values of the twenty-five cells in row-major order.
    closed spec fn view(&self) -> Seq<Seq<char>> {
        Seq::new(self.cells@.len(), |i: int| self.cells@[i]@)
    }
}

/// Each one-letter literal that the fresh grid is built from holds exactly
/// its letter.
proof fn lemma_letter_literals()
    ensures
        "a"@ == seq!['a'],
        "b"@ == seq!['b'],
        "c"@ == seq!['c'],
        "d"@ == seq!['d'],
        "e"@ == seq!['e'],
        "f"@ == seq!['f'],
        "g"@ == seq!['g'],
        "h"@ == seq!['h'],
        "i"@ == seq!['i'],
        "j"@ == seq!['j'],
        "k"@ == seq!['k'],
        "l"@ == seq!['l'],
        "m"@ == seq!['m'],
        "n"@ == seq!['n'],
        "o"@ == seq!['o'],
        "p"@ == seq!['p'],
        "r"@ == seq!['r'],
        "s"@ == seq!['s'],
        "t"@ == seq!['t'],
        "u"@ == seq!['u'],
        "v"@ == seq!['v'],
        "w"@ == seq!['w'],
        "x"@ == seq!['x'],
        "y"@ == seq!['y'],
        "z"@ == seq!['z'],
{
    reveal_strlit("a");
    reveal_strlit("b");
    reveal_strlit("c");
    reveal_strlit("d");
    reveal_strlit("e");
    reveal_strlit("f");
    reveal_strlit("g");
    reveal_strlit("h");
    reveal_strlit("i");
    reveal_strlit("j");
    reveal_strlit("k");
    reveal_strlit("l");
    reveal_strlit("m");
    reveal_strlit("n");
    reveal_strlit("o");
    reveal_strlit("p");
    reveal_strlit("r");
    reveal_strlit("s");
    reveal_strlit("t");
    reveal_strlit("u");
    reveal_strlit("v");
    reveal_strlit("w");
    reveal_strlit("x");
    reveal_strlit("y");
    reveal_strlit("z");
}

/// The row-major index of the cell at `(row, col)`, if the grid has such a
/// cell.
fn locate(row: i32, col: i32) -> (index: Option<usize>)
    ensures
        (match index {
            Some(i) => in_bounds(row as int, col as int) && i == cell_index(row as int, col as int),
            None => !in_bounds(row as int, col as int),
        }),
{
    if 0 <= row && row < ROWS && 0 <= col && col < COLS {
        Some((row * COLS + col) as usize)
    } else {
        None
    }
}

impl Grid {
    #[verifier::type_invariant]
    spec fn well_formed(self) -> bool {
        forall|i: int| 0 <= i < CELL_COUNT ==> fits_cell(#[trigger] self.cells@[i]@)
    }

    /// Makes the grid as it is first shown: the alphabet without `q`, one
    /// letter per cell, row by row.
    pub fn initialize() -> (grid: Grid)
        ensures
            grid@ == initial_cells(),
            valid_cells(grid@),
    {
        proof {
            lemma_letter_literals();
        }
        let grid = Grid {
            cells: [
                Cell::of("a"), Cell::of("b"), Cell::of("c"), Cell::of("d"), Cell::of("e"),
                Cell::of("f"), Cell::of("g"), Cell::of("h"), Cell::of("i"), Cell::of("j"),
                Cell::of("k"), Cell::of("l"), Cell::of("m"), Cell::of("n"), Cell::of("o"),
                Cell::of("p"), Cell::of("r"), Cell::of("s"), Cell::of("t"), Cell::of("u"),
                Cell::of("v"), Cell::of("w"), Cell::of("x"), Cell::of("y"), Cell::of("z"),
            ],
        };
        assert(grid@ =~= initial_cells());
        grid
    }

    /// Reads the cell at `(row, col)`.
    ///
    /// Inside the grid the result is the text of that cell, empty or one
    /// character long; outside it the read is refused as out of bounds.
    pub fn get_cell_value(&self, row: i32, col: i32) -> (result: Result<&str, GridError>)
        ensures
            valid_cells(self@),
            (match cell_value(self@, row as int, col as int) {
                Ok(value) => result matches Ok(text) && text@ == value,
                Err(e) => result == Err::<&str, GridError>(e),
            }),
    {
        proof {
            use_type_invariant(self);
        }
        match locate(row, col) {
            Some(index) => Ok(self.cells[index].value()),
            None => Err(GridError::OutOfBounds),
        }
    }

    /// Writes `new_value` into the cell at `(row, col)`.
    ///
    /// A value of more than one character is refused as invalid input, and a
    /// position outside the grid as out of bounds; where both are wrong, the
    /// value is what is reported.  A refused write leaves the grid as it
    /// was.  An accepted write replaces the value of the one cell and touches
    /// no other; the empty value is accepted and clears the cell.
    pub fn set_cell_value(&mut self, row: i32, col: i32, new_value: &str) -> (result: Result<
        (),
        GridError,
    >)
        ensures
            valid_cells(old(self)@),
            valid_cells(final(self)@),
            (match with_cell_value(old(self)@, row as int, col as int, new_value@) {
                Ok(cells) => result is Ok && final(self)@ == cells,
                Err(e) => result == Err::<(), GridError>(e) && final(self)@ == old(self)@,
            }),
    {
        proof {
            use_type_invariant(&*self);
        }
        let cell = match Cell::new(new_value) {
            Ok(cell) => cell,
            Err(e) => {
                return Err(e);
            },
        };
        match locate(row, col) {
            Some(index) => {
                self.cells[index] = cell;
                Ok(())
            },
            None => Err(GridError::OutOfBounds),
        }
    }
}

} // verus!
