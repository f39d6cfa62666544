//! The reasons for which the board refuses an operation.

use vstd::prelude::*;

verus! {

/// Why an operation on a board was refused.
#[derive(Debug, Clone, Copy, PartialEq, Eq, Structural)]
pub enum BoardError {
    /// A board needs at least one row and one column.
    InvalidDimensions,
    /// The cell at `(row, col)` lies outside the grid.
    OutOfBounds { row: usize, col: usize },
}

/// The text that describes `error`.
pub open spec fn message_of(error: BoardError) -> Seq<char> {
    match error {
        BoardError::InvalidDimensions => "Field needs at least one row and one column."@,
        BoardError::OutOfBounds { .. } => "Figure does not fit in field."@,
    }
}

impl BoardError {
    /// A short description of the error for the user.
    pub fn message(&self) -> (text: &'static str)
        ensures
            text@ == message_of(*self),
    {
        match self {
            BoardError::InvalidDimensions => "Field needs at least one row and one column.",
            BoardError::OutOfBounds { .. } => "Figure does not fit in field.",
        }
    }
}

} // verus!
