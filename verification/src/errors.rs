use vstd::prelude::*;

verus! {

/// Why an operation on a match was rejected.
#[derive(Clone, Copy, Debug, PartialEq, Eq, Structural)]
pub enum TicTacToeError {
    GameAlreadyOver,
    NotPlayersTurn,
    GameAlreadyStarted,
    InvalidPlayer,
    GameNotInProgress,
    CellAlreadyTaken,
    RowOutOfBounds,
    ColumnOutOfBounds,
}

} // verus!
