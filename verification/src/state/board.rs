//! The grid as a mathematical object: its eight lines, what it means for a
//! line to be won, and the result that a grid stands for.
use crate::state::game::{GameResult, Sign};
use vstd::array::spec_array_fill_for_copy_type;
use vstd::array::spec_array_update;
use vstd::prelude::*;

verus! {

/// The grid: three rows of three cells, `board[row][column]`.
pub type Board = [[Sign; 3]; 3];

/// Three cells in the order in which a line lists them.
pub type Trio = (Sign, Sign, Sign);

/// Whether (`row`, `col`) names a cell of the grid.
pub open spec fn in_grid(row: int, col: int) -> bool {
    0 <= row < 3 && 0 <= col < 3
}

/// The grid with nothing on it.
pub open spec fn empty_board() -> Board {
    spec_array_fill_for_copy_type::<[Sign; 3], 3>(
        spec_array_fill_for_copy_type::<Sign, 3>(Sign::Empty),
    )
}

/// The grid `board` with `sign` written at (`row`, `col`) and every other cell
/// as it was.
pub open spec fn placed(board: Board, row: int, col: int, sign: Sign) -> Board {
    spec_array_update(board, row, spec_array_update(board[row], col, sign))
}

/// The cells of column `col`, from the top down.
pub open spec fn column(board: Board, col: int) -> Trio {
    (board[0][col], board[1][col], board[2][col])
}

/// The cells of row `row`, from left to right.
pub open spec fn row(board: Board, row: int) -> Trio {
    (board[row][0], board[row][1], board[row][2])
}

/// The cells from the top left to the bottom right.
pub open spec fn diagonal(board: Board) -> Trio {
    (board[0][0], board[1][1], board[2][2])
}

/// The cells from the bottom left to the top right.
pub open spec fn antidiagonal(board: Board) -> Trio {
    (board[2][0], board[1][1], board[0][2])
}

/// Line `k` of the grid, for `0 <= k < 8`, in the order in which the lines are
/// examined: column 0, row 0, column 1, row 1, column 2, row 2, then the
/// diagonal from the top left and the one from the bottom left.
pub open spec fn line(board: Board, k: int) -> Trio {
    if k == 6 {
        diagonal(board)
    } else if k == 7 {
        antidiagonal(board)
    } else if k % 2 == 0 {
        column(board, k / 2)
    } else {
        row(board, k / 2)
    }
}

/// Whether the cell (`row`, `col`) lies on line `k`.
pub open spec fn on_line(k: int, row: int, col: int) -> bool {
    if k == 6 {
        row == col
    } else if k == 7 {
        row + col == 2
    } else if k % 2 == 0 {
        col == k / 2
    } else {
        row == k / 2
    }
}

/// A line is won when its three cells hold the same sign and are not empty.
pub open spec fn winning(trio: Trio) -> bool {
    trio.0 != Sign::Empty && trio.0 == trio.1 && trio.0 == trio.2
}

/// Line `k` is won, and by `sign`.
pub open spec fn won_by(board: Board, k: int, sign: Sign) -> bool {
    winning(line(board, k)) && line(board, k).0 == sign
}

/// `sign` owns at least one full line.
pub open spec fn has_line(board: Board, sign: Sign) -> bool {
    exists|k: int| 0 <= k < 8 && won_by(board, k, sign)
}

/// No cell is empty.
pub open spec fn is_full(board: Board) -> bool {
    forall|r: int, c: int| in_grid(r, c) ==> board[r][c] != Sign::Empty
}

/// Every cell is empty.
pub open spec fn is_blank(board: Board) -> bool {
    forall|r: int, c: int| in_grid(r, c) ==> board[r][c] == Sign::Empty
}

/// The first won line at or after line `from`, or 8 where there is none.
pub open spec fn first_win(board: Board, from: int) -> int
    decreases 8 - from,
{
    if from >= 8 {
        8
    } else if winning(line(board, from)) {
        from
    } else {
        first_win(board, from + 1)
    }
}

/// The result that a won line gives: that of the sign which holds it.
pub open spec fn winner(trio: Trio) -> GameResult {
    if trio.0 == Sign::X {
        GameResult::PlayerX
    } else {
        GameResult::PlayerO
    }
}

/// The result that a grid stands for: the holder of its first won line; a
/// draw where no line is won and the grid is full; otherwise still open.
pub open spec fn outcome(board: Board) -> GameResult {
    let k = first_win(board, 0);
    if k < 8 {
        winner(line(board, k))
    } else if is_full(board) {
        GameResult::Draw
    } else {
        GameResult::InProgress
    }
}

/// `first_win` returns a won line, the earliest from `from` on, or 8.
pub proof fn lemma_first_win(board: Board, from: int)
    requires
        0 <= from <= 8,
    ensures
        from <= first_win(board, from) <= 8,
        first_win(board, from) < 8 ==> winning(line(board, first_win(board, from))),
        forall|j: int| from <= j < first_win(board, from) ==> !winning(#[trigger] line(board, j)),
    decreases 8 - from,
{
    if from < 8 && !winning(line(board, from)) {
        lemma_first_win(board, from + 1);
    }
}

/// 1 where `cell` holds `sign`, else 0.
pub open spec fn tally(cell: Sign, sign: Sign) -> int {
    if cell == sign {
        1
    } else {
        0
    }
}

/// How many cells of the grid hold `sign`.
pub open spec fn marks(board: Board, sign: Sign) -> int {
    tally(board[0][0], sign) + tally(board[0][1], sign) + tally(board[0][2], sign) + tally(
        board[1][0],
        sign,
    ) + tally(board[1][1], sign) + tally(board[1][2], sign) + tally(board[2][0], sign) + tally(
        board[2][1],
        sign,
    ) + tally(board[2][2], sign)
}

/// Cell by cell, `placed` changes the one cell it names and no other.
pub proof fn lemma_placed(board: Board, row: int, col: int, sign: Sign)
    requires
        in_grid(row, col),
    ensures
        forall|r: int, c: int|
            in_grid(r, c) ==> #[trigger] placed(board, row, col, sign)[r][c] == (if r == row && c
                == col {
                sign
            } else {
                board[r][c]
            }),
{
}

/// A blank grid has no won line, is not full and holds no marks.
pub proof fn lemma_blank(board: Board)
    requires
        is_blank(board),
    ensures
        outcome(board) == GameResult::InProgress,
        marks(board, Sign::X) == 0,
        marks(board, Sign::O) == 0,
{
    assert(in_grid(0, 0) && in_grid(0, 1) && in_grid(0, 2));
    assert(in_grid(1, 0) && in_grid(1, 1) && in_grid(1, 2));
    assert(in_grid(2, 0) && in_grid(2, 1) && in_grid(2, 2));
    lemma_no_win(board);
}

/// Where no line is won, the grid stands for a draw if it is full and for no
/// result yet if it is not.
pub proof fn lemma_no_win(board: Board)
    requires
        forall|k: int| 0 <= k < 8 ==> !winning(#[trigger] line(board, k)),
    ensures
        first_win(board, 0) == 8,
        outcome(board) == if is_full(board) {
            GameResult::Draw
        } else {
            GameResult::InProgress
        },
{
    lemma_first_win(board, 0);
}

/// A mark set on an empty cell can only finish lines through that cell, and
/// only for the sign that was set.
pub proof fn lemma_fresh_lines(board: Board, row: int, col: int, sign: Sign, k: int)
    requires
        in_grid(row, col),
        board[row][col] == Sign::Empty,
        0 <= k < 8,
        !winning(line(board, k)),
        winning(line(placed(board, row, col, sign), k)),
    ensures
        on_line(k, row, col),
        line(placed(board, row, col, sign), k).0 == sign,
{
    lemma_placed(board, row, col, sign);
    let after = placed(board, row, col, sign);
    assert(in_grid(0, 0) && in_grid(0, 1) && in_grid(0, 2));
    assert(in_grid(1, 0) && in_grid(1, 1) && in_grid(1, 2));
    assert(in_grid(2, 0) && in_grid(2, 1) && in_grid(2, 2));
}

/// A mark set on an empty cell adds one to the marks of its sign and leaves
/// the marks of the other sign as they were.
pub proof fn lemma_marks_after_placing(board: Board, row: int, col: int, sign: Sign, other: Sign)
    requires
        in_grid(row, col),
        board[row][col] == Sign::Empty,
        sign != Sign::Empty,
        other != Sign::Empty,
    ensures
        marks(placed(board, row, col, sign), other) == marks(board, other) + tally(sign, other),
{
    lemma_placed(board, row, col, sign);
    assert(in_grid(0, 0) && in_grid(0, 1) && in_grid(0, 2));
    assert(in_grid(1, 0) && in_grid(1, 1) && in_grid(1, 2));
    assert(in_grid(2, 0) && in_grid(2, 1) && in_grid(2, 2));
}

} // verus!
