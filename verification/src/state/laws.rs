//! What holds of every match, proved from the definitions of the three
//! operations.
use crate::digest::sha256_digest;
use crate::errors::TicTacToeError;
use crate::identity::Identity;
use crate::state::board::{
    first_win, has_line, in_grid, is_full, lemma_blank, lemma_first_win, lemma_fresh_lines,
    lemma_marks_after_placing, lemma_placed, line, outcome, placed, winning, won_by, Board,
};
use crate::state::game::{joiner_plays_x, seating_input, Game, GameResult, GameState, Sign};
use vstd::prelude::*;

verus! {

/// After an accepted move that does not end the match, it is the turn of the
/// sign that did not just move.
pub proof fn law_turn_passes_on(game: Game, row: usize, col: usize, player: Identity)
    requires
        game.move_error(row, col, player) is None,
        game.played(row, col, player).status != GameState::Completed,
    ensures
        game.sign_of(player) == Some(game.current_turn),
        game.played(row, col, player).current_turn == game.current_turn.next(),
        game.played(row, col, player).current_turn != game.current_turn,
        game.played(row, col, player).current_turn != Sign::Empty,
        game.played(row, col, player).status == GameState::InProgress,
{
}

/// A completed match stays completed: every move on it is rejected as made
/// on a match that is not in progress, every attempt to join it as made on a
/// match that has started, and neither changes anything.
pub proof fn law_completed_is_final(game: Game, row: usize, col: usize, player: Identity)
    requires
        game.status == GameState::Completed,
    ensures
        game.move_error(row, col, player) == Some(TicTacToeError::GameNotInProgress),
        game.played(row, col, player) == game,
        game.join_error() == Some(TicTacToeError::GameAlreadyStarted),
{
}

/// A match only moves forward: a move leaves the status as it is or
/// completes a match in progress.
pub proof fn law_status_moves_forward(game: Game, row: usize, col: usize, player: Identity)
    ensures
        game.played(row, col, player).status == game.status || (game.status
            == GameState::InProgress && game.played(row, col, player).status
            == GameState::Completed),
        game.status != GameState::InProgress ==> game.played(row, col, player) == game,
{
}

/// A rejected move changes nothing, so the same call made again is rejected
/// for the same reason and again changes nothing.
pub proof fn law_rejection_repeats(game: Game, row: usize, col: usize, player: Identity)
    requires
        game.move_error(row, col, player) is Some,
    ensures
        game.played(row, col, player) == game,
        game.played(row, col, player).board == game.board,
        game.played(row, col, player).move_error(row, col, player) == game.move_error(
            row,
            col,
            player,
        ),
        game.played(row, col, player).played(row, col, player) == game,
{
}

/// The seats depend on the two identities alone: two matches with the same
/// initiator, joined by the same participant, seat them alike. One of the two
/// plays `X` and the other `O`, and `X` is to move.
pub proof fn law_seating_is_determined(first: Game, second: Game, player: Identity)
    requires
        first.initiator == second.initiator,
    ensures
        first.joined(player).player_x == second.joined(player).player_x,
        first.joined(player).player_o == second.joined(player).player_o,
        (first.joined(player).player_x == player && first.joined(player).player_o
            == first.initiator) || (first.joined(player).player_x == first.initiator
            && first.joined(player).player_o == player),
        first.joined(player).player_x == (if joiner_plays_x(
            sha256_digest(seating_input(first.initiator, player)),
        ) {
            player
        } else {
            first.initiator
        }),
        first.joined(player).current_turn == Sign::X,
        first.joined(player).status == GameState::InProgress,
        first.joined(player).board == first.board,
        first.joined(player).game_result == first.game_result,
{
}

/// The result read off a grid is right for every grid. It names a sign only
/// where that sign holds a full line, and names the sign where only one
/// holds any. Where no line is won it is a draw on a full grid and no result
/// yet on any other.
pub proof fn law_outcome_classifies(board: Board)
    ensures
        outcome(board) == GameResult::PlayerX ==> has_line(board, Sign::X),
        outcome(board) == GameResult::PlayerO ==> has_line(board, Sign::O),
        has_line(board, Sign::X) && !has_line(board, Sign::O) ==> outcome(board)
            == GameResult::PlayerX,
        has_line(board, Sign::O) && !has_line(board, Sign::X) ==> outcome(board)
            == GameResult::PlayerO,
        has_line(board, Sign::X) || has_line(board, Sign::O) ==> outcome(board)
            == GameResult::PlayerX || outcome(board) == GameResult::PlayerO,
        !has_line(board, Sign::X) && !has_line(board, Sign::O) && is_full(board) ==> outcome(board)
            == GameResult::Draw,
        !has_line(board, Sign::X) && !has_line(board, Sign::O) && !is_full(board) ==> outcome(
            board,
        ) == GameResult::InProgress,
        !has_line(board, Sign::Empty),
{
    lemma_first_win(board, 0);
    let k = first_win(board, 0);
    if k < 8 {
        assert(won_by(board, k, line(board, k).0));
    } else {
        assert(!has_line(board, Sign::X));
        assert(!has_line(board, Sign::O));
    }
    if has_line(board, Sign::X) || has_line(board, Sign::O) {
        let j = choose|j: int| 0 <= j < 8 && (won_by(board, j, Sign::X) || won_by(board, j, Sign::O));
        assert(winning(line(board, j)));
        assert(k < 8);
    }
}

/// A match that has just been opened is well formed.
pub proof fn law_opened_is_well_formed(initiator: Identity, game_number: u64)
    ensures
        Game::opened(initiator, game_number).wf(),
        Game::opened(initiator, game_number).status == GameState::Open,
{
}

/// Joining an open match that is well formed gives a well-formed match in
/// progress.
pub proof fn law_joined_is_well_formed(game: Game, player: Identity)
    requires
        game.wf(),
        game.status == GameState::Open,
    ensures
        game.joined(player).wf(),
        game.joined(player).status == GameState::InProgress,
{
    lemma_blank(game.board);
}

/// Only the side that moves can win: an accepted move on a well-formed match
/// leaves it undecided, drawn or won by the sign that was set, and leaves the
/// match well formed.
pub proof fn law_only_the_mover_wins(game: Game, row: usize, col: usize, player: Identity)
    requires
        game.wf(),
        game.move_error(row, col, player) is None,
    ensures
        game.played(row, col, player).game_result == GameResult::InProgress || game.played(
            row,
            col,
            player,
        ).game_result == GameResult::Draw || game.played(row, col, player).game_result
            == game.current_turn.wins(),
        !has_line(game.played(row, col, player).board, game.current_turn.next()),
        game.played(row, col, player).wf(),
{
    let sign = game.current_turn;
    let after = placed(game.board, row as int, col as int, sign);
    assert(in_grid(row as int, col as int));
    lemma_first_win(game.board, 0);
    lemma_first_win(after, 0);
    assert forall|k: int| 0 <= k < 8 && winning(#[trigger] line(after, k)) implies line(
        after,
        k,
    ).0 == sign by {
        lemma_fresh_lines(game.board, row as int, col as int, sign, k);
    }
    lemma_marks_after_placing(game.board, row as int, col as int, sign, Sign::X);
    lemma_marks_after_placing(game.board, row as int, col as int, sign, Sign::O);
}

/// A mark, once set, stays: a move changes no cell that holds a sign, and an
/// accepted move changes the one cell it names, from empty to the sign of
/// the side that moved.
pub proof fn law_marks_stay(game: Game, row: usize, col: usize, player: Identity)
    ensures
        forall|r: int, c: int|
            in_grid(r, c) && game.board[r][c] != Sign::Empty ==> #[trigger] game.played(
                row,
                col,
                player,
            ).board[r][c] == game.board[r][c],
        game.move_error(row, col, player) is None ==> game.played(
            row,
            col,
            player,
        ).board[row as int][col as int] == game.current_turn && forall|r: int, c: int|
            in_grid(r, c) && !(r == row && c == col) ==> #[trigger] game.played(
                row,
                col,
                player,
            ).board[r][c] == game.board[r][c],
{
    if game.move_error(row, col, player) is None {
        assert(in_grid(row as int, col as int));
        lemma_placed(game.board, row as int, col as int, game.current_turn);
    }
}

/// One request to move: the row, the column and the participant who asks.
pub type Request = (usize, usize, Identity);

/// The match after the requests of `requests` have been made on it one after
/// the other, each accepted or rejected as its turn came.
pub open spec fn replayed(game: Game, requests: Seq<Request>) -> Game
    decreases requests.len(),
{
    if requests.len() == 0 {
        game
    } else {
        let last = requests.last();
        replayed(game, requests.drop_last()).played(last.0, last.1, last.2)
    }
}

/// Every request of `requests` was accepted when its turn came, and none of
/// them ended the match.
pub open spec fn play_goes_on(game: Game, requests: Seq<Request>) -> bool
    decreases requests.len(),
{
    requests.len() == 0 || {
        let last = requests.last();
        let before = replayed(game, requests.drop_last());
        &&& play_goes_on(game, requests.drop_last())
        &&& before.move_error(last.0, last.1, last.2) is None
        &&& before.played(last.0, last.1, last.2).status != GameState::Completed
    }
}

/// Through any run of accepted moves that do not end the match, the two
/// signs take turns: after an even number of moves it is the turn of the
/// sign that began, after an odd number that of the other.
pub proof fn law_turns_alternate(game: Game, requests: Seq<Request>)
    requires
        play_goes_on(game, requests),
    ensures
        replayed(game, requests).current_turn == (if requests.len() % 2 == 0 {
            game.current_turn
        } else {
            game.current_turn.next()
        }),
        requests.len() > 0 ==> game.current_turn != Sign::Empty && replayed(
            game,
            requests,
        ).status == GameState::InProgress,
    decreases requests.len(),
{
    if requests.len() > 0 {
        let last = requests.last();
        law_turns_alternate(game, requests.drop_last());
        law_turn_passes_on(replayed(game, requests.drop_last()), last.0, last.1, last.2);
    }
}

/// Whatever is asked of a completed match, and however often, it stays as it
/// is.
pub proof fn law_completed_stays(game: Game, requests: Seq<Request>)
    requires
        game.status == GameState::Completed,
    ensures
        replayed(game, requests) == game,
    decreases requests.len(),
{
    if requests.len() > 0 {
        law_completed_stays(game, requests.drop_last());
    }
}

/// Whatever is asked of a well-formed match, and however often, it stays
/// well formed.
pub proof fn law_moves_keep_well_formed(game: Game, requests: Seq<Request>)
    requires
        game.wf(),
    ensures
        replayed(game, requests).wf(),
    decreases requests.len(),
{
    if requests.len() > 0 {
        let last = requests.last();
        let before = replayed(game, requests.drop_last());
        law_moves_keep_well_formed(game, requests.drop_last());
        if before.move_error(last.0, last.1, last.2) is None {
            law_only_the_mover_wins(before, last.0, last.1, last.2);
        }
    }
}

/// Whatever is asked of a match, and however often, a cell that holds a sign
/// holds it ever after.
pub proof fn law_marks_stay_for_good(game: Game, requests: Seq<Request>, row: int, col: int)
    requires
        in_grid(row, col),
        game.board[row][col] != Sign::Empty,
    ensures
        replayed(game, requests).board[row][col] == game.board[row][col],
    decreases requests.len(),
{
    if requests.len() > 0 {
        let last = requests.last();
        law_marks_stay_for_good(game, requests.drop_last(), row, col);
        law_marks_stay(replayed(game, requests.drop_last()), last.0, last.1, last.2);
    }
}

} // verus!
