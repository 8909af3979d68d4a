use crate::digest::{sha256, sha256_digest};
use crate::errors::TicTacToeError;
use crate::identity::Identity;
use crate::state::board::{
    antidiagonal, column, diagonal, empty_board, first_win, in_grid, is_blank, is_full, line, marks,
    outcome, placed, row, tally, winning,
};
use crate::state::laws::{law_joined_is_well_formed, law_only_the_mover_wins};
use vstd::prelude::*;

verus! {

/// Where a match stands in its life.
#[derive(Clone, Copy, Debug, PartialEq, Eq, Structural)]
pub enum GameState {
    Open,
    InProgress,
    Completed,
}

/// How a match ended, or `InProgress` while it has not.
#[derive(Clone, Copy, Debug, PartialEq, Eq, Structural)]
pub enum GameResult {
    InProgress,
    PlayerX,
    PlayerO,
    Draw,
}

/// What a cell of the grid holds; also names whose turn it is.
#[derive(Clone, Copy, Debug, PartialEq, Eq, Structural)]
pub enum Sign {
    X,
    O,
    Empty,
}

impl Sign {
    /// The sign that moves after `self`: `O` after `X`, and `X` after
    /// anything else.
    pub open spec fn next(self) -> Sign {
        if self == Sign::X {
            Sign::O
        } else {
            Sign::X
        }
    }

    /// The result of a match that `self` has won.
    pub open spec fn wins(self) -> GameResult {
        if self == Sign::X {
            GameResult::PlayerX
        } else {
            GameResult::PlayerO
        }
    }
}

/// One match.
#[derive(Clone, Copy, Debug, PartialEq, Eq)]
pub struct Game {
    pub board: [[Sign; 3]; 3],
    pub status: GameState,
    pub player_o: Identity,
    pub player_x: Identity,
    pub current_turn: Sign,
    pub initiator: Identity,
    pub game_number: u64,
    pub game_result: GameResult,
}

/// The bytes that decide who plays `X`: those of the initiator, then those of
/// the participant who joins.
pub open spec fn seating_input(initiator: Identity, player: Identity) -> Seq<u8> {
    initiator@ + player@
}

/// Whether a digest seats the joining participant as `X`: its first byte is
/// even.
pub open spec fn joiner_plays_x(digest: Seq<u8>) -> bool {
    digest[0] % 2 == 0
}

/// The bytes of `initiator` followed by those of `player`.
pub fn seating_bytes(initiator: &Identity, player: &Identity) -> (bytes: Vec<u8>)
    ensures
        bytes@ == seating_input(*initiator, *player),
{
    let mut bytes: Vec<u8> = Vec::with_capacity(64);
    let mut i: usize = 0;
    while i < 32
        invariant
            i <= 32,
            bytes@ == initiator@.subrange(0, i as int),
        decreases 32 - i,
    {
        bytes.push(initiator.bytes[i]);
        i += 1;
    }
    let mut j: usize = 0;
    while j < 32
        invariant
            j <= 32,
            bytes@ == initiator@ + player@.subrange(0, j as int),
        decreases 32 - j,
    {
        bytes.push(player.bytes[j]);
        j += 1;
    }
    bytes
}

impl Game {
    /// Bytes of the stored record: nine cells, the status, two players, the
    /// turn, the initiator, the game number and the result.
    pub const MAXIMUM_SIZE: usize = 9 + 1 + 32 + 32 + 1 + 32 + 8 + 1;

    /// What holds of every match that was opened, joined and played through
    /// the operations of this type.
    ///
    /// An open match has a blank grid, no result and nobody to move. A match
    /// in progress has no result, on the grid or on record, the initiator in
    /// one of its seats and `X` or `O` to move, `X` having set as many marks
    /// as `O` or one more, and being the one to move exactly when they are
    /// level. A completed match records the result that its grid stands for,
    /// a draw or a win of the side that moved last, which is the side whose
    /// turn it still shows.
    pub open spec fn wf(self) -> bool {
        match self.status {
            GameState::Open => {
                &&& is_blank(self.board)
                &&& self.game_result == GameResult::InProgress
                &&& self.current_turn == Sign::Empty
            },
            GameState::InProgress => {
                &&& self.current_turn != Sign::Empty
                &&& self.game_result == GameResult::InProgress
                &&& outcome(self.board) == GameResult::InProgress
                &&& (self.player_x == self.initiator || self.player_o == self.initiator)
                &&& marks(self.board, Sign::X) == marks(self.board, Sign::O) + tally(
                    self.current_turn,
                    Sign::O,
                )
            },
            GameState::Completed => {
                &&& self.current_turn != Sign::Empty
                &&& self.game_result == outcome(self.board)
                &&& (self.game_result == GameResult::Draw || self.game_result
                    == self.current_turn.wins())
                &&& (self.player_x == self.initiator || self.player_o == self.initiator)
                &&& marks(self.board, Sign::X) == marks(self.board, Sign::O) + tally(
                    self.current_turn,
                    Sign::X,
                )
            },
        }
    }

    /// The match as it stands right after it was opened.
    pub open spec fn opened(initiator: Identity, game_number: u64) -> Game {
        Game {
            board: empty_board(),
            status: GameState::Open,
            player_o: Identity::unset(),
            player_x: Identity::unset(),
            current_turn: Sign::Empty,
            initiator,
            game_number,
            game_result: GameResult::InProgress,
        }
    }

    /// The match once `player` has sat down and `digest` has decided who
    /// plays `X`. `X` moves first.
    pub open spec fn seated(self, player: Identity, digest: Seq<u8>) -> Game {
        Game {
            status: GameState::InProgress,
            current_turn: Sign::X,
            player_x: if joiner_plays_x(digest) {
                player
            } else {
                self.initiator
            },
            player_o: if joiner_plays_x(digest) {
                self.initiator
            } else {
                player
            },
            ..self
        }
    }

    /// The match once `player` has joined it.
    pub open spec fn joined(self, player: Identity) -> Game {
        self.seated(player, sha256_digest(seating_input(self.initiator, player)))
    }

    /// Why `player` may not join, if so.
    pub open spec fn join_error(self) -> Option<TicTacToeError> {
        if self.status != GameState::Open {
            Some(TicTacToeError::GameAlreadyStarted)
        } else {
            None
        }
    }

    /// The sign that `player` plays, if any. A participant who holds both
    /// seats plays `X`.
    pub open spec fn sign_of(self, player: Identity) -> Option<Sign> {
        if self.player_x == player {
            Some(Sign::X)
        } else if self.player_o == player {
            Some(Sign::O)
        } else {
            None
        }
    }

    /// Why the move of `player` to (`row`, `col`) is rejected, if it is. The
    /// checks stand in the order in which they are made.
    pub open spec fn move_error(self, row: usize, col: usize, player: Identity) -> Option<
        TicTacToeError,
    > {
        if self.status != GameState::InProgress {
            Some(TicTacToeError::GameNotInProgress)
        } else if row >= 3 {
            Some(TicTacToeError::RowOutOfBounds)
        } else if col >= 3 {
            Some(TicTacToeError::ColumnOutOfBounds)
        } else if self.sign_of(player) is None {
            Some(TicTacToeError::InvalidPlayer)
        } else if self.sign_of(player) != Some(self.current_turn) {
            Some(TicTacToeError::NotPlayersTurn)
        } else if self.board[row as int][col as int] != Sign::Empty {
            Some(TicTacToeError::CellAlreadyTaken)
        } else {
            None
        }
    }

    /// The match after the side to move has taken (`row`, `col`): the sign is
    /// on the grid and the result follows from the grid. A decided match is
    /// completed and its turn stays; an undecided one passes the turn on.
    pub open spec fn after_move(self, row: usize, col: usize) -> Game {
        let board = placed(self.board, row as int, col as int, self.current_turn);
        let result = outcome(board);
        if result != GameResult::InProgress {
            Game { board, game_result: result, status: GameState::Completed, ..self }
        } else {
            Game { board, game_result: result, current_turn: self.current_turn.next(), ..self }
        }
    }

    /// The match after `player` has asked for (`row`, `col`): moved on where
    /// the move is accepted, untouched where it is rejected.
    pub open spec fn played(self, row: usize, col: usize, player: Identity) -> Game {
        if self.move_error(row, col, player) is None {
            self.after_move(row, col)
        } else {
            self
        }
    }

    /// Opens the match for `initiator`, as game `game_number` of theirs:
    /// a blank grid, nobody seated, nobody to move, no result.
    pub fn initialize_game(&mut self, initiator: Identity, game_number: u64) -> (r: Result<
        (),
        TicTacToeError,
    >)
        ensures
            r is Ok,
            *final(self) == Game::opened(initiator, game_number),
            final(self).wf(),
    {
        self.board = [[Sign::Empty; 3]; 3];
        self.status = GameState::Open;
        self.player_o = Identity::default();
        self.player_x = Identity::default();
        self.current_turn = Sign::Empty;
        self.initiator = initiator;
        self.game_number = game_number;
        self.game_result = GameResult::InProgress;
        Ok(())
    }

    /// Seats `player` beside the initiator and starts the match. `digest`
    /// decides who plays `X`: the joining participant where its first byte
    /// is even, the initiator where it is odd.
    pub fn seat_players(&mut self, player: Identity, digest: [u8; 32])
        ensures
            *final(self) == old(self).seated(player, digest@),
    {
        self.status = GameState::InProgress;
        self.current_turn = Sign::X;

        if digest[0] % 2 == 0 {
            self.player_x = player;
            self.player_o = self.initiator;
        } else {
            self.player_x = self.initiator;
            self.player_o = player;
        }
    }

    /// Lets `player` join an open match. The seats are dealt by the SHA-256
    /// digest of the initiator's bytes followed by those of `player`.
    pub fn join_game(&mut self, player: Identity) -> (r: Result<(), TicTacToeError>)
        ensures
            r == match old(self).join_error() {
                Some(e) => Err(e),
                None => Ok(()),
            },
            r is Ok ==> *final(self) == old(self).joined(player),
            r is Err ==> *final(self) == *old(self),
            old(self).wf() ==> final(self).wf(),
    {
        if self.status != GameState::Open {
            return Err(TicTacToeError::GameAlreadyStarted);
        }
        proof {
            if self.wf() {
                law_joined_is_well_formed(*self, player);
            }
        }
        let players = seating_bytes(&self.initiator, &player);
        let players_hash = sha256(players.as_slice());
        self.seat_players(player, players_hash);
        Ok(())
    }

    /// Lets `player` take the cell (`row`, `col`).
    pub fn make_move(&mut self, row: usize, col: usize, player: Identity) -> (r: Result<
        (),
        TicTacToeError,
    >)
        ensures
            r == match old(self).move_error(row, col, player) {
                Some(e) => Err(e),
                None => Ok(()),
            },
            *final(self) == old(self).played(row, col, player),
            old(self).wf() ==> final(self).wf(),
    {
        if self.status != GameState::InProgress {
            return Err(TicTacToeError::GameNotInProgress);
        }
        if row >= 3 {
            return Err(TicTacToeError::RowOutOfBounds);
        }
        if col >= 3 {
            return Err(TicTacToeError::ColumnOutOfBounds);
        }
        let current_player = if self.player_x == player {
            if self.current_turn != Sign::X {
                return Err(TicTacToeError::NotPlayersTurn);
            }
            Sign::X
        } else if self.player_o == player {
            if self.current_turn != Sign::O {
                return Err(TicTacToeError::NotPlayersTurn);
            }
            Sign::O
        } else {
            return Err(TicTacToeError::InvalidPlayer);
        };

        if self.board[row][col] != Sign::Empty {
            return Err(TicTacToeError::CellAlreadyTaken);
        }
        self.board[row][col] = current_player;
        proof {
            if old(self).wf() {
                law_only_the_mover_wins(*old(self), row, col, player);
            }
            assert(self.board =~~= placed(old(self).board, row as int, col as int, current_player));
        }

        self.update_game_result();

        if self.game_result != GameResult::InProgress {
            self.status = GameState::Completed;
        } else {
            self.current_turn = if self.current_turn == Sign::X {
                Sign::O
            } else {
                Sign::X
            };
        }
        Ok(())
    }

    /// Whether three cells of a line make it a won line.
    pub fn is_winning_trio(&self, trio: [Sign; 3]) -> (won: bool)
        ensures
            won == winning((trio[0], trio[1], trio[2])),
    {
        trio[0] != Sign::Empty && trio[0] == trio[1] && trio[0] == trio[2]
    }

    /// Whether some cell of the grid is still empty.
    pub fn has_empty_cell(&self) -> (found: bool)
        ensures
            found == !is_full(self.board),
    {
        let mut r: usize = 0;
        while r < 3
            invariant
                r <= 3,
                forall|i: int, j: int| 0 <= i < r && 0 <= j < 3 ==> self.board[i][j] != Sign::Empty,
            decreases 3 - r,
        {
            let mut c: usize = 0;
            while c < 3
                invariant
                    r < 3,
                    c <= 3,
                    forall|i: int, j: int|
                        0 <= i < r && 0 <= j < 3 ==> self.board[i][j] != Sign::Empty,
                    forall|j: int| 0 <= j < c ==> self.board[r as int][j] != Sign::Empty,
                decreases 3 - c,
            {
                if self.board[r][c] == Sign::Empty {
                    assert(in_grid(r as int, c as int));
                    return true;
                }
                c += 1;
            }
            r += 1;
        }
        false
    }

    /// Reads the result off the grid.
    pub fn update_game_result(&mut self)
        ensures
            *final(self) == (Game { game_result: outcome(old(self).board), ..*old(self) }),
    {
        let ghost board = self.board;
        let mut i: usize = 0;
        while i < 3
            invariant
                i <= 3,
                *self == *old(self),
                board == self.board,
                first_win(board, 0) == first_win(board, 2 * i),
            decreases 3 - i,
        {
            proof {
                assert(line(board, 2 * i) == column(board, i as int));
                assert(line(board, 2 * i + 1) == row(board, i as int));
                assert(first_win(board, 2 * i + 1) == if winning(line(board, 2 * i + 1)) {
                    2 * i + 1
                } else {
                    first_win(board, 2 * i + 2)
                });
            }
            if self.is_winning_trio([self.board[0][i], self.board[1][i], self.board[2][i]]) {
                self.game_result = if self.board[0][i] == Sign::X {
                    GameResult::PlayerX
                } else {
                    GameResult::PlayerO
                };
                return ;
            }
            if self.is_winning_trio([self.board[i][0], self.board[i][1], self.board[i][2]]) {
                self.game_result = if self.board[i][0] == Sign::X {
                    GameResult::PlayerX
                } else {
                    GameResult::PlayerO
                };
                return ;
            }
            i += 1;
        }
        proof {
            assert(line(board, 6) == diagonal(board));
            assert(line(board, 7) == antidiagonal(board));
            assert(first_win(board, 7) == if winning(line(board, 7)) {
                7
            } else {
                first_win(board, 8)
            });
        }
        if self.is_winning_trio([self.board[0][0], self.board[1][1], self.board[2][2]])
            || self.is_winning_trio([self.board[2][0], self.board[1][1], self.board[0][2]]) {
            self.game_result = if self.board[1][1] == Sign::X {
                GameResult::PlayerX
            } else {
                GameResult::PlayerO
            };
            return ;
        }
        if self.has_empty_cell() {
            self.game_result = GameResult::InProgress;
            return ;
        }
        self.game_result = GameResult::Draw;
    }
}

} // verus!
