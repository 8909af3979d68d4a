use tic_tac_toe::identity::Identity;
use tic_tac_toe::state::game::{seating_bytes, Game, GameResult, GameState, Sign};

const X: Sign = Sign::X;
const O: Sign = Sign::O;
const E: Sign = Sign::Empty;

const LINES: [[(usize, usize); 3]; 8] = [
    [(0, 0), (0, 1), (0, 2)],
    [(1, 0), (1, 1), (1, 2)],
    [(2, 0), (2, 1), (2, 2)],
    [(0, 0), (1, 0), (2, 0)],
    [(0, 1), (1, 1), (2, 1)],
    [(0, 2), (1, 2), (2, 2)],
    [(0, 0), (1, 1), (2, 2)],
    [(2, 0), (1, 1), (0, 2)],
];

fn with_board(board: [[Sign; 3]; 3]) -> Game {
    Game {
        board,
        status: GameState::InProgress,
        player_o: Identity { bytes: [1; 32] },
        player_x: Identity { bytes: [2; 32] },
        current_turn: Sign::X,
        initiator: Identity { bytes: [1; 32] },
        game_number: 5,
        game_result: GameResult::InProgress,
    }
}

fn result_of(board: [[Sign; 3]; 3]) -> GameResult {
    let mut game = with_board(board);
    let before = game;
    game.update_game_result();
    assert_eq!(game.board, before.board);
    assert_eq!(game.status, before.status);
    assert_eq!(game.current_turn, before.current_turn);
    assert_eq!(game.player_x, before.player_x);
    assert_eq!(game.player_o, before.player_o);
    assert_eq!(game.initiator, before.initiator);
    assert_eq!(game.game_number, before.game_number);
    game.game_result
}

fn owns_a_line(board: &[[Sign; 3]; 3], sign: Sign) -> bool {
    LINES.iter().any(|line| line.iter().all(|(r, c)| board[*r][*c] == sign))
}

fn nth_board(mut n: usize) -> [[Sign; 3]; 3] {
    let mut board = [[E; 3]; 3];
    for r in 0..3 {
        for c in 0..3 {
            board[r][c] = [E, X, O][n % 3];
            n /= 3;
        }
    }
    board
}

#[test]
fn winning_trio_needs_three_equal_signs() {
    let game = with_board([[E; 3]; 3]);
    assert!(game.is_winning_trio([X, X, X]));
    assert!(game.is_winning_trio([O, O, O]));
    assert!(!game.is_winning_trio([E, E, E]));
    assert!(!game.is_winning_trio([X, X, O]));
    assert!(!game.is_winning_trio([X, O, X]));
    assert!(!game.is_winning_trio([O, X, X]));
    assert!(!game.is_winning_trio([X, X, E]));
    assert!(!game.is_winning_trio([E, O, O]));
}

#[test]
fn empty_cell_is_found_wherever_it_is() {
    assert!(with_board([[E; 3]; 3]).has_empty_cell());
    assert!(!with_board([[X; 3]; 3]).has_empty_cell());
    assert!(!with_board([[X, O, X], [X, O, O], [O, X, X]]).has_empty_cell());
    for r in 0..3 {
        for c in 0..3 {
            let mut board = [[O; 3]; 3];
            board[r][c] = E;
            assert!(with_board(board).has_empty_cell());
        }
    }
}

#[test]
fn blank_board_has_no_result() {
    assert_eq!(result_of([[E; 3]; 3]), GameResult::InProgress);
}

#[test]
fn each_line_wins_for_x() {
    for line in LINES {
        let mut board = [[E; 3]; 3];
        for (r, c) in line {
            board[r][c] = X;
        }
        assert_eq!(result_of(board), GameResult::PlayerX);
    }
}

#[test]
fn each_line_wins_for_o() {
    for line in LINES {
        let mut board = [[E; 3]; 3];
        for (r, c) in line {
            board[r][c] = O;
        }
        assert_eq!(result_of(board), GameResult::PlayerO);
    }
}

#[test]
fn third_row_and_third_column_count() {
    assert_eq!(result_of([[O, O, E], [E, E, E], [X, X, X]]), GameResult::PlayerX);
    assert_eq!(result_of([[X, E, O], [X, E, O], [E, X, O]]), GameResult::PlayerO);
    assert_eq!(result_of([[X, O, X], [O, X, O], [O, O, O]]), GameResult::PlayerO);
    assert_eq!(result_of([[O, X, X], [X, O, X], [O, O, X]]), GameResult::PlayerX);
}

#[test]
fn full_board_without_a_line_is_drawn() {
    assert_eq!(result_of([[X, O, X], [X, O, O], [O, X, X]]), GameResult::Draw);
    assert_eq!(result_of([[X, O, X], [O, X, X], [O, X, O]]), GameResult::Draw);
    assert_eq!(result_of([[O, X, O], [X, X, O], [X, O, X]]), GameResult::Draw);
}

#[test]
fn board_without_a_line_and_with_room_has_no_result() {
    assert_eq!(result_of([[X, O, X], [X, O, O], [O, X, E]]), GameResult::InProgress);
    assert_eq!(result_of([[E, O, X], [X, O, O], [O, X, X]]), GameResult::InProgress);
    assert_eq!(result_of([[X, E, E], [E, O, E], [E, E, E]]), GameResult::InProgress);
}

#[test]
fn stale_result_is_replaced() {
    let mut game = with_board([[X, E, E], [E, O, E], [E, E, E]]);
    game.game_result = GameResult::Draw;
    game.update_game_result();
    assert_eq!(game.game_result, GameResult::InProgress);
}

#[test]
fn first_won_line_decides_between_two_signs() {
    // Column 0 is looked at before column 1.
    assert_eq!(result_of([[O, X, E], [O, X, E], [O, X, E]]), GameResult::PlayerO);
    assert_eq!(result_of([[X, O, E], [X, O, E], [X, O, E]]), GameResult::PlayerX);
    // Row 0 is looked at before row 2.
    assert_eq!(result_of([[X, X, X], [E, E, E], [O, O, O]]), GameResult::PlayerX);
    assert_eq!(result_of([[O, O, O], [E, E, E], [X, X, X]]), GameResult::PlayerO);
}

#[test]
fn every_board_with_at_most_one_empty_cell_is_classified() {
    let mut seen = 0;
    for n in 0..19683 {
        let board = nth_board(n);
        let empty = board.iter().flatten().filter(|s| **s == E).count();
        if empty > 1 {
            continue;
        }
        seen += 1;
        let x = owns_a_line(&board, X);
        let o = owns_a_line(&board, O);
        let got = result_of(board);
        if x && !o {
            assert_eq!(got, GameResult::PlayerX);
        } else if o && !x {
            assert_eq!(got, GameResult::PlayerO);
        } else if x && o {
            assert!(got == GameResult::PlayerX || got == GameResult::PlayerO);
        } else if empty == 0 {
            assert_eq!(got, GameResult::Draw);
        } else {
            assert_eq!(got, GameResult::InProgress);
        }
    }
    assert_eq!(seen, 512 + 9 * 256);
}

#[test]
fn every_board_is_classified() {
    for n in 0..19683 {
        let board = nth_board(n);
        let full = board.iter().flatten().all(|s| *s != E);
        let x = owns_a_line(&board, X);
        let o = owns_a_line(&board, O);
        let got = result_of(board);
        match got {
            GameResult::PlayerX => assert!(x),
            GameResult::PlayerO => assert!(o),
            GameResult::Draw => assert!(!x && !o && full),
            GameResult::InProgress => assert!(!x && !o && !full),
        }
    }
}

#[test]
fn seating_bytes_are_the_initiator_then_the_joiner() {
    let mut a = [0u8; 32];
    let mut b = [0u8; 32];
    for i in 0..32 {
        a[i] = i as u8;
        b[i] = 200 + i as u8;
    }
    let bytes = seating_bytes(&Identity { bytes: a }, &Identity { bytes: b });
    assert_eq!(bytes.len(), 64);
    assert_eq!(&bytes[..32], &a[..]);
    assert_eq!(&bytes[32..], &b[..]);
}

#[test]
fn seats_follow_the_first_byte_of_the_digest() {
    let joiner = Identity { bytes: [2; 32] };
    let initiator = Identity { bytes: [1; 32] };
    for first in [0u8, 1, 2, 3, 128, 254, 255] {
        let mut game = with_board([[E; 3]; 3]);
        game.status = GameState::Open;
        game.current_turn = Sign::Empty;
        game.player_x = Identity::default();
        game.player_o = Identity::default();
        let mut digest = [0xffu8; 32];
        digest[0] = first;
        game.seat_players(joiner, digest);
        assert_eq!(game.status, GameState::InProgress);
        assert_eq!(game.current_turn, Sign::X);
        if first % 2 == 0 {
            assert_eq!(game.player_x, joiner);
            assert_eq!(game.player_o, initiator);
        } else {
            assert_eq!(game.player_x, initiator);
            assert_eq!(game.player_o, joiner);
        }
        assert_eq!(game.board, [[E; 3]; 3]);
        assert_eq!(game.game_result, GameResult::InProgress);
        assert_eq!(game.game_number, 5);
    }
}

#[test]
fn seats_agree_with_sha256_of_the_two_identities() {
    for a in 0u8..8 {
        for b in 0u8..8 {
            let initiator = Identity { bytes: [a; 32] };
            let joiner = Identity { bytes: [b; 32] };
            let mut game = with_board([[E; 3]; 3]);
            game.status = GameState::Open;
            game.initiator = initiator;
            assert_eq!(game.join_game(joiner), Ok(()));
            let bytes = seating_bytes(&initiator, &joiner);
            let digest = anchor_lang::solana_program::hash::hash(&bytes).to_bytes();
            if digest[0] % 2 == 0 {
                assert_eq!(game.player_x, joiner);
                assert_eq!(game.player_o, initiator);
            } else {
                assert_eq!(game.player_x, initiator);
                assert_eq!(game.player_o, joiner);
            }
        }
    }
}

#[test]
fn identities_compare_byte_by_byte() {
    let a = Identity { bytes: [7; 32] };
    let mut bytes = [7u8; 32];
    assert_eq!(a, Identity { bytes });
    bytes[31] = 8;
    assert_ne!(a, Identity { bytes });
    bytes[31] = 7;
    bytes[0] = 6;
    assert_ne!(a, Identity { bytes });
    assert_eq!(Identity::default(), Identity { bytes: [0; 32] });
    assert_eq!(Identity::default().bytes, [0u8; 32]);
}
