//! Game play through the binding: functional updates, illegal moves, terminal
//! states and search determinism, with the real engine linked.

use silverpoint::board::Board;
use silverpoint::enums::{Color, GameResult, Move};
use silverpoint::position::Position;

fn piece_move(from: (i32, i32), to: (i32, i32)) -> Move {
    Move::Piece(Position::new(from.0, from.1), Position::new(to.0, to.1))
}

#[test]
fn transforms_never_alter_the_original_board() {
    let board = Board::new();
    let snapshot = board;
    let _ = board.change_turn();
    let _ = board.set_turn(Color::Black);
    let _ = board.remove_all(Color::Black);
    let _ = board.queen_all(Color::White);
    let _ = board.play_move(piece_move((1, 4), (3, 4)));
    let _ = board.apply_eval_move(piece_move((1, 4), (3, 4)));
    assert!(board == snapshot);
}

#[test]
fn starting_board_queries() {
    let board = Board::new();
    assert_eq!(board.get_turn_color(), Color::White);
    assert_eq!(board.get_current_player_color(), Color::White);
    assert_eq!(board.get_en_passant(), None);
    assert_eq!(board.get_king_pos(Color::White), Some(Position::new(0, 4)));
    assert_eq!(board.get_king_pos(Color::Black), Some(Position::new(7, 4)));
    assert_eq!(board.get_material_advantage(Color::White), 0);
    assert_eq!(board.get_material_advantage(Color::Black), 0);
    assert!(!board.is_in_check(Color::White));
    assert!(!board.is_stalemate());
    assert!(!board.is_checkmate());
    assert!(board.has_sufficient_material(Color::White));
    assert!(!board.has_insufficient_material(Color::White));
    // Both sides still have every castling precondition except the clear path.
    assert!(!board.can_kingside_castle(Color::White));
    assert!(!board.can_queenside_castle(Color::Black));
}

#[test]
fn square_queries_see_the_starting_pieces() {
    let board = Board::new();
    let e2 = Position::new(1, 4);
    assert!(board.has_piece(e2));
    assert!(!board.has_no_piece(e2));
    assert!(board.has_ally_piece(e2, Color::White));
    assert!(!board.has_enemy_piece(e2, Color::White));
    assert!(board.has_enemy_piece(Position::new(6, 4), Color::White));
    assert!(board.has_no_piece(Position::new(3, 3)));
    // Off-board coordinates hold nothing.
    assert!(board.has_no_piece(Position::new(-1, 0)));
    assert_eq!(board.get_piece(Position::new(8, 0)), None);
}

#[test]
fn empty_board_has_no_pieces() {
    let board = Board::empty();
    assert_eq!(board.get_turn_color(), Color::White);
    assert_eq!(board.get_king_pos(Color::White), None);
    assert_eq!(board.get_material_advantage(Color::White), 0);
    for row in 0..8 {
        for col in 0..8 {
            assert!(board.has_no_piece(Position::new(row, col)));
        }
    }
}

#[test]
fn horde_board_is_a_white_pawn_army() {
    let board = Board::horde();
    assert_eq!(board.get_turn_color(), Color::White);
    assert_eq!(board.get_en_passant(), None);
    // White's back rank is overwritten by pawns in the Horde variant.
    assert!(board
        .get_piece(Position::new(0, 0))
        .map(|p| p.is_pawn())
        .unwrap_or(false));
}

#[test]
fn remove_all_and_queen_all_rewrite_squares() {
    let board = Board::new();
    let no_black = board.remove_all(Color::Black);
    assert_eq!(no_black.get_piece(Position::new(7, 4)), None);
    assert!(no_black.has_piece(Position::new(0, 4)));
    // 8 pawns + 2 rooks + 2 knights + 2 bishops + queen + king.
    assert_eq!(
        no_black.get_material_advantage(Color::White),
        8 + 2 * 5 + 2 * 3 + 2 * 3 + 9 + 99999
    );
    let all_queens = board.queen_all(Color::White);
    let a2 = Position::new(1, 0);
    assert!(all_queens.get_piece(a2).map(|p| p.is_queen()).unwrap_or(false));
    // The king is kept.
    assert!(all_queens
        .get_piece(Position::new(0, 4))
        .map(|p| p.is_king())
        .unwrap_or(false));
}

#[test]
fn turn_passing_is_a_functional_update() {
    let board = Board::new();
    let black_first = board.set_turn(Color::Black);
    assert_eq!(black_first.get_turn_color(), Color::Black);
    assert_eq!(board.get_turn_color(), Color::White);
    assert_eq!(board.change_turn().get_turn_color(), Color::Black);
    assert_eq!(board.change_turn().change_turn().get_turn_color(), Color::White);
}

#[test]
fn illegal_move_comes_back_as_data_carrying_the_move() {
    let board = Board::new();
    // A rook cannot jump from a1 to h8.
    let bad = piece_move((0, 0), (7, 7));
    let result = board.play_move(bad);
    assert!(result.is_illegal_move());
    assert_eq!(result.illegal_move(), Some(bad));
    assert_eq!(result, GameResult::IllegalMove(bad));
    // The board itself is untouched.
    assert!(board == Board::new());
}

#[test]
fn legal_move_continues_with_the_turn_passed() {
    let board = Board::new();
    let result = board.play_move(piece_move((1, 4), (3, 4)));
    assert!(result.is_continuing());
    let next = result.next_board().expect("game goes on");
    assert_eq!(next.get_turn_color(), Color::Black);
    // The double pawn push leaves an en-passant square behind the pawn.
    assert_eq!(next.get_en_passant(), Some(Position::new(2, 4)));
}

#[test]
fn resignation_awards_victory_to_the_opponent() {
    let board = Board::new();
    let result = board.play_move(Move::Resign);
    assert!(result.is_victory());
    assert_eq!(result.winning_color(), Some(Color::Black));
    let black_resigns = board.change_turn().play_move(Move::Resign);
    assert_eq!(black_resigns.winning_color(), Some(Color::White));
}

#[test]
fn forced_mate_sequence_ends_in_victory() {
    // The quickest mate: 1. f3 e5 2. g4 Qh4#.
    let board = Board::new();
    let after_f3 = board
        .play_move(piece_move((1, 5), (2, 5)))
        .next_board()
        .expect("1. f3");
    let after_e5 = after_f3
        .play_move(piece_move((6, 4), (4, 4)))
        .next_board()
        .expect("1... e5");
    let after_g4 = after_e5
        .play_move(piece_move((1, 6), (3, 6)))
        .next_board()
        .expect("2. g4");
    let mate = after_g4.play_move(piece_move((7, 3), (3, 7)));
    assert!(mate.is_victory());
    assert_eq!(mate.winning_color(), Some(Color::Black));
}

#[test]
fn checkmate_and_threat_detection() {
    let board = Board::new();
    // Black's b7 pawn covers a6.
    assert!(board.is_threatened(Position::new(5, 0), Color::White));
    assert!(!board.is_threatened(Position::new(2, 4), Color::White));
    let after_f3 = board
        .play_move(piece_move((1, 5), (2, 5)))
        .next_board()
        .unwrap();
    let after_e5 = after_f3
        .play_move(piece_move((6, 4), (4, 4)))
        .next_board()
        .unwrap();
    let after_g4 = after_e5
        .play_move(piece_move((1, 6), (3, 6)))
        .next_board()
        .unwrap();
    let mated = after_g4.apply_eval_move(piece_move((7, 3), (3, 7)));
    assert!(mated.is_checkmate());
    assert!(mated.is_in_check(Color::White));
}

#[test]
fn twenty_legal_openings() {
    let board = Board::new();
    let moves = board.get_legal_moves();
    assert_eq!(moves.len(), 20);
    for m in &moves {
        assert!(m.is_piece());
    }
}

#[test]
fn search_is_deterministic() {
    let board = Board::new();
    let first = board.get_best_next_move(1);
    let second = board.get_best_next_move(1);
    assert_eq!(first.0, second.0);
    assert_eq!(first.1, second.1);
    let worst_once = board.get_worst_next_move(1);
    let worst_again = board.get_worst_next_move(1);
    assert_eq!(worst_once, worst_again);
}

#[test]
fn search_returns_a_legal_move() {
    let board = Board::new();
    let (best, nodes) = board.get_best_next_move(1);
    assert!(best != Move::Resign);
    assert!(board.get_legal_moves().contains(&best));
    assert!(nodes > 0);
}

#[test]
fn rating_bar_respects_the_requested_width() {
    let board = Board::new();
    let bar = board.rating_bar(16);
    assert!(bar.chars().count() <= 32);
}
