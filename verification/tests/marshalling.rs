//! Marshalling, equality and parsing behaviour, exercised through the public
//! surface with the real engine linked.

use silverpoint::board::Board;
use silverpoint::enums::{Color, GameResult, Move, Piece};
use silverpoint::host_error::translate_failure;
use silverpoint::position::Position;
use silverpoint::square::Square;

#[test]
fn board_wrap_unwrap_round_trip() {
    let native = chess_engine::Board::default();
    let wrapped = Board::wrap(native);
    assert!(wrapped.unwrap() == native);
    // Re-wrapping any number of times changes nothing.
    let again = Board::wrap(Board::wrap(wrapped.unwrap()).unwrap());
    assert!(again.unwrap() == native);
}

#[test]
fn board_equality_follows_native_equality() {
    let a = Board::new();
    let b = Board::new();
    assert!(a == b);
    let c = a.change_turn();
    assert!(a != c);
    assert!(Board::wrap(a.unwrap()) == b);
}

#[test]
fn value_equality_is_structural() {
    assert_eq!(Position::new(3, 4), Position::new(3, 4));
    assert_ne!(Position::new(3, 4), Position::new(4, 3));
    assert_eq!(Color::White, Color::White);
    assert_ne!(Color::White, Color::Black);
    let p = Piece::Pawn(Color::White, Position::new(1, 4));
    assert_eq!(p, Piece::Pawn(Color::White, Position::new(1, 4)));
    assert_eq!(Move::new_piece(Position::new(1, 4), Position::new(3, 4)),
        Move::Piece(Position::new(1, 4), Position::new(3, 4)));
    assert_eq!(Square::from(p), Square { piece: Some(p) });
}

#[test]
fn pgn_parses_e4_to_the_registered_constant() {
    let parsed = Position::pgn("e4").expect("e4 parses");
    let registry = silverpoint::init();
    // Registration order is file by file, rank by rank: e4 sits at
    // index 4 * 8 + 3.
    let constant = registry.position_constants[4 * 8 + 3];
    assert_eq!(constant.file_char, 'E');
    assert_eq!(constant.rank_char, '4');
    assert_eq!(parsed, constant.pos);
    assert_eq!(parsed, Position::new(3, 4));
}

#[test]
fn pgn_accepts_uppercase_and_ignores_trailing_text() {
    assert_eq!(Position::pgn("E4").unwrap(), Position::new(3, 4));
    assert_eq!(Position::pgn("a1").unwrap(), Position::new(0, 0));
    assert_eq!(Position::pgn("h8").unwrap(), Position::new(7, 7));
    // The engine reads only the first two characters.
    assert_eq!(Position::pgn("e4x").unwrap(), Position::new(3, 4));
    // The engine accepts any digit, so these parse to off-board rows.
    assert_eq!(Position::pgn("e0").unwrap(), Position::new(-1, 4));
    assert!(!Position::pgn("e0").unwrap().is_on_board());
    assert_eq!(Position::pgn("e9").unwrap(), Position::new(8, 4));
}

#[test]
fn pgn_rejects_malformed_text_with_a_message() {
    let err = Position::pgn("z9").expect_err("z9 is no square");
    assert!(!err.is_empty());
    assert!(Position::pgn("").is_err());
    assert!(Position::pgn("e").is_err());
    assert!(Position::pgn("ex").is_err());
}

#[test]
fn move_parse_accepts_the_documented_forms() {
    assert_eq!(Move::parse("resign".to_string()).unwrap(), Move::Resign);
    assert_eq!(Move::parse("resigns".to_string()).unwrap(), Move::Resign);
    assert_eq!(Move::parse("O-O".to_string()).unwrap(), Move::KingSideCastle);
    assert_eq!(Move::parse("0-0".to_string()).unwrap(), Move::KingSideCastle);
    assert_eq!(Move::parse("o-o-o".to_string()).unwrap(), Move::QueenSideCastle);
    assert_eq!(Move::parse("O-O-O".to_string()).unwrap(), Move::QueenSideCastle);
    assert_eq!(
        Move::parse("e2e4".to_string()).unwrap(),
        Move::Piece(Position::new(1, 4), Position::new(3, 4))
    );
    assert_eq!(
        Move::parse("e2 to e4".to_string()).unwrap(),
        Move::Piece(Position::new(1, 4), Position::new(3, 4))
    );
}

#[test]
fn move_parse_rejects_malformed_text_with_a_message() {
    let err = Move::parse("knight to e4".to_string()).expect_err("not a move");
    assert!(!err.is_empty());
    assert!(Move::parse(String::new()).is_err());
    assert!(Move::parse("z9z9".to_string()).is_err());
}

#[test]
fn failure_translation_is_lossless() {
    let host = translate_failure("invalid pgn `z9`".to_string());
    assert_eq!(host.message, "invalid pgn `z9`");
    let empty = translate_failure(String::new());
    assert_eq!(empty.message, "");
}

#[test]
fn display_forms_delegate_to_the_engine() {
    assert_eq!(Color::White.to_string(), "White");
    assert_eq!(Color::Black.inspect(), "Black");
    assert_eq!(Position::new(3, 4).to_string(), "e4");
    assert_eq!(Position::new(0, 0).to_string(), "a1");
    assert_eq!(Move::KingSideCastle.to_string(), "O-O");
    assert_eq!(Move::Resign.to_string(), "Resign");
    assert_eq!(
        Move::Piece(Position::new(1, 4), Position::new(3, 4)).to_string(),
        "e2 to e4"
    );
    let pawn = Piece::Pawn(Color::White, Position::new(1, 4));
    assert_eq!(pawn.get_name(), "pawn");
    assert!(!pawn.to_string().is_empty());
    assert!(!pawn.inspect().is_empty());
    assert!(!Board::new().to_string().is_empty());
    assert!(!Board::new().inspect().is_empty());
    assert!(!GameResult::Stalemate.to_string().is_empty());
}

#[test]
fn piece_accessors_match_the_payload() {
    let rook = Piece::Rook(Color::Black, Position::new(7, 0));
    assert_eq!(rook.get_color(), Color::Black);
    assert_eq!(rook.get_pos(), Position::new(7, 0));
    assert_eq!(rook.get_material_value(), 5);
    assert!(rook.is_rook() && !rook.is_king());
    assert!(rook.is_queenside_rook() && !rook.is_kingside_rook());
    let moved = rook.move_to(Position::new(5, 0));
    assert_eq!(moved, Piece::Rook(Color::Black, Position::new(5, 0)));
    let recolored = rook.with_color(Color::White);
    assert_eq!(recolored, Piece::Rook(Color::White, Position::new(7, 0)));
    let king = Piece::King(Color::White, Position::new(0, 4));
    assert_eq!(king.get_material_value(), 99999);
    assert_eq!(king.get_name(), "king");
    let pawn = Piece::Pawn(Color::White, Position::new(1, 2));
    assert!(pawn.is_starting_pawn());
    assert!(!pawn.move_to(Position::new(2, 2)).is_starting_pawn());
}

#[test]
fn move_accessors_match_the_variant() {
    assert!(Move::new_kingside_castle().is_kingside_castle());
    assert!(Move::new_queenside_castle().is_queenside_castle());
    assert!(Move::new_resign().is_resign());
    let m = Move::new_piece(Position::new(0, 1), Position::new(2, 2));
    assert!(m.is_piece());
    assert_eq!(m.piece_positions(), Some((Position::new(0, 1), Position::new(2, 2))));
    assert_eq!(Move::Resign.piece_positions(), None);
}

#[test]
fn square_holds_at_most_one_piece() {
    let empty = Square::empty();
    assert!(empty.is_empty());
    assert_eq!(empty.get_piece(), None);
    let knight = Piece::Knight(Color::White, Position::new(0, 1));
    let occupied = Square::from(knight);
    assert!(!occupied.is_empty());
    assert_eq!(occupied.get_piece(), Some(knight));
}

#[test]
fn ray_enumeration_matches_the_engine() {
    let a1 = Position::new(0, 0);
    assert_eq!(
        a1.diagonals_to(Position::new(3, 3)),
        vec![Position::new(1, 1), Position::new(2, 2), Position::new(3, 3)]
    );
    assert_eq!(
        a1.orthogonals_to(Position::new(0, 3)),
        vec![Position::new(0, 1), Position::new(0, 2), Position::new(0, 3)]
    );
    assert_eq!(a1.diagonals_to(Position::new(0, 3)), vec![]);
    // Rays are enumerated for off-board coordinates too, exactly as the
    // engine enumerates them.
    assert_eq!(
        a1.diagonals_to(Position::new(-3, -3)),
        vec![Position::new(-1, -1), Position::new(-2, -2), Position::new(-3, -3)]
    );
    assert_eq!(
        a1.orthogonals_to(Position::new(0, -2)),
        vec![Position::new(0, -1), Position::new(0, -2)]
    );
    let native: Vec<(i32, i32)> = chess_engine::Position::new(0, 0)
        .diagonals_to(chess_engine::Position::new(-3, -3))
        .into_iter()
        .map(|p| (p.get_row(), p.get_col()))
        .collect();
    let ours: Vec<(i32, i32)> = a1
        .diagonals_to(Position::new(-3, -3))
        .into_iter()
        .map(|p| (p.row, p.col))
        .collect();
    assert_eq!(native, ours);
}

#[test]
fn geometry_predicates() {
    let d4 = Position::new(3, 3);
    assert!(d4.is_diagonal_to(Position::new(5, 5)));
    assert!(!d4.is_diagonal_to(Position::new(5, 4)));
    assert!(d4.is_orthogonal_to(Position::new(3, 7)));
    assert!(d4.is_adjacent_to(Position::new(4, 4)));
    assert!(!d4.is_adjacent_to(Position::new(5, 5)));
    assert!(d4.is_knight_move(Position::new(5, 4)));
    assert!(!d4.is_knight_move(Position::new(4, 4)));
    assert!(d4.is_below(Position::new(4, 3)) && d4.is_above(Position::new(2, 3)));
    assert!(d4.is_left_of(Position::new(3, 4)) && d4.is_right_of(Position::new(3, 2)));
    assert_eq!(d4.next_above(), Position::new(4, 3));
    assert_eq!(d4.next_below(), Position::new(2, 3));
    assert_eq!(d4.next_left(), Position::new(3, 2));
    assert_eq!(d4.next_right(), Position::new(3, 4));
    assert_eq!(d4.pawn_up(Color::White), Position::new(4, 3));
    assert_eq!(d4.pawn_back(Color::White), Position::new(2, 3));
}
