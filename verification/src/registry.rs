//! The load-time registration catalog.
//!
//! At module initialization the binding registers, once and immutably, every
//! host-callable operation: constructors, instance methods, the equality
//! operators, and the named constants — 64 board squares, the two colors and
//! the empty square. [`crate::init`] builds the whole catalog; each class's
//! `bind` function contributes its own entries and is specified exactly, entry
//! for entry, by the spec functions here.

use vstd::prelude::*;

use crate::enums::Color;
use crate::position::{pgn_col, pgn_spec, Position};
use crate::square::Square;

verus! {

/// The host-visible classes the binding defines.
#[derive(Clone, Copy, Debug, PartialEq, Eq, Structural)]
pub enum ClassId {
    Board,
    Color,
    Piece,
    Move,
    Square,
    Position,
    GameResult,
}

/// What kind of callable an entry is: a constructor on the class, an instance
/// method, or an operator.
#[derive(Clone, Copy, Debug, PartialEq, Eq, Structural)]
pub enum EntryKind {
    Constructor,
    Method,
    Operator,
}

/// One host-callable operation: its class, its host-facing name, its fixed
/// argument count, and whether its native call is routed through the
/// blocking-call dispatcher (engine work whose cost scales with search depth
/// or board-wide scanning is; O(1) accessors are not).
#[derive(Clone, Copy, Debug)]
pub struct MethodEntry {
    pub class: ClassId,
    pub name: &'static str,
    pub arity: usize,
    pub kind: EntryKind,
    pub dispatched: bool,
}

/// One registered board-square constant: its two-character algebraic name
/// (file letter, rank digit) and the coordinate it is bound to.
#[derive(Clone, Copy, Debug, PartialEq, Eq, Structural)]
pub struct PosConstant {
    pub file_char: char,
    pub rank_char: char,
    pub pos: Position,
}

/// One registered color constant.
#[derive(Clone, Copy, Debug)]
pub struct ColorConstant {
    pub name: &'static str,
    pub value: Color,
}

/// The complete load-time catalog: built exactly once, read-only thereafter.
pub struct Registry {
    pub methods: Vec<MethodEntry>,
    pub position_constants: Vec<PosConstant>,
    pub color_constants: Vec<ColorConstant>,
    pub empty_square: Square,
}

/// The board class's catalog entries, in registration order.
pub open spec fn board_catalog() -> Seq<MethodEntry> {
    seq![
        MethodEntry { class: ClassId::Board, name: "new", arity: 0, kind: EntryKind::Constructor, dispatched: false },
        MethodEntry { class: ClassId::Board, name: "horde", arity: 0, kind: EntryKind::Constructor, dispatched: false },
        MethodEntry { class: ClassId::Board, name: "empty", arity: 0, kind: EntryKind::Constructor, dispatched: false },
        MethodEntry { class: ClassId::Board, name: "rating_bar", arity: 1, kind: EntryKind::Method, dispatched: true },
        MethodEntry { class: ClassId::Board, name: "turn_color", arity: 0, kind: EntryKind::Method, dispatched: false },
        MethodEntry { class: ClassId::Board, name: "en_passant", arity: 0, kind: EntryKind::Method, dispatched: false },
        MethodEntry { class: ClassId::Board, name: "remove_all", arity: 1, kind: EntryKind::Method, dispatched: false },
        MethodEntry { class: ClassId::Board, name: "queen_all", arity: 1, kind: EntryKind::Method, dispatched: false },
        MethodEntry { class: ClassId::Board, name: "turn=", arity: 1, kind: EntryKind::Method, dispatched: false },
        MethodEntry { class: ClassId::Board, name: "material_advantage", arity: 1, kind: EntryKind::Method, dispatched: true },
        MethodEntry { class: ClassId::Board, name: "piece", arity: 1, kind: EntryKind::Method, dispatched: false },
        MethodEntry { class: ClassId::Board, name: "has_ally_piece?", arity: 2, kind: EntryKind::Method, dispatched: false },
        MethodEntry { class: ClassId::Board, name: "has_enemy_piece", arity: 2, kind: EntryKind::Method, dispatched: false },
        MethodEntry { class: ClassId::Board, name: "has_piece?", arity: 1, kind: EntryKind::Method, dispatched: false },
        MethodEntry { class: ClassId::Board, name: "has_no_piece?", arity: 1, kind: EntryKind::Method, dispatched: false },
        MethodEntry { class: ClassId::Board, name: "king_pos", arity: 1, kind: EntryKind::Method, dispatched: false },
        MethodEntry { class: ClassId::Board, name: "threatened?", arity: 2, kind: EntryKind::Method, dispatched: true },
        MethodEntry { class: ClassId::Board, name: "in_check?", arity: 1, kind: EntryKind::Method, dispatched: true },
        MethodEntry { class: ClassId::Board, name: "can_kingside_castle?", arity: 1, kind: EntryKind::Method, dispatched: false },
        MethodEntry { class: ClassId::Board, name: "can_queenside_castle?", arity: 1, kind: EntryKind::Method, dispatched: false },
        MethodEntry { class: ClassId::Board, name: "has_sufficient_material?", arity: 1, kind: EntryKind::Method, dispatched: true },
        MethodEntry { class: ClassId::Board, name: "has_insufficient_material?", arity: 1, kind: EntryKind::Method, dispatched: true },
        MethodEntry { class: ClassId::Board, name: "stalemate?", arity: 0, kind: EntryKind::Method, dispatched: true },
        MethodEntry { class: ClassId::Board, name: "checkmate?", arity: 0, kind: EntryKind::Method, dispatched: true },
        MethodEntry { class: ClassId::Board, name: "change_turn", arity: 0, kind: EntryKind::Method, dispatched: false },
        MethodEntry { class: ClassId::Board, name: "play_move", arity: 1, kind: EntryKind::Method, dispatched: true },
        MethodEntry { class: ClassId::Board, name: "value_for", arity: 1, kind: EntryKind::Method, dispatched: true },
        MethodEntry { class: ClassId::Board, name: "current_player_color", arity: 0, kind: EntryKind::Method, dispatched: false },
        MethodEntry { class: ClassId::Board, name: "apply_eval_move", arity: 1, kind: EntryKind::Method, dispatched: false },
        MethodEntry { class: ClassId::Board, name: "legal_moves", arity: 0, kind: EntryKind::Method, dispatched: true },
        MethodEntry { class: ClassId::Board, name: "best_next_move", arity: 1, kind: EntryKind::Method, dispatched: true },
        MethodEntry { class: ClassId::Board, name: "worst_next_move", arity: 1, kind: EntryKind::Method, dispatched: true },
        MethodEntry { class: ClassId::Board, name: "minimax", arity: 6, kind: EntryKind::Method, dispatched: true },
        MethodEntry { class: ClassId::Board, name: "inspect", arity: 0, kind: EntryKind::Method, dispatched: false },
        MethodEntry { class: ClassId::Board, name: "to_s", arity: 0, kind: EntryKind::Method, dispatched: false },
        MethodEntry { class: ClassId::Board, name: "==", arity: 1, kind: EntryKind::Operator, dispatched: false },
        MethodEntry { class: ClassId::Board, name: "!=", arity: 1, kind: EntryKind::Operator, dispatched: false },
    ]
}

/// The square class's catalog entries, in registration order.
pub open spec fn square_catalog() -> Seq<MethodEntry> {
    seq![
        MethodEntry { class: ClassId::Square, name: "empty?", arity: 0, kind: EntryKind::Method, dispatched: false },
        MethodEntry { class: ClassId::Square, name: "piece", arity: 0, kind: EntryKind::Method, dispatched: false },
        MethodEntry { class: ClassId::Square, name: "to_s", arity: 0, kind: EntryKind::Method, dispatched: false },
        MethodEntry { class: ClassId::Square, name: "==", arity: 1, kind: EntryKind::Operator, dispatched: false },
        MethodEntry { class: ClassId::Square, name: "!=", arity: 1, kind: EntryKind::Operator, dispatched: false },
    ]
}

/// The position class's catalog entries, in registration order.
pub open spec fn position_catalog() -> Seq<MethodEntry> {
    seq![
        MethodEntry { class: ClassId::Position, name: "king_pos", arity: 1, kind: EntryKind::Constructor, dispatched: false },
        MethodEntry { class: ClassId::Position, name: "queen_pos", arity: 1, kind: EntryKind::Constructor, dispatched: false },
        MethodEntry { class: ClassId::Position, name: "new", arity: 2, kind: EntryKind::Constructor, dispatched: false },
        MethodEntry { class: ClassId::Position, name: "pgn", arity: 1, kind: EntryKind::Constructor, dispatched: false },
        MethodEntry { class: ClassId::Position, name: "on_board?", arity: 0, kind: EntryKind::Method, dispatched: false },
        MethodEntry { class: ClassId::Position, name: "off_board?", arity: 0, kind: EntryKind::Method, dispatched: false },
        MethodEntry { class: ClassId::Position, name: "row", arity: 0, kind: EntryKind::Method, dispatched: false },
        MethodEntry { class: ClassId::Position, name: "col", arity: 0, kind: EntryKind::Method, dispatched: false },
        MethodEntry { class: ClassId::Position, name: "diagonal_to?", arity: 1, kind: EntryKind::Method, dispatched: false },
        MethodEntry { class: ClassId::Position, name: "orthogonal_to?", arity: 1, kind: EntryKind::Method, dispatched: false },
        MethodEntry { class: ClassId::Position, name: "adjacent_to?", arity: 1, kind: EntryKind::Method, dispatched: false },
        MethodEntry { class: ClassId::Position, name: "below?", arity: 1, kind: EntryKind::Method, dispatched: false },
        MethodEntry { class: ClassId::Position, name: "above?", arity: 1, kind: EntryKind::Method, dispatched: false },
        MethodEntry { class: ClassId::Position, name: "left_of?", arity: 1, kind: EntryKind::Method, dispatched: false },
        MethodEntry { class: ClassId::Position, name: "right_of?", arity: 1, kind: EntryKind::Method, dispatched: false },
        MethodEntry { class: ClassId::Position, name: "next_below", arity: 0, kind: EntryKind::Method, dispatched: false },
        MethodEntry { class: ClassId::Position, name: "next_above", arity: 0, kind: EntryKind::Method, dispatched: false },
        MethodEntry { class: ClassId::Position, name: "pawn_up", arity: 1, kind: EntryKind::Method, dispatched: false },
        MethodEntry { class: ClassId::Position, name: "pawn_back", arity: 1, kind: EntryKind::Method, dispatched: false },
        MethodEntry { class: ClassId::Position, name: "next_left", arity: 0, kind: EntryKind::Method, dispatched: false },
        MethodEntry { class: ClassId::Position, name: "next_right", arity: 0, kind: EntryKind::Method, dispatched: false },
        MethodEntry { class: ClassId::Position, name: "starting_pawn?", arity: 1, kind: EntryKind::Method, dispatched: false },
        MethodEntry { class: ClassId::Position, name: "kingside_rook?", arity: 0, kind: EntryKind::Method, dispatched: false },
        MethodEntry { class: ClassId::Position, name: "queenside_rook?", arity: 0, kind: EntryKind::Method, dispatched: false },
        MethodEntry { class: ClassId::Position, name: "diagonals_to", arity: 1, kind: EntryKind::Method, dispatched: false },
        MethodEntry { class: ClassId::Position, name: "orthogonals_to", arity: 1, kind: EntryKind::Method, dispatched: false },
        MethodEntry { class: ClassId::Position, name: "knight_move?", arity: 1, kind: EntryKind::Method, dispatched: false },
        MethodEntry { class: ClassId::Position, name: "to_s", arity: 0, kind: EntryKind::Method, dispatched: false },
        MethodEntry { class: ClassId::Position, name: "inspect", arity: 0, kind: EntryKind::Method, dispatched: false },
        MethodEntry { class: ClassId::Position, name: "==", arity: 1, kind: EntryKind::Operator, dispatched: false },
        MethodEntry { class: ClassId::Position, name: "!=", arity: 1, kind: EntryKind::Operator, dispatched: false },
    ]
}

/// The color class's catalog entries, in registration order.
pub open spec fn color_catalog() -> Seq<MethodEntry> {
    seq![
        MethodEntry { class: ClassId::Color, name: "inspect", arity: 0, kind: EntryKind::Method, dispatched: false },
        MethodEntry { class: ClassId::Color, name: "to_s", arity: 0, kind: EntryKind::Method, dispatched: false },
        MethodEntry { class: ClassId::Color, name: "==", arity: 1, kind: EntryKind::Operator, dispatched: false },
        MethodEntry { class: ClassId::Color, name: "!=", arity: 1, kind: EntryKind::Operator, dispatched: false },
    ]
}

/// The piece class's catalog entries, in registration order.
pub open spec fn piece_catalog() -> Seq<MethodEntry> {
    seq![
        MethodEntry { class: ClassId::Piece, name: "name", arity: 0, kind: EntryKind::Method, dispatched: false },
        MethodEntry { class: ClassId::Piece, name: "material_value", arity: 0, kind: EntryKind::Method, dispatched: false },
        MethodEntry { class: ClassId::Piece, name: "with_color", arity: 1, kind: EntryKind::Method, dispatched: false },
        MethodEntry { class: ClassId::Piece, name: "color", arity: 0, kind: EntryKind::Method, dispatched: false },
        MethodEntry { class: ClassId::Piece, name: "pos", arity: 0, kind: EntryKind::Method, dispatched: false },
        MethodEntry { class: ClassId::Piece, name: "king?", arity: 0, kind: EntryKind::Method, dispatched: false },
        MethodEntry { class: ClassId::Piece, name: "queen?", arity: 0, kind: EntryKind::Method, dispatched: false },
        MethodEntry { class: ClassId::Piece, name: "rook?", arity: 0, kind: EntryKind::Method, dispatched: false },
        MethodEntry { class: ClassId::Piece, name: "bishop?", arity: 0, kind: EntryKind::Method, dispatched: false },
        MethodEntry { class: ClassId::Piece, name: "knight?", arity: 0, kind: EntryKind::Method, dispatched: false },
        MethodEntry { class: ClassId::Piece, name: "pawn?", arity: 0, kind: EntryKind::Method, dispatched: false },
        MethodEntry { class: ClassId::Piece, name: "starting_pawn?", arity: 0, kind: EntryKind::Method, dispatched: false },
        MethodEntry { class: ClassId::Piece, name: "queenside_rook?", arity: 0, kind: EntryKind::Method, dispatched: false },
        MethodEntry { class: ClassId::Piece, name: "kingside_rook?", arity: 0, kind: EntryKind::Method, dispatched: false },
        MethodEntry { class: ClassId::Piece, name: "move", arity: 1, kind: EntryKind::Method, dispatched: false },
        MethodEntry { class: ClassId::Piece, name: "inspect", arity: 0, kind: EntryKind::Method, dispatched: false },
        MethodEntry { class: ClassId::Piece, name: "to_s", arity: 0, kind: EntryKind::Method, dispatched: false },
        MethodEntry { class: ClassId::Piece, name: "==", arity: 1, kind: EntryKind::Operator, dispatched: false },
        MethodEntry { class: ClassId::Piece, name: "!=", arity: 1, kind: EntryKind::Operator, dispatched: false },
    ]
}

/// The move class's catalog entries, in registration order.
pub open spec fn move_catalog() -> Seq<MethodEntry> {
    seq![
        MethodEntry { class: ClassId::Move, name: "new_queenside_castle", arity: 0, kind: EntryKind::Constructor, dispatched: false },
        MethodEntry { class: ClassId::Move, name: "new_kingside_castle", arity: 0, kind: EntryKind::Constructor, dispatched: false },
        MethodEntry { class: ClassId::Move, name: "new_resign", arity: 0, kind: EntryKind::Constructor, dispatched: false },
        MethodEntry { class: ClassId::Move, name: "new_piece", arity: 2, kind: EntryKind::Constructor, dispatched: false },
        MethodEntry { class: ClassId::Move, name: "parse", arity: 1, kind: EntryKind::Constructor, dispatched: false },
        MethodEntry { class: ClassId::Move, name: "queenside_castle?", arity: 0, kind: EntryKind::Method, dispatched: false },
        MethodEntry { class: ClassId::Move, name: "kingside_castle?", arity: 0, kind: EntryKind::Method, dispatched: false },
        MethodEntry { class: ClassId::Move, name: "piece?", arity: 0, kind: EntryKind::Method, dispatched: false },
        MethodEntry { class: ClassId::Move, name: "resign?", arity: 0, kind: EntryKind::Method, dispatched: false },
        MethodEntry { class: ClassId::Move, name: "piece_positions", arity: 0, kind: EntryKind::Method, dispatched: false },
        MethodEntry { class: ClassId::Move, name: "inspect", arity: 0, kind: EntryKind::Method, dispatched: false },
        MethodEntry { class: ClassId::Move, name: "to_s", arity: 0, kind: EntryKind::Method, dispatched: false },
        MethodEntry { class: ClassId::Move, name: "==", arity: 1, kind: EntryKind::Operator, dispatched: false },
        MethodEntry { class: ClassId::Move, name: "!=", arity: 1, kind: EntryKind::Operator, dispatched: false },
    ]
}

/// The game-result class's catalog entries, in registration order.
pub open spec fn game_result_catalog() -> Seq<MethodEntry> {
    seq![
        MethodEntry { class: ClassId::GameResult, name: "continuing?", arity: 0, kind: EntryKind::Method, dispatched: false },
        MethodEntry { class: ClassId::GameResult, name: "victory?", arity: 0, kind: EntryKind::Method, dispatched: false },
        MethodEntry { class: ClassId::GameResult, name: "stalemate?", arity: 0, kind: EntryKind::Method, dispatched: false },
        MethodEntry { class: ClassId::GameResult, name: "illegal_move?", arity: 0, kind: EntryKind::Method, dispatched: false },
        MethodEntry { class: ClassId::GameResult, name: "next_board", arity: 0, kind: EntryKind::Method, dispatched: false },
        MethodEntry { class: ClassId::GameResult, name: "winning_color", arity: 0, kind: EntryKind::Method, dispatched: false },
        MethodEntry { class: ClassId::GameResult, name: "illegal_move", arity: 0, kind: EntryKind::Method, dispatched: false },
        MethodEntry { class: ClassId::GameResult, name: "inspect", arity: 0, kind: EntryKind::Method, dispatched: false },
        MethodEntry { class: ClassId::GameResult, name: "to_s", arity: 0, kind: EntryKind::Method, dispatched: false },
        MethodEntry { class: ClassId::GameResult, name: "==", arity: 1, kind: EntryKind::Operator, dispatched: false },
        MethodEntry { class: ClassId::GameResult, name: "!=", arity: 1, kind: EntryKind::Operator, dispatched: false },
    ]
}

/// The two registered color constants.
pub open spec fn color_constants_spec() -> Seq<ColorConstant> {
    seq![
        ColorConstant { name: "White", value: Color::White },
        ColorConstant { name: "Black", value: Color::Black },
    ]
}

/// The uppercase file letter of file index `f` (0 through 7).
pub open spec fn file_letter(f: int) -> char {
    if f == 0 {
        'A'
    } else if f == 1 {
        'B'
    } else if f == 2 {
        'C'
    } else if f == 3 {
        'D'
    } else if f == 4 {
        'E'
    } else if f == 5 {
        'F'
    } else if f == 6 {
        'G'
    } else {
        'H'
    }
}

/// The rank digit of row index `r` (0 through 7): the character for rank
/// `r + 1`.
pub open spec fn rank_digit(r: int) -> char {
    if r == 0 {
        '1'
    } else if r == 1 {
        '2'
    } else if r == 2 {
        '3'
    } else if r == 3 {
        '4'
    } else if r == 4 {
        '5'
    } else if r == 5 {
        '6'
    } else if r == 6 {
        '7'
    } else {
        '8'
    }
}

/// The `k`-th registered square constant (0 through 63), in registration
/// order: file by file, rank by rank, so A1 through A8 come first and H8
/// last. The constant for file `f` and rank `r + 1` is bound to the
/// coordinate with row `r` and column `f`.
pub open spec fn pos_constant_at(k: int) -> PosConstant {
    PosConstant {
        file_char: file_letter(k / 8),
        rank_char: rank_digit(k % 8),
        pos: Position { row: (k % 8) as i32, col: (k / 8) as i32 },
    }
}

fn file_letter_exec(f: usize) -> (c: char)
    requires
        f < 8,
    ensures
        c == file_letter(f as int),
{
    match f {
        0 => 'A',
        1 => 'B',
        2 => 'C',
        3 => 'D',
        4 => 'E',
        5 => 'F',
        6 => 'G',
        _ => 'H',
    }
}

fn rank_digit_exec(r: usize) -> (c: char)
    requires
        r < 8,
    ensures
        c == rank_digit(r as int),
{
    match r {
        0 => '1',
        1 => '2',
        2 => '3',
        3 => '4',
        4 => '5',
        5 => '6',
        6 => '7',
        _ => '8',
    }
}

/// Builds the 64 board-square constants, in registration order.
pub fn build_position_constants() -> (r: Vec<PosConstant>)
    ensures
        r@.len() == 64,
        forall|k: int| 0 <= k < 64 ==> r@[k] == pos_constant_at(k),
{
    let mut constants: Vec<PosConstant> = Vec::new();
    let mut f: usize = 0;
    while f < 8
        invariant
            f <= 8,
            constants@.len() == f * 8,
            forall|k: int| 0 <= k < f * 8 ==> constants@[k] == pos_constant_at(k),
        decreases 8 - f,
    {
        let mut rank: usize = 0;
        while rank < 8
            invariant
                f < 8,
                rank <= 8,
                constants@.len() == f * 8 + rank,
                forall|k: int| 0 <= k < f * 8 + rank ==> constants@[k] == pos_constant_at(k),
            decreases 8 - rank,
        {
            let c = PosConstant {
                file_char: file_letter_exec(f),
                rank_char: rank_digit_exec(rank),
                pos: Position { row: rank as i32, col: f as i32 },
            };
            constants.push(c);
            proof {
                let k = f * 8 + rank;
                assert(k / 8 == f && k % 8 == rank) by (nonlinear_arith)
                    requires
                        f < 8,
                        rank < 8,
                        k == f * 8 + rank,
                ;
                assert(constants@[k as int] == pos_constant_at(k as int));
            }
            rank = rank + 1;
        }
        f = f + 1;
    }
    constants
}

/// Constant-table completeness, the validity half: each of the 64 registered
/// square constants is bound to an on-board coordinate.
pub proof fn lemma_constants_on_board(k: int)
    requires
        0 <= k < 64,
    ensures
        pos_constant_at(k).pos.spec_on_board(),
{
}

/// Constant-table completeness, the distinctness half: no two of the 64
/// registered square constants are bound to the same coordinate, nor do two
/// carry the same name.
pub proof fn lemma_constants_distinct(k1: int, k2: int)
    requires
        0 <= k1 < 64,
        0 <= k2 < 64,
        k1 != k2,
    ensures
        pos_constant_at(k1).pos != pos_constant_at(k2).pos,
        (pos_constant_at(k1).file_char, pos_constant_at(k1).rank_char) != (
        pos_constant_at(k2).file_char, pos_constant_at(k2).rank_char),
{
    assert(k1 / 8 != k2 / 8 || k1 % 8 != k2 % 8) by (nonlinear_arith)
        requires
            0 <= k1 < 64,
            0 <= k2 < 64,
            k1 != k2,
    ;
}

/// Constant-table completeness, the naming half: each registered square
/// constant's coordinate matches its algebraic name — the column is the
/// file letter's index and the row is one less than the rank digit's value.
pub proof fn lemma_constant_matches_name(k: int)
    requires
        0 <= k < 64,
    ensures
        pos_constant_at(k).pos.col == pgn_col(pos_constant_at(k).file_char),
        '1' <= pos_constant_at(k).rank_char <= '8',
        pos_constant_at(k).pos.row == pos_constant_at(k).rank_char as int - '0' as int - 1,
{
}

/// Parse round trip over the whole constant table: feeding a registered
/// constant's two-character name to the position parser yields exactly the
/// coordinate the constant is bound to.
pub proof fn lemma_constant_parse_round_trip(k: int)
    requires
        0 <= k < 64,
    ensures
        pgn_spec(seq![pos_constant_at(k).file_char, pos_constant_at(k).rank_char]) == Some(
            pos_constant_at(k).pos,
        ),
{
}

} // verus!
