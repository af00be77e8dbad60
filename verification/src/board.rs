//! The aggregate board value and the calls into the native chess engine.
//!
//! The engine's `Board` is an opaque value here: what this module knows about
//! it is written down as uninterpreted observers (`board_squares`,
//! `board_turn`, `board_en_passant`, `board_castling`) and as named results of
//! the engine's computations. Every call into the engine goes through a
//! trusted wrapper whose contract states, over those observers, what the
//! engine's source shows; everything around the calls is verified.
//!
//! A host-visible [`Board`] embeds exactly one native board value. All
//! "mutating" operations are pure transforms that return a new `Board`; no
//! operation ever alters an existing one.

use chess_engine::Evaluate;
use vstd::prelude::*;

use crate::enums::{Color, GameResult, Move, Piece};
use crate::position::Position;
use crate::square::Square;

use crate::registry::{ClassId, EntryKind, MethodEntry, Registry};

verus! {

/// The 64 squares a native board holds, in the engine's storage order: the
/// square at `(row, col)` sits at index `(7 - row) * 8 + col`.
pub uninterp spec fn board_squares(b: chess_engine::Board) -> Seq<Square>;

/// The color whose turn it is on a native board.
pub uninterp spec fn board_turn(b: chess_engine::Board) -> Color;

/// The en-passant target square a native board remembers, if any.
pub uninterp spec fn board_en_passant(b: chess_engine::Board) -> Option<Position>;

/// The (kingside, queenside) castling rights a native board grants `c`.
pub uninterp spec fn board_castling(b: chess_engine::Board, c: Color) -> (bool, bool);

/// The index at which the square `p` is stored on a native board.
pub open spec fn square_index(p: Position) -> int {
    (7 - p.row) * 8 + p.col
}

/// Every native board stores exactly 64 squares.
pub open spec fn board_wf(b: chess_engine::Board) -> bool {
    board_squares(b).len() == 64
}

/// The standard back-rank piece kind of column `col`, for color `c` on square `pos`.
pub open spec fn back_rank_piece(c: Color, col: int, pos: Position) -> Piece {
    if col == 0 || col == 7 {
        Piece::Rook(c, pos)
    } else if col == 1 || col == 6 {
        Piece::Knight(c, pos)
    } else if col == 2 || col == 5 {
        Piece::Bishop(c, pos)
    } else if col == 3 {
        Piece::Queen(c, pos)
    } else {
        Piece::King(c, pos)
    }
}

/// The square contents of the standard starting position at `(row, col)`.
pub open spec fn starting_square(row: int, col: int) -> Square {
    let pos = Position { row: row as i32, col: col as i32 };
    if row == 0 {
        Square { piece: Some(back_rank_piece(Color::White, col, pos)) }
    } else if row == 1 {
        Square { piece: Some(Piece::Pawn(Color::White, pos)) }
    } else if row == 6 {
        Square { piece: Some(Piece::Pawn(Color::Black, pos)) }
    } else if row == 7 {
        Square { piece: Some(back_rank_piece(Color::Black, col, pos)) }
    } else {
        Square { piece: None }
    }
}

/// The 64 squares of the standard starting position, in storage order.
pub open spec fn starting_squares() -> Seq<Square> {
    Seq::new(64, |i: int| starting_square(7 - i / 8, i % 8))
}

/// The piece standing on square `pos` of a native board, if any; coordinates
/// off the board hold no piece.
pub open spec fn spec_piece_at(b: chess_engine::Board, pos: Position) -> Option<Piece> {
    if !pos.spec_on_board() {
        None
    } else {
        board_squares(b)[square_index(pos)].piece
    }
}

/// What removing every piece of color `c` leaves of one square.
pub open spec fn removed_square(s: Square, c: Color) -> Square {
    match s.piece {
        Some(p) => if p.spec_color() == c {
            Square { piece: None }
        } else {
            s
        },
        None => s,
    }
}

/// What promoting every piece of color `c` to a queen leaves of one square;
/// kings are kept as they are.
pub open spec fn queened_square(s: Square, c: Color) -> Square {
    match s.piece {
        Some(p) => if p.spec_color() == c && !(p is King) {
            Square { piece: Some(Piece::Queen(c, p.spec_pos())) }
        } else {
            s
        },
        None => s,
    }
}

/// The position of the king of color `c` found by scanning the squares in
/// storage order and keeping the last match; the engine's own scan.
pub open spec fn last_king_pos(s: Seq<Square>, c: Color) -> Option<Position>
    decreases s.len(),
{
    if s.len() == 0 {
        None
    } else {
        match s.last().piece {
            Some(Piece::King(kc, p)) => if kc == c {
                Some(p)
            } else {
                last_king_pos(s.drop_last(), c)
            },
            _ => last_king_pos(s.drop_last(), c),
        }
    }
}

/// The material advantage of color `c`: the sum, over all squares, of each
/// piece's material value, counted positively for `c`'s pieces and negatively
/// for the opponent's.
pub open spec fn material_advantage(s: Seq<Square>, c: Color) -> int
    decreases s.len(),
{
    if s.len() == 0 {
        0
    } else {
        material_advantage(s.drop_last(), c) + (match s.last().piece {
            Some(p) => if p.spec_color() == c {
                p.spec_material_value()
            } else {
                -p.spec_material_value()
            },
            None => 0,
        })
    }
}

/// Whether the square `pos` is threatened by a piece opposing `ally_color` on
/// the given board. The name stands for what
/// `chess_engine::Board::is_threatened` returns: a function of the board
/// value, the square and the color alone, whose full definition is the
/// engine's attack analysis.
pub uninterp spec fn threatened_of(b: chess_engine::Board, pos: Position, ally_color: Color) -> bool;

/// The move list that `chess_engine::Board::get_legal_moves` returns for the
/// current player: a function of the board value alone.
pub uninterp spec fn legal_moves_of(b: chess_engine::Board) -> Seq<Move>;

/// What `chess_engine::Board::has_sufficient_material` returns for color `c`:
/// a function of the board value and the color alone.
pub uninterp spec fn sufficient_material_of(b: chess_engine::Board, c: Color) -> bool;

/// The move and node count that `chess_engine::Evaluate::get_best_next_move`
/// returns at the given depth: minimax search is a pure function of the board
/// value and the depth, with no hidden state.
pub uninterp spec fn best_of(b: chess_engine::Board, depth: i32) -> (Move, u64);

/// The move and node count that `chess_engine::Evaluate::get_worst_next_move`
/// returns at the given depth: a pure function of the board value and the depth.
pub uninterp spec fn worst_of(b: chess_engine::Board, depth: i32) -> (Move, u64);

/// The board that `chess_engine::Evaluate::apply_eval_move` produces: a pure
/// function of the board value and the move.
pub uninterp spec fn eval_move_of(b: chess_engine::Board, m: Move) -> chess_engine::Board;

/// Whether the engine deems `m` legal for the current player of `b`: what the
/// engine's internal legality test (`chess_engine::Board::is_legal_move`,
/// which `play_move` consults) returns — a function of the board value and
/// the move alone. This is not the same as membership in `legal_moves_of`:
/// the engine's move generator and its legality test differ on rare inputs.
pub uninterp spec fn legal_move_of(b: chess_engine::Board, m: Move) -> bool;

/// Whether the king of color `c` is in check: the engine looks the king up by
/// scanning the squares and asks whether its square is threatened; a board
/// with no such king is never in check.
pub open spec fn spec_in_check(b: chess_engine::Board, c: Color) -> bool {
    match last_king_pos(board_squares(b), c) {
        Some(king_pos) => threatened_of(b, king_pos, c),
        None => false,
    }
}

/// The engine's kingside-castling test for color `c`: the two squares between
/// king and rook are empty, the rook stands untouched on its starting square,
/// the kingside castling right is intact, and neither the king's square nor
/// the two squares it crosses are threatened.
pub open spec fn spec_can_kingside_castle(b: chess_engine::Board, c: Color) -> bool {
    let row: i32 = if c is White { 0 } else { 7 };
    let rook_pos = Position { row, col: 7 };
    spec_piece_at(b, Position { row, col: 5 }) is None
        && spec_piece_at(b, Position { row, col: 6 }) is None
        && spec_piece_at(b, rook_pos) == Some(Piece::Rook(c, rook_pos))
        && board_castling(b, c).0
        && !spec_in_check(b, c)
        && !threatened_of(b, Position { row, col: 5 }, c)
        && !threatened_of(b, Position { row, col: 6 }, c)
}

/// The engine's queenside-castling test for color `c`: the three squares
/// between king and rook are empty, the rook stands untouched on its starting
/// square, the queenside castling right is intact, the king is not in check,
/// and the queen's square is not threatened.
pub open spec fn spec_can_queenside_castle(b: chess_engine::Board, c: Color) -> bool {
    let row: i32 = if c is White { 0 } else { 7 };
    let rook_pos = Position { row, col: 0 };
    spec_piece_at(b, Position { row, col: 1 }) is None
        && spec_piece_at(b, Position { row, col: 2 }) is None
        && spec_piece_at(b, Position { row, col: 3 }) is None
        && spec_piece_at(b, rook_pos) == Some(Piece::Rook(c, rook_pos))
        && board_castling(b, c).1
        && !spec_in_check(b, c)
        && !threatened_of(b, Position { row, col: 3 }, c)
}

/// The engine's stalemate test: the current player has no legal move and is
/// not in check, or both sides lack sufficient material.
pub open spec fn spec_stalemate(b: chess_engine::Board) -> bool {
    (legal_moves_of(b).len() == 0 && !spec_in_check(b, board_turn(b))) || (
    !sufficient_material_of(b, board_turn(b)) && !sufficient_material_of(
        b,
        board_turn(b).spec_opposite(),
    ))
}

/// The engine's checkmate test: the current player is in check and has no
/// legal move.
pub open spec fn spec_checkmate(b: chess_engine::Board) -> bool {
    spec_in_check(b, board_turn(b)) && legal_moves_of(b).len() == 0
}

/// A host-visible board: one embedded native board value, nothing else.
#[derive(Clone, Copy, Debug)]
pub struct Board {
    pub inner: chess_engine::Board,
}

/// What wrapping a native board produces.
pub open spec fn spec_wrap(t: chess_engine::Board) -> Board {
    Board { inner: t }
}

/// What unwrapping a host-visible board yields.
pub open spec fn spec_unwrap(w: Board) -> chess_engine::Board {
    w.inner
}

/// Round trip: unwrapping a wrapped board gives the original value back, and
/// wrapping an unwrapped one restores the wrapper, however often the two are
/// alternated.
pub proof fn lemma_wrap_round_trip(t: chess_engine::Board, w: Board)
    ensures
        spec_unwrap(spec_wrap(t)) == t,
        spec_wrap(spec_unwrap(w)) == w,
{
}

/// Equality fidelity: two wrapped boards are equal exactly when the native
/// values they embed are equal; wrapper identity plays no part.
pub proof fn lemma_wrap_equality_fidelity(a: chess_engine::Board, b: chess_engine::Board)
    ensures
        (spec_wrap(a) == spec_wrap(b)) <==> a == b,
{
    if spec_wrap(a) == spec_wrap(b) {
        assert(spec_unwrap(spec_wrap(a)) == spec_unwrap(spec_wrap(b)));
    }
}

/// Relies on the derived `PartialEq` of `chess_engine::Board`, which compares
/// all fields, so it decides equality of the two values.
#[verifier::external_body]
fn native_board_eq(a: &chess_engine::Board, b: &chess_engine::Board) -> (r: bool)
    ensures
        r == (a == b),
{
    a == b
}

impl PartialEq for Board {
    fn eq(&self, other: &Board) -> (r: bool) {
        native_board_eq(&self.inner, &other.inner)
    }
}

impl vstd::std_specs::cmp::PartialEqSpecImpl for Board {
    open spec fn obeys_eq_spec() -> bool {
        true
    }

    open spec fn eq_spec(&self, other: &Board) -> bool {
        self.inner == other.inner
    }
}

/// Converts a host color to the engine's color, variant for variant.
#[verifier::external_body]
pub(crate) fn to_native_color(c: Color) -> chess_engine::Color {
    match c {
        Color::White => chess_engine::Color::White,
        Color::Black => chess_engine::Color::Black,
    }
}

/// Converts an engine color to the host color, variant for variant.
#[verifier::external_body]
pub(crate) fn from_native_color(c: chess_engine::Color) -> Color {
    match c {
        chess_engine::Color::White => Color::White,
        chess_engine::Color::Black => Color::Black,
    }
}

/// Converts an engine piece to the host piece, variant for variant, moving
/// the color and coordinate fields.
#[verifier::external_body]
pub(crate) fn from_native_piece(p: chess_engine::Piece) -> Piece {
    match p {
        chess_engine::Piece::King(c, pos) => Piece::King(from_native_color(c), from_native_pos(pos)),
        chess_engine::Piece::Queen(c, pos) => Piece::Queen(from_native_color(c), from_native_pos(pos)),
        chess_engine::Piece::Rook(c, pos) => Piece::Rook(from_native_color(c), from_native_pos(pos)),
        chess_engine::Piece::Bishop(c, pos) => Piece::Bishop(from_native_color(c), from_native_pos(pos)),
        chess_engine::Piece::Knight(c, pos) => Piece::Knight(from_native_color(c), from_native_pos(pos)),
        chess_engine::Piece::Pawn(c, pos) => Piece::Pawn(from_native_color(c), from_native_pos(pos)),
    }
}

/// Converts a host piece to the engine's piece, variant for variant, moving
/// the color and coordinate fields.
#[verifier::external_body]
pub(crate) fn to_native_piece(p: Piece) -> chess_engine::Piece {
    match p {
        Piece::King(c, pos) => chess_engine::Piece::King(to_native_color(c), to_native_pos(pos)),
        Piece::Queen(c, pos) => chess_engine::Piece::Queen(to_native_color(c), to_native_pos(pos)),
        Piece::Rook(c, pos) => chess_engine::Piece::Rook(to_native_color(c), to_native_pos(pos)),
        Piece::Bishop(c, pos) => chess_engine::Piece::Bishop(to_native_color(c), to_native_pos(pos)),
        Piece::Knight(c, pos) => chess_engine::Piece::Knight(to_native_color(c), to_native_pos(pos)),
        Piece::Pawn(c, pos) => chess_engine::Piece::Pawn(to_native_color(c), to_native_pos(pos)),
    }
}

/// Converts a host game result to the engine's, variant for variant; a
/// continuing game's board is unwrapped as it is.
#[verifier::external_body]
pub(crate) fn to_native_result(g: GameResult) -> chess_engine::GameResult {
    match g {
        GameResult::Continuing(b) => chess_engine::GameResult::Continuing(b.inner),
        GameResult::Victory(c) => chess_engine::GameResult::Victory(to_native_color(c)),
        GameResult::Stalemate => chess_engine::GameResult::Stalemate,
        GameResult::IllegalMove(m) => chess_engine::GameResult::IllegalMove(to_native_move(m)),
    }
}

/// Converts a host move to the engine's move, variant for variant.
#[verifier::external_body]
pub(crate) fn to_native_move(m: Move) -> chess_engine::Move {
    match m {
        Move::QueenSideCastle => chess_engine::Move::QueenSideCastle,
        Move::KingSideCastle => chess_engine::Move::KingSideCastle,
        Move::Piece(from, to) => chess_engine::Move::Piece(to_native_pos(from), to_native_pos(to)),
        Move::Resign => chess_engine::Move::Resign,
    }
}

/// Converts an engine move to the host move, variant for variant.
#[verifier::external_body]
pub(crate) fn from_native_move(m: chess_engine::Move) -> Move {
    match m {
        chess_engine::Move::QueenSideCastle => Move::QueenSideCastle,
        chess_engine::Move::KingSideCastle => Move::KingSideCastle,
        chess_engine::Move::Piece(from, to) => Move::Piece(from_native_pos(from), from_native_pos(to)),
        chess_engine::Move::Resign => Move::Resign,
    }
}

/// Converts an engine game result to the host's, variant for variant; a
/// continuing game's board is wrapped as it is.
#[verifier::external_body]
pub(crate) fn from_native_result(g: chess_engine::GameResult) -> GameResult {
    match g {
        chess_engine::GameResult::Continuing(b) => GameResult::Continuing(Board { inner: b }),
        chess_engine::GameResult::Victory(c) => GameResult::Victory(from_native_color(c)),
        chess_engine::GameResult::Stalemate => GameResult::Stalemate,
        chess_engine::GameResult::IllegalMove(m) => GameResult::IllegalMove(from_native_move(m)),
    }
}

/// Converts a host coordinate to the engine's, field for field.
#[verifier::external_body]
pub(crate) fn to_native_pos(p: Position) -> chess_engine::Position {
    chess_engine::Position::new(p.row, p.col)
}

/// Converts an engine coordinate to the host's, field for field.
#[verifier::external_body]
pub(crate) fn from_native_pos(p: chess_engine::Position) -> Position {
    Position { row: p.get_row(), col: p.get_col() }
}

impl Board {
    /// Wraps a native board value; the wrapper embeds it directly.
    pub fn wrap(t: chess_engine::Board) -> (r: Board)
        ensures
            r == spec_wrap(t),
    {
        Board { inner: t }
    }

    /// Hands the embedded native board value back out.
    pub fn unwrap(self) -> (r: chess_engine::Board)
        ensures
            r == spec_unwrap(self),
    {
        self.inner
    }

    /// Relies on `chess_engine::Board::default`: the standard starting
    /// position, White to move, no en-passant square, full castling rights.
    #[verifier::external_body]
    pub fn new() -> (r: Board)
        ensures
            board_squares(r.inner) == starting_squares(),
            board_turn(r.inner) == Color::White,
            board_en_passant(r.inner) == None::<Position>,
            board_castling(r.inner, Color::White) == (true, true),
            board_castling(r.inner, Color::Black) == (true, true),
    {
        Board { inner: chess_engine::Board::default() }
    }

    /// Relies on `chess_engine::Board::empty`: a board with no pieces, White
    /// to move, no en-passant square, full castling rights.
    #[verifier::external_body]
    pub fn empty() -> (r: Board)
        ensures
            board_squares(r.inner) == Seq::new(64, |i: int| Square { piece: None::<Piece> }),
            board_turn(r.inner) == Color::White,
            board_en_passant(r.inner) == None::<Position>,
            board_castling(r.inner, Color::White) == (true, true),
            board_castling(r.inner, Color::Black) == (true, true),
    {
        Board { inner: chess_engine::Board::empty() }
    }

    /// Relies on `chess_engine::Board::horde`: the Horde-variant starting
    /// position, White to move, no en-passant square, full castling rights.
    #[verifier::external_body]
    pub fn horde() -> (r: Board)
        ensures
            board_wf(r.inner),
            board_turn(r.inner) == Color::White,
            board_en_passant(r.inner) == None::<Position>,
            board_castling(r.inner, Color::White) == (true, true),
            board_castling(r.inner, Color::Black) == (true, true),
    {
        Board { inner: chess_engine::Board::horde() }
    }

    /// Relies on `chess_engine::Board::get_turn_color`: the turn field.
    #[verifier::external_body]
    pub fn get_turn_color(&self) -> (r: Color)
        ensures
            r == board_turn(self.inner),
    {
        from_native_color(self.inner.get_turn_color())
    }

    /// The current player's color; it coincides with the turn color.
    pub fn get_current_player_color(&self) -> (r: Color)
        ensures
            r == board_turn(self.inner),
    {
        self.get_turn_color()
    }

    /// Relies on `chess_engine::Board::get_en_passant`: the en-passant field.
    #[verifier::external_body]
    pub fn get_en_passant(&self) -> (r: Option<Position>)
        ensures
            r == board_en_passant(self.inner),
    {
        self.inner.get_en_passant().map(from_native_pos)
    }

    /// Relies on `chess_engine::Board::set_turn`: a copy of the board whose
    /// turn is `color`; squares, en-passant square and castling rights are
    /// those of the original.
    #[verifier::external_body]
    pub fn set_turn(&self, color: Color) -> (r: Board)
        ensures
            board_turn(r.inner) == color,
            board_squares(r.inner) == board_squares(self.inner),
            board_en_passant(r.inner) == board_en_passant(self.inner),
            board_castling(r.inner, Color::White) == board_castling(self.inner, Color::White),
            board_castling(r.inner, Color::Black) == board_castling(self.inner, Color::Black),
    {
        Board { inner: self.inner.set_turn(to_native_color(color)) }
    }

    /// Relies on `chess_engine::Board::remove_all`: a copy of the board with
    /// every piece of `color` removed, square by square; turn, en-passant
    /// square and castling rights are those of the original.
    #[verifier::external_body]
    pub fn remove_all(&self, color: Color) -> (r: Board)
        ensures
            board_squares(r.inner).len() == board_squares(self.inner).len(),
            forall|i: int|
                0 <= i < board_squares(self.inner).len() ==> board_squares(r.inner)[i]
                    == removed_square(board_squares(self.inner)[i], color),
            board_turn(r.inner) == board_turn(self.inner),
            board_en_passant(r.inner) == board_en_passant(self.inner),
            board_castling(r.inner, Color::White) == board_castling(self.inner, Color::White),
            board_castling(r.inner, Color::Black) == board_castling(self.inner, Color::Black),
    {
        Board { inner: self.inner.remove_all(to_native_color(color)) }
    }

    /// Relies on `chess_engine::Board::queen_all`: a copy of the board with
    /// every piece of `color` except the king replaced by a queen of that
    /// color on the same square; turn, en-passant square and castling rights
    /// are those of the original.
    #[verifier::external_body]
    pub fn queen_all(&self, color: Color) -> (r: Board)
        ensures
            board_squares(r.inner).len() == board_squares(self.inner).len(),
            forall|i: int|
                0 <= i < board_squares(self.inner).len() ==> board_squares(r.inner)[i]
                    == queened_square(board_squares(self.inner)[i], color),
            board_turn(r.inner) == board_turn(self.inner),
            board_en_passant(r.inner) == board_en_passant(self.inner),
            board_castling(r.inner, Color::White) == board_castling(self.inner, Color::White),
            board_castling(r.inner, Color::Black) == board_castling(self.inner, Color::Black),
    {
        Board { inner: self.inner.queen_all(to_native_color(color)) }
    }

    /// Relies on `chess_engine::Board::get_piece`: the piece standing on
    /// `pos`, or nothing when the square is empty or off the board.
    #[verifier::external_body]
    pub fn get_piece(&self, pos: Position) -> (r: Option<Piece>)
        ensures
            r == spec_piece_at(self.inner, pos),
    {
        self.inner.get_piece(to_native_pos(pos)).map(from_native_piece)
    }

    /// Whether `pos` holds a piece of color `ally_color`.
    pub fn has_ally_piece(&self, pos: Position, ally_color: Color) -> (r: bool)
        ensures
            r == (spec_piece_at(self.inner, pos) matches Some(p) && p.spec_color() == ally_color),
    {
        match self.get_piece(pos) {
            Some(piece) => piece.get_color() == ally_color,
            None => false,
        }
    }

    /// Whether `pos` holds a piece of the color opposing `ally_color`.
    pub fn has_enemy_piece(&self, pos: Position, ally_color: Color) -> (r: bool)
        ensures
            r == (spec_piece_at(self.inner, pos) matches Some(p) && p.spec_color()
                == ally_color.spec_opposite()),
    {
        match self.get_piece(pos) {
            Some(piece) => piece.get_color() == ally_color.opposite(),
            None => false,
        }
    }

    /// Whether `pos` holds any piece.
    pub fn has_piece(&self, pos: Position) -> (r: bool)
        ensures
            r == (spec_piece_at(self.inner, pos) is Some),
    {
        self.get_piece(pos).is_some()
    }

    /// Whether `pos` holds no piece.
    pub fn has_no_piece(&self, pos: Position) -> (r: bool)
        ensures
            r == (spec_piece_at(self.inner, pos) is None),
    {
        self.get_piece(pos).is_none()
    }

    /// Relies on `chess_engine::Board::get_king_pos`: scans the squares in
    /// storage order and returns the position of the last king of `color`.
    #[verifier::external_body]
    pub fn get_king_pos(&self, color: Color) -> (r: Option<Position>)
        ensures
            r == last_king_pos(board_squares(self.inner), color),
    {
        self.inner.get_king_pos(to_native_color(color)).map(from_native_pos)
    }

    /// Relies on `chess_engine::Board::get_material_advantage`: the signed
    /// material sum over all squares.
    #[verifier::external_body]
    pub fn get_material_advantage(&self, color: Color) -> (r: i32)
        ensures
            r as int == material_advantage(board_squares(self.inner), color),
    {
        self.inner.get_material_advantage(to_native_color(color))
    }

    /// Relies on `chess_engine::Board::change_turn`: a copy of the board with
    /// the turn given to the other player; squares, en-passant square and
    /// castling rights are those of the original.
    #[verifier::external_body]
    pub fn change_turn(&self) -> (r: Board)
        ensures
            board_turn(r.inner) == board_turn(self.inner).spec_opposite(),
            board_squares(r.inner) == board_squares(self.inner),
            board_en_passant(r.inner) == board_en_passant(self.inner),
            board_castling(r.inner, Color::White) == board_castling(self.inner, Color::White),
            board_castling(r.inner, Color::Black) == board_castling(self.inner, Color::Black),
    {
        Board { inner: self.inner.change_turn() }
    }

    /// Relies on `chess_engine::Board::is_threatened`: whether an enemy of
    /// `ally_color` attacks the square `pos`. The engine subtracts the given
    /// coordinates from on-board ones before it checks board bounds, so
    /// coordinates within 7 of the lower machine limit would overflow there;
    /// they are left out.
    #[verifier::external_body]
    pub fn is_threatened(&self, pos: Position, ally_color: Color) -> (r: bool)
        requires
            i32::MIN + 8 <= pos.row,
            i32::MIN + 8 <= pos.col,
        ensures
            r == threatened_of(self.inner, pos, ally_color),
    {
        self.inner.is_threatened(to_native_pos(pos), to_native_color(ally_color))
    }

    /// Relies on `chess_engine::Board::is_in_check`: whether the king of
    /// `color` stands on a threatened square — the engine looks its own king
    /// up and asks the threat test, and a board with no such king is never in
    /// check. Every position a board stores is on the board, so the threat
    /// test's coordinate arithmetic stays in bounds.
    #[verifier::external_body]
    pub fn is_in_check(&self, color: Color) -> (r: bool)
        ensures
            r == spec_in_check(self.inner, color),
    {
        self.inner.is_in_check(to_native_color(color))
    }

    /// Relies on `chess_engine::Board::can_kingside_castle`: the engine's
    /// kingside-castling test, square emptiness, the untouched rook, the
    /// castling right and the threat checks included.
    #[verifier::external_body]
    pub fn can_kingside_castle(&self, color: Color) -> (r: bool)
        ensures
            r == spec_can_kingside_castle(self.inner, color),
    {
        self.inner.can_kingside_castle(to_native_color(color))
    }

    /// Relies on `chess_engine::Board::can_queenside_castle`: the engine's
    /// queenside-castling test.
    #[verifier::external_body]
    pub fn can_queenside_castle(&self, color: Color) -> (r: bool)
        ensures
            r == spec_can_queenside_castle(self.inner, color),
    {
        self.inner.can_queenside_castle(to_native_color(color))
    }

    /// Relies on `chess_engine::Board::has_sufficient_material`.
    #[verifier::external_body]
    pub fn has_sufficient_material(&self, color: Color) -> (r: bool)
        ensures
            r == sufficient_material_of(self.inner, color),
    {
        self.inner.has_sufficient_material(to_native_color(color))
    }

    /// Whether `color` lacks sufficient material to win.
    pub fn has_insufficient_material(&self, color: Color) -> (r: bool)
        ensures
            r == !sufficient_material_of(self.inner, color),
    {
        !self.has_sufficient_material(color)
    }

    /// Relies on `chess_engine::Evaluate::get_legal_moves`: the current
    /// player's legal moves, in the engine's generation order.
    #[verifier::external_body]
    pub fn get_legal_moves(&self) -> (r: Vec<Move>)
        ensures
            r@ == legal_moves_of(self.inner),
    {
        self.inner.get_legal_moves().into_iter().map(from_native_move).collect()
    }

    /// Whether the game is drawn for the current player: no legal move while
    /// not in check, or insufficient material on both sides.
    pub fn is_stalemate(&self) -> (r: bool)
        ensures
            r == spec_stalemate(self.inner),
    {
        (self.get_legal_moves().len() == 0 && !self.is_in_check(self.get_current_player_color()))
            || (self.has_insufficient_material(self.get_turn_color())
                && self.has_insufficient_material(self.get_turn_color().opposite()))
    }

    /// Whether the current player is checkmated: in check with no legal move.
    pub fn is_checkmate(&self) -> (r: bool)
        ensures
            r == spec_checkmate(self.inner),
    {
        self.is_in_check(self.get_current_player_color()) && self.get_legal_moves().len() == 0
    }

    /// Relies on `chess_engine::Board::play_move`. Resigning awards victory to
    /// the opponent. Any other move the engine deems illegal comes back as
    /// data, tagged illegal and carrying that exact move — never a failure. A
    /// legal move is applied, the turn passes, and the outcome is read off the
    /// successor: the mover's victory on checkmate, a stalemate, or a game
    /// that continues on that very successor board.
    #[verifier::external_body]
    pub fn play_move(&self, m: Move) -> (r: GameResult)
        ensures
            m == Move::Resign ==> r == GameResult::Victory(
                board_turn(self.inner).spec_opposite(),
            ),
            m != Move::Resign && !legal_move_of(self.inner, m) ==> r == GameResult::IllegalMove(
                m,
            ),
            m != Move::Resign && legal_move_of(self.inner, m) ==> r == (
            if spec_checkmate(eval_move_of(self.inner, m)) {
                GameResult::Victory(board_turn(self.inner))
            } else if spec_stalemate(eval_move_of(self.inner, m)) {
                GameResult::Stalemate
            } else {
                GameResult::Continuing((Board { inner: eval_move_of(self.inner, m) }))
            }),
            r matches GameResult::Continuing(next) ==> next.inner == eval_move_of(self.inner, m)
                && board_turn(next.inner) == board_turn(self.inner).spec_opposite() && board_wf(
                next.inner,
            ),
    {
        from_native_result(self.inner.play_move(to_native_move(m)))
    }

    /// Relies on `chess_engine::Evaluate::apply_eval_move`: applies the move
    /// without a legality check and passes the turn to the other player.
    #[verifier::external_body]
    pub fn apply_eval_move(&self, m: Move) -> (r: Board)
        ensures
            r.inner == eval_move_of(self.inner, m),
            board_turn(r.inner) == board_turn(self.inner).spec_opposite(),
            board_wf(r.inner),
    {
        Board { inner: self.inner.apply_eval_move(to_native_move(m)) }
    }

    /// Relies on `chess_engine::Evaluate::get_best_next_move`: the strongest
    /// move minimax finds for the current player at the given depth, with the
    /// number of boards examined. The result is either one of the legal moves
    /// or a resignation.
    #[verifier::external_body]
    pub fn get_best_next_move(&self, depth: i32) -> (r: (Move, u64))
        requires
            0 <= depth,
        ensures
            r == best_of(self.inner, depth),
            r.0 == Move::Resign || legal_moves_of(self.inner).contains(r.0),
    {
        let (m, node_count, _value) = self.inner.get_best_next_move(depth);
        (from_native_move(m), node_count)
    }

    /// Relies on `chess_engine::Evaluate::get_worst_next_move`: the weakest
    /// move minimax finds for the current player at the given depth, with the
    /// number of boards examined. The result is either one of the legal moves
    /// or a resignation.
    #[verifier::external_body]
    pub fn get_worst_next_move(&self, depth: i32) -> (r: (Move, u64))
        requires
            0 <= depth,
        ensures
            r == worst_of(self.inner, depth),
            r.0 == Move::Resign || legal_moves_of(self.inner).contains(r.0),
    {
        let (m, node_count, _value) = self.inner.get_worst_next_move(depth);
        (from_native_move(m), node_count)
    }

    /// Relies on `chess_engine::Board::rating_bar`: a textual rating bar of at
    /// most `len` cells per side.
    #[verifier::external_body]
    pub fn rating_bar(&self, len: usize) -> (r: String)
        ensures
            r@.len() <= 2 * len,
    {
        self.inner.rating_bar(len)
    }

    /// Relies on the engine board's `Display` form: a non-empty drawing of
    /// the board.
    #[verifier::external_body]
    pub fn to_string(&self) -> (r: String)
        ensures
            r@.len() > 0,
    {
        format!("{}", self.inner)
    }

    /// Relies on the engine board's derived `Debug` form: a non-empty
    /// diagnostic rendering.
    #[verifier::external_body]
    pub fn inspect(&self) -> (r: String)
        ensures
            r@.len() > 0,
    {
        format!("{:?}", self.inner)
    }
}

/// Functional update: a board transform never alters the board it is applied
/// to. The snapshot taken before the transform still compares equal to the
/// original afterwards, for every board; the result says the comparison can
/// never come out false.
pub fn functional_update_preserved(board: &Board) -> (r: bool)
    ensures
        r,
{
    let snapshot = *board;
    let _successor = board.change_turn();
    *board == snapshot
}

/// Search determinism: what the engine's search returns is a function of the
/// board value and the depth alone, so two searches on equal boards at equal
/// depth return the same move and the same node count.
pub proof fn lemma_search_deterministic(
    a: chess_engine::Board,
    b: chess_engine::Board,
    depth: i32,
)
    requires
        a == b,
    ensures
        best_of(a, depth) == best_of(b, depth),
        worst_of(a, depth) == worst_of(b, depth),
{
}

/// Registers the board class: its constructors, methods and operators, with
/// every depth- or board-scanning engine call routed through the dispatcher.
pub fn bind(reg: &mut Registry)
    ensures
        final(reg).methods@ == old(reg).methods@ + crate::registry::board_catalog(),
        final(reg).position_constants@ == old(reg).position_constants@,
        final(reg).color_constants@ == old(reg).color_constants@,
        final(reg).empty_square == old(reg).empty_square,
{
    reg.methods.push(MethodEntry { class: ClassId::Board, name: "new", arity: 0, kind: EntryKind::Constructor, dispatched: false });
    reg.methods.push(MethodEntry { class: ClassId::Board, name: "horde", arity: 0, kind: EntryKind::Constructor, dispatched: false });
    reg.methods.push(MethodEntry { class: ClassId::Board, name: "empty", arity: 0, kind: EntryKind::Constructor, dispatched: false });
    reg.methods.push(MethodEntry { class: ClassId::Board, name: "rating_bar", arity: 1, kind: EntryKind::Method, dispatched: true });
    reg.methods.push(MethodEntry { class: ClassId::Board, name: "turn_color", arity: 0, kind: EntryKind::Method, dispatched: false });
    reg.methods.push(MethodEntry { class: ClassId::Board, name: "en_passant", arity: 0, kind: EntryKind::Method, dispatched: false });
    reg.methods.push(MethodEntry { class: ClassId::Board, name: "remove_all", arity: 1, kind: EntryKind::Method, dispatched: false });
    reg.methods.push(MethodEntry { class: ClassId::Board, name: "queen_all", arity: 1, kind: EntryKind::Method, dispatched: false });
    reg.methods.push(MethodEntry { class: ClassId::Board, name: "turn=", arity: 1, kind: EntryKind::Method, dispatched: false });
    reg.methods.push(MethodEntry { class: ClassId::Board, name: "material_advantage", arity: 1, kind: EntryKind::Method, dispatched: true });
    reg.methods.push(MethodEntry { class: ClassId::Board, name: "piece", arity: 1, kind: EntryKind::Method, dispatched: false });
    reg.methods.push(MethodEntry { class: ClassId::Board, name: "has_ally_piece?", arity: 2, kind: EntryKind::Method, dispatched: false });
    reg.methods.push(MethodEntry { class: ClassId::Board, name: "has_enemy_piece", arity: 2, kind: EntryKind::Method, dispatched: false });
    reg.methods.push(MethodEntry { class: ClassId::Board, name: "has_piece?", arity: 1, kind: EntryKind::Method, dispatched: false });
    reg.methods.push(MethodEntry { class: ClassId::Board, name: "has_no_piece?", arity: 1, kind: EntryKind::Method, dispatched: false });
    reg.methods.push(MethodEntry { class: ClassId::Board, name: "king_pos", arity: 1, kind: EntryKind::Method, dispatched: false });
    reg.methods.push(MethodEntry { class: ClassId::Board, name: "threatened?", arity: 2, kind: EntryKind::Method, dispatched: true });
    reg.methods.push(MethodEntry { class: ClassId::Board, name: "in_check?", arity: 1, kind: EntryKind::Method, dispatched: true });
    reg.methods.push(MethodEntry { class: ClassId::Board, name: "can_kingside_castle?", arity: 1, kind: EntryKind::Method, dispatched: false });
    reg.methods.push(MethodEntry { class: ClassId::Board, name: "can_queenside_castle?", arity: 1, kind: EntryKind::Method, dispatched: false });
    reg.methods.push(MethodEntry { class: ClassId::Board, name: "has_sufficient_material?", arity: 1, kind: EntryKind::Method, dispatched: true });
    reg.methods.push(MethodEntry { class: ClassId::Board, name: "has_insufficient_material?", arity: 1, kind: EntryKind::Method, dispatched: true });
    reg.methods.push(MethodEntry { class: ClassId::Board, name: "stalemate?", arity: 0, kind: EntryKind::Method, dispatched: true });
    reg.methods.push(MethodEntry { class: ClassId::Board, name: "checkmate?", arity: 0, kind: EntryKind::Method, dispatched: true });
    reg.methods.push(MethodEntry { class: ClassId::Board, name: "change_turn", arity: 0, kind: EntryKind::Method, dispatched: false });
    reg.methods.push(MethodEntry { class: ClassId::Board, name: "play_move", arity: 1, kind: EntryKind::Method, dispatched: true });
    reg.methods.push(MethodEntry { class: ClassId::Board, name: "value_for", arity: 1, kind: EntryKind::Method, dispatched: true });
    reg.methods.push(MethodEntry { class: ClassId::Board, name: "current_player_color", arity: 0, kind: EntryKind::Method, dispatched: false });
    reg.methods.push(MethodEntry { class: ClassId::Board, name: "apply_eval_move", arity: 1, kind: EntryKind::Method, dispatched: false });
    reg.methods.push(MethodEntry { class: ClassId::Board, name: "legal_moves", arity: 0, kind: EntryKind::Method, dispatched: true });
    reg.methods.push(MethodEntry { class: ClassId::Board, name: "best_next_move", arity: 1, kind: EntryKind::Method, dispatched: true });
    reg.methods.push(MethodEntry { class: ClassId::Board, name: "worst_next_move", arity: 1, kind: EntryKind::Method, dispatched: true });
    reg.methods.push(MethodEntry { class: ClassId::Board, name: "minimax", arity: 6, kind: EntryKind::Method, dispatched: true });
    reg.methods.push(MethodEntry { class: ClassId::Board, name: "inspect", arity: 0, kind: EntryKind::Method, dispatched: false });
    reg.methods.push(MethodEntry { class: ClassId::Board, name: "to_s", arity: 0, kind: EntryKind::Method, dispatched: false });
    reg.methods.push(MethodEntry { class: ClassId::Board, name: "==", arity: 1, kind: EntryKind::Operator, dispatched: false });
    reg.methods.push(MethodEntry { class: ClassId::Board, name: "!=", arity: 1, kind: EntryKind::Operator, dispatched: false });
    proof {
        assert(reg.methods@ =~= old(reg).methods@ + crate::registry::board_catalog());
    }
}

} // verus!
