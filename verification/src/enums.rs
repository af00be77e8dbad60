//! The host-visible value types of the binding: piece colors, pieces, moves
//! and game results. All of them are plain values with structural equality;
//! none is ever mutated in place.

use vstd::prelude::*;

use crate::board::Board;
use crate::position::Position;

use crate::registry::{ClassId, ColorConstant, EntryKind, MethodEntry, Registry};

verus! {

/// The color of a player or piece.
#[derive(Clone, Copy, Debug, PartialEq, Eq, Structural)]
pub enum Color {
    White,
    Black,
}

impl Color {
    pub open spec fn spec_opposite(self) -> Color {
        match self {
            Color::White => Color::Black,
            Color::Black => Color::White,
        }
    }

    /// The other player's color.
    pub fn opposite(self) -> (r: Color)
        ensures
            r == self.spec_opposite(),
    {
        match self {
            Color::White => Color::Black,
            Color::Black => Color::White,
        }
    }

    /// The user-facing name of the color.
    pub fn to_string(&self) -> (r: String)
        ensures
            self == Color::White ==> r@ == "White"@,
            self == Color::Black ==> r@ == "Black"@,
    {
        match self {
            Color::White => "White".to_owned(),
            Color::Black => "Black".to_owned(),
        }
    }

    /// The diagnostic form; it coincides with the user-facing name.
    pub fn inspect(&self) -> (r: String)
        ensures
            self == Color::White ==> r@ == "White"@,
            self == Color::Black ==> r@ == "Black"@,
    {
        self.to_string()
    }
}

/// A piece on a board: a kind together with the piece's color and its square.
#[derive(Clone, Copy, Debug, PartialEq, Eq, Structural)]
pub enum Piece {
    King(Color, Position),
    Queen(Color, Position),
    Rook(Color, Position),
    Bishop(Color, Position),
    Knight(Color, Position),
    Pawn(Color, Position),
}

impl Piece {
    pub open spec fn spec_color(self) -> Color {
        match self {
            Piece::King(c, _) => c,
            Piece::Queen(c, _) => c,
            Piece::Rook(c, _) => c,
            Piece::Bishop(c, _) => c,
            Piece::Knight(c, _) => c,
            Piece::Pawn(c, _) => c,
        }
    }

    pub open spec fn spec_pos(self) -> Position {
        match self {
            Piece::King(_, p) => p,
            Piece::Queen(_, p) => p,
            Piece::Rook(_, p) => p,
            Piece::Bishop(_, p) => p,
            Piece::Knight(_, p) => p,
            Piece::Pawn(_, p) => p,
        }
    }

    /// The material value of the piece's kind: king 99999, queen 9, rook 5,
    /// bishop 3, knight 3, pawn 1.
    pub open spec fn spec_material_value(self) -> int {
        match self {
            Piece::King(_, _) => 99999,
            Piece::Queen(_, _) => 9,
            Piece::Rook(_, _) => 5,
            Piece::Bishop(_, _) => 3,
            Piece::Knight(_, _) => 3,
            Piece::Pawn(_, _) => 1,
        }
    }

    /// The lowercase name of the piece's kind.
    pub fn get_name(&self) -> (r: String)
        ensures
            self is King ==> r@ == "king"@,
            self is Queen ==> r@ == "queen"@,
            self is Rook ==> r@ == "rook"@,
            self is Bishop ==> r@ == "bishop"@,
            self is Knight ==> r@ == "knight"@,
            self is Pawn ==> r@ == "pawn"@,
    {
        match self {
            Piece::King(_, _) => "king".to_owned(),
            Piece::Queen(_, _) => "queen".to_owned(),
            Piece::Rook(_, _) => "rook".to_owned(),
            Piece::Bishop(_, _) => "bishop".to_owned(),
            Piece::Knight(_, _) => "knight".to_owned(),
            Piece::Pawn(_, _) => "pawn".to_owned(),
        }
    }

    pub fn get_material_value(&self) -> (r: i32)
        ensures
            r == self.spec_material_value(),
    {
        match self {
            Piece::King(_, _) => 99999,
            Piece::Queen(_, _) => 9,
            Piece::Rook(_, _) => 5,
            Piece::Bishop(_, _) => 3,
            Piece::Knight(_, _) => 3,
            Piece::Pawn(_, _) => 1,
        }
    }

    /// The same piece, recolored; kind and square are kept.
    pub fn with_color(&self, color: Color) -> (r: Self)
        ensures
            r.spec_color() == color,
            r.spec_pos() == self.spec_pos(),
            r.spec_material_value() == self.spec_material_value(),
            r == self.spec_with_color(color),
    {
        match *self {
            Piece::King(_, pos) => Piece::King(color, pos),
            Piece::Queen(_, pos) => Piece::Queen(color, pos),
            Piece::Rook(_, pos) => Piece::Rook(color, pos),
            Piece::Bishop(_, pos) => Piece::Bishop(color, pos),
            Piece::Knight(_, pos) => Piece::Knight(color, pos),
            Piece::Pawn(_, pos) => Piece::Pawn(color, pos),
        }
    }

    pub open spec fn spec_with_color(self, color: Color) -> Piece {
        match self {
            Piece::King(_, pos) => Piece::King(color, pos),
            Piece::Queen(_, pos) => Piece::Queen(color, pos),
            Piece::Rook(_, pos) => Piece::Rook(color, pos),
            Piece::Bishop(_, pos) => Piece::Bishop(color, pos),
            Piece::Knight(_, pos) => Piece::Knight(color, pos),
            Piece::Pawn(_, pos) => Piece::Pawn(color, pos),
        }
    }

    pub fn get_color(&self) -> (r: Color)
        ensures
            r == self.spec_color(),
    {
        match self {
            Piece::King(c, _) => *c,
            Piece::Queen(c, _) => *c,
            Piece::Rook(c, _) => *c,
            Piece::Bishop(c, _) => *c,
            Piece::Knight(c, _) => *c,
            Piece::Pawn(c, _) => *c,
        }
    }

    pub fn get_pos(&self) -> (r: Position)
        ensures
            r == self.spec_pos(),
    {
        match self {
            Piece::King(_, p) => *p,
            Piece::Queen(_, p) => *p,
            Piece::Rook(_, p) => *p,
            Piece::Bishop(_, p) => *p,
            Piece::Knight(_, p) => *p,
            Piece::Pawn(_, p) => *p,
        }
    }

    pub fn is_king(&self) -> (r: bool)
        ensures
            r == (self is King),
    {
        matches!(self, Piece::King(_, _))
    }

    pub fn is_queen(&self) -> (r: bool)
        ensures
            r == (self is Queen),
    {
        matches!(self, Piece::Queen(_, _))
    }

    pub fn is_rook(&self) -> (r: bool)
        ensures
            r == (self is Rook),
    {
        matches!(self, Piece::Rook(_, _))
    }

    pub fn is_bishop(&self) -> (r: bool)
        ensures
            r == (self is Bishop),
    {
        matches!(self, Piece::Bishop(_, _))
    }

    pub fn is_knight(&self) -> (r: bool)
        ensures
            r == (self is Knight),
    {
        matches!(self, Piece::Knight(_, _))
    }

    pub fn is_pawn(&self) -> (r: bool)
        ensures
            r == (self is Pawn),
    {
        matches!(self, Piece::Pawn(_, _))
    }

    /// Whether this is a pawn standing on its color's starting rank.
    pub fn is_starting_pawn(&self) -> (r: bool)
        ensures
            r == (self matches Piece::Pawn(c, pos) && (match c {
                Color::White => pos.row == 1,
                Color::Black => pos.row == 6,
            })),
    {
        if let Piece::Pawn(c, pos) = self {
            pos.is_starting_pawn(*c)
        } else {
            false
        }
    }

    /// Whether this is a rook on either player's queenside-rook starting square.
    pub fn is_queenside_rook(&self) -> (r: bool)
        ensures
            r == (self matches Piece::Rook(_, pos) && (pos.row == 0 || pos.row == 7)
                && pos.col == 0),
    {
        if let Piece::Rook(_, pos) = self {
            pos.is_queenside_rook()
        } else {
            false
        }
    }

    /// Whether this is a rook on either player's kingside-rook starting square.
    pub fn is_kingside_rook(&self) -> (r: bool)
        ensures
            r == (self matches Piece::Rook(_, pos) && (pos.row == 0 || pos.row == 7)
                && pos.col == 7),
    {
        if let Piece::Rook(_, pos) = self {
            pos.is_kingside_rook()
        } else {
            false
        }
    }

    /// The same piece placed on a new square; kind and color are kept. Move
    /// legality is not checked.
    pub fn move_to(&self, new_pos: Position) -> (r: Self)
        ensures
            r == self.spec_move_to(new_pos),
            r.spec_color() == self.spec_color(),
            r.spec_pos() == new_pos,
    {
        match *self {
            Piece::King(c, _) => Piece::King(c, new_pos),
            Piece::Queen(c, _) => Piece::Queen(c, new_pos),
            Piece::Rook(c, _) => Piece::Rook(c, new_pos),
            Piece::Bishop(c, _) => Piece::Bishop(c, new_pos),
            Piece::Knight(c, _) => Piece::Knight(c, new_pos),
            Piece::Pawn(c, _) => Piece::Pawn(c, new_pos),
        }
    }

    pub open spec fn spec_move_to(self, new_pos: Position) -> Piece {
        match self {
            Piece::King(c, _) => Piece::King(c, new_pos),
            Piece::Queen(c, _) => Piece::Queen(c, new_pos),
            Piece::Rook(c, _) => Piece::Rook(c, new_pos),
            Piece::Bishop(c, _) => Piece::Bishop(c, new_pos),
            Piece::Knight(c, _) => Piece::Knight(c, new_pos),
            Piece::Pawn(c, _) => Piece::Pawn(c, new_pos),
        }
    }
}

/// A move a player can submit: castling on either side, moving a piece from
/// one square to another, or resigning.
#[derive(Clone, Copy, Debug, PartialEq, Eq, Structural)]
pub enum Move {
    QueenSideCastle,
    KingSideCastle,
    Piece(Position, Position),
    Resign,
}

impl Move {
    pub fn new_queenside_castle() -> (r: Self)
        ensures
            r == Move::QueenSideCastle,
    {
        Move::QueenSideCastle
    }

    pub fn new_kingside_castle() -> (r: Self)
        ensures
            r == Move::KingSideCastle,
    {
        Move::KingSideCastle
    }

    pub fn new_piece(pos1: Position, pos2: Position) -> (r: Self)
        ensures
            r == Move::Piece(pos1, pos2),
    {
        Move::Piece(pos1, pos2)
    }

    pub fn new_resign() -> (r: Self)
        ensures
            r == Move::Resign,
    {
        Move::Resign
    }

    pub fn is_queenside_castle(&self) -> (r: bool)
        ensures
            r == (self is QueenSideCastle),
    {
        matches!(self, Move::QueenSideCastle)
    }

    pub fn is_kingside_castle(&self) -> (r: bool)
        ensures
            r == (self is KingSideCastle),
    {
        matches!(self, Move::KingSideCastle)
    }

    pub fn is_piece(&self) -> (r: bool)
        ensures
            r == (self is Piece),
    {
        matches!(self, Move::Piece(..))
    }

    pub fn is_resign(&self) -> (r: bool)
        ensures
            r == (self is Resign),
    {
        matches!(self, Move::Resign)
    }

    /// The source and target square of a piece move, and nothing for the
    /// other variants.
    pub fn piece_positions(&self) -> (r: Option<(Position, Position)>)
        ensures
            r == (match self {
                Move::Piece(pos1, pos2) => Some((*pos1, *pos2)),
                _ => None::<(Position, Position)>,
            }),
    {
        if let Move::Piece(pos1, pos2) = self {
            Some((*pos1, *pos2))
        } else {
            None
        }
    }
}

/// What parsing move text yields on trimmed ASCII text without whitespace:
/// the resignation and castling keywords, or four characters read as two PGN
/// coordinates. (Forms with embedded spaces, such as `e2 e4`, are accepted by
/// the parser but not pinned down here.)
pub open spec fn move_parse_spec(t: Seq<char>) -> Option<Move> {
    if t == "resign"@ || t == "resigns"@ {
        Some(Move::Resign)
    } else if t == "O-O-O"@ || t == "0-0-0"@ || t == "o-o-o"@ {
        Some(Move::QueenSideCastle)
    } else if t == "O-O"@ || t == "0-0"@ || t == "o-o"@ {
        Some(Move::KingSideCastle)
    } else if t.len() == 4 {
        match (crate::position::pgn_spec(t.subrange(0, 2)), crate::position::pgn_spec(
            t.subrange(2, 4),
        )) {
            (Some(from), Some(to)) => Some(Move::Piece(from, to)),
            _ => None,
        }
    } else {
        None
    }
}

/// The full outcome of `chess_engine::Move::parse` on the given text: the
/// parsed move, or the failure message. The parse reads nothing but the text,
/// so its outcome is a function of the text alone.
pub uninterp spec fn move_parse_of(t: Seq<char>) -> Result<Move, Seq<char>>;

impl Move {
    /// Relies on `chess_engine::Move::parse`. The result — parsed value on
    /// success, message text verbatim on failure — is exactly the named
    /// outcome `move_parse_of`; a failure message is never empty. On ASCII
    /// text without whitespace the outcome is exactly `move_parse_spec`.
    #[verifier::external_body]
    pub fn parse(repr: String) -> (r: Result<Move, String>)
        ensures
            move_parse_of(repr@) == (match r {
                Ok(m) => Ok::<Move, Seq<char>>(m),
                Err(e) => Err::<Move, Seq<char>>(e@),
            }),
            r matches Err(e) ==> e@.len() > 0,
            repr.is_ascii() && crate::position::no_whitespace(repr@) ==> (
            match move_parse_spec(repr@) {
                Some(m) => r == Ok::<Move, String>(m),
                None => r is Err,
            }),
    {
        chess_engine::Move::parse(repr).map(crate::board::from_native_move)
    }

    /// Relies on the engine move's `Display` form: castling notation, the
    /// resignation keyword, or the two coordinates joined by `to`.
    #[verifier::external_body]
    pub fn to_string(&self) -> (r: String)
        requires
            self matches Move::Piece(from, to) ==> from.row < i32::MAX && to.row < i32::MAX,
        ensures
            r@.len() > 0,
    {
        format!("{}", crate::board::to_native_move(*self))
    }

    /// Relies on the engine move's derived `Debug` form: a non-empty
    /// diagnostic rendering.
    #[verifier::external_body]
    pub fn inspect(&self) -> (r: String)
        ensures
            r@.len() > 0,
    {
        format!("{:?}", crate::board::to_native_move(*self))
    }
}

impl Piece {
    /// Relies on the engine piece's `Display` form: a single chess glyph.
    #[verifier::external_body]
    pub fn to_string(&self) -> (r: String)
        ensures
            r@.len() > 0,
    {
        format!("{}", crate::board::to_native_piece(*self))
    }

    /// Relies on the engine piece's derived `Debug` form: a non-empty
    /// diagnostic rendering.
    #[verifier::external_body]
    pub fn inspect(&self) -> (r: String)
        ensures
            r@.len() > 0,
    {
        format!("{:?}", crate::board::to_native_piece(*self))
    }
}

/// The outcome of playing a move on a board. Finished or illegal play is
/// ordinary data here, not a failure: an illegal move is a legitimate outcome
/// of game play and carries the offending move itself.
#[derive(Clone, Copy, Debug)]
pub enum GameResult {
    /// The game goes on, on the board the move produced.
    Continuing(Board),
    /// The given color has won, by checkmate or by the opponent resigning.
    Victory(Color),
    /// The game is drawn.
    Stalemate,
    /// The submitted move was not legal; it is returned unchanged.
    IllegalMove(Move),
}

impl PartialEq for GameResult {
    fn eq(&self, other: &GameResult) -> (r: bool) {
        match (self, other) {
            (GameResult::Continuing(a), GameResult::Continuing(b)) => a == b,
            (GameResult::Victory(a), GameResult::Victory(b)) => a == b,
            (GameResult::Stalemate, GameResult::Stalemate) => true,
            (GameResult::IllegalMove(a), GameResult::IllegalMove(b)) => a == b,
            _ => false,
        }
    }
}

impl vstd::std_specs::cmp::PartialEqSpecImpl for GameResult {
    open spec fn obeys_eq_spec() -> bool {
        true
    }

    open spec fn eq_spec(&self, other: &GameResult) -> bool {
        match (self, other) {
            (GameResult::Continuing(a), GameResult::Continuing(b)) => a.inner == b.inner,
            (GameResult::Victory(a), GameResult::Victory(b)) => a == b,
            (GameResult::Stalemate, GameResult::Stalemate) => true,
            (GameResult::IllegalMove(a), GameResult::IllegalMove(b)) => a == b,
            _ => false,
        }
    }
}

impl GameResult {
    pub fn is_continuing(&self) -> (r: bool)
        ensures
            r == (self is Continuing),
    {
        matches!(self, GameResult::Continuing(..))
    }

    pub fn is_victory(&self) -> (r: bool)
        ensures
            r == (self is Victory),
    {
        matches!(self, GameResult::Victory(..))
    }

    pub fn is_stalemate(&self) -> (r: bool)
        ensures
            r == (self is Stalemate),
    {
        matches!(self, GameResult::Stalemate)
    }

    pub fn is_illegal_move(&self) -> (r: bool)
        ensures
            r == (self is IllegalMove),
    {
        matches!(self, GameResult::IllegalMove(..))
    }

    /// The board the game continues on, when it does.
    pub fn next_board(&self) -> (r: Option<Board>)
        ensures
            r == (match self {
                GameResult::Continuing(board) => Some(*board),
                _ => None::<Board>,
            }),
    {
        if let GameResult::Continuing(board) = self {
            Some(*board)
        } else {
            None
        }
    }

    /// The winner's color, when the game ended in a victory.
    pub fn winning_color(&self) -> (r: Option<Color>)
        ensures
            r == (match self {
                GameResult::Victory(color) => Some(*color),
                _ => None::<Color>,
            }),
    {
        if let GameResult::Victory(color) = self {
            Some(*color)
        } else {
            None
        }
    }

    /// Relies on the engine game result's derived `Debug` form: a non-empty
    /// diagnostic rendering; it also serves as the user-facing text.
    #[verifier::external_body]
    pub fn to_string(&self) -> (r: String)
        ensures
            r@.len() > 0,
    {
        format!("{:?}", crate::board::to_native_result(*self))
    }

    /// The rejected move, when the result reports an illegal move.
    pub fn illegal_move(&self) -> (r: Option<Move>)
        ensures
            r == (match self {
                GameResult::IllegalMove(m) => Some(*m),
                _ => None::<Move>,
            }),
    {
        if let GameResult::IllegalMove(m) = self {
            Some(*m)
        } else {
            None
        }
    }
}

/// Registers the color, piece, move and game-result classes, and the two
/// color constants.
#[verifier::rlimit(50)]
pub fn bind(reg: &mut Registry)
    ensures
        final(reg).methods@ == old(reg).methods@ + crate::registry::color_catalog()
            + crate::registry::piece_catalog() + crate::registry::move_catalog()
            + crate::registry::game_result_catalog(),
        final(reg).color_constants@ == old(reg).color_constants@
            + crate::registry::color_constants_spec(),
        final(reg).position_constants@ == old(reg).position_constants@,
        final(reg).empty_square == old(reg).empty_square,
{
    reg.color_constants.push(ColorConstant { name: "White", value: Color::White });
    reg.color_constants.push(ColorConstant { name: "Black", value: Color::Black });
    reg.methods.push(MethodEntry { class: ClassId::Color, name: "inspect", arity: 0, kind: EntryKind::Method, dispatched: false });
    reg.methods.push(MethodEntry { class: ClassId::Color, name: "to_s", arity: 0, kind: EntryKind::Method, dispatched: false });
    reg.methods.push(MethodEntry { class: ClassId::Color, name: "==", arity: 1, kind: EntryKind::Operator, dispatched: false });
    reg.methods.push(MethodEntry { class: ClassId::Color, name: "!=", arity: 1, kind: EntryKind::Operator, dispatched: false });
    reg.methods.push(MethodEntry { class: ClassId::Piece, name: "name", arity: 0, kind: EntryKind::Method, dispatched: false });
    reg.methods.push(MethodEntry { class: ClassId::Piece, name: "material_value", arity: 0, kind: EntryKind::Method, dispatched: false });
    reg.methods.push(MethodEntry { class: ClassId::Piece, name: "with_color", arity: 1, kind: EntryKind::Method, dispatched: false });
    reg.methods.push(MethodEntry { class: ClassId::Piece, name: "color", arity: 0, kind: EntryKind::Method, dispatched: false });
    reg.methods.push(MethodEntry { class: ClassId::Piece, name: "pos", arity: 0, kind: EntryKind::Method, dispatched: false });
    reg.methods.push(MethodEntry { class: ClassId::Piece, name: "king?", arity: 0, kind: EntryKind::Method, dispatched: false });
    reg.methods.push(MethodEntry { class: ClassId::Piece, name: "queen?", arity: 0, kind: EntryKind::Method, dispatched: false });
    reg.methods.push(MethodEntry { class: ClassId::Piece, name: "rook?", arity: 0, kind: EntryKind::Method, dispatched: false });
    reg.methods.push(MethodEntry { class: ClassId::Piece, name: "bishop?", arity: 0, kind: EntryKind::Method, dispatched: false });
    reg.methods.push(MethodEntry { class: ClassId::Piece, name: "knight?", arity: 0, kind: EntryKind::Method, dispatched: false });
    reg.methods.push(MethodEntry { class: ClassId::Piece, name: "pawn?", arity: 0, kind: EntryKind::Method, dispatched: false });
    reg.methods.push(MethodEntry { class: ClassId::Piece, name: "starting_pawn?", arity: 0, kind: EntryKind::Method, dispatched: false });
    reg.methods.push(MethodEntry { class: ClassId::Piece, name: "queenside_rook?", arity: 0, kind: EntryKind::Method, dispatched: false });
    reg.methods.push(MethodEntry { class: ClassId::Piece, name: "kingside_rook?", arity: 0, kind: EntryKind::Method, dispatched: false });
    reg.methods.push(MethodEntry { class: ClassId::Piece, name: "move", arity: 1, kind: EntryKind::Method, dispatched: false });
    reg.methods.push(MethodEntry { class: ClassId::Piece, name: "inspect", arity: 0, kind: EntryKind::Method, dispatched: false });
    reg.methods.push(MethodEntry { class: ClassId::Piece, name: "to_s", arity: 0, kind: EntryKind::Method, dispatched: false });
    reg.methods.push(MethodEntry { class: ClassId::Piece, name: "==", arity: 1, kind: EntryKind::Operator, dispatched: false });
    reg.methods.push(MethodEntry { class: ClassId::Piece, name: "!=", arity: 1, kind: EntryKind::Operator, dispatched: false });
    reg.methods.push(MethodEntry { class: ClassId::Move, name: "new_queenside_castle", arity: 0, kind: EntryKind::Constructor, dispatched: false });
    reg.methods.push(MethodEntry { class: ClassId::Move, name: "new_kingside_castle", arity: 0, kind: EntryKind::Constructor, dispatched: false });
    reg.methods.push(MethodEntry { class: ClassId::Move, name: "new_resign", arity: 0, kind: EntryKind::Constructor, dispatched: false });
    reg.methods.push(MethodEntry { class: ClassId::Move, name: "new_piece", arity: 2, kind: EntryKind::Constructor, dispatched: false });
    reg.methods.push(MethodEntry { class: ClassId::Move, name: "parse", arity: 1, kind: EntryKind::Constructor, dispatched: false });
    reg.methods.push(MethodEntry { class: ClassId::Move, name: "queenside_castle?", arity: 0, kind: EntryKind::Method, dispatched: false });
    reg.methods.push(MethodEntry { class: ClassId::Move, name: "kingside_castle?", arity: 0, kind: EntryKind::Method, dispatched: false });
    reg.methods.push(MethodEntry { class: ClassId::Move, name: "piece?", arity: 0, kind: EntryKind::Method, dispatched: false });
    reg.methods.push(MethodEntry { class: ClassId::Move, name: "resign?", arity: 0, kind: EntryKind::Method, dispatched: false });
    reg.methods.push(MethodEntry { class: ClassId::Move, name: "piece_positions", arity: 0, kind: EntryKind::Method, dispatched: false });
    reg.methods.push(MethodEntry { class: ClassId::Move, name: "inspect", arity: 0, kind: EntryKind::Method, dispatched: false });
    reg.methods.push(MethodEntry { class: ClassId::Move, name: "to_s", arity: 0, kind: EntryKind::Method, dispatched: false });
    reg.methods.push(MethodEntry { class: ClassId::Move, name: "==", arity: 1, kind: EntryKind::Operator, dispatched: false });
    reg.methods.push(MethodEntry { class: ClassId::Move, name: "!=", arity: 1, kind: EntryKind::Operator, dispatched: false });
    reg.methods.push(MethodEntry { class: ClassId::GameResult, name: "continuing?", arity: 0, kind: EntryKind::Method, dispatched: false });
    reg.methods.push(MethodEntry { class: ClassId::GameResult, name: "victory?", arity: 0, kind: EntryKind::Method, dispatched: false });
    reg.methods.push(MethodEntry { class: ClassId::GameResult, name: "stalemate?", arity: 0, kind: EntryKind::Method, dispatched: false });
    reg.methods.push(MethodEntry { class: ClassId::GameResult, name: "illegal_move?", arity: 0, kind: EntryKind::Method, dispatched: false });
    reg.methods.push(MethodEntry { class: ClassId::GameResult, name: "next_board", arity: 0, kind: EntryKind::Method, dispatched: false });
    reg.methods.push(MethodEntry { class: ClassId::GameResult, name: "winning_color", arity: 0, kind: EntryKind::Method, dispatched: false });
    reg.methods.push(MethodEntry { class: ClassId::GameResult, name: "illegal_move", arity: 0, kind: EntryKind::Method, dispatched: false });
    reg.methods.push(MethodEntry { class: ClassId::GameResult, name: "inspect", arity: 0, kind: EntryKind::Method, dispatched: false });
    reg.methods.push(MethodEntry { class: ClassId::GameResult, name: "to_s", arity: 0, kind: EntryKind::Method, dispatched: false });
    reg.methods.push(MethodEntry { class: ClassId::GameResult, name: "==", arity: 1, kind: EntryKind::Operator, dispatched: false });
    reg.methods.push(MethodEntry { class: ClassId::GameResult, name: "!=", arity: 1, kind: EntryKind::Operator, dispatched: false });
    proof {
        assert(reg.methods@ =~= old(reg).methods@ + crate::registry::color_catalog()
            + crate::registry::piece_catalog() + crate::registry::move_catalog()
            + crate::registry::game_result_catalog());
        assert(reg.color_constants@ =~= old(reg).color_constants@
            + crate::registry::color_constants_spec());
    }
}

} // verus!
