//! Board coordinates.
//!
//! A `Position` is a plain (row, column) pair under the engine's convention:
//! row 0 is White's back rank (rank 1), column 0 is file a, so `(0, 0)` is a1
//! and `(3, 4)` is e4. Coordinates may lie off the board; `is_on_board` is the
//! validity predicate.

use vstd::math::abs;
use vstd::prelude::*;

use crate::enums::Color;

use crate::registry::{ClassId, EntryKind, MethodEntry, Registry};

verus! {

/// A board coordinate under the engine's row/column convention.
#[derive(Clone, Copy, Debug, PartialEq, Eq, Structural)]
pub struct Position {
    pub row: i32,
    pub col: i32,
}

impl Position {
    /// Whether the coordinate denotes one of the 64 squares.
    pub open spec fn spec_on_board(self) -> bool {
        0 <= self.row <= 7 && 0 <= self.col <= 7
    }

    pub open spec fn spec_diagonal_to(self, other: Self) -> bool {
        abs(self.col - other.col) == abs(self.row - other.row)
    }

    pub open spec fn spec_orthogonal_to(self, other: Self) -> bool {
        self.col == other.col || self.row == other.row
    }

    pub open spec fn spec_diagonal_distance(self, other: Self) -> int {
        abs(self.col - other.col) as int
    }

    pub open spec fn spec_orthogonal_distance(self, other: Self) -> int {
        abs(self.col - other.col) as int + abs(self.row - other.row) as int
    }

    pub open spec fn spec_adjacent_to(self, other: Self) -> bool {
        if self.spec_orthogonal_to(other) {
            self.spec_orthogonal_distance(other) == 1
        } else if self.spec_diagonal_to(other) {
            self.spec_diagonal_distance(other) == 1
        } else {
            false
        }
    }

    pub open spec fn spec_knight_move(self, other: Self) -> bool {
        (abs(self.row - other.row) == 2 && abs(self.col - other.col) == 1)
            || (abs(self.row - other.row) == 1 && abs(self.col - other.col) == 2)
    }

    /// The starting square of the given player's king.
    pub fn king_pos(color: Color) -> (r: Self)
        ensures
            r == (match color {
                Color::White => Position { row: 0, col: 4 },
                Color::Black => Position { row: 7, col: 4 },
            }),
    {
        match color {
            Color::White => Self::new(0, 4),
            Color::Black => Self::new(7, 4),
        }
    }

    /// The starting square of the given player's queen.
    pub fn queen_pos(color: Color) -> (r: Self)
        ensures
            r == (match color {
                Color::White => Position { row: 0, col: 3 },
                Color::Black => Position { row: 7, col: 3 },
            }),
    {
        match color {
            Color::White => Self::new(0, 3),
            Color::Black => Self::new(7, 3),
        }
    }

    pub fn new(row: i32, col: i32) -> (r: Self)
        ensures
            r == (Position { row, col }),
    {
        Position { row, col }
    }

    pub fn is_on_board(&self) -> (r: bool)
        ensures
            r == self.spec_on_board(),
    {
        !self.is_off_board()
    }

    pub fn is_off_board(&self) -> (r: bool)
        ensures
            r == !self.spec_on_board(),
    {
        self.row < 0 || self.row > 7 || self.col < 0 || self.col > 7
    }

    pub fn get_row(&self) -> (r: i32)
        ensures
            r == self.row,
    {
        self.row
    }

    pub fn get_col(&self) -> (r: i32)
        ensures
            r == self.col,
    {
        self.col
    }

    pub fn is_diagonal_to(&self, other: Self) -> (r: bool)
        ensures
            r == self.spec_diagonal_to(other),
    {
        diff_abs(self.col, other.col) == diff_abs(self.row, other.row)
    }

    pub fn is_orthogonal_to(&self, other: Self) -> (r: bool)
        ensures
            r == self.spec_orthogonal_to(other),
    {
        self.col == other.col || self.row == other.row
    }

    pub fn is_adjacent_to(&self, other: Self) -> (r: bool)
        ensures
            r == self.spec_adjacent_to(other),
    {
        if self.is_orthogonal_to(other) {
            diff_abs(self.col, other.col) + diff_abs(self.row, other.row) == 1
        } else if self.is_diagonal_to(other) {
            diff_abs(self.col, other.col) == 1
        } else {
            false
        }
    }

    /// "Below" means a strictly lower rank.
    pub fn is_below(&self, other: Self) -> (r: bool)
        ensures
            r == (self.row < other.row),
    {
        self.row < other.row
    }

    /// "Above" means a strictly higher rank.
    pub fn is_above(&self, other: Self) -> (r: bool)
        ensures
            r == (self.row > other.row),
    {
        self.row > other.row
    }

    /// "Left of" means a strictly lower file.
    pub fn is_left_of(&self, other: Self) -> (r: bool)
        ensures
            r == (self.col < other.col),
    {
        self.col < other.col
    }

    /// "Right of" means a strictly higher file.
    pub fn is_right_of(&self, other: Self) -> (r: bool)
        ensures
            r == (self.col > other.col),
    {
        self.col > other.col
    }

    /// The square one rank lower; the result may lie off the board.
    pub fn next_below(&self) -> (r: Self)
        requires
            i32::MIN < self.row,
        ensures
            r == (Position { row: (self.row - 1) as i32, col: self.col }),
    {
        Self::new(self.row - 1, self.col)
    }

    /// The square one rank higher; the result may lie off the board.
    pub fn next_above(&self) -> (r: Self)
        requires
            self.row < i32::MAX,
        ensures
            r == (Position { row: (self.row + 1) as i32, col: self.col }),
    {
        Self::new(self.row + 1, self.col)
    }

    /// The square one step forward for a pawn of the given color.
    pub fn pawn_up(&self, ally_color: Color) -> (r: Self)
        requires
            ally_color == Color::White ==> self.row < i32::MAX,
            ally_color == Color::Black ==> i32::MIN < self.row,
        ensures
            r == (match ally_color {
                Color::White => Position { row: (self.row + 1) as i32, col: self.col },
                Color::Black => Position { row: (self.row - 1) as i32, col: self.col },
            }),
    {
        match ally_color {
            Color::White => self.next_above(),
            Color::Black => self.next_below(),
        }
    }

    /// The square one step backward for a pawn of the given color.
    pub fn pawn_back(&self, ally_color: Color) -> (r: Self)
        requires
            ally_color == Color::Black ==> self.row < i32::MAX,
            ally_color == Color::White ==> i32::MIN < self.row,
        ensures
            r == (match ally_color {
                Color::White => Position { row: (self.row - 1) as i32, col: self.col },
                Color::Black => Position { row: (self.row + 1) as i32, col: self.col },
            }),
    {
        self.pawn_up(ally_color.opposite())
    }

    /// The square one file lower; the result may lie off the board.
    pub fn next_left(&self) -> (r: Self)
        requires
            i32::MIN < self.col,
        ensures
            r == (Position { row: self.row, col: (self.col - 1) as i32 }),
    {
        Self::new(self.row, self.col - 1)
    }

    /// The square one file higher; the result may lie off the board.
    pub fn next_right(&self) -> (r: Self)
        requires
            self.col < i32::MAX,
        ensures
            r == (Position { row: self.row, col: (self.col + 1) as i32 }),
    {
        Self::new(self.row, self.col + 1)
    }

    /// Whether a pawn of the given color standing here has never moved.
    pub fn is_starting_pawn(&self, color: Color) -> (r: bool)
        ensures
            r == (match color {
                Color::White => self.row == 1,
                Color::Black => self.row == 6,
            }),
    {
        match color {
            Color::White => self.row == 1,
            Color::Black => self.row == 6,
        }
    }

    /// Whether this is either player's kingside-rook starting square.
    pub fn is_kingside_rook(&self) -> (r: bool)
        ensures
            r == ((self.row == 0 || self.row == 7) && self.col == 7),
    {
        (self.row == 0 || self.row == 7) && self.col == 7
    }

    /// Whether this is either player's queenside-rook starting square.
    pub fn is_queenside_rook(&self) -> (r: bool)
        ensures
            r == ((self.row == 0 || self.row == 7) && self.col == 0),
    {
        (self.row == 0 || self.row == 7) && self.col == 0
    }

    /// The squares strictly between `self` and `to` along their common
    /// diagonal, plus `to` itself, nearest first; empty when the two squares
    /// are not diagonal to each other.
    pub open spec fn spec_diagonals_to(self, to: Self) -> Seq<Position> {
        if !self.spec_diagonal_to(to) {
            Seq::empty()
        } else {
            let row_step: int = if self.row < to.row { 1 } else { -1 };
            let col_step: int = if self.col < to.col { 1 } else { -1 };
            Seq::new(
                self.spec_diagonal_distance(to) as nat,
                |i: int|
                    Position {
                        row: (self.row + (i + 1) * row_step) as i32,
                        col: (self.col + (i + 1) * col_step) as i32,
                    },
            )
        }
    }

    pub fn diagonals_to(&self, to: Self) -> (r: Vec<Position>)
        ensures
            r@ == self.spec_diagonals_to(to),
    {
        let mut result: Vec<Position> = Vec::new();
        if !self.is_diagonal_to(to) {
            assert(result@ =~= self.spec_diagonals_to(to));
            return result;
        }

        let row_step: i32 = if self.is_below(to) { 1 } else { -1 };
        let col_step: i32 = if self.is_left_of(to) { 1 } else { -1 };
        let dist = diff_abs(self.col, to.col);
        let mut acc: Position = *self;
        let mut k: i64 = 0;
        while k < dist
            invariant
                self.spec_diagonal_to(to),
                row_step == (if self.row < to.row { 1int } else { -1int }),
                col_step == (if self.col < to.col { 1int } else { -1int }),
                dist == self.spec_diagonal_distance(to),
                row_step == 1int ==> to.row == self.row + dist && acc.row == self.row + k,
                row_step == -1int ==> to.row == self.row - dist && acc.row == self.row - k,
                col_step == 1int ==> to.col == self.col + dist && acc.col == self.col + k,
                col_step == -1int ==> to.col == self.col - dist && acc.col == self.col - k,
                0 <= k <= dist,
                result@.len() == k,
                forall|i: int|
                    0 <= i < k ==> result@[i] == self.spec_diagonals_to(to)[i],
            decreases dist - k,
        {
            proof {
                assert(((row_step as int == 1) ==> (k + 1) * (row_step as int) == k + 1)
                    && ((row_step as int == -1) ==> (k + 1) * (row_step as int) == -(k + 1))
                    && ((col_step as int == 1) ==> (k + 1) * (col_step as int) == k + 1)
                    && ((col_step as int == -1) ==> (k + 1) * (col_step as int) == -(k + 1)))
                    by (nonlinear_arith);
            }
            acc = Position { row: acc.row + row_step, col: acc.col + col_step };
            result.push(acc);
            k = k + 1;
            assert(result@[k - 1] == self.spec_diagonals_to(to)[k - 1]);
        }
        assert(result@ =~= self.spec_diagonals_to(to));
        result
    }

    /// The squares strictly between `self` and `to` along their common rank
    /// or file, plus `to` itself, nearest first; empty when the two squares
    /// are not orthogonal to each other.
    pub open spec fn spec_orthogonals_to(self, to: Self) -> Seq<Position> {
        if !self.spec_orthogonal_to(to) {
            Seq::empty()
        } else {
            let row_step: int = if self.col == to.col && self.row > to.row {
                -1
            } else if self.col == to.col && self.row < to.row {
                1
            } else {
                0
            };
            let col_step: int = if self.col < to.col {
                1
            } else if self.col > to.col {
                -1
            } else {
                0
            };
            Seq::new(
                self.spec_orthogonal_distance(to) as nat,
                |i: int|
                    Position {
                        row: (self.row + (i + 1) * row_step) as i32,
                        col: (self.col + (i + 1) * col_step) as i32,
                    },
            )
        }
    }

    pub fn orthogonals_to(&self, to: Self) -> (r: Vec<Position>)
        ensures
            r@ == self.spec_orthogonals_to(to),
    {
        let mut result: Vec<Position> = Vec::new();
        if !self.is_orthogonal_to(to) {
            assert(result@ =~= self.spec_orthogonals_to(to));
            return result;
        }

        let mut row_step: i32 = 0;
        let mut col_step: i32 = 0;
        if self.is_left_of(to) {
            col_step = 1;
        } else if self.is_right_of(to) {
            col_step = -1;
        } else if self.is_above(to) {
            row_step = -1;
        } else if self.is_below(to) {
            row_step = 1;
        }
        let dist = diff_abs(self.col, to.col) + diff_abs(self.row, to.row);
        let mut acc: Position = *self;
        let mut k: i64 = 0;
        while k < dist
            invariant
                self.spec_orthogonal_to(to),
                row_step == (if self.col == to.col && self.row > to.row {
                    -1int
                } else if self.col == to.col && self.row < to.row {
                    1int
                } else {
                    0int
                }),
                col_step == (if self.col < to.col {
                    1int
                } else if self.col > to.col {
                    -1int
                } else {
                    0int
                }),
                dist == self.spec_orthogonal_distance(to),
                col_step == 1int ==> self.row == to.row && to.col == self.col + dist && acc.col
                    == self.col + k && acc.row == self.row,
                col_step == -1int ==> self.row == to.row && to.col == self.col - dist && acc.col
                    == self.col - k && acc.row == self.row,
                row_step == 1int ==> self.col == to.col && to.row == self.row + dist && acc.row
                    == self.row + k && acc.col == self.col,
                row_step == -1int ==> self.col == to.col && to.row == self.row - dist && acc.row
                    == self.row - k && acc.col == self.col,
                row_step == 0int && col_step == 0int ==> dist == 0,
                0 <= k <= dist,
                result@.len() == k,
                forall|i: int|
                    0 <= i < k ==> result@[i] == self.spec_orthogonals_to(to)[i],
            decreases dist - k,
        {
            proof {
                assert(((row_step as int == 1) ==> (k + 1) * (row_step as int) == k + 1)
                    && ((row_step as int == -1) ==> (k + 1) * (row_step as int) == -(k + 1))
                    && ((row_step as int == 0) ==> (k + 1) * (row_step as int) == 0)
                    && ((col_step as int == 1) ==> (k + 1) * (col_step as int) == k + 1)
                    && ((col_step as int == -1) ==> (k + 1) * (col_step as int) == -(k + 1))
                    && ((col_step as int == 0) ==> (k + 1) * (col_step as int) == 0))
                    by (nonlinear_arith);
            }
            acc = Position { row: acc.row + row_step, col: acc.col + col_step };
            result.push(acc);
            k = k + 1;
            assert(result@[k - 1] == self.spec_orthogonals_to(to)[k - 1]);
        }
        assert(result@ =~= self.spec_orthogonals_to(to));
        result
    }

    /// Whether the two squares are a knight's jump apart.
    pub fn is_knight_move(&self, other: Self) -> (r: bool)
        ensures
            r == self.spec_knight_move(other),
    {
        (diff_abs(self.row, other.row) == 2 && diff_abs(self.col, other.col) == 1)
            || (diff_abs(self.row, other.row) == 1 && diff_abs(self.col, other.col) == 2)
    }
}

/// The file index a PGN column letter denotes, case-insensitively: `a`/`A` is
/// 0 through `h`/`H` is 7; any other character denotes none, written -1.
pub open spec fn pgn_col(c: char) -> int {
    if c == 'a' || c == 'A' {
        0
    } else if c == 'b' || c == 'B' {
        1
    } else if c == 'c' || c == 'C' {
        2
    } else if c == 'd' || c == 'D' {
        3
    } else if c == 'e' || c == 'E' {
        4
    } else if c == 'f' || c == 'F' {
        5
    } else if c == 'g' || c == 'G' {
        6
    } else if c == 'h' || c == 'H' {
        7
    } else {
        -1
    }
}

pub open spec fn is_ascii_digit_char(c: char) -> bool {
    '0' <= c && c <= '9'
}

pub open spec fn is_ascii_whitespace_char(c: char) -> bool {
    c == ' ' || c == '\t' || c == '\n' || c == '\u{0b}' || c == '\u{0c}' || c == '\r'
}

/// Whether no character of `t` is ASCII whitespace.
pub open spec fn no_whitespace(t: Seq<char>) -> bool {
    forall|i: int| 0 <= i < t.len() ==> !is_ascii_whitespace_char(#[trigger] t[i])
}

/// What parsing a PGN coordinate yields on trimmed ASCII text: the first
/// character names the file, the second must be a decimal digit d, and the
/// square is row d - 1 in that file — the engine accepts any digit here, so
/// `e0` and `e9` parse to off-board rows -1 and 8. Characters beyond the
/// second are ignored.
pub open spec fn pgn_spec(t: Seq<char>) -> Option<Position> {
    if t.len() < 2 {
        None
    } else if !is_ascii_digit_char(t[1]) {
        None
    } else if pgn_col(t[0]) < 0 {
        None
    } else {
        Some(
            Position {
                row: (t[1] as int - '0' as int - 1) as i32,
                col: pgn_col(t[0]) as i32,
            },
        )
    }
}

/// The full outcome of `chess_engine::Position::pgn` on the given text: the
/// parsed coordinate, or the failure message. The parse reads nothing but the
/// text, so its outcome is a function of the text alone.
pub uninterp spec fn pgn_of(t: Seq<char>) -> Result<Position, Seq<char>>;

impl Position {
    /// Relies on `chess_engine::Position::pgn`. The result — parsed value on
    /// success, message text verbatim on failure — is exactly the named
    /// outcome `pgn_of`; a failure message is never empty. On ASCII text
    /// without whitespace the outcome is exactly `pgn_spec`.
    #[verifier::external_body]
    pub fn pgn(s: &str) -> (r: Result<Position, String>)
        ensures
            pgn_of(s@) == (match r {
                Ok(p) => Ok::<Position, Seq<char>>(p),
                Err(e) => Err::<Position, Seq<char>>(e@),
            }),
            r matches Err(e) ==> e@.len() > 0,
            s.is_ascii() && no_whitespace(s@) ==> (match pgn_spec(s@) {
                Some(p) => r == Ok::<Position, String>(p),
                None => r is Err,
            }),
    {
        chess_engine::Position::pgn(s).map(crate::board::from_native_pos)
    }

    /// Relies on the engine coordinate's `Display` form: the file letter (or
    /// a placeholder) followed by the decimal rank number.
    #[verifier::external_body]
    pub fn to_string(&self) -> (r: String)
        requires
            self.row < i32::MAX,
        ensures
            r@.len() >= 2,
    {
        format!("{}", crate::board::to_native_pos(*self))
    }

    /// Relies on the engine coordinate's derived `Debug` form: a non-empty
    /// diagnostic rendering of the row and column fields.
    #[verifier::external_body]
    pub fn inspect(&self) -> (r: String)
        ensures
            r@.len() > 0,
    {
        format!("{:?}", crate::board::to_native_pos(*self))
    }
}

/// `|a - b|` computed without overflow for any two `i32` values.
fn diff_abs(a: i32, b: i32) -> (r: i64)
    ensures
        r == abs(a - b),
{
    let d: i64 = a as i64 - b as i64;
    if d < 0 {
        -d
    } else {
        d
    }
}

/// Registers the position class: its constructors, methods, operators and the
/// 64 board-square constants.
pub fn bind(reg: &mut Registry)
    ensures
        final(reg).methods@ == old(reg).methods@ + crate::registry::position_catalog(),
        final(reg).position_constants@ == old(reg).position_constants@ + Seq::new(
            64,
            |k: int| crate::registry::pos_constant_at(k),
        ),
        final(reg).color_constants@ == old(reg).color_constants@,
        final(reg).empty_square == old(reg).empty_square,
{
    reg.methods.push(MethodEntry { class: ClassId::Position, name: "king_pos", arity: 1, kind: EntryKind::Constructor, dispatched: false });
    reg.methods.push(MethodEntry { class: ClassId::Position, name: "queen_pos", arity: 1, kind: EntryKind::Constructor, dispatched: false });
    reg.methods.push(MethodEntry { class: ClassId::Position, name: "new", arity: 2, kind: EntryKind::Constructor, dispatched: false });
    reg.methods.push(MethodEntry { class: ClassId::Position, name: "pgn", arity: 1, kind: EntryKind::Constructor, dispatched: false });
    reg.methods.push(MethodEntry { class: ClassId::Position, name: "on_board?", arity: 0, kind: EntryKind::Method, dispatched: false });
    reg.methods.push(MethodEntry { class: ClassId::Position, name: "off_board?", arity: 0, kind: EntryKind::Method, dispatched: false });
    reg.methods.push(MethodEntry { class: ClassId::Position, name: "row", arity: 0, kind: EntryKind::Method, dispatched: false });
    reg.methods.push(MethodEntry { class: ClassId::Position, name: "col", arity: 0, kind: EntryKind::Method, dispatched: false });
    reg.methods.push(MethodEntry { class: ClassId::Position, name: "diagonal_to?", arity: 1, kind: EntryKind::Method, dispatched: false });
    reg.methods.push(MethodEntry { class: ClassId::Position, name: "orthogonal_to?", arity: 1, kind: EntryKind::Method, dispatched: false });
    reg.methods.push(MethodEntry { class: ClassId::Position, name: "adjacent_to?", arity: 1, kind: EntryKind::Method, dispatched: false });
    reg.methods.push(MethodEntry { class: ClassId::Position, name: "below?", arity: 1, kind: EntryKind::Method, dispatched: false });
    reg.methods.push(MethodEntry { class: ClassId::Position, name: "above?", arity: 1, kind: EntryKind::Method, dispatched: false });
    reg.methods.push(MethodEntry { class: ClassId::Position, name: "left_of?", arity: 1, kind: EntryKind::Method, dispatched: false });
    reg.methods.push(MethodEntry { class: ClassId::Position, name: "right_of?", arity: 1, kind: EntryKind::Method, dispatched: false });
    reg.methods.push(MethodEntry { class: ClassId::Position, name: "next_below", arity: 0, kind: EntryKind::Method, dispatched: false });
    reg.methods.push(MethodEntry { class: ClassId::Position, name: "next_above", arity: 0, kind: EntryKind::Method, dispatched: false });
    reg.methods.push(MethodEntry { class: ClassId::Position, name: "pawn_up", arity: 1, kind: EntryKind::Method, dispatched: false });
    reg.methods.push(MethodEntry { class: ClassId::Position, name: "pawn_back", arity: 1, kind: EntryKind::Method, dispatched: false });
    reg.methods.push(MethodEntry { class: ClassId::Position, name: "next_left", arity: 0, kind: EntryKind::Method, dispatched: false });
    reg.methods.push(MethodEntry { class: ClassId::Position, name: "next_right", arity: 0, kind: EntryKind::Method, dispatched: false });
    reg.methods.push(MethodEntry { class: ClassId::Position, name: "starting_pawn?", arity: 1, kind: EntryKind::Method, dispatched: false });
    reg.methods.push(MethodEntry { class: ClassId::Position, name: "kingside_rook?", arity: 0, kind: EntryKind::Method, dispatched: false });
    reg.methods.push(MethodEntry { class: ClassId::Position, name: "queenside_rook?", arity: 0, kind: EntryKind::Method, dispatched: false });
    reg.methods.push(MethodEntry { class: ClassId::Position, name: "diagonals_to", arity: 1, kind: EntryKind::Method, dispatched: false });
    reg.methods.push(MethodEntry { class: ClassId::Position, name: "orthogonals_to", arity: 1, kind: EntryKind::Method, dispatched: false });
    reg.methods.push(MethodEntry { class: ClassId::Position, name: "knight_move?", arity: 1, kind: EntryKind::Method, dispatched: false });
    reg.methods.push(MethodEntry { class: ClassId::Position, name: "to_s", arity: 0, kind: EntryKind::Method, dispatched: false });
    reg.methods.push(MethodEntry { class: ClassId::Position, name: "inspect", arity: 0, kind: EntryKind::Method, dispatched: false });
    reg.methods.push(MethodEntry { class: ClassId::Position, name: "==", arity: 1, kind: EntryKind::Operator, dispatched: false });
    reg.methods.push(MethodEntry { class: ClassId::Position, name: "!=", arity: 1, kind: EntryKind::Operator, dispatched: false });
    let mut constants = crate::registry::build_position_constants();
    reg.position_constants.append(&mut constants);
    proof {
        assert(reg.methods@ =~= old(reg).methods@ + crate::registry::position_catalog());
        assert(reg.position_constants@ =~= old(reg).position_constants@ + Seq::new(
            64,
            |k: int| crate::registry::pos_constant_at(k),
        ));
    }
}

} // verus!
