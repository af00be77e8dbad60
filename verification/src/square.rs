//! A single square of a board: either empty or occupied by one piece.

use vstd::prelude::*;

use crate::enums::Piece;

use crate::registry::{ClassId, EntryKind, MethodEntry, Registry};

verus! {

/// A container for at most one piece.
#[derive(Clone, Copy, Debug, PartialEq, Eq, Structural)]
pub struct Square {
    pub piece: Option<Piece>,
}

impl Square {
    /// The square containing no piece.
    pub fn empty() -> (r: Self)
        ensures
            r == (Square { piece: None::<Piece> }),
    {
        Square { piece: None }
    }

    pub fn is_empty(&self) -> (r: bool)
        ensures
            r == (self.piece is None),
    {
        self.piece.is_none()
    }

    pub fn get_piece(&self) -> (r: Option<Piece>)
        ensures
            r == self.piece,
    {
        self.piece
    }

    /// Relies on the engine square's derived `Debug` form: a non-empty
    /// diagnostic rendering; it also serves as the user-facing text.
    #[verifier::external_body]
    pub fn to_string(&self) -> (r: String)
        ensures
            r@.len() > 0,
    {
        match self.piece {
            Some(p) => format!(
                "{:?}",
                chess_engine::Square::from(crate::board::to_native_piece(p)),
            ),
            None => format!("{:?}", chess_engine::EMPTY_SQUARE),
        }
    }
}

impl From<Piece> for Square {
    /// A square occupied by the given piece.
    fn from(piece: Piece) -> (r: Square)
        ensures
            r == (Square { piece: Some(piece) }),
    {
        Square { piece: Some(piece) }
    }
}

impl vstd::std_specs::convert::FromSpecImpl<Piece> for Square {
    open spec fn obeys_from_spec() -> bool {
        true
    }

    open spec fn from_spec(piece: Piece) -> Square {
        Square { piece: Some(piece) }
    }
}

/// Registers the square class: its methods, operators and the empty-square
/// constant.
pub fn bind(reg: &mut Registry)
    ensures
        final(reg).methods@ == old(reg).methods@ + crate::registry::square_catalog(),
        final(reg).empty_square == (Square { piece: None::<Piece> }),
        final(reg).position_constants@ == old(reg).position_constants@,
        final(reg).color_constants@ == old(reg).color_constants@,
{
    reg.methods.push(MethodEntry { class: ClassId::Square, name: "empty?", arity: 0, kind: EntryKind::Method, dispatched: false });
    reg.methods.push(MethodEntry { class: ClassId::Square, name: "piece", arity: 0, kind: EntryKind::Method, dispatched: false });
    reg.methods.push(MethodEntry { class: ClassId::Square, name: "to_s", arity: 0, kind: EntryKind::Method, dispatched: false });
    reg.methods.push(MethodEntry { class: ClassId::Square, name: "==", arity: 1, kind: EntryKind::Operator, dispatched: false });
    reg.methods.push(MethodEntry { class: ClassId::Square, name: "!=", arity: 1, kind: EntryKind::Operator, dispatched: false });
    reg.empty_square = Square::empty();
    proof {
        assert(reg.methods@ =~= old(reg).methods@ + crate::registry::square_catalog());
    }
}

} // verus!
