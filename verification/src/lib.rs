//! A binding layer that exposes a native chess engine to a dynamically typed
//! host runtime running under a single cooperative execution lock.
//!
//! The crate provides, for every engine value type, a host-visible value type
//! with structural equality and functional (copy-on-write) update semantics; a
//! dispatcher model that brackets long-running engine calls with a release and
//! reacquisition of the host execution lock; a translator that turns engine
//! parse failures into host failures carrying the message verbatim; and a
//! load-time registration catalog of host-callable constructors, methods,
//! operators and constants.

pub mod board;
pub mod dispatch;
pub mod engine;
pub mod enums;
pub mod host_error;
pub mod position;
pub mod registry;
pub mod square;

use vstd::prelude::*;

verus! {

/// Builds the load-time registration catalog, exactly once per process: the
/// classes in binding order, the 64 board-square constants, the two color
/// constants and the empty-square constant. The result is read-only
/// thereafter; no entry is ever added, removed or changed.
pub fn init() -> (r: registry::Registry)
    ensures
        r.methods@ == registry::board_catalog() + registry::square_catalog()
            + registry::position_catalog() + registry::color_catalog()
            + registry::piece_catalog() + registry::move_catalog()
            + registry::game_result_catalog(),
        r.position_constants@ == Seq::new(64, |k: int| registry::pos_constant_at(k)),
        r.color_constants@ == registry::color_constants_spec(),
        r.empty_square == (square::Square { piece: None::<enums::Piece> }),
{
    let mut reg = registry::Registry {
        methods: Vec::new(),
        position_constants: Vec::new(),
        color_constants: Vec::new(),
        empty_square: square::Square::empty(),
    };
    board::bind(&mut reg);
    square::bind(&mut reg);
    position::bind(&mut reg);
    enums::bind(&mut reg);
    reg
}

} // verus!
