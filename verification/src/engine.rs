//! Declarations of the native engine's value types.
//!
//! The engine's types are opaque to the verifier: a declaration here lets them
//! stand in signatures and fields, and the trusted wrappers in the other
//! modules say what the engine's functions do with them.

use chess_engine::Board as NativeBoard;
use chess_engine::Color as NativeColor;
use chess_engine::GameResult as NativeGameResult;
use chess_engine::Move as NativeMove;
use chess_engine::Piece as NativePiece;
use chess_engine::Position as NativePosition;
use vstd::prelude::*;

verus! {

#[verifier::external_type_specification]
#[verifier::external_body]
pub struct ExNativeBoard(NativeBoard);

#[verifier::external_type_specification]
#[verifier::external_body]
pub struct ExNativeColor(NativeColor);

#[verifier::external_type_specification]
#[verifier::external_body]
pub struct ExNativePosition(NativePosition);

#[verifier::external_type_specification]
#[verifier::external_body]
pub struct ExNativePiece(NativePiece);

#[verifier::external_type_specification]
#[verifier::external_body]
pub struct ExNativeMove(NativeMove);

#[verifier::external_type_specification]
#[verifier::external_body]
pub struct ExNativeGameResult(NativeGameResult);

} // verus!
