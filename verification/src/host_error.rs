//! Translation of engine failures into host-visible failures.
//!
//! Only two kinds of failure exist: a parse failure of textual input, and an
//! abnormal termination inside a dispatched unit of work. Both become a
//! [`HostError`] carrying the message text verbatim. Illegal moves are not
//! failures and never pass through here; they are ordinary
//! [`GameResult`](crate::enums::GameResult) data.

use vstd::prelude::*;

verus! {

/// A host-visible failure: a runtime error carrying one message.
#[derive(Debug)]
pub struct HostError {
    pub message: String,
}

/// Translates an engine failure message into a host failure. The translation
/// is total — every message is accepted — and lossless: the text is carried
/// verbatim.
pub fn translate_failure(message: String) -> (r: HostError)
    ensures
        r.message == message,
{
    HostError { message }
}

} // verus!
