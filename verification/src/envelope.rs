//! The result envelope: the two-case value handed back to the script side
//! for every completed operation, carrying either the success payload or a
//! typed error description.

use vstd::prelude::*;

verus! {

/// A plain script-side value: the payload shapes that cross the dispatch
/// boundary in either direction. The engine's richer value representation is
/// decoded to and from these shapes outside this core.
#[derive(Debug, Clone, PartialEq, Eq)]
pub enum Value {
    Null,
    Bool(bool),
    Int(i64),
    Str(String),
}

/// One link of an error cause chain: an error class name and its message.
#[derive(Debug, Clone, PartialEq, Eq)]
pub struct ErrorInfo {
    pub kind: String,
    pub message: String,
}

/// A typed failure delivered inside an envelope. Decode and handler errors
/// share this one representation, so the script side cannot tell a
/// synchronous failure from an asynchronous one by shape.
#[derive(Debug, Clone, PartialEq, Eq)]
pub enum OpError {
    /// An argument slot could not be decoded: the slot at this position
    /// (0 for the first, 1 for the second) was not supplied.
    Decode { position: u32 },
    /// The handler's own reported failure: an error class name, a message,
    /// and an optional structured cause chain, outermost cause first. The
    /// chain is kept intact however late the failure is delivered.
    Handler { kind: String, message: String, cause: Vec<ErrorInfo> },
}

/// The result envelope consumed by the script side: success carrying a
/// payload, or failure carrying a typed error description.
#[derive(Debug, Clone, PartialEq, Eq)]
pub enum Envelope {
    Success(Value),
    Failure(OpError),
}

/// The envelope that wrapping a handler outcome must produce: the success
/// payload or the failure, unmodified.
pub open spec fn envelope_of(r: Result<Value, OpError>) -> Envelope {
    match r {
        Ok(v) => Envelope::Success(v),
        Err(e) => Envelope::Failure(e),
    }
}

/// Wraps a handler's outcome into exactly one envelope. Wrapping itself
/// never fails and has no side effects.
pub fn wrap_result(r: Result<Value, OpError>) -> (env: Envelope)
    ensures
        env == envelope_of(r),
{
    match r {
        Ok(v) => Envelope::Success(v),
        Err(e) => Envelope::Failure(e),
    }
}

} // verus!
