//! The op payload: the raw call-site data for one invocation — a correlation
//! identifier and up to two raw argument slots — together with
//! correlation-identifier validation and argument decoding.

use vstd::prelude::*;
use crate::envelope::{Value, OpError};

verus! {

/// A correlation identifier: an integer minted by the script side per
/// asynchronous call, used to match a later-arriving result to the waiting
/// continuation. Zero is reserved to mean "no correlation requested" and is
/// only legal for calls that complete synchronously; a validated identifier
/// is always non-negative.
pub type PromiseId = i64;

/// The shape of one raw slot as the script engine hands it over. Only the
/// shapes this core inspects are distinguished; a supplied value's own
/// content is opaque to dispatch and is decoded on demand by the handler
/// side of the boundary.
#[derive(Debug, Clone, PartialEq, Eq)]
pub enum RawValue {
    /// The slot was not supplied at the call site.
    Missing,
    /// The slot held the engine's explicit "none" value.
    Null,
    Bool(bool),
    Int(i64),
    Str(String),
}

/// A protocol violation: fatal to the offending call alone, reported as an
/// immediate boundary-level type error and never deferred into an envelope,
/// because no continuation exists to deliver it to.
#[derive(Debug, Clone, Copy, PartialEq, Eq, Structural)]
pub enum ProtocolError {
    /// The correlation-identifier slot held something other than nothing,
    /// "none", or a non-negative integer.
    InvalidPromiseId,
    /// No handler is registered under the invoked name.
    UnknownOp,
}

/// The decoded call-site data for one invocation: the validated correlation
/// identifier and two raw argument slots. Created fresh per invocation,
/// owned by the dispatch call until a handler consumes it, never persisted.
#[derive(Debug, Clone, PartialEq, Eq)]
pub struct OpPayload {
    pub promise_id: PromiseId,
    pub a: RawValue,
    pub b: RawValue,
}

/// What correlation-identifier validation yields for each raw shape: an
/// absent or "none" slot defaults to zero, a non-negative integer passes
/// through unchanged, and every other shape is a protocol violation.
pub open spec fn promise_id_of(v: RawValue) -> Result<PromiseId, ProtocolError> {
    match v {
        RawValue::Missing => Ok(0),
        RawValue::Null => Ok(0),
        RawValue::Int(i) => if i >= 0 {
            Ok(i)
        } else {
            Err(ProtocolError::InvalidPromiseId)
        },
        _ => Err(ProtocolError::InvalidPromiseId),
    }
}

/// Validates the correlation-identifier slot of a raw call, before any
/// dispatch work is attempted.
pub fn validate_promise_id(v: &RawValue) -> (r: Result<PromiseId, ProtocolError>)
    ensures
        r == promise_id_of(*v),
{
    match v {
        RawValue::Missing => Ok(0),
        RawValue::Null => Ok(0),
        RawValue::Int(i) => {
            if *i >= 0 {
                Ok(*i)
            } else {
                Err(ProtocolError::InvalidPromiseId)
            }
        },
        _ => Err(ProtocolError::InvalidPromiseId),
    }
}

/// What decoding one raw slot yields: a missing slot is a decode error
/// naming the slot's position; every supplied shape decodes to the
/// corresponding plain value.
pub open spec fn decoded_slot(v: RawValue, position: u32) -> Result<Value, OpError> {
    match v {
        RawValue::Missing => Err(OpError::Decode { position }),
        RawValue::Null => Ok(Value::Null),
        RawValue::Bool(b) => Ok(Value::Bool(b)),
        RawValue::Int(i) => Ok(Value::Int(i)),
        RawValue::Str(s) => Ok(Value::Str(s)),
    }
}

/// What decoding a whole payload yields: both slots in order, or the error
/// of the first slot that fails. Decoding succeeds exactly when both slots
/// were supplied.
pub open spec fn decoded_args(p: OpPayload) -> Result<(Value, Value), OpError> {
    match decoded_slot(p.a, 0) {
        Err(e) => Err(e),
        Ok(va) => match decoded_slot(p.b, 1) {
            Err(e) => Err(e),
            Ok(vb) => Ok((va, vb)),
        },
    }
}

/// Decodes one raw slot, consuming it.
pub fn decode_slot(v: RawValue, position: u32) -> (r: Result<Value, OpError>)
    ensures
        r == decoded_slot(v, position),
{
    match v {
        RawValue::Missing => Err(OpError::Decode { position }),
        RawValue::Null => Ok(Value::Null),
        RawValue::Bool(b) => Ok(Value::Bool(b)),
        RawValue::Int(i) => Ok(Value::Int(i)),
        RawValue::Str(s) => Ok(Value::Str(s)),
    }
}

/// Decodes both argument slots of a payload, consuming it; used identically
/// by the synchronous and asynchronous dispatch paths.
pub fn decode_args(p: OpPayload) -> (r: Result<(Value, Value), OpError>)
    ensures
        r == decoded_args(p),
{
    let OpPayload { promise_id: _, a, b } = p;
    match decode_slot(a, 0) {
        Err(e) => Err(e),
        Ok(va) => match decode_slot(b, 1) {
            Err(e) => Err(e),
            Ok(vb) => Ok((va, vb)),
        },
    }
}

/// Law: a malformed payload is rejected with a decode error naming the
/// first failing slot — position 0 when the first slot is missing, position
/// 1 when only the second is — and a payload with both slots supplied
/// always decodes.
pub proof fn lemma_decode_error_names_position(p: OpPayload)
    ensures
        p.a == RawValue::Missing ==> decoded_args(p) == Err::<(Value, Value), OpError>(
            OpError::Decode { position: 0 },
        ),
        p.a != RawValue::Missing && p.b == RawValue::Missing ==> decoded_args(p)
            == Err::<(Value, Value), OpError>(OpError::Decode { position: 1 }),
        p.a != RawValue::Missing && p.b != RawValue::Missing ==> decoded_args(p) matches Ok(_),
{
}

} // verus!
