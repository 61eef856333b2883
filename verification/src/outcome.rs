//! The op outcome: the tagged result of dispatching one call, and the
//! pending unit of asynchronous work that the two tracked variants carry.

use vstd::prelude::*;
use crate::envelope::Envelope;
use crate::payload::{PromiseId, ProtocolError};

verus! {

/// One pending asynchronous unit of work: the correlation identifier it
/// answers, the envelope it will eventually deliver, and whether the
/// underlying native work has finished yet. The envelope is fixed when the
/// unit is constructed and survives unchanged until the unit is drained.
#[derive(Debug, Clone, PartialEq, Eq)]
pub struct PendingUnit {
    pub promise_id: PromiseId,
    pub envelope: Envelope,
    pub ready: bool,
}

/// The tagged outcome of dispatching one call: created once per dispatch,
/// consumed once by the boundary, never reused.
#[derive(Debug, Clone, PartialEq, Eq)]
pub enum Op {
    /// An envelope ready to hand back to the script call site now.
    Sync(Envelope),
    /// A pending unit whose completion must be awaited before the host loop
    /// may consider itself idle.
    Async(PendingUnit),
    /// A pending unit whose mere existence must not keep the host loop from
    /// exiting.
    AsyncUnref(PendingUnit),
    /// No handler is registered under the invoked name.
    NotFound,
}

/// What the script-facing boundary observes from one raw dispatch.
#[derive(Debug, Clone, PartialEq, Eq)]
pub enum BoundaryResult {
    /// An immediate envelope handed straight back: a return value on
    /// success, a thrown value on failure.
    Return(Envelope),
    /// Nothing returned now: a unit was filed into a pending queue, the
    /// waker was signalled, and the continuation stored under the call's
    /// correlation identifier will be settled later.
    Queued,
    /// A protocol violation thrown as an immediate boundary-level type
    /// error; nothing was enqueued.
    TypeError(ProtocolError),
}

} // verus!
