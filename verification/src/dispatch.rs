//! The dispatch core: binds a user-supplied handler — any `Fn` from the
//! shared state and two decoded arguments to a new state and a result —
//! into the uniform invocation contract, and files each raw call's outcome
//! at the script-facing boundary.
//!
//! A handler's exclusive-access section on the shared state is modelled by
//! threading ownership of the state value through the call: the handler
//! owns the state for exactly the duration of its invocation and hands it
//! back with its result.

use vstd::prelude::*;
use crate::envelope::{Value, OpError, Envelope, envelope_of, wrap_result};
use crate::outcome::{PendingUnit, Op, BoundaryResult};
use crate::payload::{
    PromiseId,
    RawValue,
    ProtocolError,
    OpPayload,
    promise_id_of,
    decoded_args,
    validate_promise_id,
    decode_args,
};
use crate::queues::{OpsQueues, QueueKind};

verus! {

/// Dispatches one synchronous call. The argument slots are decoded first;
/// on failure the handler is never consulted and the outcome is an
/// immediate failure envelope naming the failing position. On success the
/// handler runs to completion within this call, with exclusive access to
/// the state, and its result — success or failure — is wrapped unmodified
/// in an immediate envelope.
pub fn op_sync<S, F: Fn(S, Value, Value) -> (S, Result<Value, OpError>)>(
    op_fn: F,
    state: S,
    payload: OpPayload,
) -> (r: (S, Op))
    requires
        decoded_args(payload) matches Ok(args) ==> call_requires(op_fn, (state, args.0, args.1)),
    ensures
        decoded_args(payload) matches Err(e) ==> r.0 == state && r.1 == Op::Sync(
            Envelope::Failure(e),
        ),
        decoded_args(payload) matches Ok(args) ==> exists|h: (S, Result<Value, OpError>)|
            #[trigger] call_ensures(op_fn, (state, args.0, args.1), h) && r.0 == h.0 && r.1
                == Op::Sync(envelope_of(h.1)),
{
    match decode_args(payload) {
        Err(e) => (state, Op::Sync(Envelope::Failure(e))),
        Ok((a, b)) => {
            let (state2, res) = op_fn(state, a, b);
            (state2, Op::Sync(wrap_result(res)))
        },
    }
}

/// The unit of work an asynchronous dispatch files for a handler outcome:
/// tagged with the call's correlation identifier, delivering the wrapped
/// outcome, not yet finished.
pub open spec fn unit_of(pid: PromiseId, h: Result<Value, OpError>) -> PendingUnit {
    PendingUnit { promise_id: pid, envelope: envelope_of(h), ready: false }
}

/// Dispatches one asynchronous kept-alive call. On decode failure no unit
/// of work is started — there is nothing to correlate, so the caller is
/// told synchronously through an immediate failure envelope. On success
/// the handler fixes the envelope the unit will eventually deliver, and
/// the outcome is a kept-alive unit tagged with the call's correlation
/// identifier; nothing is polled or blocked on here.
pub fn op_async<S, F: Fn(S, Value, Value) -> (S, Result<Value, OpError>)>(
    op_fn: F,
    state: S,
    payload: OpPayload,
) -> (r: (S, Op))
    requires
        decoded_args(payload) matches Ok(args) ==> call_requires(op_fn, (state, args.0, args.1)),
    ensures
        decoded_args(payload) matches Err(e) ==> r.0 == state && r.1 == Op::Sync(
            Envelope::Failure(e),
        ),
        decoded_args(payload) matches Ok(args) ==> exists|h: (S, Result<Value, OpError>)|
            #[trigger] call_ensures(op_fn, (state, args.0, args.1), h) && r.0 == h.0 && r.1
                == Op::Async(unit_of(payload.promise_id, h.1)),
{
    let pid = payload.promise_id;
    match decode_args(payload) {
        Err(e) => (state, Op::Sync(Envelope::Failure(e))),
        Ok((a, b)) => {
            let (state2, res) = op_fn(state, a, b);
            let env = wrap_result(res);
            (state2, Op::Async(PendingUnit { promise_id: pid, envelope: env, ready: false }))
        },
    }
}

/// Dispatches one asynchronous not-kept-alive call: identical to the
/// kept-alive variant except for the pending-task category the outcome
/// populates, so the unit never keeps the host loop from exiting.
pub fn op_async_unref<S, F: Fn(S, Value, Value) -> (S, Result<Value, OpError>)>(
    op_fn: F,
    state: S,
    payload: OpPayload,
) -> (r: (S, Op))
    requires
        decoded_args(payload) matches Ok(args) ==> call_requires(op_fn, (state, args.0, args.1)),
    ensures
        decoded_args(payload) matches Err(e) ==> r.0 == state && r.1 == Op::Sync(
            Envelope::Failure(e),
        ),
        decoded_args(payload) matches Ok(args) ==> exists|h: (S, Result<Value, OpError>)|
            #[trigger] call_ensures(op_fn, (state, args.0, args.1), h) && r.0 == h.0 && r.1
                == Op::AsyncUnref(unit_of(payload.promise_id, h.1)),
{
    let pid = payload.promise_id;
    match decode_args(payload) {
        Err(e) => (state, Op::Sync(Envelope::Failure(e))),
        Ok((a, b)) => {
            let (state2, res) = op_fn(state, a, b);
            let env = wrap_result(res);
            (state2, Op::AsyncUnref(PendingUnit { promise_id: pid, envelope: env, ready: false }))
        },
    }
}

/// The raw call-site data as the script engine hands it over: the
/// correlation-identifier slot and two argument slots.
#[derive(Debug, Clone, PartialEq, Eq)]
pub struct RawCall {
    pub id_slot: RawValue,
    pub a: RawValue,
    pub b: RawValue,
}

/// The payload a raw call carries once its correlation identifier has
/// validated.
pub open spec fn payload_of(pid: PromiseId, call: RawCall) -> OpPayload {
    OpPayload { promise_id: pid, a: call.a, b: call.b }
}

/// What filing one op outcome at the boundary does to the queues and what
/// the script side observes: an immediate envelope is handed straight
/// back; a tracked unit joins its queue and the waker is signalled; an
/// unknown operation is an immediate boundary-level type error. Nothing is
/// enqueued except for the two tracked variants.
pub open spec fn filed(op: Op, q0: OpsQueues, q1: OpsQueues, out: BoundaryResult) -> bool {
    match op {
        Op::Sync(env) => q1.kept() == q0.kept() && q1.unkept() == q0.unkept() && q1.waker()
            == q0.waker() && out == BoundaryResult::Return(env),
        Op::Async(u) => q1.kept() == q0.kept().push(u) && q1.unkept() == q0.unkept() && q1.waker()
            && out == BoundaryResult::Queued,
        Op::AsyncUnref(u) => q1.unkept() == q0.unkept().push(u) && q1.kept() == q0.kept()
            && q1.waker() && out == BoundaryResult::Queued,
        Op::NotFound => q1.kept() == q0.kept() && q1.unkept() == q0.unkept() && q1.waker()
            == q0.waker() && out == BoundaryResult::TypeError(ProtocolError::UnknownOp),
    }
}

/// Law: filing an immediate outcome enqueues nothing — the caller gets the
/// envelope right away and no pending correlation is created. Together
/// with the dispatch contracts, a call with malformed arguments therefore
/// never reaches a queue: its outcome is an immediate decode failure.
pub proof fn lemma_immediate_enqueues_nothing(
    env: Envelope,
    q0: OpsQueues,
    q1: OpsQueues,
    out: BoundaryResult,
)
    requires
        filed(Op::Sync(env), q0, q1, out),
    ensures
        q1.kept() == q0.kept(),
        q1.unkept() == q0.unkept(),
        out == BoundaryResult::Return(env),
{
}

/// Dispatches one raw call end to end. The correlation-identifier slot is
/// validated first: a malformed identifier aborts the whole call with an
/// immediate boundary-level type error, before any decoding or invocation,
/// and enqueues nothing. Otherwise the op-function — the registered
/// dispatcher for the invoked name — runs on the payload, and its outcome
/// is filed: immediate envelopes are returned, tracked units are enqueued
/// with the waker signalled, and an unknown operation is thrown as a type
/// error.
pub fn op_json2raw<S, F: Fn(S, OpPayload) -> (S, Op)>(
    op_fn: F,
    queues: &mut OpsQueues,
    state: S,
    call: RawCall,
) -> (r: (S, BoundaryResult))
    requires
        promise_id_of(call.id_slot) matches Ok(pid) ==> call_requires(
            op_fn,
            (state, payload_of(pid, call)),
        ),
    ensures
        promise_id_of(call.id_slot) matches Err(e) ==> {
            &&& r.0 == state
            &&& r.1 == BoundaryResult::TypeError(e)
            &&& final(queues).kept() == old(queues).kept()
            &&& final(queues).unkept() == old(queues).unkept()
            &&& final(queues).waker() == old(queues).waker()
        },
        promise_id_of(call.id_slot) matches Ok(pid) ==> exists|h: (S, Op)|
            {
                &&& #[trigger] call_ensures(op_fn, (state, payload_of(pid, call)), h)
                &&& r.0 == h.0
                &&& filed(h.1, *old(queues), *final(queues), r.1)
            },
{
    let RawCall { id_slot, a, b } = call;
    let pid = match validate_promise_id(&id_slot) {
        Ok(p) => p,
        Err(e) => {
            return (state, BoundaryResult::TypeError(e));
        },
    };
    let payload = OpPayload { promise_id: pid, a, b };
    let (state2, op) = op_fn(state, payload);
    match op {
        Op::Sync(env) => (state2, BoundaryResult::Return(env)),
        Op::Async(u) => {
            queues.enqueue(u, QueueKind::KeptAlive);
            (state2, BoundaryResult::Queued)
        },
        Op::AsyncUnref(u) => {
            queues.enqueue(u, QueueKind::NotKeptAlive);
            (state2, BoundaryResult::Queued)
        },
        Op::NotFound => (state2, BoundaryResult::TypeError(ProtocolError::UnknownOp)),
    }
}

} // verus!
