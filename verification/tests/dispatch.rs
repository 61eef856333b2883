use opcore::dispatch::{op_async, op_async_unref, op_json2raw, op_sync, RawCall};
use opcore::envelope::{Envelope, ErrorInfo, OpError, Value};
use opcore::outcome::{BoundaryResult, Op};
use opcore::payload::{validate_promise_id, OpPayload, ProtocolError, RawValue};
use opcore::queues::OpsQueues;

#[test]
fn sync_echo_returns_first_argument() {
    let echo = |s: i64, a: Value, _b: Value| (s, Ok::<Value, OpError>(a));
    let payload = OpPayload {
        promise_id: 0,
        a: RawValue::Int(5),
        b: RawValue::Str("x".to_string()),
    };
    let (s2, op) = op_sync(&echo, 1i64, payload);
    assert_eq!(s2, 1);
    assert_eq!(op, Op::Sync(Envelope::Success(Value::Int(5))));
}

#[test]
fn sync_echo_missing_argument_cites_position_1() {
    let echo = |s: i64, a: Value, _b: Value| (s, Ok::<Value, OpError>(a));
    let payload = OpPayload { promise_id: 0, a: RawValue::Int(5), b: RawValue::Missing };
    let (_s, op) = op_sync(&echo, 1i64, payload);
    assert_eq!(op, Op::Sync(Envelope::Failure(OpError::Decode { position: 1 })));
}

#[test]
fn sync_decode_failure_skips_handler() {
    let count = |s: i64, a: Value, _b: Value| (s + 1, Ok::<Value, OpError>(a));
    let payload = OpPayload { promise_id: 0, a: RawValue::Missing, b: RawValue::Missing };
    let (s2, op) = op_sync(&count, 0i64, payload);
    assert_eq!(s2, 0);
    assert_eq!(op, Op::Sync(Envelope::Failure(OpError::Decode { position: 0 })));
}

#[test]
fn sync_handler_failure_is_wrapped_unmodified() {
    let fail = |s: i64, _a: Value, _b: Value| {
        (
            s,
            Err::<Value, OpError>(OpError::Handler {
                kind: "Error".to_string(),
                message: "foo".to_string(),
                cause: vec![],
            }),
        )
    };
    let payload = OpPayload { promise_id: 0, a: RawValue::Null, b: RawValue::Null };
    let (_s, op) = op_sync(&fail, 0i64, payload);
    assert_eq!(
        op,
        Op::Sync(Envelope::Failure(OpError::Handler {
            kind: "Error".to_string(),
            message: "foo".to_string(),
            cause: vec![],
        }))
    );
}

#[test]
fn async_decode_failure_is_immediate_and_enqueues_nothing() {
    let echo = |s: i64, a: Value, _b: Value| (s, Ok::<Value, OpError>(a));
    let payload = OpPayload { promise_id: 7, a: RawValue::Missing, b: RawValue::Null };
    let (_s, op) = op_async(&echo, 0i64, payload);
    assert_eq!(op, Op::Sync(Envelope::Failure(OpError::Decode { position: 0 })));

    let disp = |s: i64, p: OpPayload| op_async(&echo, s, p);
    let mut q = OpsQueues::new();
    let call = RawCall { id_slot: RawValue::Int(7), a: RawValue::Missing, b: RawValue::Null };
    let (_s, out) = op_json2raw(&disp, &mut q, 0i64, call);
    assert_eq!(
        out,
        BoundaryResult::Return(Envelope::Failure(OpError::Decode { position: 0 }))
    );
    assert_eq!(q.kept_len(), 0);
    assert_eq!(q.unkept_len(), 0);
    assert!(!q.take_waker());
}

#[test]
fn async_unref_decode_failure_is_immediate() {
    let echo = |s: i64, a: Value, _b: Value| (s, Ok::<Value, OpError>(a));
    let payload = OpPayload { promise_id: 3, a: RawValue::Bool(true), b: RawValue::Missing };
    let (_s, op) = op_async_unref(&echo, 0i64, payload);
    assert_eq!(op, Op::Sync(Envelope::Failure(OpError::Decode { position: 1 })));
}

#[test]
fn promise_id_defaults_and_passthrough() {
    assert_eq!(validate_promise_id(&RawValue::Missing), Ok(0));
    assert_eq!(validate_promise_id(&RawValue::Null), Ok(0));
    assert_eq!(validate_promise_id(&RawValue::Int(0)), Ok(0));
    assert_eq!(validate_promise_id(&RawValue::Int(42)), Ok(42));
    assert_eq!(
        validate_promise_id(&RawValue::Int(-5)),
        Err(ProtocolError::InvalidPromiseId)
    );
    assert_eq!(
        validate_promise_id(&RawValue::Str("1".to_string())),
        Err(ProtocolError::InvalidPromiseId)
    );
    assert_eq!(
        validate_promise_id(&RawValue::Bool(false)),
        Err(ProtocolError::InvalidPromiseId)
    );
}

#[test]
fn malformed_promise_id_is_protocol_error_and_enqueues_nothing() {
    let shapes = vec![
        RawValue::Str("seven".to_string()),
        RawValue::Bool(true),
        RawValue::Int(-1),
    ];
    for bad in shapes {
        let disp = |s: i64, _p: OpPayload| (s, Op::NotFound);
        let mut q = OpsQueues::new();
        let call = RawCall { id_slot: bad, a: RawValue::Int(1), b: RawValue::Int(2) };
        let (_s, out) = op_json2raw(&disp, &mut q, 0i64, call);
        assert_eq!(out, BoundaryResult::TypeError(ProtocolError::InvalidPromiseId));
        assert_eq!(q.kept_len(), 0);
        assert_eq!(q.unkept_len(), 0);
        assert!(!q.take_waker());
    }
}

#[test]
fn unknown_op_is_protocol_error_regardless_of_arguments() {
    let disp = |s: i64, _p: OpPayload| (s, Op::NotFound);
    let arg_sets = vec![
        (RawValue::Missing, RawValue::Missing),
        (RawValue::Int(1), RawValue::Str("x".to_string())),
        (RawValue::Null, RawValue::Bool(false)),
    ];
    for (a, b) in arg_sets {
        let mut q = OpsQueues::new();
        let call = RawCall { id_slot: RawValue::Null, a, b };
        let (_s, out) = op_json2raw(&disp, &mut q, 0i64, call);
        assert_eq!(out, BoundaryResult::TypeError(ProtocolError::UnknownOp));
        assert_eq!(q.kept_len(), 0);
        assert_eq!(q.unkept_len(), 0);
    }
}

#[test]
fn boundary_returns_sync_envelope_immediately() {
    let echo = |s: i64, a: Value, _b: Value| (s, Ok::<Value, OpError>(a));
    let disp = |s: i64, p: OpPayload| op_sync(&echo, s, p);
    let mut q = OpsQueues::new();
    let call = RawCall { id_slot: RawValue::Missing, a: RawValue::Int(8), b: RawValue::Null };
    let (_s, out) = op_json2raw(&disp, &mut q, 0i64, call);
    assert_eq!(out, BoundaryResult::Return(Envelope::Success(Value::Int(8))));
    assert_eq!(q.kept_len(), 0);
    assert!(!q.take_waker());
}

#[test]
fn async_failure_completion_delivers_boom() {
    let boom = |s: i64, _a: Value, _b: Value| {
        (
            s,
            Err::<Value, OpError>(OpError::Handler {
                kind: "Error".to_string(),
                message: "boom".to_string(),
                cause: vec![],
            }),
        )
    };
    let disp = |s: i64, p: OpPayload| op_async(&boom, s, p);
    let mut q = OpsQueues::new();
    let call = RawCall { id_slot: RawValue::Int(7), a: RawValue::Null, b: RawValue::Null };
    let (_s, out) = op_json2raw(&disp, &mut q, 0i64, call);
    assert_eq!(out, BoundaryResult::Queued);
    assert!(q.take_waker());
    assert!(!q.can_idle_exit());
    assert_eq!(q.drain_ready(), vec![]);
    q.set_ready(7);
    let done = q.drain_ready();
    assert_eq!(
        done,
        vec![(
            7,
            Envelope::Failure(OpError::Handler {
                kind: "Error".to_string(),
                message: "boom".to_string(),
                cause: vec![],
            })
        )]
    );
    assert!(q.can_idle_exit());
}

#[test]
fn out_of_order_completion_does_not_block() {
    let echo = |s: i64, a: Value, _b: Value| (s, Ok::<Value, OpError>(a));
    let disp = |s: i64, p: OpPayload| op_async(&echo, s, p);
    let mut q = OpsQueues::new();
    let call1 = RawCall { id_slot: RawValue::Int(1), a: RawValue::Int(10), b: RawValue::Null };
    let call2 = RawCall { id_slot: RawValue::Int(2), a: RawValue::Int(20), b: RawValue::Null };
    let (s1, out1) = op_json2raw(&disp, &mut q, 0i64, call1);
    let (_s2, out2) = op_json2raw(&disp, &mut q, s1, call2);
    assert_eq!(out1, BoundaryResult::Queued);
    assert_eq!(out2, BoundaryResult::Queued);
    q.set_ready(2);
    assert_eq!(q.drain_ready(), vec![(2, Envelope::Success(Value::Int(20)))]);
    assert!(!q.can_idle_exit());
    q.set_ready(1);
    assert_eq!(q.drain_ready(), vec![(1, Envelope::Success(Value::Int(10)))]);
    assert!(q.can_idle_exit());
}

#[test]
fn unref_unit_does_not_block_idle_exit_but_kept_does() {
    let echo = |s: i64, a: Value, _b: Value| (s, Ok::<Value, OpError>(a));
    let unref_disp = |s: i64, p: OpPayload| op_async_unref(&echo, s, p);
    let mut q = OpsQueues::new();
    let call = RawCall { id_slot: RawValue::Int(3), a: RawValue::Null, b: RawValue::Null };
    let (_s, out) = op_json2raw(&unref_disp, &mut q, 0i64, call);
    assert_eq!(out, BoundaryResult::Queued);
    assert_eq!(q.unkept_len(), 1);
    assert!(q.can_idle_exit());

    let kept_disp = |s: i64, p: OpPayload| op_async(&echo, s, p);
    let call2 = RawCall { id_slot: RawValue::Int(4), a: RawValue::Null, b: RawValue::Null };
    let (_s, out2) = op_json2raw(&kept_disp, &mut q, 0i64, call2);
    assert_eq!(out2, BoundaryResult::Queued);
    assert!(!q.can_idle_exit());
}

#[test]
fn error_cause_chain_survives_async_delivery() {
    let chained = |s: i64, _a: Value, _b: Value| {
        (
            s,
            Err::<Value, OpError>(OpError::Handler {
                kind: "Error".to_string(),
                message: "outer".to_string(),
                cause: vec![
                    ErrorInfo { kind: "Error".to_string(), message: "middle".to_string() },
                    ErrorInfo { kind: "TypeError".to_string(), message: "inner".to_string() },
                ],
            }),
        )
    };
    let disp = |s: i64, p: OpPayload| op_async(&chained, s, p);
    let mut q = OpsQueues::new();
    let call = RawCall { id_slot: RawValue::Int(11), a: RawValue::Null, b: RawValue::Null };
    let (_s, out) = op_json2raw(&disp, &mut q, 0i64, call);
    assert_eq!(out, BoundaryResult::Queued);
    q.set_ready(11);
    let done = q.drain_ready();
    assert_eq!(done.len(), 1);
    let (pid, env) = done.into_iter().next().unwrap();
    assert_eq!(pid, 11);
    match env {
        Envelope::Failure(OpError::Handler { kind, message, cause }) => {
            assert_eq!(kind, "Error");
            assert_eq!(message, "outer");
            assert_eq!(cause.len(), 2);
            assert_eq!(cause[0].message, "middle");
            assert_eq!(cause[1].kind, "TypeError");
            assert_eq!(cause[1].message, "inner");
        }
        other => panic!("expected a handler failure, got {:?}", other),
    }
}
