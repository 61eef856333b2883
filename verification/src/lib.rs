//! Dispatch core for the native operations ("ops") of an embedded script
//! engine: the mechanism by which script code invokes host-provided
//! operations, synchronously or asynchronously, and by which results flow
//! back into the script side's continuation model.
//!
//! Every dispatch is normalised into one tagged outcome — answer now, pending
//! kept-alive work, pending not-kept-alive work, or operation not found — so
//! that the script-facing boundary needs only one small switch. Pending work
//! is filed into host-visible queues whose drain step delivers each completed
//! unit exactly once, keyed by its correlation identifier.
//!
//! Modelling choices, stated once here:
//! - Script-engine values are carried as the plain shapes this core actually
//!   inspects ([`payload::RawValue`], [`envelope::Value`]); the engine's own
//!   value representation and encoding live outside this crate.
//! - A handler is any `Fn` from the shared state and two decoded arguments to
//!   a new state and a result; the exclusive-access section a handler holds
//!   on the shared state is modelled by threading ownership of the state
//!   through the call.
//! - An asynchronous unit of work fixes its eventual envelope when it is
//!   constructed; the moment the underlying native work finishes is outside
//!   this core's control and is recorded on the unit by the host
//!   ([`queues::OpsQueues::set_ready`]) before a drain can return it.

pub mod dispatch;
pub mod envelope;
pub mod outcome;
pub mod payload;
pub mod queues;
