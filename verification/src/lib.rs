//! A durable task orchestration core: an event-sourced runtime state
//! machine for orchestration instances, the value contracts that cross the
//! backend boundary, and the helpers around them, with machine-checked
//! contracts throughout.

use vstd::prelude::*;

pub mod actions;
pub mod api;
pub mod backend;
pub mod events;
pub mod identity;
pub mod internal;
pub mod logger;
pub mod runtimestate;
pub mod status;
pub mod strutil;
pub mod trace;
pub mod workitem;

verus! {

/// Seconds and nanoseconds since the Unix epoch, as carried on every
/// history event and on scheduled-start requests.
#[derive(Clone, Copy, Debug, PartialEq, Eq, Structural)]
pub struct Timestamp {
    pub seconds: i64,
    pub nanos: i32,
}

} // verus!
