//! Control-loop core for a smart-light operator: the condition state machine,
//! the desired-versus-observed diffing policy, the device status model, and
//! the device-adapter decision logic, all with verified contracts. The
//! network and store plumbing around this library stays outside it.
use vstd::prelude::*;

pub mod clock;
pub mod conditions;
pub mod config;
pub mod decimal;
pub mod engine;
pub mod light;
pub mod smarthome;
pub mod smartthings;

verus! {

/// The fixed requeue delay, in seconds, after a failed reconciliation pass.
pub const ERROR_REQUEUE_SECONDS: u64 = 5;

/// Delay granted to a pass for the error path: any engine failure requeues
/// after a short fixed interval rather than the regular sync interval.
pub fn error_requeue_seconds() -> (r: u64)
    ensures
        r == ERROR_REQUEUE_SECONDS,
{
    ERROR_REQUEUE_SECONDS
}

} // verus!
