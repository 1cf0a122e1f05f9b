//! Supervision of a single long-running backend child process: classifying
//! its log output to detect readiness, latching that readiness in a one-way
//! flag, and forcing the flag after a bounded timeout so a caller never waits
//! forever on a silent or misbehaving child.

pub mod classifier;
pub mod readiness;
pub mod supervisor;
pub mod timeout;
pub mod watcher;

use vstd::prelude::*;

verus! {

/// The fixed delay, in seconds, after which readiness is forced even if no
/// marker line was ever seen.
pub const READY_TIMEOUT_SECS: u64 = 3;

/// The dedicated listening port handed to the backend, chosen so that it does
/// not collide with other deployments of the same backend on their own ports.
pub const BACKEND_PORT: u16 = 8001;

} // verus!
