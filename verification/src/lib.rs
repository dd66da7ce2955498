//! Single-instance process supervisor core.
//!
//! The library holds the decision logic of a supervisor that keeps at most
//! one instance of a long-running server process alive: a codec for the
//! persisted process-identifier record, a codec for `.env` configuration
//! files, the supervisor's operations expressed as event-driven state
//! machines, and a simulated operating-system world over which the
//! supervisor's guarantees are proved.
//!
//! All operating-system work (files, signals, spawning) is performed by a
//! driver outside the library: the driver executes each [`supervisor::Action`]
//! the machines request and feeds the observed [`supervisor::Event`] back.

use vstd::prelude::*;

pub mod envfile;
pub mod pidfile;
pub mod sim;
pub mod supervisor;

verus! {

/// Default number of liveness polls granted to a graceful stop before the
/// supervisor escalates to forced termination.
pub const DEFAULT_STOP_POLL_BUDGET: u64 = 30;

/// Default pause between two liveness polls, in milliseconds.
pub const DEFAULT_STOP_POLL_INTERVAL_MS: u64 = 100;

/// Default settle pause between stopping the old instance and spawning the
/// new one during a restart, in milliseconds.
pub const DEFAULT_RESTART_SETTLE_MS: u64 = 1000;

} // verus!
