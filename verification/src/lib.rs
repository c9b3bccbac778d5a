//! A cooperative fiber runtime: the scheduling, readiness and socket-parking
//! rules, stated as verified state machines over plain values.
//!
//! The machines decide; a driver performs the work they ask for (system
//! calls, channel operations, polling of tasks) and reports what came of it.

pub mod error;
pub mod executor;
pub mod fiber;
pub mod io;
pub mod net;
pub mod sync;
pub mod timer;
