//! Synchronisation between fibers.

pub mod mpsc;
pub mod oneshot;
