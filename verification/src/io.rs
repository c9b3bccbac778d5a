//! Readiness notification.

pub mod poll;
