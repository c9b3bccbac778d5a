//! The errors of the runtime.

use vstd::prelude::*;

verus! {

/// What can go wrong in the runtime.
#[derive(Clone, Copy, Debug, PartialEq, Eq, Structural)]
pub enum Error {
    /// The operation cannot make progress now; the fiber parks and retries.
    WouldBlock,
    /// A system call failed with this OS error code.
    Io(i32),
    /// A synchronisation primitive was dropped before it produced a value.
    Cancelled,
    /// A monitored task panicked or was discarded.
    Aborted,
    /// The worker with this index has died; the executor cannot go on.
    WorkerDead(usize),
}

impl Error {
    /// True exactly for [`Error::WouldBlock`].
    pub fn is_would_block(&self) -> (r: bool)
        ensures
            r == (*self == Error::WouldBlock),
    {
        match self {
            Error::WouldBlock => true,
            _ => false,
        }
    }

    /// True exactly for the errors that end the executor.
    pub fn is_fatal(&self) -> (r: bool)
        ensures
            r == (*self is WorkerDead),
    {
        match self {
            Error::WorkerDead(_) => true,
            _ => false,
        }
    }
}

/// The state of a polled computation: finished with a value, or not yet.
#[derive(Debug, PartialEq, Eq, Structural)]
pub enum Async<T> {
    Ready(T),
    NotReady,
}

impl<T> Async<T> {
    /// True exactly when the computation has finished.
    pub fn is_ready(&self) -> (r: bool)
        ensures
            r == (*self is Ready),
    {
        match self {
            Async::Ready(_) => true,
            Async::NotReady => false,
        }
    }

    /// True exactly when the computation has not finished.
    pub fn is_not_ready(&self) -> (r: bool)
        ensures
            r == (*self is NotReady),
    {
        match self {
            Async::Ready(_) => false,
            Async::NotReady => true,
        }
    }
}

} // verus!
