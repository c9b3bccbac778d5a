//! One-shot channels and monitors.

use crate::error::Async;
use crate::error::Error;
use vstd::prelude::*;

verus! {

/// Why a monitor completed without the value it was waiting for.
#[derive(Debug, PartialEq, Eq, Structural)]
pub enum MonitorError<E> {
    /// The producer went away without an answer.
    Aborted,
    /// The producer answered with an error.
    Failed(E),
}

/// The consumer's end of a one-shot completion slot.
#[derive(Debug, PartialEq, Eq, Structural)]
pub struct Monitor {
    /// Names the slot among those of its producer.
    pub id: u64,
}

/// The state of a one-shot channel, as both of its ends see it.
pub struct ChannelView<T> {
    /// The value that was sent and not yet received.
    pub value: Option<T>,
    /// Whether the sender has sent, or was dropped.
    pub sender_gone: bool,
    /// Whether the receiver was dropped.
    pub receiver_gone: bool,
    /// The fiber that waits for the value.
    pub waiter: Option<u64>,
}

impl<T> ChannelView<T> {
    /// The channel after `value` was sent: it holds the value, unless the
    /// sender is gone already or there is no receiver to take it.
    pub open spec fn send(self, value: T) -> ChannelView<T> {
        if self.sender_gone || self.receiver_gone {
            ChannelView { sender_gone: true, ..self }
        } else {
            ChannelView { value: Some(value), sender_gone: true, waiter: None, ..self }
        }
    }

    /// The fiber to wake when the sender sends or is dropped: the one that
    /// waits, if the sender was still there.
    pub open spec fn woken(self) -> Option<u64> {
        if self.sender_gone || self.receiver_gone {
            None
        } else {
            self.waiter
        }
    }

    /// The channel after the sender was dropped.
    pub open spec fn drop_sender(self) -> ChannelView<T> {
        if self.sender_gone || self.receiver_gone {
            ChannelView { sender_gone: true, ..self }
        } else {
            ChannelView { sender_gone: true, waiter: None, ..self }
        }
    }

    /// The channel after the receiver was dropped: a value that nobody took
    /// is lost.
    pub open spec fn drop_receiver(self) -> ChannelView<T> {
        ChannelView { value: None, receiver_gone: true, waiter: None, ..self }
    }

    /// The channel after the receiver, running in `fiber`, polled it.
    pub open spec fn poll(self, fiber: Option<u64>) -> ChannelView<T> {
        if self.value is Some {
            ChannelView { value: None, ..self }
        } else if self.sender_gone {
            self
        } else {
            ChannelView { waiter: fiber, ..self }
        }
    }

    /// What the receiver gets when it polls: the value if there is one,
    /// `Cancelled` if there is none and none can come, and else nothing yet.
    pub open spec fn polled(self) -> Result<Async<T>, Error> {
        match self.value {
            Some(v) => Ok(Async::Ready(v)),
            None => if self.sender_gone {
                Err(Error::Cancelled)
            } else {
                Ok(Async::NotReady)
            },
        }
    }
}

/// A one-shot channel: one value goes from the sender to the receiver.
pub struct Channel<T> {
    value: Option<T>,
    sender_gone: bool,
    receiver_gone: bool,
    waiter: Option<u64>,
}

impl<T> View for Channel<T> {
    type V = ChannelView<T>;

    closed spec fn view(&self) -> ChannelView<T> {
        ChannelView {
            value: self.value,
            sender_gone: self.sender_gone,
            receiver_gone: self.receiver_gone,
            waiter: self.waiter,
        }
    }
}

/// A new channel: empty, with both ends alive and nobody waiting.
pub fn channel<T>() -> (c: Channel<T>)
    ensures
        c@ == (ChannelView::<T> {
            value: None,
            sender_gone: false,
            receiver_gone: false,
            waiter: None,
        }),
{
    Channel { value: None, sender_gone: false, receiver_gone: false, waiter: None }
}

impl<T> Channel<T> {
    /// The sender sends `value`. The value comes back if it cannot be
    /// delivered. Returns, besides, the fiber to wake.
    pub fn send(&mut self, value: T) -> (r: (Result<(), T>, Option<u64>))
        ensures
            final(self)@ == old(self)@.send(value),
            r.0 == if old(self)@.sender_gone || old(self)@.receiver_gone {
                Err::<(), T>(value)
            } else {
                Ok(())
            },
            r.1 == old(self)@.woken(),
    {
        if self.sender_gone || self.receiver_gone {
            self.sender_gone = true;
            (Err(value), None)
        } else {
            self.value = Some(value);
            self.sender_gone = true;
            let woken: Option<u64> = self.waiter.take();
            (Ok(()), woken)
        }
    }

    /// The sender is dropped. Returns the fiber to wake: the receiver learns
    /// that no value will come.
    pub fn drop_sender(&mut self) -> (woken: Option<u64>)
        ensures
            final(self)@ == old(self)@.drop_sender(),
            woken == old(self)@.woken(),
    {
        if self.sender_gone || self.receiver_gone {
            self.sender_gone = true;
            None
        } else {
            self.sender_gone = true;
            self.waiter.take()
        }
    }

    /// The receiver is dropped.
    pub fn drop_receiver(&mut self)
        ensures
            final(self)@ == old(self)@.drop_receiver(),
    {
        self.value = None;
        self.receiver_gone = true;
        self.waiter = None;
    }

    /// The receiver polls, running in `fiber`. Where nothing is there yet,
    /// the fiber is noted as the one to wake.
    pub fn poll(&mut self, fiber: Option<u64>) -> (r: Result<Async<T>, Error>)
        ensures
            final(self)@ == old(self)@.poll(fiber),
            r == old(self)@.polled(),
    {
        match self.value.take() {
            Some(v) => Ok(Async::Ready(v)),
            None => {
                if self.sender_gone {
                    Err(Error::Cancelled)
                } else {
                    self.waiter = fiber;
                    Ok(Async::NotReady)
                }
            },
        }
    }
}

/// What the consumer of a monitor gets for what its channel gave: the value
/// of a success, the error of a failure, and `Aborted` where the producer
/// went away without an answer.
pub open spec fn spec_monitored<T, E>(polled: Result<Async<Result<T, E>>, Error>) -> Result<
    Async<T>,
    MonitorError<E>,
> {
    match polled {
        Ok(Async::Ready(Ok(v))) => Ok(Async::Ready(v)),
        Ok(Async::Ready(Err(e))) => Err(MonitorError::Failed(e)),
        Ok(Async::NotReady) => Ok(Async::NotReady),
        Err(_) => Err(MonitorError::Aborted),
    }
}

/// A monitor is a one-shot channel that carries a result: this turns what
/// the channel gave into what the monitor's consumer gets.
#[verifier::when_used_as_spec(spec_monitored)]
pub fn monitored<T, E>(polled: Result<Async<Result<T, E>>, Error>) -> (r: Result<
    Async<T>,
    MonitorError<E>,
>)
    ensures
        r == spec_monitored(polled),
{
    match polled {
        Ok(Async::Ready(Ok(v))) => Ok(Async::Ready(v)),
        Ok(Async::Ready(Err(e))) => Err(MonitorError::Failed(e)),
        Ok(Async::NotReady) => Ok(Async::NotReady),
        Err(_) => Err(MonitorError::Aborted),
    }
}

} // verus!
