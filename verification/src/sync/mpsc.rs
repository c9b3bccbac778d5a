//! Stream channels: many senders, one receiver.

use crate::error::Async;
use std::collections::VecDeque;
use vstd::prelude::*;

verus! {

/// The state of a stream channel, as all of its ends see it.
pub struct ChannelView<T> {
    /// The values that were sent and not yet received, oldest first.
    pub queue: Seq<T>,
    /// The number of senders that are alive.
    pub senders: nat,
    /// Whether the receiver was dropped.
    pub receiver_gone: bool,
    /// The fiber that waits for a value.
    pub waiter: Option<u64>,
}

impl<T> ChannelView<T> {
    /// Whether a value can be sent: there is a sender and a receiver.
    pub open spec fn open(self) -> bool {
        self.senders > 0 && !self.receiver_gone
    }

    /// The channel after `value` was sent.
    pub open spec fn send(self, value: T) -> ChannelView<T> {
        if self.open() {
            ChannelView { queue: self.queue.push(value), waiter: None, ..self }
        } else {
            self
        }
    }

    /// The channel after a sender was dropped. The receiver is woken when
    /// the last sender goes: the stream has ended.
    pub open spec fn drop_sender(self) -> ChannelView<T> {
        if self.senders == 0 {
            self
        } else if self.senders == 1 {
            ChannelView { senders: 0, waiter: None, ..self }
        } else {
            ChannelView { senders: (self.senders - 1) as nat, ..self }
        }
    }

    /// The channel after the receiver was dropped: the values that nobody
    /// took are lost.
    pub open spec fn drop_receiver(self) -> ChannelView<T> {
        ChannelView { queue: Seq::empty(), receiver_gone: true, waiter: None, ..self }
    }

    /// The channel after the receiver, running in `fiber`, polled it.
    pub open spec fn poll(self, fiber: Option<u64>) -> ChannelView<T> {
        if self.queue.len() > 0 {
            ChannelView { queue: self.queue.subrange(1, self.queue.len() as int), ..self }
        } else if self.senders == 0 {
            self
        } else {
            ChannelView { waiter: fiber, ..self }
        }
    }

    /// What the receiver gets when it polls: the oldest value if there is
    /// one, the end of the stream if there is none and no sender is left,
    /// and else nothing yet.
    pub open spec fn polled(self) -> Async<Option<T>> {
        if self.queue.len() > 0 {
            Async::Ready(Some(self.queue[0]))
        } else if self.senders == 0 {
            Async::Ready(None)
        } else {
            Async::NotReady
        }
    }
}

/// A stream channel.
pub struct Channel<T> {
    queue: VecDeque<T>,
    senders: usize,
    receiver_gone: bool,
    waiter: Option<u64>,
}

impl<T> View for Channel<T> {
    type V = ChannelView<T>;

    closed spec fn view(&self) -> ChannelView<T> {
        ChannelView {
            queue: self.queue@,
            senders: self.senders as nat,
            receiver_gone: self.receiver_gone,
            waiter: self.waiter,
        }
    }
}

/// A new channel: empty, with one sender and the receiver, nobody waiting.
pub fn channel<T>() -> (c: Channel<T>)
    ensures
        c@ == (ChannelView::<T> {
            queue: Seq::empty(),
            senders: 1,
            receiver_gone: false,
            waiter: None,
        }),
{
    Channel { queue: VecDeque::new(), senders: 1, receiver_gone: false, waiter: None }
}

impl<T> Channel<T> {
    /// A sender sends `value`. The value comes back if the channel is not
    /// open. Returns, besides, the fiber to wake.
    pub fn send(&mut self, value: T) -> (r: (Result<(), T>, Option<u64>))
        ensures
            final(self)@ == old(self)@.send(value),
            r.0 == if old(self)@.open() {
                Ok::<(), T>(())
            } else {
                Err(value)
            },
            r.1 == if old(self)@.open() {
                old(self)@.waiter
            } else {
                None
            },
    {
        if self.senders == 0 || self.receiver_gone {
            (Err(value), None)
        } else {
            self.queue.push_back(value);
            let woken: Option<u64> = self.waiter.take();
            (Ok(()), woken)
        }
    }

    /// A sender was cloned. Tells whether the clone was counted: a channel
    /// without senders gets none back, and the count does not go beyond
    /// `usize::MAX`.
    pub fn clone_sender(&mut self) -> (counted: bool)
        ensures
            counted == (0 < old(self)@.senders < usize::MAX),
            final(self)@ == if counted {
                ChannelView { senders: old(self)@.senders + 1, ..old(self)@ }
            } else {
                old(self)@
            },
    {
        if self.senders == 0 || self.senders == usize::MAX {
            false
        } else {
            self.senders = self.senders + 1;
            true
        }
    }

    /// A sender is dropped. Returns the fiber to wake: with the last sender
    /// the stream ends, and the receiver is to learn it.
    pub fn drop_sender(&mut self) -> (woken: Option<u64>)
        ensures
            final(self)@ == old(self)@.drop_sender(),
            woken == if old(self)@.senders == 1 {
                old(self)@.waiter
            } else {
                None
            },
    {
        if self.senders == 0 {
            None
        } else if self.senders == 1 {
            self.senders = 0;
            self.waiter.take()
        } else {
            self.senders = self.senders - 1;
            None
        }
    }

    /// The receiver is dropped.
    pub fn drop_receiver(&mut self)
        ensures
            final(self)@ == old(self)@.drop_receiver(),
    {
        self.queue.clear();
        self.receiver_gone = true;
        self.waiter = None;
    }

    /// The receiver polls, running in `fiber`. Where nothing is there yet,
    /// the fiber is noted as the one to wake.
    pub fn poll(&mut self, fiber: Option<u64>) -> (r: Async<Option<T>>)
        ensures
            final(self)@ == old(self)@.poll(fiber),
            r == old(self)@.polled(),
    {
        match self.queue.pop_front() {
            Some(v) => Async::Ready(Some(v)),
            None => {
                if self.senders == 0 {
                    Async::Ready(None)
                } else {
                    self.waiter = fiber;
                    Async::NotReady
                }
            },
        }
    }
}

} // verus!
