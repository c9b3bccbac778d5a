//! Non-blocking sockets that park the current fiber.

use crate::error::Async;
use crate::error::Error;
use crate::io::poll::EventedHandle;
use crate::io::poll::Interest;
use crate::io::poll::Register;
use crate::sync::oneshot::Monitor;
use crate::sync::oneshot::MonitorError;
use vstd::prelude::*;

pub mod tcp;
pub mod udp;

verus! {

/// The address of a socket: an IP address, as a number, and a port.
#[derive(Clone, Copy, Debug, PartialEq, Eq, Structural)]
pub struct SocketAddr {
    /// The IP address. An IPv4 address fills the low 32 bits.
    pub ip: u128,
    /// The port.
    pub port: u16,
    /// Whether `ip` is an IPv6 address.
    pub v6: bool,
}

/// What the driver reports to a socket.
#[derive(Debug, PartialEq, Eq)]
pub enum Event<T> {
    /// The socket is polled, or the operation called.
    Begin,
    /// A non-blocking socket was opened and its registration requested, or
    /// opening it failed.
    Opened(Result<Register, Error>),
    /// The pending registration was polled, with this outcome.
    Registered(Result<Async<EventedHandle>, MonitorError<Error>>),
    /// The armed monitor was polled, with this outcome.
    Polled(Result<Async<()>, MonitorError<Error>>),
    /// The system call was made on the handle, with this outcome.
    Performed(Result<T, Error>),
    /// The poller took the request for a monitor; this is the monitor.
    Armed(Monitor),
}

/// What a socket asks of the driver, or returns.
#[derive(Debug, PartialEq, Eq)]
pub enum Action<R> {
    /// Open a non-blocking socket for this address, request its registration
    /// with the poller of the current fiber, and report `Opened`.
    Open(SocketAddr),
    /// Poll the pending registration with this token and report `Registered`.
    PollRegister(u64),
    /// Poll the monitor with this id and report `Polled`.
    PollMonitor(u64),
    /// Make the system call on the handle and report `Performed`.
    Perform,
    /// Ask the poller for a monitor on this handle and interest, and report
    /// `Armed`.
    Arm(EventedHandle, Interest),
    /// The socket returns this to its caller.
    Return(R),
}

/// The outcome of polling a computation that yields a `T`.
pub type Poll<T> = Result<Async<T>, Error>;

/// The outcome `r` with `f` applied to the value it yields, if it yields one.
pub open spec fn poll_map<A, B>(r: Poll<A>, f: spec_fn(A) -> B) -> Poll<B> {
    match r {
        Ok(Async::Ready(a)) => Ok(Async::Ready(f(a))),
        Ok(Async::NotReady) => Ok(Async::NotReady),
        Err(e) => Err(e),
    }
}

impl<R> Action<R> {
    /// The action with `f` applied to what it returns, if it returns.
    pub open spec fn map_return<S>(self, f: spec_fn(R) -> S) -> Action<S> {
        match self {
            Action::Open(addr) => Action::Open(addr),
            Action::PollRegister(token) => Action::PollRegister(token),
            Action::PollMonitor(id) => Action::PollMonitor(id),
            Action::Perform => Action::Perform,
            Action::Arm(handle, interest) => Action::Arm(handle, interest),
            Action::Return(r) => Action::Return(f(r)),
        }
    }
}

/// The error a socket reports when a monitor it waited on did not succeed.
pub open spec fn spec_into_io_error(e: MonitorError<Error>) -> Error {
    match e {
        MonitorError::Aborted => Error::Aborted,
        MonitorError::Failed(inner) => inner,
    }
}

/// Turns the failure of a monitor into the error of the socket operation.
pub fn into_io_error(e: MonitorError<Error>) -> (r: Error)
    ensures
        r == spec_into_io_error(e),
{
    match e {
        MonitorError::Aborted => Error::Aborted,
        MonitorError::Failed(inner) => inner,
    }
}

/// What is known of a socket: its registration and, for each direction, the
/// id of the monitor it is parked on.
pub struct SocketView {
    pub handle: EventedHandle,
    pub read: Option<u64>,
    pub write: Option<u64>,
}

impl SocketView {
    /// The monitor armed for `interest`, if any.
    pub open spec fn slot(self, interest: Interest) -> Option<u64> {
        match interest {
            Interest::Read => self.read,
            Interest::Write => self.write,
        }
    }

    /// The same socket with the slot of `interest` set to `m`.
    pub open spec fn with_slot(self, interest: Interest, m: Option<u64>) -> SocketView {
        match interest {
            Interest::Read => SocketView { read: m, ..self },
            Interest::Write => SocketView { write: m, ..self },
        }
    }
}

/// The events that the protocol allows in state `s`: a monitor can only be
/// polled while armed, and the handle is only touched, and a new monitor only
/// stored, while none is armed.
pub open spec fn operate_accepts<T>(s: SocketView, interest: Interest, event: Event<T>) -> bool {
    match event {
        Event::Begin => true,
        Event::Opened(_) => false,
        Event::Registered(_) => false,
        Event::Polled(_) => s.slot(interest) is Some,
        Event::Performed(_) => s.slot(interest) is None,
        Event::Armed(_) => s.slot(interest) is None,
    }
}

/// The socket after `event` came in, in the course of an operation in the
/// direction `interest`.
pub open spec fn operate_next<T>(s: SocketView, interest: Interest, event: Event<T>) -> SocketView {
    match event {
        Event::Begin => s,
        Event::Polled(Ok(Async::NotReady)) => s,
        Event::Polled(_) => s.with_slot(interest, None),
        Event::Armed(m) => s.with_slot(interest, Some(m.id)),
        _ => s,
    }
}

/// The answer of an operation in the direction `interest` to `event`: the
/// armed monitor is polled before the handle is touched; a monitor that is
/// not ready means that the operation would block; a call that would block
/// asks for a new monitor.
pub open spec fn operate_action<T>(s: SocketView, interest: Interest, event: Event<T>) -> Action<Result<T, Error>> {
    match event {
        Event::Begin => match s.slot(interest) {
            Some(id) => Action::PollMonitor(id),
            None => Action::Perform,
        },
        Event::Polled(Ok(Async::NotReady)) => Action::Return(Err(Error::WouldBlock)),
        Event::Polled(Ok(Async::Ready(_))) => Action::Perform,
        Event::Polled(Err(e)) => Action::Return(Err(spec_into_io_error(e))),
        Event::Performed(Ok(v)) => Action::Return(Ok(v)),
        Event::Performed(Err(e)) => if e == Error::WouldBlock {
            Action::Arm(s.handle, interest)
        } else {
            Action::Return(Err(e))
        },
        _ => Action::Return(Err(Error::WouldBlock)),
    }
}

/// An operation asks for a monitor only while none is armed for its
/// direction, and no event puts one monitor in the place of another: a socket
/// has at most one monitor armed for each direction. What happens in one
/// direction leaves the other alone.
pub proof fn lemma_one_monitor_for_each_direction<T>(
    s: SocketView,
    interest: Interest,
    event: Event<T>,
    other: Interest,
)
    requires
        operate_accepts(s, interest, event),
    ensures
        operate_action(s, interest, event) is Arm ==> s.slot(interest) is None,
        s.slot(interest) is Some ==> operate_next(s, interest, event).slot(interest) is None
            || operate_next(s, interest, event).slot(interest) == s.slot(interest),
        other != interest ==> operate_next(s, interest, event).slot(other) == s.slot(other),
        operate_next(s, interest, event).handle == s.handle,
{
}

/// The making of a listening socket: open it, then wait until the poller has
/// registered it.
#[derive(Debug, PartialEq, Eq)]
pub enum Bind {
    /// Nothing done yet; the socket is to be bound to this address.
    Bind(SocketAddr),
    /// The socket is open and its registration pending.
    Registering(Register),
    /// The value has been handed out, or an error returned.
    Polled,
}

/// The events that [`Bind`] allows in state `s`. A `Bind` that has returned
/// its value or an error is not polled again.
pub open spec fn bind_accepts<T>(s: Bind, event: Event<T>) -> bool {
    match s {
        Bind::Bind(_) => event is Begin || event is Opened,
        Bind::Registering(_) => event is Begin || event is Registered,
        Bind::Polled => false,
    }
}

/// The state of a [`Bind`] after `event`.
pub open spec fn bind_next<T>(s: Bind, event: Event<T>) -> Bind {
    match (s, event) {
        (Bind::Bind(_), Event::Opened(Ok(register))) => Bind::Registering(register),
        (Bind::Bind(_), Event::Opened(Err(_))) => Bind::Polled,
        (Bind::Registering(_), Event::Registered(Ok(Async::NotReady))) => s,
        (Bind::Registering(_), Event::Registered(_)) => Bind::Polled,
        _ => s,
    }
}

/// The answer of a [`Bind`] to `event`.
pub open spec fn bind_action<T>(s: Bind, event: Event<T>) -> Action<Result<Async<EventedHandle>, Error>> {
    match (s, event) {
        (Bind::Bind(_), Event::Opened(Ok(register))) => Action::PollRegister(register.token),
        (Bind::Bind(_), Event::Opened(Err(e))) => Action::Return(Err(e)),
        (Bind::Bind(addr), _) => Action::Open(addr),
        (Bind::Registering(_), Event::Registered(Ok(ready))) => Action::Return(Ok(ready)),
        (Bind::Registering(_), Event::Registered(Err(e))) => Action::Return(
            Err(spec_into_io_error(e)),
        ),
        (Bind::Registering(register), _) => Action::PollRegister(register.token),
        (Bind::Polled, _) => Action::Return(Ok(Async::NotReady)),
    }
}

impl Bind {
    /// One step of the bind: the handle of the registered socket once the
    /// poller has confirmed the registration.
    pub fn poll<T>(&mut self, event: Event<T>) -> (action: Action<Result<Async<EventedHandle>, Error>>)
        requires
            bind_accepts(*old(self), event),
        ensures
            *final(self) == bind_next(*old(self), event),
            action == bind_action(*old(self), event),
    {
        let mut state = Bind::Polled;
        core::mem::swap(self, &mut state);
        match state {
            Bind::Bind(addr) => match event {
                Event::Opened(Ok(register)) => {
                    let token: u64 = register.token;
                    *self = Bind::Registering(register);
                    Action::PollRegister(token)
                },
                Event::Opened(Err(e)) => Action::Return(Err(e)),
                _ => {
                    *self = Bind::Bind(addr);
                    Action::Open(addr)
                },
            },
            Bind::Registering(register) => match event {
                Event::Registered(Ok(Async::Ready(handle))) => Action::Return(
                    Ok(Async::Ready(handle)),
                ),
                Event::Registered(Ok(Async::NotReady)) => {
                    *self = Bind::Registering(register);
                    Action::Return(Ok(Async::NotReady))
                },
                Event::Registered(Err(e)) => Action::Return(Err(into_io_error(e))),
                _ => {
                    let token: u64 = register.token;
                    *self = Bind::Registering(register);
                    Action::PollRegister(token)
                },
            },
            Bind::Polled => Action::Return(Ok(Async::NotReady)),
        }
    }
}

} // verus!
