//! UDP sockets.

use crate::error::Async;
use crate::error::Error;
use crate::io::poll::EventedHandle;
use crate::io::poll::Command;
use crate::io::poll::Interest;
use crate::io::poll::SharedHandle;
use crate::net::bind_accepts;
use crate::net::bind_action;
use crate::net::bind_next;
use crate::net::into_io_error;
use crate::net::operate_accepts;
use crate::net::operate_action;
use crate::net::operate_next;
use crate::net::poll_map;
use crate::net::Action;
use crate::net::Bind;
use crate::net::Event;
use crate::net::Poll;
use crate::net::SocketAddr;
use crate::net::SocketView;
use crate::sync::oneshot::Monitor;
use vstd::prelude::*;

verus! {

/// A UDP socket.
///
/// The socket is non-blocking: sending and receiving park as the operations
/// of a TCP stream do, each in its own direction.
#[derive(Debug, PartialEq, Eq)]
pub struct UdpSocket {
    handle: EventedHandle,
    read_monitor: Option<Monitor>,
    write_monitor: Option<Monitor>,
}

impl View for UdpSocket {
    type V = SocketView;

    closed spec fn view(&self) -> SocketView {
        SocketView {
            handle: self.handle,
            read: match self.read_monitor {
                Some(m) => Some(m.id),
                None => None,
            },
            write: match self.write_monitor {
                Some(m) => Some(m.id),
                None => None,
            },
        }
    }
}

impl Clone for UdpSocket {
    /// The clone shares the registration and is parked on nothing.
    fn clone(&self) -> (r: Self)
        ensures
            r@ == (SocketView { handle: self@.handle, read: None, write: None }),
    {
        UdpSocket { handle: self.handle, read_monitor: None, write_monitor: None }
    }
}

/// What a transfer of a datagram returns when it is done: the socket, and
/// what the call returned or why it failed.
pub type Transferred<S, T> = Result<Async<(S, T)>, (S, Error)>;

/// The events that a transfer allows while it holds the socket `s`. One that
/// has handed the socket back is not polled again.
pub open spec fn transfer_accepts<T>(s: Option<SocketView>, interest: Interest, event: Event<T>) -> bool {
    s matches Some(socket) && operate_accepts(socket, interest, event)
}

/// What a transfer holds after `event`: the socket, until the call on it has
/// succeeded or failed.
pub open spec fn transfer_next<T>(s: Option<SocketView>, interest: Interest, event: Event<T>) -> Option<
    SocketView,
> {
    match s {
        Some(socket) => match operate_action(socket, interest, event) {
            Action::Return(Ok(_)) => None,
            Action::Return(Err(e)) => if e == Error::WouldBlock {
                Some(operate_next(socket, interest, event))
            } else {
                None
            },
            _ => Some(operate_next(socket, interest, event)),
        },
        None => None,
    }
}

/// The answer of a transfer to `event`: it hands the socket back with what
/// the call returned, or with the error of the call; that the call would
/// block means that the transfer is not done.
pub open spec fn transfer_action<T>(s: Option<SocketView>, interest: Interest, event: Event<T>) -> Action<
    Transferred<SocketView, T>,
> {
    match s {
        Some(socket) => match operate_action(socket, interest, event) {
            Action::Return(Ok(v)) => Action::Return(
                Ok(Async::Ready((operate_next(socket, interest, event), v))),
            ),
            Action::Return(Err(e)) => if e == Error::WouldBlock {
                Action::Return(Ok(Async::NotReady))
            } else {
                Action::Return(Err((operate_next(socket, interest, event), e)))
            },
            Action::Open(addr) => Action::Open(addr),
            Action::PollRegister(token) => Action::PollRegister(token),
            Action::PollMonitor(id) => Action::PollMonitor(id),
            Action::Perform => Action::Perform,
            Action::Arm(handle, i) => Action::Arm(handle, i),
        },
        None => Action::Return(Ok(Async::NotReady)),
    }
}

/// What a transfer returns, by the view of the socket in it.
pub open spec fn transferred_view<T>(r: Transferred<UdpSocket, T>) -> Transferred<SocketView, T> {
    match r {
        Ok(Async::Ready((socket, v))) => Ok(Async::Ready((socket@, v))),
        Ok(Async::NotReady) => Ok(Async::NotReady),
        Err((socket, e)) => Err((socket@, e)),
    }
}

/// The view of the socket that a transfer holds.
pub open spec fn held_view(s: Option<UdpSocket>) -> Option<SocketView> {
    match s {
        Some(socket) => Some(socket@),
        None => None,
    }
}

/// One step of a transfer in the direction `interest`.
fn transfer<T>(slot: &mut Option<UdpSocket>, interest: Interest, event: Event<T>) -> (action: Action<
    Transferred<UdpSocket, T>,
>)
    requires
        transfer_accepts(held_view(*old(slot)), interest, event),
    ensures
        held_view(*final(slot)) == transfer_next(held_view(*old(slot)), interest, event),
        action.map_return(|r: Transferred<UdpSocket, T>| transferred_view(r)) == transfer_action(
            held_view(*old(slot)),
            interest,
            event,
        ),
{
    let mut socket: UdpSocket = match slot.take() {
        Some(socket) => socket,
        None => {
            return Action::Return(Ok(Async::NotReady));
        },
    };
    match socket.operate(interest, event) {
        Action::Return(Ok(v)) => Action::Return(Ok(Async::Ready((socket, v)))),
        Action::Return(Err(e)) => {
            if e.is_would_block() {
                *slot = Some(socket);
                Action::Return(Ok(Async::NotReady))
            } else {
                Action::Return(Err((socket, e)))
            }
        },
        Action::Open(addr) => {
            *slot = Some(socket);
            Action::Open(addr)
        },
        Action::PollRegister(token) => {
            *slot = Some(socket);
            Action::PollRegister(token)
        },
        Action::PollMonitor(id) => {
            *slot = Some(socket);
            Action::PollMonitor(id)
        },
        Action::Perform => {
            *slot = Some(socket);
            Action::Perform
        },
        Action::Arm(handle, i) => {
            *slot = Some(socket);
            Action::Arm(handle, i)
        },
    }
}

impl UdpSocket {
    /// The making of a socket bound to `addr`.
    pub fn bind(addr: SocketAddr) -> (b: UdpSocketBind)
        ensures
            b@ == Bind::Bind(addr),
    {
        UdpSocketBind(Bind::Bind(addr))
    }

    /// The registration of the socket's handle.
    pub fn handle(&self) -> (h: EventedHandle)
        ensures
            h == self@.handle,
    {
        self.handle
    }

    /// Clones the socket and counts the clone among the holders of its
    /// handle, in one step. `None`, and nothing counted, where the handle
    /// cannot take another holder: nobody holds it any more, or the count
    /// is at `usize::MAX`.
    pub fn clone_held(&self, holders: &mut SharedHandle) -> (r: Option<UdpSocket>)
        requires
            old(holders).handle() == self@.handle,
        ensures
            final(holders).handle() == old(holders).handle(),
            r is Some <==> 0 < old(holders).holders() < usize::MAX,
            final(holders).holders() == if r is Some {
                old(holders).holders() + 1
            } else {
                old(holders).holders()
            },
            r matches Some(c) ==> c@ == (SocketView {
                handle: self@.handle,
                read: None,
                write: None,
            }),
    {
        if holders.retain() {
            Some(UdpSocket { handle: self.handle, read_monitor: None, write_monitor: None })
        } else {
            None
        }
    }

    /// Drops the socket and takes it from the holders of its handle, in one
    /// step. With the last holder the handle goes: the request to
    /// deregister it is returned, once.
    pub fn drop_held(self, holders: &mut SharedHandle) -> (r: Option<Command>)
        requires
            old(holders).handle() == self@.handle,
        ensures
            final(holders).handle() == old(holders).handle(),
            final(holders).holders() == if old(holders).holders() == 0 {
                0
            } else {
                old(holders).holders() - 1
            },
            r == if old(holders).holders() == 1 {
                Some(Command::Deregister(self@.handle.token))
            } else {
                None
            },
    {
        holders.release()
    }

    /// The id of the monitor armed for `interest`, if any.
    pub fn armed(&self, interest: Interest) -> (r: Option<u64>)
        ensures
            r == self@.slot(interest),
    {
        let slot = if interest.is_read() {
            &self.read_monitor
        } else {
            &self.write_monitor
        };
        match slot {
            Some(m) => Some(m.id),
            None => None,
        }
    }

    /// The slot that holds the monitor for `interest`.
    fn monitor(&mut self, interest: Interest) -> (slot: &mut Option<Monitor>)
        ensures
            (match *slot {
                Some(m) => Some(m.id),
                None => None,
            }) == old(self)@.slot(interest),
            final(self)@ == old(self)@.with_slot(
                interest,
                match *final(slot) {
                    Some(m) => Some(m.id),
                    None => None,
                },
            ),
    {
        if interest.is_read() {
            &mut self.read_monitor
        } else {
            &mut self.write_monitor
        }
    }

    /// One step of an operation in the direction `interest`.
    pub fn operate<T>(&mut self, interest: Interest, event: Event<T>) -> (action: Action<Result<T, Error>>)
        requires
            operate_accepts(old(self)@, interest, event),
        ensures
            final(self)@ == operate_next(old(self)@, interest, event),
            action == operate_action(old(self)@, interest, event),
    {
        match event {
            Event::Begin => match self.armed(interest) {
                Some(id) => Action::PollMonitor(id),
                None => Action::Perform,
            },
            Event::Polled(Ok(Async::NotReady)) => Action::Return(Err(Error::WouldBlock)),
            Event::Polled(Ok(Async::Ready(_))) => {
                *self.monitor(interest) = None;
                Action::Perform
            },
            Event::Polled(Err(e)) => {
                *self.monitor(interest) = None;
                Action::Return(Err(into_io_error(e)))
            },
            Event::Performed(Ok(v)) => Action::Return(Ok(v)),
            Event::Performed(Err(e)) => {
                if e.is_would_block() {
                    Action::Arm(self.handle, interest)
                } else {
                    Action::Return(Err(e))
                }
            },
            Event::Armed(m) => {
                *self.monitor(interest) = Some(m);
                Action::Return(Err(Error::WouldBlock))
            },
            _ => Action::Return(Err(Error::WouldBlock)),
        }
    }

    /// The sending of a datagram. The socket goes into it and comes back
    /// when the datagram is sent or has failed.
    pub fn send_to(self) -> (s: SendTo)
        ensures
            s@ == Some(self@),
    {
        SendTo(Some(self))
    }

    /// The receiving of a datagram. The socket goes into it and comes back
    /// when a datagram has come or receiving has failed.
    pub fn recv_from(self) -> (r: RecvFrom)
        ensures
            r@ == Some(self@),
    {
        RecvFrom(Some(self))
    }
}

/// The making of a [`UdpSocket`].
///
/// Made by [`UdpSocket::bind`]. It may be moved from fiber to fiber.
#[derive(Debug, PartialEq, Eq)]
pub struct UdpSocketBind(Bind);

impl View for UdpSocketBind {
    type V = Bind;

    closed spec fn view(&self) -> Bind {
        self.0
    }
}

impl UdpSocketBind {
    /// One step of the bind: a socket that is parked on nothing, once the
    /// poller has confirmed its registration.
    pub fn poll<T>(&mut self, event: Event<T>) -> (action: Action<Poll<UdpSocket>>)
        requires
            bind_accepts(old(self)@, event),
        ensures
            final(self)@ == bind_next(old(self)@, event),
            action.map_return(|r: Poll<UdpSocket>| poll_map(r, |s: UdpSocket| s@)) == bind_action(
                old(self)@,
                event,
            ).map_return(
                |r: Poll<EventedHandle>|
                    poll_map(
                        r,
                        |handle: EventedHandle| (SocketView { handle, read: None, write: None }),
                    ),
            ),
    {
        match self.0.poll(event) {
            Action::Return(Ok(Async::Ready(handle))) => Action::Return(
                Ok(Async::Ready(UdpSocket { handle, read_monitor: None, write_monitor: None })),
            ),
            Action::Return(Ok(Async::NotReady)) => Action::Return(Ok(Async::NotReady)),
            Action::Return(Err(e)) => Action::Return(Err(e)),
            Action::Open(addr) => Action::Open(addr),
            Action::PollRegister(token) => Action::PollRegister(token),
            Action::PollMonitor(id) => Action::PollMonitor(id),
            Action::Perform => Action::Perform,
            Action::Arm(handle, interest) => Action::Arm(handle, interest),
        }
    }
}

/// The sending of a datagram.
///
/// Made by [`UdpSocket::send_to`]. It may be moved from fiber to fiber.
#[derive(Debug, PartialEq, Eq)]
pub struct SendTo(Option<UdpSocket>);

impl View for SendTo {
    type V = Option<SocketView>;

    closed spec fn view(&self) -> Option<SocketView> {
        held_view(self.0)
    }
}

impl SendTo {
    /// One step of the sending: the socket and the number of bytes sent,
    /// once the call has succeeded.
    pub fn poll(&mut self, event: Event<usize>) -> (action: Action<Transferred<UdpSocket, usize>>)
        requires
            transfer_accepts(old(self)@, Interest::Write, event),
        ensures
            final(self)@ == transfer_next(old(self)@, Interest::Write, event),
            action.map_return(|r: Transferred<UdpSocket, usize>| transferred_view(r))
                == transfer_action(old(self)@, Interest::Write, event),
    {
        transfer(&mut self.0, Interest::Write, event)
    }
}

/// The receiving of a datagram.
///
/// Made by [`UdpSocket::recv_from`]. It may be moved from fiber to fiber.
#[derive(Debug, PartialEq, Eq)]
pub struct RecvFrom(Option<UdpSocket>);

impl View for RecvFrom {
    type V = Option<SocketView>;

    closed spec fn view(&self) -> Option<SocketView> {
        held_view(self.0)
    }
}

impl RecvFrom {
    /// One step of the receiving: the socket, the number of bytes received
    /// and the address of the sender, once the call has succeeded.
    pub fn poll(&mut self, event: Event<(usize, SocketAddr)>) -> (action: Action<
        Transferred<UdpSocket, (usize, SocketAddr)>,
    >)
        requires
            transfer_accepts(old(self)@, Interest::Read, event),
        ensures
            final(self)@ == transfer_next(old(self)@, Interest::Read, event),
            action.map_return(
                |r: Transferred<UdpSocket, (usize, SocketAddr)>| transferred_view(r),
            ) == transfer_action(old(self)@, Interest::Read, event),
    {
        transfer(&mut self.0, Interest::Read, event)
    }
}

} // verus!
