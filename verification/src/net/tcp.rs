//! TCP listeners and streams.

use crate::error::Async;
use crate::error::Error;
use crate::io::poll::EventedHandle;
use crate::io::poll::Command;
use crate::io::poll::Interest;
use crate::io::poll::SharedHandle;
use crate::net::spec_into_io_error;
use crate::net::into_io_error;
use crate::net::Action;
use crate::net::Event;
use crate::net::Bind;
use crate::net::bind_accepts;
use crate::net::bind_action;
use crate::net::bind_next;
use crate::net::Poll;
use crate::net::SocketAddr;
use crate::net::poll_map;
use crate::net::operate_accepts;
use crate::net::operate_action;
use crate::net::operate_next;
use crate::net::SocketView;
use crate::io::poll::Register;
use crate::sync::oneshot::Monitor;
use vstd::prelude::*;

verus! {

/// A TCP stream between a local and a remote socket.
///
/// The socket is non-blocking. An operation that would block arms a monitor
/// for its direction and reports `WouldBlock`; the next call polls that
/// monitor before it touches the handle again.
#[derive(Debug, PartialEq, Eq)]
pub struct TcpStream {
    handle: EventedHandle,
    read_monitor: Option<Monitor>,
    write_monitor: Option<Monitor>,
}

impl View for TcpStream {
    type V = SocketView;

    closed spec fn view(&self) -> SocketView {
        SocketView {
            handle: self.handle,
            read: match self.read_monitor {
                Some(m) => Some(m.id),
                None => None,
            },
            write: match self.write_monitor {
                Some(m) => Some(m.id),
                None => None,
            },
        }
    }
}

impl Clone for TcpStream {
    /// The clone shares the registration and is parked on nothing.
    fn clone(&self) -> (r: Self)
        ensures
            r@ == (SocketView { handle: self@.handle, read: None, write: None }),
    {
        TcpStream { handle: self.handle, read_monitor: None, write_monitor: None }
    }
}

impl TcpStream {
    /// A stream over a registered handle, parked on nothing.
    pub fn new(handle: EventedHandle) -> (r: Self)
        ensures
            r@ == (SocketView { handle, read: None, write: None }),
    {
        TcpStream { handle, read_monitor: None, write_monitor: None }
    }

    /// The registration of the stream's handle.
    pub fn handle(&self) -> (h: EventedHandle)
        ensures
            h == self@.handle,
    {
        self.handle
    }

    /// Clones the stream and counts the clone among the holders of its
    /// handle, in one step. `None`, and nothing counted, where the handle
    /// cannot take another holder: nobody holds it any more, or the count
    /// is at `usize::MAX`.
    pub fn clone_held(&self, holders: &mut SharedHandle) -> (r: Option<TcpStream>)
        requires
            old(holders).handle() == self@.handle,
        ensures
            final(holders).handle() == old(holders).handle(),
            r is Some <==> 0 < old(holders).holders() < usize::MAX,
            final(holders).holders() == if r is Some {
                old(holders).holders() + 1
            } else {
                old(holders).holders()
            },
            r matches Some(c) ==> c@ == (SocketView {
                handle: self@.handle,
                read: None,
                write: None,
            }),
    {
        if holders.retain() {
            Some(TcpStream { handle: self.handle, read_monitor: None, write_monitor: None })
        } else {
            None
        }
    }

    /// Drops the stream and takes it from the holders of its handle, in one
    /// step. With the last holder the handle goes: the request to
    /// deregister it is returned, once.
    pub fn drop_held(self, holders: &mut SharedHandle) -> (r: Option<Command>)
        requires
            old(holders).handle() == self@.handle,
        ensures
            final(holders).handle() == old(holders).handle(),
            final(holders).holders() == if old(holders).holders() == 0 {
                0
            } else {
                old(holders).holders() - 1
            },
            r == if old(holders).holders() == 1 {
                Some(Command::Deregister(self@.handle.token))
            } else {
                None
            },
    {
        holders.release()
    }

    /// The id of the monitor armed for `interest`, if any.
    pub fn armed(&self, interest: Interest) -> (r: Option<u64>)
        ensures
            r == self@.slot(interest),
    {
        let slot = if interest.is_read() {
            &self.read_monitor
        } else {
            &self.write_monitor
        };
        match slot {
            Some(m) => Some(m.id),
            None => None,
        }
    }

    /// The slot that holds the monitor for `interest`.
    fn monitor(&mut self, interest: Interest) -> (slot: &mut Option<Monitor>)
        ensures
            (match *slot {
                Some(m) => Some(m.id),
                None => None,
            }) == old(self)@.slot(interest),
            final(self)@ == old(self)@.with_slot(
                interest,
                match *final(slot) {
                    Some(m) => Some(m.id),
                    None => None,
                },
            ),
    {
        if interest.is_read() {
            &mut self.read_monitor
        } else {
            &mut self.write_monitor
        }
    }

    /// One step of an operation in the direction `interest`.
    pub fn operate<T>(&mut self, interest: Interest, event: Event<T>) -> (action: Action<Result<T, Error>>)
        requires
            operate_accepts(old(self)@, interest, event),
        ensures
            final(self)@ == operate_next(old(self)@, interest, event),
            action == operate_action(old(self)@, interest, event),
    {
        match event {
            Event::Begin => match self.armed(interest) {
                Some(id) => Action::PollMonitor(id),
                None => Action::Perform,
            },
            Event::Polled(Ok(Async::NotReady)) => Action::Return(Err(Error::WouldBlock)),
            Event::Polled(Ok(Async::Ready(_))) => {
                *self.monitor(interest) = None;
                Action::Perform
            },
            Event::Polled(Err(e)) => {
                *self.monitor(interest) = None;
                Action::Return(Err(into_io_error(e)))
            },
            Event::Performed(Ok(v)) => Action::Return(Ok(v)),
            Event::Performed(Err(e)) => {
                if e.is_would_block() {
                    Action::Arm(self.handle, interest)
                } else {
                    Action::Return(Err(e))
                }
            },
            Event::Armed(m) => {
                *self.monitor(interest) = Some(m);
                Action::Return(Err(Error::WouldBlock))
            },
            _ => Action::Return(Err(Error::WouldBlock)),
        }
    }
}

impl TcpStream {
    /// One step of reading bytes from the stream.
    pub fn read(&mut self, event: Event<usize>) -> (action: Action<Result<usize, Error>>)
        requires
            operate_accepts(old(self)@, Interest::Read, event),
        ensures
            final(self)@ == operate_next(old(self)@, Interest::Read, event),
            action == operate_action(old(self)@, Interest::Read, event),
    {
        self.operate(Interest::Read, event)
    }

    /// One step of writing bytes to the stream.
    pub fn write(&mut self, event: Event<usize>) -> (action: Action<Result<usize, Error>>)
        requires
            operate_accepts(old(self)@, Interest::Write, event),
        ensures
            final(self)@ == operate_next(old(self)@, Interest::Write, event),
            action == operate_action(old(self)@, Interest::Write, event),
    {
        self.operate(Interest::Write, event)
    }

    /// One step of flushing the stream.
    pub fn flush(&mut self, event: Event<()>) -> (action: Action<Result<(), Error>>)
        requires
            operate_accepts(old(self)@, Interest::Write, event),
        ensures
            final(self)@ == operate_next(old(self)@, Interest::Write, event),
            action == operate_action(old(self)@, Interest::Write, event),
    {
        self.operate(Interest::Write, event)
    }

    /// The opening of a connection to the remote host at `addr`.
    pub fn connect(addr: SocketAddr) -> (c: Connect)
        ensures
            c@ == ConnectView::Connect(addr),
    {
        Connect(ConnectInner::Connect(addr))
    }
}

/// What is known of a connection that is being opened.
pub enum ConnectView {
    /// Nothing done yet; the socket is to connect to this address.
    Connect(SocketAddr),
    /// The socket is open; its registration, with this token, is pending.
    Registering(u64),
    /// The socket is registered; its connection is not yet known to stand.
    Connecting(SocketView),
    /// The stream has been handed out, or an error returned.
    Polled,
}

/// The events that a [`Connect`] allows in state `s`. One that has returned
/// its stream or an error is not polled again.
pub open spec fn connect_accepts(s: ConnectView, event: Event<()>) -> bool {
    match s {
        ConnectView::Connect(_) => event is Begin || event is Opened,
        ConnectView::Registering(_) => event is Begin || event is Registered,
        ConnectView::Connecting(stream) => operate_accepts(stream, Interest::Write, event),
        ConnectView::Polled => false,
    }
}

/// The state of a [`Connect`] after `event`.
pub open spec fn connect_next(s: ConnectView, event: Event<()>) -> ConnectView {
    match s {
        ConnectView::Connect(_) => match event {
            Event::Opened(Ok(register)) => ConnectView::Registering(register.token),
            Event::Opened(Err(_)) => ConnectView::Polled,
            _ => s,
        },
        ConnectView::Registering(_) => match event {
            Event::Registered(Ok(Async::Ready(handle))) => ConnectView::Connecting(
                SocketView { handle, read: None, write: None },
            ),
            Event::Registered(Err(_)) => ConnectView::Polled,
            _ => s,
        },
        ConnectView::Connecting(stream) => match operate_action(stream, Interest::Write, event) {
            Action::Return(Ok(_)) => ConnectView::Polled,
            Action::Return(Err(e)) => if e == Error::WouldBlock {
                ConnectView::Connecting(operate_next(stream, Interest::Write, event))
            } else {
                ConnectView::Polled
            },
            _ => ConnectView::Connecting(operate_next(stream, Interest::Write, event)),
        },
        ConnectView::Polled => s,
    }
}

/// The answer of a [`Connect`] to `event`. While the socket is connecting,
/// the probe is a flush: its success yields the stream, and that it would
/// block means that the connection is not ready.
pub open spec fn connect_action(s: ConnectView, event: Event<()>) -> Action<Poll<SocketView>> {
    match s {
        ConnectView::Connect(addr) => match event {
            Event::Opened(Ok(register)) => Action::PollRegister(register.token),
            Event::Opened(Err(e)) => Action::Return(Err(e)),
            _ => Action::Open(addr),
        },
        ConnectView::Registering(token) => match event {
            Event::Registered(Ok(Async::Ready(_))) => Action::Perform,
            Event::Registered(Ok(Async::NotReady)) => Action::Return(Ok(Async::NotReady)),
            Event::Registered(Err(e)) => Action::Return(Err(spec_into_io_error(e))),
            _ => Action::PollRegister(token),
        },
        ConnectView::Connecting(stream) => match operate_action(stream, Interest::Write, event) {
            Action::Return(Ok(_)) => Action::Return(
                Ok(Async::Ready(operate_next(stream, Interest::Write, event))),
            ),
            Action::Return(Err(e)) => if e == Error::WouldBlock {
                Action::Return(Ok(Async::NotReady))
            } else {
                Action::Return(Err(e))
            },
            Action::Open(addr) => Action::Open(addr),
            Action::PollRegister(token) => Action::PollRegister(token),
            Action::PollMonitor(id) => Action::PollMonitor(id),
            Action::Perform => Action::Perform,
            Action::Arm(handle, interest) => Action::Arm(handle, interest),
        },
        ConnectView::Polled => Action::Return(Ok(Async::NotReady)),
    }
}

#[derive(Debug, PartialEq, Eq)]
enum ConnectInner {
    Connect(SocketAddr),
    Registering(Register),
    Connecting(TcpStream),
    Polled,
}

impl View for ConnectInner {
    type V = ConnectView;

    closed spec fn view(&self) -> ConnectView {
        match *self {
            ConnectInner::Connect(addr) => ConnectView::Connect(addr),
            ConnectInner::Registering(register) => ConnectView::Registering(register.token),
            ConnectInner::Connecting(stream) => ConnectView::Connecting(stream@),
            ConnectInner::Polled => ConnectView::Polled,
        }
    }
}

impl ConnectInner {
    /// The step of a connecting socket: a flush of `stream`.
    fn probe(&mut self, stream: TcpStream, event: Event<()>) -> (action: Action<Poll<TcpStream>>)
        requires
            *old(self) == ConnectInner::Polled,
            operate_accepts(stream@, Interest::Write, event),
        ensures
            final(self)@ == connect_next(ConnectView::Connecting(stream@), event),
            action.map_return(|r: Poll<TcpStream>| poll_map(r, |s: TcpStream| s@))
                == connect_action(ConnectView::Connecting(stream@), event),
    {
        let mut stream = stream;
        match stream.flush(event) {
            Action::Return(Ok(_)) => Action::Return(Ok(Async::Ready(stream))),
            Action::Return(Err(e)) => {
                if e.is_would_block() {
                    *self = ConnectInner::Connecting(stream);
                    Action::Return(Ok(Async::NotReady))
                } else {
                    Action::Return(Err(e))
                }
            },
            Action::Open(addr) => {
                *self = ConnectInner::Connecting(stream);
                Action::Open(addr)
            },
            Action::PollRegister(token) => {
                *self = ConnectInner::Connecting(stream);
                Action::PollRegister(token)
            },
            Action::PollMonitor(id) => {
                *self = ConnectInner::Connecting(stream);
                Action::PollMonitor(id)
            },
            Action::Perform => {
                *self = ConnectInner::Connecting(stream);
                Action::Perform
            },
            Action::Arm(handle, interest) => {
                *self = ConnectInner::Connecting(stream);
                Action::Arm(handle, interest)
            },
        }
    }

    fn poll(&mut self, event: Event<()>) -> (action: Action<Poll<TcpStream>>)
        requires
            connect_accepts(old(self)@, event),
        ensures
            final(self)@ == connect_next(old(self)@, event),
            action.map_return(|r: Poll<TcpStream>| poll_map(r, |s: TcpStream| s@))
                == connect_action(old(self)@, event),
    {
        let mut state = ConnectInner::Polled;
        core::mem::swap(self, &mut state);
        match state {
            ConnectInner::Connect(addr) => match event {
                Event::Opened(Ok(register)) => {
                    let token: u64 = register.token;
                    *self = ConnectInner::Registering(register);
                    Action::PollRegister(token)
                },
                Event::Opened(Err(e)) => Action::Return(Err(e)),
                _ => {
                    *self = ConnectInner::Connect(addr);
                    Action::Open(addr)
                },
            },
            ConnectInner::Registering(register) => match event {
                Event::Registered(Ok(Async::Ready(handle))) => self.probe(
                    TcpStream::new(handle),
                    Event::Begin,
                ),
                Event::Registered(Ok(Async::NotReady)) => {
                    *self = ConnectInner::Registering(register);
                    Action::Return(Ok(Async::NotReady))
                },
                Event::Registered(Err(e)) => Action::Return(Err(into_io_error(e))),
                _ => {
                    let token: u64 = register.token;
                    *self = ConnectInner::Registering(register);
                    Action::PollRegister(token)
                },
            },
            ConnectInner::Connecting(stream) => self.probe(stream, event),
            ConnectInner::Polled => Action::Return(Ok(Async::NotReady)),
        }
    }
}

/// The opening of a TCP connection to a remote host.
///
/// Made by [`TcpStream::connect`]. It may be moved from fiber to fiber.
#[derive(Debug, PartialEq, Eq)]
pub struct Connect(ConnectInner);

impl View for Connect {
    type V = ConnectView;

    closed spec fn view(&self) -> ConnectView {
        self.0@
    }
}

impl Connect {
    /// One step of the connect: the stream, once the socket is registered
    /// and a flush on it succeeds.
    pub fn poll(&mut self, event: Event<()>) -> (action: Action<Poll<TcpStream>>)
        requires
            connect_accepts(old(self)@, event),
        ensures
            final(self)@ == connect_next(old(self)@, event),
            action.map_return(|r: Poll<TcpStream>| poll_map(r, |s: TcpStream| s@))
                == connect_action(old(self)@, event),
    {
        self.0.poll(event)
    }
}

/// What is known of a listener: its registration and the id of the monitor
/// it is parked on.
pub struct ListenerView {
    pub handle: EventedHandle,
    pub monitor: Option<u64>,
}

impl ListenerView {
    /// The listener as a stream that only reads: accepting takes the same
    /// steps as a read.
    pub open spec fn as_stream(self) -> SocketView {
        SocketView { handle: self.handle, read: self.monitor, write: None }
    }
}

/// A socket server.
#[derive(Debug, PartialEq, Eq)]
pub struct TcpListener {
    handle: EventedHandle,
    monitor: Option<Monitor>,
}

impl View for TcpListener {
    type V = ListenerView;

    closed spec fn view(&self) -> ListenerView {
        ListenerView {
            handle: self.handle,
            monitor: match self.monitor {
                Some(m) => Some(m.id),
                None => None,
            },
        }
    }
}

impl TcpListener {
    /// The making of a listener bound to `addr`.
    pub fn bind(addr: SocketAddr) -> (b: TcpListenerBind)
        ensures
            b@ == Bind::Bind(addr),
    {
        TcpListenerBind(Bind::Bind(addr))
    }

    /// The connections that this listener will accept.
    pub fn incoming(self) -> (i: Incoming)
        ensures
            i@ == self@,
    {
        Incoming(self)
    }

    /// The registration of the listener's handle.
    pub fn handle(&self) -> (h: EventedHandle)
        ensures
            h == self@.handle,
    {
        self.handle
    }

    /// The id of the monitor that the listener is parked on, if any.
    pub fn armed(&self) -> (r: Option<u64>)
        ensures
            r == self@.monitor,
    {
        match &self.monitor {
            Some(m) => Some(m.id),
            None => None,
        }
    }
}

/// The making of a [`TcpListener`].
///
/// Made by [`TcpListener::bind`]. It may be moved from fiber to fiber.
#[derive(Debug, PartialEq, Eq)]
pub struct TcpListenerBind(Bind);

impl View for TcpListenerBind {
    type V = Bind;

    closed spec fn view(&self) -> Bind {
        self.0
    }
}

impl TcpListenerBind {
    /// One step of the bind: a listener that is parked on nothing, once the
    /// poller has confirmed the registration of its socket.
    pub fn poll<T>(&mut self, event: Event<T>) -> (action: Action<Poll<TcpListener>>)
        requires
            bind_accepts(old(self)@, event),
        ensures
            final(self)@ == bind_next(old(self)@, event),
            action.map_return(|r: Poll<TcpListener>| poll_map(r, |l: TcpListener| l@))
                == bind_action(old(self)@, event).map_return(
                |r: Poll<EventedHandle>|
                    poll_map(r, |handle: EventedHandle| (ListenerView { handle, monitor: None })),
            ),
    {
        match self.0.poll(event) {
            Action::Return(Ok(Async::Ready(handle))) => Action::Return(
                Ok(Async::Ready(TcpListener { handle, monitor: None })),
            ),
            Action::Return(Ok(Async::NotReady)) => Action::Return(Ok(Async::NotReady)),
            Action::Return(Err(e)) => Action::Return(Err(e)),
            Action::Open(addr) => Action::Open(addr),
            Action::PollRegister(token) => Action::PollRegister(token),
            Action::PollMonitor(id) => Action::PollMonitor(id),
            Action::Perform => Action::Perform,
            Action::Arm(handle, interest) => Action::Arm(handle, interest),
        }
    }
}

/// What an [`Incoming`] yields: the token of the pending registration of the
/// accepted socket, and the address of the peer.
pub type Accepted = Option<(Option<u64>, SocketAddr)>;

/// The state of an [`Incoming`] after `event`: that of a read on the
/// listener's socket.
pub open spec fn incoming_next(s: ListenerView, event: Event<(Register, SocketAddr)>) -> ListenerView {
    let stream = operate_next(s.as_stream(), Interest::Read, event);
    ListenerView { handle: stream.handle, monitor: stream.read }
}

/// The answer of an [`Incoming`] to `event`. A monitor that is not ready, or
/// an accept that would block, means that no connection is ready. The stream
/// never ends.
pub open spec fn incoming_action(s: ListenerView, event: Event<(Register, SocketAddr)>) -> Action<
    Poll<Accepted>,
> {
    match event {
        Event::Polled(Ok(Async::NotReady)) => Action::Return(Ok(Async::NotReady)),
        Event::Polled(Ok(Async::Ready(_))) => Action::Perform,
        Event::Polled(Err(e)) => Action::Return(Err(spec_into_io_error(e))),
        Event::Performed(Ok((register, addr))) => Action::Return(
            Ok(Async::Ready(Some((Some(register.token), addr)))),
        ),
        Event::Performed(Err(e)) => if e == Error::WouldBlock {
            Action::Arm(s.handle, Interest::Read)
        } else {
            Action::Return(Err(e))
        },
        Event::Armed(_) => Action::Return(Ok(Async::NotReady)),
        _ => match s.monitor {
            Some(id) => Action::PollMonitor(id),
            None => Action::Perform,
        },
    }
}

/// The stream of connections has no end: whatever comes in, an [`Incoming`]
/// never answers that it is over. Nor does it ever open a socket or wait for
/// a registration of its own.
pub proof fn lemma_incoming_never_ends(s: ListenerView, event: Event<(Register, SocketAddr)>)
    ensures
        !(incoming_action(s, event) matches Action::Return(Ok(Async::Ready(None)))),
        !(incoming_action(s, event) is Open),
        !(incoming_action(s, event) is PollRegister),
{
}

/// What an [`Incoming`] yields, by the view of the connection in it.
pub open spec fn accepted_view(item: Option<(Connected, SocketAddr)>) -> Accepted {
    match item {
        Some((connected, addr)) => Some((connected@, addr)),
        None => None,
    }
}

/// The endless stream of the connections that a listener accepts.
///
/// Made by [`TcpListener::incoming`]. It may be moved from fiber to fiber.
#[derive(Debug, PartialEq, Eq)]
pub struct Incoming(TcpListener);

impl View for Incoming {
    type V = ListenerView;

    closed spec fn view(&self) -> ListenerView {
        self.0@
    }
}

impl Incoming {
    /// One step of accepting the next connection.
    pub fn poll(&mut self, event: Event<(Register, SocketAddr)>) -> (action: Action<
        Poll<Option<(Connected, SocketAddr)>>,
    >)
        requires
            operate_accepts(old(self)@.as_stream(), Interest::Read, event),
        ensures
            final(self)@ == incoming_next(old(self)@, event),
            action.map_return(
                |r: Poll<Option<(Connected, SocketAddr)>>|
                    poll_map(r, |item: Option<(Connected, SocketAddr)>| accepted_view(item)),
            ) == incoming_action(old(self)@, event),
    {
        match event {
            Event::Polled(Ok(Async::NotReady)) => Action::Return(Ok(Async::NotReady)),
            Event::Polled(Ok(Async::Ready(_))) => {
                self.0.monitor = None;
                Action::Perform
            },
            Event::Polled(Err(e)) => {
                self.0.monitor = None;
                Action::Return(Err(into_io_error(e)))
            },
            Event::Performed(Ok((register, addr))) => Action::Return(
                Ok(Async::Ready(Some((Connected(Some(register)), addr)))),
            ),
            Event::Performed(Err(e)) => {
                if e.is_would_block() {
                    Action::Arm(self.0.handle, Interest::Read)
                } else {
                    Action::Return(Err(e))
                }
            },
            Event::Armed(m) => {
                self.0.monitor = Some(m);
                Action::Return(Ok(Async::NotReady))
            },
            _ => match self.0.armed() {
                Some(id) => Action::PollMonitor(id),
                None => Action::Perform,
            },
        }
    }
}

/// The events that a [`Connected`] allows while the registration with token
/// `s` is pending. One that has returned its stream or an error is not polled
/// again.
pub open spec fn connected_accepts<T>(s: Option<u64>, event: Event<T>) -> bool {
    s is Some && (event is Begin || event is Registered)
}

/// The state of a [`Connected`] after `event`.
pub open spec fn connected_next<T>(s: Option<u64>, event: Event<T>) -> Option<u64> {
    match event {
        Event::Registered(Ok(Async::NotReady)) => s,
        Event::Registered(_) => None,
        _ => s,
    }
}

/// The answer of a [`Connected`] to `event`.
pub open spec fn connected_action<T>(s: Option<u64>, event: Event<T>) -> Action<Poll<SocketView>> {
    match event {
        Event::Registered(Ok(Async::Ready(handle))) => Action::Return(
            Ok(Async::Ready(SocketView { handle, read: None, write: None })),
        ),
        Event::Registered(Ok(Async::NotReady)) => Action::Return(Ok(Async::NotReady)),
        Event::Registered(Err(e)) => Action::Return(Err(spec_into_io_error(e))),
        _ => match s {
            Some(token) => Action::PollRegister(token),
            None => Action::Return(Ok(Async::NotReady)),
        },
    }
}

/// A [`TcpStream`] that a [`TcpListener`] has accepted and that the poller
/// has not registered yet.
///
/// Yielded by [`Incoming`]. It may be moved from fiber to fiber.
#[derive(Debug, PartialEq, Eq)]
pub struct Connected(Option<Register>);

impl View for Connected {
    type V = Option<u64>;

    closed spec fn view(&self) -> Option<u64> {
        match self.0 {
            Some(register) => Some(register.token),
            None => None,
        }
    }
}

impl Connected {
    /// One step towards the stream: it is there once the poller has
    /// confirmed the registration.
    pub fn poll<T>(&mut self, event: Event<T>) -> (action: Action<Poll<TcpStream>>)
        requires
            connected_accepts(old(self)@, event),
        ensures
            final(self)@ == connected_next(old(self)@, event),
            action.map_return(|r: Poll<TcpStream>| poll_map(r, |s: TcpStream| s@))
                == connected_action(old(self)@, event),
    {
        match self.0.take() {
            Some(register) => match event {
                Event::Registered(Ok(Async::Ready(handle))) => Action::Return(
                    Ok(Async::Ready(TcpStream::new(handle))),
                ),
                Event::Registered(Ok(Async::NotReady)) => {
                    self.0 = Some(register);
                    Action::Return(Ok(Async::NotReady))
                },
                Event::Registered(Err(e)) => Action::Return(Err(into_io_error(e))),
                _ => {
                    let token: u64 = register.token;
                    self.0 = Some(register);
                    Action::PollRegister(token)
                },
            },
            None => Action::Return(Ok(Async::NotReady)),
        }
    }
}

} // verus!
