//! The I/O poller: registrations of evented handles and the monitors that
//! wait for their readiness.

use std::collections::HashMap;
use vstd::prelude::*;

verus! {

broadcast use vstd::std_specs::hash::group_hash_axioms;

/// A direction in which an evented handle can become ready.
#[derive(Clone, Copy, Debug, PartialEq, Eq, Structural)]
pub enum Interest {
    Read,
    Write,
}

impl Interest {
    /// True exactly for the read direction.
    pub fn is_read(&self) -> (r: bool)
        ensures
            r == (*self == Interest::Read),
    {
        match self {
            Interest::Read => true,
            Interest::Write => false,
        }
    }

    /// True exactly for the write direction.
    pub fn is_write(&self) -> (r: bool)
        ensures
            r == (*self == Interest::Write),
    {
        match self {
            Interest::Read => false,
            Interest::Write => true,
        }
    }
}

/// A reference to the registration of an evented handle in a poller.
#[derive(Clone, Copy, Debug, PartialEq, Eq, Structural)]
pub struct EventedHandle {
    /// The key of the registration.
    pub token: u64,
}

/// A registration that the poller has not confirmed yet.
#[derive(Debug, PartialEq, Eq, Structural)]
pub struct Register {
    /// Names the request among those that are pending.
    pub token: u64,
}

/// The directions in which a handle was found ready.
#[derive(Clone, Copy, Debug, PartialEq, Eq, Structural)]
pub struct Ready {
    pub readable: bool,
    pub writable: bool,
}

impl Ready {
    /// Whether the handle is ready in the direction `interest`.
    pub open spec fn spec_has(self, interest: Interest) -> bool {
        match interest {
            Interest::Read => self.readable,
            Interest::Write => self.writable,
        }
    }

    /// Whether the handle is ready in the direction `interest`.
    #[verifier::when_used_as_spec(spec_has)]
    pub fn has(self, interest: Interest) -> (r: bool)
        ensures
            r == self.spec_has(interest),
    {
        match interest {
            Interest::Read => self.readable,
            Interest::Write => self.writable,
        }
    }
}

/// What the poller keeps of an evented handle: for each direction, the
/// monitor that is armed for it, by the id of its producer.
#[derive(Clone, Copy, Debug, PartialEq, Eq, Structural)]
pub struct Registration {
    pub read_waker: Option<u64>,
    pub write_waker: Option<u64>,
}

impl Registration {
    /// The monitor armed for `interest`, if any.
    pub open spec fn waker(self, interest: Interest) -> Option<u64> {
        match interest {
            Interest::Read => self.read_waker,
            Interest::Write => self.write_waker,
        }
    }

    /// The same registration with the monitor of `interest` set to `w`.
    pub open spec fn with_waker(self, interest: Interest, w: Option<u64>) -> Registration {
        match interest {
            Interest::Read => Registration { read_waker: w, ..self },
            Interest::Write => Registration { write_waker: w, ..self },
        }
    }

    /// The registration after the handle was found ready as `ready` says:
    /// the monitors of the ready directions are fulfilled and gone.
    pub open spec fn fired(self, ready: Ready) -> Registration {
        Registration {
            read_waker: if ready.readable {
                None
            } else {
                self.read_waker
            },
            write_waker: if ready.writable {
                None
            } else {
                self.write_waker
            },
        }
    }

    /// The monitors that are fulfilled when the handle is found ready as
    /// `ready` says: that of reading first.
    pub open spec fn fulfilled(self, ready: Ready) -> Seq<u64> {
        let read = match self.read_waker {
            Some(p) if ready.readable => seq![p],
            _ => Seq::empty(),
        };
        let write = match self.write_waker {
            Some(p) if ready.writable => seq![p],
            _ => Seq::empty(),
        };
        read + write
    }
}

/// Why the poller refused a request.
#[derive(Clone, Copy, Debug, PartialEq, Eq, Structural)]
pub enum PollerError {
    /// No handle is registered under the token.
    NotRegistered,
    /// A monitor is armed for the handle and direction already.
    Occupied,
    /// The poller has handed out every token it has.
    Exhausted,
}

/// The state of a poller.
pub struct PollerView {
    /// The registered handles, by token.
    pub registrations: Map<u64, Registration>,
    /// The token that the next handle will get.
    pub next_token: u64,
}

impl PollerView {
    /// No token is handed out twice.
    pub open spec fn wf(self) -> bool {
        forall|token: u64| #[trigger]
            self.registrations.contains_key(token) ==> token < self.next_token
    }

    /// The monitor that is armed for `token` and `interest`, if any.
    pub open spec fn armed(self, token: u64, interest: Interest) -> Option<u64> {
        if self.registrations.contains_key(token) {
            self.registrations[token].waker(interest)
        } else {
            None
        }
    }

    /// The poller after a handle was registered under the next token.
    pub open spec fn register(self) -> PollerView {
        if self.next_token == u64::MAX {
            self
        } else {
            PollerView {
                registrations: self.registrations.insert(
                    self.next_token,
                    Registration { read_waker: None, write_waker: None },
                ),
                next_token: (self.next_token + 1) as u64,
            }
        }
    }

    /// The poller after the handle of `token` was deregistered.
    pub open spec fn deregister(self, token: u64) -> PollerView {
        PollerView { registrations: self.registrations.remove(token), ..self }
    }

    /// What stands against arming a monitor for `token` and `interest`.
    pub open spec fn refusal(self, token: u64, interest: Interest) -> Option<PollerError> {
        if !self.registrations.contains_key(token) {
            Some(PollerError::NotRegistered)
        } else if self.registrations[token].waker(interest) is Some {
            Some(PollerError::Occupied)
        } else {
            None
        }
    }

    /// The poller after a request to arm the monitor of `producer` for
    /// `token` and `interest`: a free slot takes it, an armed one keeps what
    /// it has.
    pub open spec fn monitor(self, token: u64, interest: Interest, producer: u64) -> PollerView {
        if self.refusal(token, interest) is Some {
            self
        } else {
            PollerView {
                registrations: self.registrations.insert(
                    token,
                    self.registrations[token].with_waker(interest, Some(producer)),
                ),
                ..self
            }
        }
    }

    /// The poller after the handle of `token` was found ready as `ready`
    /// says.
    pub open spec fn dispatch(self, token: u64, ready: Ready) -> PollerView {
        if self.registrations.contains_key(token) {
            PollerView {
                registrations: self.registrations.insert(
                    token,
                    self.registrations[token].fired(ready),
                ),
                ..self
            }
        } else {
            self
        }
    }

    /// The monitors that are fulfilled when the handle of `token` is found
    /// ready as `ready` says.
    pub open spec fn fulfilled(self, token: u64, ready: Ready) -> Seq<u64> {
        if self.registrations.contains_key(token) {
            self.registrations[token].fulfilled(ready)
        } else {
            Seq::empty()
        }
    }

    /// The poller after the readiness events `events`, first to last.
    pub open spec fn dispatch_all(self, events: Seq<(u64, Ready)>) -> PollerView
        decreases events.len(),
    {
        if events.len() == 0 {
            self
        } else {
            self.dispatch(events[0].0, events[0].1).dispatch_all(events.drop_first())
        }
    }

    /// The monitors that `events` fulfil, in the order of the events.
    pub open spec fn fulfilled_all(self, events: Seq<(u64, Ready)>) -> Seq<u64>
        decreases events.len(),
    {
        if events.len() == 0 {
            Seq::empty()
        } else {
            self.fulfilled(events[0].0, events[0].1) + self.dispatch(
                events[0].0,
                events[0].1,
            ).fulfilled_all(events.drop_first())
        }
    }
}

/// A request in the poller's inbox.
#[derive(Clone, Copy, Debug, PartialEq, Eq, Structural)]
pub enum Command {
    /// Register a handle.
    Register,
    /// Deregister the handle of this token.
    Deregister(u64),
    /// Arm, for this token and interest, the monitor of this producer.
    Monitor(u64, Interest, u64),
    /// Stop polling.
    Shutdown,
}

/// The poller's answer to a request.
#[derive(Clone, Copy, Debug, PartialEq, Eq)]
pub enum Reply {
    /// The handle is registered, or the tokens have run out.
    Registered(Result<EventedHandle, PollerError>),
    /// The handle is deregistered; this was kept of it, if it was registered.
    Deregistered(Option<Registration>),
    /// The monitor is armed, or refused.
    Monitored(Result<(), PollerError>),
    /// The poller stops.
    Stopped,
}

impl PollerView {
    /// The poller after `command`.
    pub open spec fn handle(self, command: Command) -> PollerView {
        match command {
            Command::Register => self.register(),
            Command::Deregister(token) => self.deregister(token),
            Command::Monitor(token, interest, producer) => self.monitor(token, interest, producer),
            Command::Shutdown => self,
        }
    }

    /// The poller's answer to `command`.
    pub open spec fn reply(self, command: Command) -> Reply {
        match command {
            Command::Register => Reply::Registered(
                if self.next_token == u64::MAX {
                    Err(PollerError::Exhausted)
                } else {
                    Ok(EventedHandle { token: self.next_token })
                },
            ),
            Command::Deregister(token) => Reply::Deregistered(
                if self.registrations.contains_key(token) {
                    Some(self.registrations[token])
                } else {
                    None
                },
            ),
            Command::Monitor(token, interest, _) => Reply::Monitored(
                match self.refusal(token, interest) {
                    Some(e) => Err(e),
                    None => Ok(()),
                },
            ),
            Command::Shutdown => Reply::Stopped,
        }
    }

    /// The poller after the requests `commands`, first to last, up to the
    /// first request to stop.
    pub open spec fn handle_all(self, commands: Seq<Command>) -> PollerView
        decreases commands.len(),
    {
        if commands.len() == 0 || commands[0] is Shutdown {
            self
        } else {
            self.handle(commands[0]).handle_all(commands.drop_first())
        }
    }

    /// The poller's answers to the requests `commands`, up to the first
    /// request to stop, which is answered last.
    pub open spec fn reply_all(self, commands: Seq<Command>) -> Seq<Reply>
        decreases commands.len(),
    {
        if commands.len() == 0 {
            Seq::empty()
        } else if commands[0] is Shutdown {
            seq![Reply::Stopped]
        } else {
            seq![self.reply(commands[0])] + self.handle(commands[0]).reply_all(
                commands.drop_first(),
            )
        }
    }

    /// A request for an armed slot leaves the armed monitor where it is: a
    /// handle has at most one monitor armed for each direction, and only the
    /// handle's readiness, or its deregistration, takes it away.
    pub proof fn lemma_armed_stays(self, command: Command, token: u64, interest: Interest)
        requires
            self.wf(),
            self.armed(token, interest) is Some,
            command != Command::Deregister(token),
        ensures
            self.handle(command).armed(token, interest) == self.armed(token, interest),
    {
    }

    /// Readiness takes away the monitors of the ready directions and no
    /// others.
    pub proof fn lemma_dispatch_clears(self, at: u64, ready: Ready, token: u64, interest: Interest)
        ensures
            self.dispatch(at, ready).armed(token, interest) == if at == token && ready.has(
                interest,
            ) {
                None
            } else {
                self.armed(token, interest)
            },
    {
    }
}

impl PollerView {
    /// Registering, deregistering, arming and dispatching hand out no token
    /// twice.
    pub proof fn lemma_steps_wf(self, token: u64, interest: Interest, producer: u64, ready: Ready)
        requires
            self.wf(),
        ensures
            self.register().wf(),
            self.deregister(token).wf(),
            self.monitor(token, interest, producer).wf(),
            self.dispatch(token, ready).wf(),
    {
        let r = self.register();
        assert forall|t: u64| #[trigger] r.registrations.contains_key(t) implies t
            < r.next_token by {
            if t != self.next_token {
                assert(self.registrations.contains_key(t));
            }
        }
        let d = self.deregister(token);
        assert forall|t: u64| #[trigger] d.registrations.contains_key(t) implies t
            < d.next_token by {
            assert(self.registrations.contains_key(t));
        }
        let m = self.monitor(token, interest, producer);
        assert forall|t: u64| #[trigger] m.registrations.contains_key(t) implies t
            < m.next_token by {
            assert(self.registrations.contains_key(t));
        }
        let f = self.dispatch(token, ready);
        assert forall|t: u64| #[trigger] f.registrations.contains_key(t) implies t
            < f.next_token by {
            assert(self.registrations.contains_key(t));
        }
    }
}

/// The registrations of a poller's evented handles.
pub struct Poller {
    registrations: HashMap<u64, Registration>,
    next_token: u64,
}

impl View for Poller {
    type V = PollerView;

    closed spec fn view(&self) -> PollerView {
        PollerView { registrations: self.registrations@, next_token: self.next_token }
    }
}

impl Poller {
    /// A poller without registrations.
    pub fn new() -> (p: Poller)
        ensures
            p@.wf(),
            p@.registrations == Map::<u64, Registration>::empty(),
            p@.next_token == 0,
    {
        Poller { registrations: HashMap::new(), next_token: 0 }
    }

    /// The registration under `token`, if there is one.
    pub fn registration(&self, token: u64) -> (r: Option<Registration>)
        ensures
            r == if self@.registrations.contains_key(token) {
                Some(self@.registrations[token])
            } else {
                None
            },
    {
        match self.registrations.get(&token) {
            Some(r) => Some(*r),
            None => None,
        }
    }

    /// Registers a handle under the next token, with no monitor armed.
    pub fn register(&mut self) -> (r: Result<EventedHandle, PollerError>)
        requires
            old(self)@.wf(),
        ensures
            final(self)@.wf(),
            final(self)@ == old(self)@.register(),
            r == if old(self)@.next_token == u64::MAX {
                Err::<EventedHandle, PollerError>(PollerError::Exhausted)
            } else {
                Ok(EventedHandle { token: old(self)@.next_token })
            },
    {
        proof {
            self@.lemma_steps_wf(0, Interest::Read, 0, Ready { readable: false, writable: false });
        }
        if self.next_token == u64::MAX {
            return Err(PollerError::Exhausted);
        }
        let token: u64 = self.next_token;
        self.registrations.insert(token, Registration { read_waker: None, write_waker: None });
        self.next_token = token + 1;
        Ok(EventedHandle { token })
    }

    /// Deregisters the handle of `token`. Returns what was kept of it: the
    /// monitors that were armed are dropped unfulfilled.
    pub fn deregister(&mut self, token: u64) -> (r: Option<Registration>)
        requires
            old(self)@.wf(),
        ensures
            final(self)@.wf(),
            final(self)@ == old(self)@.deregister(token),
            r == if old(self)@.registrations.contains_key(token) {
                Some(old(self)@.registrations[token])
            } else {
                None
            },
    {
        proof {
            self@.lemma_steps_wf(token, Interest::Read, 0, Ready { readable: false, writable: false });
        }
        self.registrations.remove(&token)
    }

    /// Arms the monitor of `producer` for `token` and `interest`. A slot
    /// holds one monitor: a request for an armed slot is refused and changes
    /// nothing.
    pub fn monitor(&mut self, token: u64, interest: Interest, producer: u64) -> (r: Result<
        (),
        PollerError,
    >)
        requires
            old(self)@.wf(),
        ensures
            final(self)@.wf(),
            final(self)@ == old(self)@.monitor(token, interest, producer),
            r == match old(self)@.refusal(token, interest) {
                Some(e) => Err::<(), PollerError>(e),
                None => Ok(()),
            },
            r is Ok ==> final(self)@.armed(token, interest) == Some(producer),
    {
        proof {
            self@.lemma_steps_wf(token, interest, producer, Ready { readable: false, writable: false });
        }
        let registration: Registration = match self.registrations.get(&token) {
            Some(r) => *r,
            None => {
                return Err(PollerError::NotRegistered);
            },
        };
        match interest {
            Interest::Read => {
                if registration.read_waker.is_some() {
                    return Err(PollerError::Occupied);
                }
                self.registrations.insert(
                    token,
                    Registration { read_waker: Some(producer), write_waker: registration.write_waker },
                );
            },
            Interest::Write => {
                if registration.write_waker.is_some() {
                    return Err(PollerError::Occupied);
                }
                self.registrations.insert(
                    token,
                    Registration { read_waker: registration.read_waker, write_waker: Some(producer) },
                );
            },
        }
        Ok(())
    }

    /// The handle of `token` was found ready as `ready` says: the monitors
    /// armed for the ready directions are returned, to be fulfilled, and
    /// their slots are free again.
    pub fn dispatch(&mut self, token: u64, ready: Ready) -> (fulfilled: Vec<u64>)
        requires
            old(self)@.wf(),
        ensures
            final(self)@.wf(),
            final(self)@ == old(self)@.dispatch(token, ready),
            fulfilled@ == old(self)@.fulfilled(token, ready),
    {
        proof {
            self@.lemma_steps_wf(token, Interest::Read, 0, ready);
        }
        let mut fulfilled: Vec<u64> = Vec::new();
        let registration: Registration = match self.registrations.get(&token) {
            Some(r) => *r,
            None => {
                return fulfilled;
            },
        };
        let mut after: Registration = registration;
        if ready.readable {
            match registration.read_waker {
                Some(p) => {
                    fulfilled.push(p);
                },
                None => {},
            }
            after.read_waker = None;
        }
        if ready.writable {
            match registration.write_waker {
                Some(p) => {
                    fulfilled.push(p);
                },
                None => {},
            }
            after.write_waker = None;
        }
        self.registrations.insert(token, after);
        assert(fulfilled@ =~= old(self)@.fulfilled(token, ready));
        fulfilled
    }

    /// The readiness source returned `events`: every monitor that they
    /// fulfil is returned, in the order of the events, and its slot is free
    /// again.
    pub fn dispatch_all(&mut self, events: &Vec<(u64, Ready)>) -> (fulfilled: Vec<u64>)
        requires
            old(self)@.wf(),
        ensures
            final(self)@.wf(),
            final(self)@ == old(self)@.dispatch_all(events@),
            fulfilled@ == old(self)@.fulfilled_all(events@),
    {
        let mut fulfilled: Vec<u64> = Vec::new();
        let mut i: usize = 0;
        assert(events@.subrange(0, events@.len() as int) =~= events@);
        while i < events.len()
            invariant
                i <= events.len(),
                self@.wf(),
                self@.dispatch_all(events@.subrange(i as int, events@.len() as int)) == old(
                    self,
                )@.dispatch_all(events@),
                fulfilled@ + self@.fulfilled_all(events@.subrange(i as int, events@.len() as int))
                    == old(self)@.fulfilled_all(events@),
            decreases events.len() - i,
        {
            let ghost before = self@;
            let ghost rest = events@.subrange(i as int, events@.len() as int);
            let ghost done = fulfilled@;
            let (token, ready) = events[i];
            let mut now: Vec<u64> = self.dispatch(token, ready);
            fulfilled.append(&mut now);
            i += 1;
            proof {
                assert(rest[0] == events@[i - 1]);
                assert(rest.drop_first() =~= events@.subrange(i as int, events@.len() as int));
                assert(fulfilled@ + self@.fulfilled_all(rest.drop_first()) =~= done
                    + before.fulfilled_all(rest));
            }
        }
        assert(fulfilled@ =~= fulfilled@ + Seq::<u64>::empty());
        fulfilled
    }

    /// Serves one request from the inbox.
    pub fn handle(&mut self, command: Command) -> (reply: Reply)
        requires
            old(self)@.wf(),
        ensures
            final(self)@.wf(),
            final(self)@ == old(self)@.handle(command),
            reply == old(self)@.reply(command),
    {
        match command {
            Command::Register => Reply::Registered(self.register()),
            Command::Deregister(token) => Reply::Deregistered(self.deregister(token)),
            Command::Monitor(token, interest, producer) => Reply::Monitored(
                self.monitor(token, interest, producer),
            ),
            Command::Shutdown => Reply::Stopped,
        }
    }

    /// Serves the requests of the inbox, first to last, and returns the
    /// answers. A request to stop ends the serving: it is answered last, and
    /// what follows it is not served.
    pub fn drain(&mut self, commands: &Vec<Command>) -> (replies: Vec<Reply>)
        requires
            old(self)@.wf(),
        ensures
            final(self)@.wf(),
            final(self)@ == old(self)@.handle_all(commands@),
            replies@ == old(self)@.reply_all(commands@),
    {
        let mut replies: Vec<Reply> = Vec::new();
        let mut i: usize = 0;
        assert(commands@.subrange(0, commands@.len() as int) =~= commands@);
        while i < commands.len()
            invariant
                i <= commands.len(),
                self@.wf(),
                self@.handle_all(commands@.subrange(i as int, commands@.len() as int)) == old(
                    self,
                )@.handle_all(commands@),
                replies@ + self@.reply_all(commands@.subrange(i as int, commands@.len() as int))
                    == old(self)@.reply_all(commands@),
            decreases commands.len() - i,
        {
            let ghost before = self@;
            let ghost rest = commands@.subrange(i as int, commands@.len() as int);
            let ghost done = replies@;
            let command: Command = commands[i];
            assert(rest[0] == command);
            let reply: Reply = self.handle(command);
            replies.push(reply);
            match command {
                Command::Shutdown => {
                    assert(replies@ =~= done + before.reply_all(rest));
                    return replies;
                },
                _ => {},
            }
            i += 1;
            proof {
                assert(rest.drop_first() =~= commands@.subrange(i as int, commands@.len() as int));
                assert(replies@ + self@.reply_all(rest.drop_first()) =~= done + before.reply_all(
                    rest,
                ));
            }
        }
        assert(replies@ =~= replies@ + Seq::<Reply>::empty());
        replies
    }
}

/// The number of sockets that share one registered handle. The handle is
/// deregistered when the last of them is dropped.
pub struct SharedHandle {
    handle: EventedHandle,
    holders: usize,
}

/// The requests to deregister that `drops` drops of a socket bring about,
/// when `holders` sockets share the handle at first: one, with the drop of
/// the last holder.
pub open spec fn deregistrations(holders: nat, drops: nat) -> nat
    decreases drops,
{
    if drops == 0 {
        0
    } else if holders == 0 {
        deregistrations(0, (drops - 1) as nat)
    } else if holders == 1 {
        1 + deregistrations(0, (drops - 1) as nat)
    } else {
        deregistrations((holders - 1) as nat, (drops - 1) as nat)
    }
}

/// Dropping every socket that shares a handle deregisters the handle exactly
/// once; dropping fewer does not deregister it.
pub proof fn lemma_deregistered_once(holders: nat, drops: nat)
    ensures
        deregistrations(holders, drops) == if 0 < holders <= drops {
            1nat
        } else {
            0nat
        },
    decreases drops,
{
    if drops > 0 {
        if holders == 0 {
            lemma_deregistered_once(0, (drops - 1) as nat);
        } else if holders == 1 {
            lemma_deregistered_once(0, (drops - 1) as nat);
        } else {
            lemma_deregistered_once((holders - 1) as nat, (drops - 1) as nat);
        }
    }
}

impl SharedHandle {
    /// The registration that is shared.
    pub closed spec fn handle(&self) -> EventedHandle {
        self.handle
    }

    /// The number of sockets that hold the handle.
    pub closed spec fn holders(&self) -> nat {
        self.holders as nat
    }

    /// A handle that one socket holds.
    pub fn new(handle: EventedHandle) -> (s: SharedHandle)
        ensures
            s.handle() == handle,
            s.holders() == 1,
    {
        SharedHandle { handle, holders: 1 }
    }

    /// The number of sockets that hold the handle.
    pub fn count(&self) -> (n: usize)
        ensures
            n == self.holders(),
    {
        self.holders
    }

    /// A socket that holds the handle was cloned. Tells whether the clone
    /// was counted: a handle that nobody holds any more takes no holder, and
    /// the count does not go beyond `usize::MAX`.
    pub fn retain(&mut self) -> (counted: bool)
        ensures
            final(self).handle() == old(self).handle(),
            counted == (0 < old(self).holders() < usize::MAX),
            final(self).holders() == if counted {
                old(self).holders() + 1
            } else {
                old(self).holders()
            },
    {
        if self.holders == 0 || self.holders == usize::MAX {
            false
        } else {
            self.holders = self.holders + 1;
            true
        }
    }

    /// A socket that holds the handle was dropped. With the last holder the
    /// handle goes: the request to deregister it is returned, once.
    pub fn release(&mut self) -> (r: Option<Command>)
        ensures
            final(self).handle() == old(self).handle(),
            final(self).holders() == if old(self).holders() == 0 {
                0
            } else {
                old(self).holders() - 1
            },
            r == if old(self).holders() == 1 {
                Some(Command::Deregister(old(self).handle().token))
            } else {
                None
            },
            (if r is Some {
                1nat
            } else {
                0nat
            }) == deregistrations(old(self).holders(), 1),
    {
        proof {
            lemma_deregistered_once(self.holders as nat, 1);
        }
        if self.holders == 0 {
            None
        } else {
            self.holders = self.holders - 1;
            if self.holders == 0 {
                Some(Command::Deregister(self.handle.token))
            } else {
                None
            }
        }
    }
}

} // verus!
