//! Fibers and the scheduler that polls them.
//!
//! A scheduler belongs to one thread. It keeps its fibers by id, and a FIFO of
//! those that are ready to be polled. The polling of a task is the driver's
//! work: it takes a fiber with [`Scheduler::begin_poll`], polls the task, and
//! reports the outcome with [`Scheduler::end_poll`].

use std::collections::HashMap;
use std::collections::VecDeque;
use vstd::prelude::*;

verus! {

broadcast use vstd::std_specs::hash::group_hash_axioms;

/// The identifier of a fiber, unique within its scheduler.
pub type FiberId = u64;

/// Where a fiber stands.
#[derive(Clone, Copy, Debug, PartialEq, Eq, Structural)]
pub enum FiberState {
    /// In the ready FIFO.
    Ready,
    /// Being polled.
    Running,
    /// Being polled, and woken since the poll began.
    Woken,
    /// Waiting for a waker to fire.
    Parked,
}

/// What the scheduler keeps of a fiber.
#[derive(Clone, Copy, Debug, PartialEq, Eq, Structural)]
pub struct Fiber {
    /// Where the fiber stands.
    pub state: FiberState,
    /// Whether a monitor waits for the fiber's end.
    pub monitored: bool,
}

/// What the poll of a task reported.
#[derive(Clone, Copy, Debug, PartialEq, Eq, Structural)]
pub enum Outcome {
    /// The task yielded before its end.
    Pending,
    /// The task ran to its end.
    Finished,
    /// The task panicked.
    Panicked,
}

/// How a fiber ended, as its monitor learns it.
#[derive(Clone, Copy, Debug, PartialEq, Eq, Structural)]
pub enum Exit {
    /// The task ran to its end; the monitor gets its value.
    Completed,
    /// The task panicked; the monitor gets `Aborted`.
    Aborted,
}

/// The state of a scheduler.
pub struct SchedulerView {
    /// The fibers that have not ended.
    pub fibers: Map<u64, Fiber>,
    /// The ready FIFO, next first.
    pub ready: Seq<u64>,
    /// The fiber that is being polled.
    pub current: Option<u64>,
    /// The id that the next fiber will get.
    pub next_id: u64,
}

impl SchedulerView {
    /// A fiber is in exactly one place: in the ready FIFO (once), in the
    /// current slot, or parked. No id is handed out twice.
    pub open spec fn wf(self) -> bool {
        &&& forall|id: u64| #[trigger] self.fibers.contains_key(id) ==> id < self.next_id
        &&& self.ready.no_duplicates()
        &&& forall|id: u64| #[trigger]
            self.ready.contains(id) <==> (self.fibers.contains_key(id)
                && self.fibers[id].state is Ready)
        &&& forall|id: u64| #[trigger]
            self.fibers.contains_key(id) ==> ((self.fibers[id].state is Running
                || self.fibers[id].state is Woken) <==> self.current == Some(id))
        &&& (self.current matches Some(id) ==> self.fibers.contains_key(id))
    }

    /// A scheduler without fibers.
    pub open spec fn empty() -> SchedulerView {
        SchedulerView { fibers: Map::empty(), ready: Seq::empty(), current: None, next_id: 0 }
    }

    /// The scheduler after a task was spawned: the new fiber has the next id
    /// and stands last in the ready FIFO. Nothing changes once the ids have
    /// run out.
    pub open spec fn spawn(self, monitored: bool) -> SchedulerView {
        if self.next_id == u64::MAX {
            self
        } else {
            SchedulerView {
                fibers: self.fibers.insert(self.next_id, Fiber { state: FiberState::Ready, monitored }),
                ready: self.ready.push(self.next_id),
                current: self.current,
                next_id: (self.next_id + 1) as u64,
            }
        }
    }

    /// The scheduler after a waker of fiber `id` fired: a parked fiber goes
    /// last into the ready FIFO; one that is being polled is marked, and
    /// goes there when its poll ends. Anything else is left as it is.
    pub open spec fn wake(self, id: u64) -> SchedulerView {
        if !self.fibers.contains_key(id) {
            self
        } else {
            let fiber = self.fibers[id];
            match fiber.state {
                FiberState::Parked => SchedulerView {
                    fibers: self.fibers.insert(id, Fiber { state: FiberState::Ready, ..fiber }),
                    ready: self.ready.push(id),
                    ..self
                },
                FiberState::Running => SchedulerView {
                    fibers: self.fibers.insert(id, Fiber { state: FiberState::Woken, ..fiber }),
                    ..self
                },
                _ => self,
            }
        }
    }

    /// Whether a poll can begin: no fiber is being polled and one is ready.
    pub open spec fn can_begin(self) -> bool {
        self.current is None && self.ready.len() > 0
    }

    /// The scheduler after a poll began: the first of the ready FIFO has
    /// left it and is the current fiber.
    pub open spec fn begin_poll(self) -> SchedulerView {
        if self.can_begin() {
            let id = self.ready[0];
            SchedulerView {
                fibers: self.fibers.insert(
                    id,
                    Fiber { state: FiberState::Running, ..self.fibers[id] },
                ),
                ready: self.ready.subrange(1, self.ready.len() as int),
                current: Some(id),
                ..self
            }
        } else {
            self
        }
    }

    /// The scheduler after the poll of the current fiber ended with
    /// `outcome`: a task that has ended leaves the table; one that yielded
    /// parks, or goes last into the ready FIFO if it was woken meanwhile.
    pub open spec fn end_poll(self, outcome: Outcome) -> SchedulerView {
        match self.current {
            None => self,
            Some(id) => {
                let fiber = self.fibers[id];
                match outcome {
                    Outcome::Pending => if fiber.state is Woken {
                        SchedulerView {
                            fibers: self.fibers.insert(
                                id,
                                Fiber { state: FiberState::Ready, ..fiber },
                            ),
                            ready: self.ready.push(id),
                            current: None,
                            ..self
                        }
                    } else {
                        SchedulerView {
                            fibers: self.fibers.insert(
                                id,
                                Fiber { state: FiberState::Parked, ..fiber },
                            ),
                            current: None,
                            ..self
                        }
                    },
                    _ => SchedulerView { fibers: self.fibers.remove(id), current: None, ..self },
                }
            },
        }
    }

    /// What the monitor of the current fiber is told when its poll ends with
    /// `outcome`: nothing unless the fiber is monitored and its task ended.
    pub open spec fn exit(self, outcome: Outcome) -> Option<(u64, Exit)> {
        match self.current {
            Some(id) if self.fibers[id].monitored => match outcome {
                Outcome::Pending => None,
                Outcome::Finished => Some((id, Exit::Completed)),
                Outcome::Panicked => Some((id, Exit::Aborted)),
            },
            _ => None,
        }
    }
}

/// What a sequence without duplicates holds after `x`, which it did not
/// hold, was put last.
proof fn lemma_push_fresh(q: Seq<u64>, x: u64)
    requires
        q.no_duplicates(),
        !q.contains(x),
    ensures
        q.push(x).no_duplicates(),
        forall|y: u64| #[trigger] q.push(x).contains(y) <==> (q.contains(y) || y == x),
{
    let p = q.push(x);
    assert forall|y: u64| #[trigger] p.contains(y) <==> (q.contains(y) || y == x) by {
        if q.contains(y) {
            let i = choose|i: int| 0 <= i < q.len() && q[i] == y;
            assert(p[i] == y);
        }
        if y == x {
            assert(p[q.len() as int] == x);
        }
        if p.contains(y) {
            let i = choose|i: int| 0 <= i < p.len() && p[i] == y;
            if i < q.len() {
                assert(q[i] == y);
            }
        }
    }
    assert forall|i: int, j: int| 0 <= i < p.len() && 0 <= j < p.len() && i != j implies p[i]
        != p[j] by {
        if i < q.len() && j < q.len() {
        } else if i < q.len() {
            assert(q[i] == p[i]);
        } else if j < q.len() {
            assert(q[j] == p[j]);
        }
    }
}

/// What a sequence without duplicates holds after its first left.
proof fn lemma_drop_first(q: Seq<u64>)
    requires
        q.no_duplicates(),
        q.len() > 0,
    ensures
        q.subrange(1, q.len() as int).no_duplicates(),
        forall|y: u64| #[trigger]
            q.subrange(1, q.len() as int).contains(y) <==> (q.contains(y) && y != q[0]),
{
    let t = q.subrange(1, q.len() as int);
    assert forall|y: u64| #[trigger] t.contains(y) <==> (q.contains(y) && y != q[0]) by {
        if t.contains(y) {
            let i = choose|i: int| 0 <= i < t.len() && t[i] == y;
            assert(q[i + 1] == y);
        }
        if q.contains(y) && y != q[0] {
            let i = choose|i: int| 0 <= i < q.len() && q[i] == y;
            assert(t[i - 1] == y);
        }
    }
    assert forall|i: int, j: int| 0 <= i < t.len() && 0 <= j < t.len() && i != j implies t[i]
        != t[j] by {
        assert(t[i] == q[i + 1] && t[j] == q[j + 1]);
    }
}

impl SchedulerView {
    /// Spawning keeps every fiber in exactly one place.
    pub proof fn lemma_spawn_wf(self, monitored: bool)
        requires
            self.wf(),
        ensures
            self.spawn(monitored).wf(),
    {
        if self.next_id != u64::MAX {
            assert(!self.ready.contains(self.next_id));
            lemma_push_fresh(self.ready, self.next_id);
        }
    }

    /// Waking keeps every fiber in exactly one place: a fiber that is ready
    /// already is not queued twice, and one that is being polled is not
    /// queued at all.
    pub proof fn lemma_wake_wf(self, id: u64)
        requires
            self.wf(),
        ensures
            self.wake(id).wf(),
    {
        if self.fibers.contains_key(id) && self.fibers[id].state is Parked {
            assert(!self.ready.contains(id));
            lemma_push_fresh(self.ready, id);
        }
    }

    /// Beginning a poll keeps every fiber in exactly one place: the fiber
    /// that is polled has left the ready FIFO.
    pub proof fn lemma_begin_poll_wf(self)
        requires
            self.wf(),
        ensures
            self.begin_poll().wf(),
    {
        if self.can_begin() {
            assert(self.ready.contains(self.ready[0]));
            lemma_drop_first(self.ready);
        }
    }

    /// Ending a poll keeps every fiber in exactly one place.
    pub proof fn lemma_end_poll_wf(self, outcome: Outcome)
        requires
            self.wf(),
        ensures
            self.end_poll(outcome).wf(),
    {
        if let Some(id) = self.current {
            assert(self.fibers.contains_key(id));
            if outcome is Pending && self.fibers[id].state is Woken {
                assert(!self.ready.contains(id));
                lemma_push_fresh(self.ready, id);
            }
        }
    }
}

/// One thing that happens to a scheduler.
pub enum Op {
    /// A task is spawned, monitored or not.
    Spawn(bool),
    /// A waker of this fiber fires.
    Wake(u64),
    /// The next ready fiber is taken for polling.
    BeginPoll,
    /// The poll of the current fiber ends.
    EndPoll(Outcome),
}

impl SchedulerView {
    /// The scheduler after `op`.
    pub open spec fn step(self, op: Op) -> SchedulerView {
        match op {
            Op::Spawn(monitored) => self.spawn(monitored),
            Op::Wake(id) => self.wake(id),
            Op::BeginPoll => self.begin_poll(),
            Op::EndPoll(outcome) => self.end_poll(outcome),
        }
    }

    /// What a monitor is told at `op`, and of which fiber.
    pub open spec fn told(self, op: Op) -> Option<(u64, Exit)> {
        match op {
            Op::EndPoll(outcome) => self.exit(outcome),
            _ => None,
        }
    }

    /// The scheduler after `ops`, one after the other.
    pub open spec fn run(self, ops: Seq<Op>) -> SchedulerView
        decreases ops.len(),
    {
        if ops.len() == 0 {
            self
        } else {
            self.step(ops[0]).run(ops.drop_first())
        }
    }

    /// What the monitor of fiber `id` is told in the course of `ops`.
    pub open spec fn exits_of(self, ops: Seq<Op>, id: u64) -> Seq<Exit>
        decreases ops.len(),
    {
        if ops.len() == 0 {
            Seq::empty()
        } else {
            let rest = self.step(ops[0]).exits_of(ops.drop_first(), id);
            match self.told(ops[0]) {
                Some((fiber, exit)) if fiber == id => seq![exit] + rest,
                _ => rest,
            }
        }
    }

    /// Whatever happens, every fiber stays in exactly one place: in the
    /// ready FIFO, in the current slot, or parked. So no fiber is polled
    /// while it is being polled.
    pub proof fn lemma_step_wf(self, op: Op)
        requires
            self.wf(),
        ensures
            self.step(op).wf(),
    {
        match op {
            Op::Spawn(monitored) => self.lemma_spawn_wf(monitored),
            Op::Wake(id) => self.lemma_wake_wf(id),
            Op::BeginPoll => self.lemma_begin_poll_wf(),
            Op::EndPoll(outcome) => self.lemma_end_poll_wf(outcome),
        }
    }

    /// The same of any course of events.
    pub proof fn lemma_run_wf(self, ops: Seq<Op>)
        requires
            self.wf(),
        ensures
            self.run(ops).wf(),
        decreases ops.len(),
    {
        if ops.len() > 0 {
            self.lemma_step_wf(ops[0]);
            self.step(ops[0]).lemma_run_wf(ops.drop_first());
        }
    }

    /// While a fiber is being polled, no poll begins: the scheduler polls at
    /// most one fiber at a time, and the one it polls is not in the ready
    /// FIFO, so it cannot be taken again before its poll has ended.
    pub proof fn lemma_one_poll_at_a_time(self)
        requires
            self.wf(),
        ensures
            self.current is Some ==> self.begin_poll() == self,
            self.current matches Some(id) ==> !self.ready.contains(id),
            self.can_begin() ==> self.begin_poll().current == Some(self.ready[0])
                && !self.begin_poll().ready.contains(self.ready[0]),
    {
        if self.can_begin() {
            assert(self.ready.contains(self.ready[0]));
            lemma_drop_first(self.ready);
        }
    }

    /// The fibers that are taken for polling in the course of `ops`, first
    /// to last.
    pub open spec fn begun(self, ops: Seq<Op>) -> Seq<u64>
        decreases ops.len(),
    {
        if ops.len() == 0 {
            Seq::empty()
        } else {
            let rest = self.step(ops[0]).begun(ops.drop_first());
            if ops[0] is BeginPoll && self.can_begin() {
                seq![self.ready[0]] + rest
            } else {
                rest
            }
        }
    }

    /// A fiber in the ready FIFO is polled after finitely many polls, and
    /// none overtakes it: whatever else happens, the fiber that stands at
    /// place `i` of the FIFO is the one taken by the `i`-th poll from now.
    /// This holds of a fiber that a fiber has spawned, and of one that was
    /// woken, as of any other.
    pub proof fn lemma_ready_fiber_is_polled(self, ops: Seq<Op>, i: int)
        requires
            self.wf(),
            0 <= i < self.ready.len(),
        ensures
            self.begun(ops).len() > i ==> self.begun(ops)[i] == self.ready[i],
        decreases ops.len(),
    {
        if ops.len() > 0 {
            let next = self.step(ops[0]);
            let rest = ops.drop_first();
            self.lemma_step_wf(ops[0]);
            if ops[0] is BeginPoll && self.can_begin() {
                if i > 0 {
                    assert(next.ready[i - 1] == self.ready[i]);
                    next.lemma_ready_fiber_is_polled(rest, i - 1);
                    if self.begun(ops).len() > i {
                        assert(self.begun(ops)[i] == next.begun(rest)[i - 1]);
                    }
                }
            } else {
                assert(next.ready.len() >= self.ready.len() && next.ready[i] == self.ready[i]);
                next.lemma_ready_fiber_is_polled(rest, i);
            }
        }
    }

    /// A spawn is taken at any time, also in the course of a poll: it
    /// leaves the poll alone, and the new fiber stands last in the ready
    /// FIFO, from where it is polled like any other.
    pub proof fn lemma_spawned_is_ready(self, monitored: bool)
        requires
            self.wf(),
            self.next_id < u64::MAX,
        ensures
            self.spawn(monitored).current == self.current,
            self.spawn(monitored).ready.len() == self.ready.len() + 1,
            self.spawn(monitored).ready[self.ready.len() as int] == self.next_id,
            self.spawn(monitored).fibers.contains_key(self.next_id),
    {
    }

    /// No wake is lost: after a waker of a fiber fired, the fiber is in the
    /// ready FIFO, or it is being polled and goes into the FIFO when it
    /// yields.
    pub proof fn lemma_wake_is_not_lost(self, id: u64)
        requires
            self.wf(),
            self.fibers.contains_key(id),
        ensures
            self.wake(id).ready.contains(id) || (self.wake(id).current == Some(id)
                && self.wake(id).end_poll(Outcome::Pending).ready.contains(id)),
    {
        let woken = self.wake(id);
        self.lemma_wake_wf(id);
        match self.fibers[id].state {
            FiberState::Parked => {
                assert(woken.ready[woken.ready.len() - 1] == id);
            },
            FiberState::Ready => {
                assert(self.ready.contains(id));
            },
            _ => {
                assert(woken.fibers[id].state is Woken);
                let ended = woken.end_poll(Outcome::Pending);
                assert(ended.ready[ended.ready.len() - 1] == id);
            },
        }
    }

    /// The number of fibers that one round of the scheduler polls at most:
    /// those that are ready when the round begins, and at least one.
    pub open spec fn round_len(self) -> nat {
        if self.ready.len() == 0 {
            1
        } else {
            self.ready.len()
        }
    }

    /// A step brings no fiber into the table but a spawned one, which gets
    /// an id that was never used; it tells of no fiber but one in the table;
    /// and it keeps whether a fiber is monitored.
    pub proof fn lemma_step_keeps_ids(self, op: Op, id: u64)
        requires
            self.wf(),
            id < self.next_id,
        ensures
            id < self.step(op).next_id,
            self.step(op).fibers.contains_key(id) ==> self.fibers.contains_key(id)
                && self.step(op).fibers[id].monitored == self.fibers[id].monitored,
            self.told(op) matches Some((fiber, _)) ==> self.fibers.contains_key(fiber)
                && self.fibers[fiber].monitored && !self.step(op).fibers.contains_key(fiber),
            self.fibers.contains_key(id) && !self.step(op).fibers.contains_key(id)
                && self.fibers[id].monitored ==> (self.told(op) matches Some((fiber, _)) && fiber
                == id),
    {
        if self.can_begin() {
            assert(self.ready.contains(self.ready[0]));
        }
    }

    /// A fiber that has ended does not come back, and its monitor is told
    /// nothing more.
    pub proof fn lemma_ended_stays_ended(self, ops: Seq<Op>, id: u64)
        requires
            self.wf(),
            id < self.next_id,
            !self.fibers.contains_key(id),
        ensures
            !self.run(ops).fibers.contains_key(id),
            self.exits_of(ops, id).len() == 0,
        decreases ops.len(),
    {
        if ops.len() > 0 {
            self.lemma_step_wf(ops[0]);
            self.lemma_step_keeps_ids(ops[0], id);
            self.step(ops[0]).lemma_ended_stays_ended(ops.drop_first(), id);
        }
    }

    /// The monitor of a monitored fiber is told of the fiber's end exactly
    /// once, when the fiber leaves the table, and nothing before: whatever
    /// happens, it has been told nothing while the fiber is in the table,
    /// and exactly one thing once it is not.
    pub proof fn lemma_monitor_told_once(self, ops: Seq<Op>, id: u64)
        requires
            self.wf(),
            self.fibers.contains_key(id),
            self.fibers[id].monitored,
        ensures
            self.run(ops).fibers.contains_key(id) ==> self.exits_of(ops, id).len() == 0,
            !self.run(ops).fibers.contains_key(id) ==> self.exits_of(ops, id).len() == 1,
        decreases ops.len(),
    {
        if ops.len() > 0 {
            let next = self.step(ops[0]);
            self.lemma_step_wf(ops[0]);
            self.lemma_step_keeps_ids(ops[0], id);
            if next.fibers.contains_key(id) {
                next.lemma_monitor_told_once(ops.drop_first(), id);
            } else {
                next.lemma_ended_stays_ended(ops.drop_first(), id);
            }
        }
    }
}

/// The owner of a ready FIFO and a table of fibers.
pub struct Scheduler {
    next_id: u64,
    fibers: HashMap<u64, Fiber>,
    ready: VecDeque<u64>,
    current: Option<u64>,
}

impl View for Scheduler {
    type V = SchedulerView;

    closed spec fn view(&self) -> SchedulerView {
        SchedulerView {
            fibers: self.fibers@,
            ready: self.ready@,
            current: self.current,
            next_id: self.next_id,
        }
    }
}

impl Scheduler {
    /// A scheduler without fibers.
    pub fn new() -> (s: Scheduler)
        ensures
            s@ == SchedulerView::empty(),
            s@.wf(),
    {
        Scheduler { next_id: 0, fibers: HashMap::new(), ready: VecDeque::new(), current: None }
    }

    /// The fiber that is being polled, if any.
    pub fn current(&self) -> (r: Option<FiberId>)
        ensures
            r == self@.current,
    {
        self.current
    }

    /// What the scheduler keeps of fiber `id`, if it has not ended.
    pub fn fiber(&self, id: FiberId) -> (r: Option<Fiber>)
        ensures
            r == if self@.fibers.contains_key(id) {
                Some(self@.fibers[id])
            } else {
                None
            },
    {
        match self.fibers.get(&id) {
            Some(f) => Some(*f),
            None => None,
        }
    }

    /// The number of fibers in the ready FIFO.
    pub fn ready_len(&self) -> (n: usize)
        ensures
            n == self@.ready.len(),
    {
        self.ready.len()
    }

    /// The number of fibers that one round polls at most: those that are
    /// ready when it begins, and at least one. A fiber that becomes ready in
    /// the course of the round waits for the next.
    pub fn round_len(&self) -> (k: usize)
        ensures
            k == self@.round_len(),
    {
        let ready: usize = self.ready.len();
        if ready == 0 {
            1
        } else {
            ready
        }
    }

    /// True when no fiber is left: every task has ended.
    pub fn is_idle(&self) -> (r: bool)
        ensures
            r == (self@.fibers.len() == 0),
    {
        self.fibers.len() == 0
    }

    /// Takes a new task: its fiber gets the next id and goes last into the
    /// ready FIFO. `None` once the ids have run out.
    pub fn spawn(&mut self, monitored: bool) -> (r: Option<FiberId>)
        requires
            old(self)@.wf(),
        ensures
            final(self)@.wf(),
            final(self)@ == old(self)@.spawn(monitored),
            r == if old(self)@.next_id == u64::MAX {
                None
            } else {
                Some(old(self)@.next_id)
            },
    {
        proof {
            self@.lemma_spawn_wf(monitored);
        }
        if self.next_id == u64::MAX {
            return None;
        }
        let id: u64 = self.next_id;
        self.fibers.insert(id, Fiber { state: FiberState::Ready, monitored });
        self.ready.push_back(id);
        self.next_id = id + 1;
        Some(id)
    }

    /// A waker of fiber `id` fired. Tells whether the fiber was put into
    /// the ready FIFO by this call.
    pub fn wake(&mut self, id: FiberId) -> (queued: bool)
        requires
            old(self)@.wf(),
        ensures
            final(self)@.wf(),
            final(self)@ == old(self)@.wake(id),
            queued == (old(self)@.fibers.contains_key(id) && old(self)@.fibers[id].state is Parked),
    {
        proof {
            self@.lemma_wake_wf(id);
        }
        let fiber: Fiber = match self.fibers.get(&id) {
            Some(f) => *f,
            None => {
                return false;
            },
        };
        match fiber.state {
            FiberState::Parked => {
                self.fibers.insert(id, Fiber { state: FiberState::Ready, monitored: fiber.monitored });
                self.ready.push_back(id);
                true
            },
            FiberState::Running => {
                self.fibers.insert(id, Fiber { state: FiberState::Woken, monitored: fiber.monitored });
                false
            },
            _ => false,
        }
    }

    /// Takes the next ready fiber for polling and makes it the current one.
    /// `None` when nothing is ready, or while a fiber is being polled.
    pub fn begin_poll(&mut self) -> (r: Option<FiberId>)
        requires
            old(self)@.wf(),
        ensures
            final(self)@.wf(),
            final(self)@ == old(self)@.begin_poll(),
            r == if old(self)@.can_begin() {
                Some(old(self)@.ready[0])
            } else {
                None
            },
    {
        proof {
            self@.lemma_begin_poll_wf();
        }
        if self.current.is_some() {
            return None;
        }
        let id: u64 = match self.ready.pop_front() {
            Some(id) => id,
            None => {
                return None;
            },
        };
        assert(old(self)@.ready.contains(id));
        let monitored: bool = match self.fibers.get(&id) {
            Some(f) => f.monitored,
            None => false,
        };
        self.fibers.insert(id, Fiber { state: FiberState::Running, monitored });
        self.current = Some(id);
        Some(id)
    }

    /// The poll of the current fiber ended with `outcome`. Returns what the
    /// fiber's monitor is to be told, if anything.
    pub fn end_poll(&mut self, outcome: Outcome) -> (r: Option<(FiberId, Exit)>)
        requires
            old(self)@.wf(),
        ensures
            final(self)@.wf(),
            final(self)@ == old(self)@.end_poll(outcome),
            r == old(self)@.exit(outcome),
    {
        proof {
            self@.lemma_end_poll_wf(outcome);
        }
        let id: u64 = match self.current {
            Some(id) => id,
            None => {
                return None;
            },
        };
        self.current = None;
        let fiber: Fiber = match self.fibers.get(&id) {
            Some(f) => *f,
            None => Fiber { state: FiberState::Running, monitored: false },
        };
        match outcome {
            Outcome::Pending => {
                match fiber.state {
                    FiberState::Woken => {
                        self.fibers.insert(
                            id,
                            Fiber { state: FiberState::Ready, monitored: fiber.monitored },
                        );
                        self.ready.push_back(id);
                    },
                    _ => {
                        self.fibers.insert(
                            id,
                            Fiber { state: FiberState::Parked, monitored: fiber.monitored },
                        );
                    },
                }
                None
            },
            Outcome::Finished => {
                self.fibers.remove(&id);
                if fiber.monitored {
                    Some((id, Exit::Completed))
                } else {
                    None
                }
            },
            Outcome::Panicked => {
                self.fibers.remove(&id);
                if fiber.monitored {
                    Some((id, Exit::Aborted))
                } else {
                    None
                }
            },
        }
    }
}

} // verus!
