//! The timer wheel: an ordered set of deadlines, each bound to the monitor
//! that is fulfilled once the deadline has passed.
//!
//! Time is a count of ticks on a monotonic clock that the caller reads.

use splay_tree::SplaySet;
use vstd::prelude::*;

verus! {

#[verifier::external_type_specification]
#[verifier::external_body]
#[verifier::reject_recursive_types(T)]
pub struct ExSplaySet<T>(SplaySet<T>);

/// The `(deadline, id)` pairs that a splay set holds.
pub uninterp spec fn held(set: &SplaySet<(u64, u64)>) -> Set<(u64, u64)>;

/// The order of pairs: by deadline first, then by id.
pub open spec fn pair_le(a: (u64, u64), b: (u64, u64)) -> bool {
    a.0 < b.0 || (a.0 == b.0 && a.1 <= b.1)
}

/// Strict version of [`pair_le`].
pub open spec fn pair_lt(a: (u64, u64), b: (u64, u64)) -> bool {
    a.0 < b.0 || (a.0 == b.0 && a.1 < b.1)
}

/// `m` belongs to `s` and no member of `s` comes before it.
pub open spec fn is_least(s: Set<(u64, u64)>, m: (u64, u64)) -> bool {
    &&& s.contains(m)
    &&& forall|e: (u64, u64)| s.contains(e) ==> pair_le(m, e)
}

/// Some pair of `s` is due at `d`, and none is due before.
pub open spec fn is_earliest(s: Set<(u64, u64)>, d: u64) -> bool {
    &&& exists|id: u64| s.contains((d, id))
    &&& forall|e: (u64, u64)| s.contains(e) ==> d <= e.0
}

/// The timers of `s` that are due at tick `now`: those whose deadline is not
/// after it.
pub open spec fn due(s: Set<(u64, u64)>, now: u64) -> Set<(u64, u64)> {
    s.filter(|e: (u64, u64)| e.0 <= now)
}

/// The timers of `s` that are not yet due at tick `now`.
pub open spec fn pending(s: Set<(u64, u64)>, now: u64) -> Set<(u64, u64)> {
    s.filter(|e: (u64, u64)| e.0 > now)
}

/// How long the poller may sleep at tick `now` when the earliest deadline is
/// `earliest`: until then, and not at all if it has passed.
pub open spec fn spec_timeout(now: u64, earliest: u64) -> u64 {
    if earliest > now {
        (earliest - now) as u64
    } else {
        0
    }
}

/// A timer that is set at tick `now` for `duration` ticks is due from tick
/// `now + duration` on, and at no tick before.
pub proof fn lemma_sleep_is_due_on_time(s: Set<(u64, u64)>, now: u64, duration: u64, id: u64, t: u64)
    requires
        now + duration <= u64::MAX,
    ensures
        due(s.insert(((now + duration) as u64, id)), t).contains(((now + duration) as u64, id))
            <==> t >= now + duration,
        pending(s.insert(((now + duration) as u64, id)), t).contains(
            ((now + duration) as u64, id),
        ) <==> t < now + duration,
{
}

/// The most pairs a splay set can take: its nodes are indexed by `u32`, and
/// the largest index is kept as the null link.
pub const MAX_ENTRIES: usize = 0xFFFF_FFFF;

/// `SplaySet::new`: the new set holds nothing.
#[verifier::external_body]
fn set_new() -> (s: SplaySet<(u64, u64)>)
    ensures
        held(&s) == Set::<(u64, u64)>::empty(),
{
    SplaySet::new()
}

/// `SplaySet::len`: the number of pairs held.
#[verifier::external_body]
fn set_len(s: &SplaySet<(u64, u64)>) -> (n: usize)
    requires
        held(s).finite(),
    ensures
        n == held(s).len(),
{
    s.len()
}

/// `SplaySet::insert`: the pair is held afterwards, nothing else changes, and
/// the result tells whether it was absent before. The tree panics when a new
/// node would get the null index, so the set must be below [`MAX_ENTRIES`].
#[verifier::external_body]
fn set_insert(s: &mut SplaySet<(u64, u64)>, item: (u64, u64)) -> (fresh: bool)
    requires
        held(old(s)).finite(),
        held(old(s)).len() < MAX_ENTRIES,
    ensures
        held(final(s)) == held(old(s)).insert(item),
        fresh == !held(old(s)).contains(item),
{
    s.insert(item)
}

/// `SplaySet::smallest_immut`: the least pair held, if any.
#[verifier::external_body]
fn set_smallest(s: &SplaySet<(u64, u64)>) -> (r: Option<(u64, u64)>)
    ensures
        match r {
            Some(m) => is_least(held(s), m),
            None => held(s) == Set::<(u64, u64)>::empty(),
        },
{
    s.smallest_immut().copied()
}

/// `SplaySet::take_smallest`: removes and returns the least pair held, if any.
#[verifier::external_body]
fn set_take_smallest(s: &mut SplaySet<(u64, u64)>) -> (r: Option<(u64, u64)>)
    ensures
        match r {
            Some(m) => is_least(held(old(s)), m) && held(final(s)) == held(old(s)).remove(m),
            None => held(old(s)) == Set::<(u64, u64)>::empty() && held(final(s)) == held(old(s)),
        },
{
    s.take_smallest()
}

/// The state of a timer wheel.
pub struct WheelView {
    /// The pending `(deadline, id)` pairs.
    pub timers: Set<(u64, u64)>,
    /// The id that the next timer will get.
    pub next_id: u64,
}

impl WheelView {
    /// The pending timers are finitely many, and the id of each has been
    /// handed out already.
    pub open spec fn wf(self) -> bool {
        &&& self.timers.finite()
        &&& forall|e: (u64, u64)| self.timers.contains(e) ==> e.1 < self.next_id
    }
}

/// Why a timer could not be registered.
#[derive(Clone, Copy, Debug, PartialEq, Eq, Structural)]
pub enum TimerError {
    /// The deadline lies beyond the last tick of the clock.
    Overflow,
    /// The wheel holds as many timers as it can, or has run out of ids.
    Full,
}

/// An ordered set of pending `(deadline, id)` pairs.
pub struct TimerWheel {
    queue: SplaySet<(u64, u64)>,
    next_id: u64,
}

impl View for TimerWheel {
    type V = WheelView;

    closed spec fn view(&self) -> WheelView {
        WheelView { timers: held(&self.queue), next_id: self.next_id }
    }
}

impl TimerWheel {
    /// An empty wheel.
    pub fn new() -> (w: TimerWheel)
        ensures
            w@.wf(),
            w@.timers == Set::<(u64, u64)>::empty(),
            w@.next_id == 0,
    {
        TimerWheel { queue: set_new(), next_id: 0 }
    }

    /// The number of pending timers.
    pub fn len(&self) -> (n: usize)
        requires
            self@.wf(),
        ensures
            n == self@.timers.len(),
    {
        set_len(&self.queue)
    }

    /// Registers a timer that is due at tick `instant` and returns its id.
    pub fn deadline(&mut self, instant: u64) -> (r: Result<u64, TimerError>)
        requires
            old(self)@.wf(),
        ensures
            final(self)@.wf(),
            r.is_err() <==> (old(self)@.timers.len() >= MAX_ENTRIES || old(self)@.next_id == u64::MAX),
            match r {
                Ok(id) => {
                    &&& id == old(self)@.next_id
                    &&& final(self)@.next_id == id + 1
                    &&& final(self)@.timers == old(self)@.timers.insert((instant, id))
                    &&& !old(self)@.timers.contains((instant, id))
                },
                Err(e) => {
                    &&& e == TimerError::Full
                    &&& final(self)@.timers == old(self)@.timers
                    &&& final(self)@.next_id == old(self)@.next_id
                },
            },
    {
        if set_len(&self.queue) >= MAX_ENTRIES || self.next_id == u64::MAX {
            return Err(TimerError::Full);
        }
        let id: u64 = self.next_id;
        let _ = set_insert(&mut self.queue, (instant, id));
        self.next_id = id + 1;
        Ok(id)
    }

    /// Registers a timer that is due `duration` ticks after `now`.
    pub fn sleep(&mut self, now: u64, duration: u64) -> (r: Result<u64, TimerError>)
        requires
            old(self)@.wf(),
        ensures
            final(self)@.wf(),
            match r {
                Ok(id) => {
                    &&& now + duration <= u64::MAX
                    &&& old(self)@.timers.len() < MAX_ENTRIES
                    &&& id == old(self)@.next_id
                    &&& final(self)@.next_id == id + 1
                    &&& final(self)@.timers == old(self)@.timers.insert(((now + duration) as u64, id))
                },
                Err(e) => {
                    &&& final(self)@.timers == old(self)@.timers
                    &&& final(self)@.next_id == old(self)@.next_id
                    &&& e == TimerError::Overflow <==> now + duration > u64::MAX
                    &&& e == TimerError::Full ==> (old(self)@.timers.len() >= MAX_ENTRIES
                        || old(self)@.next_id == u64::MAX)
                },
            },
            r.is_err() <==> (now + duration > u64::MAX || old(self)@.timers.len() >= MAX_ENTRIES
                || old(self)@.next_id == u64::MAX),
    {
        match now.checked_add(duration) {
            Some(instant) => self.deadline(instant),
            None => Err(TimerError::Overflow),
        }
    }

    /// The earliest pending deadline: the poller may sleep no longer than
    /// until then.
    pub fn next_deadline(&self) -> (r: Option<u64>)
        requires
            self@.wf(),
        ensures
            r is None <==> self@.timers == Set::<(u64, u64)>::empty(),
            r matches Some(d) ==> is_earliest(self@.timers, d),
    {
        match set_smallest(&self.queue) {
            Some(m) => {
                let d: u64 = m.0;
                assert(m == (d, m.1));
                assert(self@.timers.contains((d, m.1)));
                assert forall|e: (u64, u64)| self@.timers.contains(e) implies d <= e.0 by {
                    assert(pair_le(m, e));
                }
                assert(is_earliest(self@.timers, d));
                Some(d)
            },
            None => None,
        }
    }

    /// How long the poller may sleep at tick `now`: until the earliest
    /// deadline, not at all if that has passed, and without bound (`None`)
    /// if no timer is pending.
    pub fn timeout(&self, now: u64) -> (r: Option<u64>)
        requires
            self@.wf(),
        ensures
            r is None <==> self@.timers == Set::<(u64, u64)>::empty(),
            r matches Some(t) ==> exists|d: u64| is_earliest(self@.timers, d) && t == spec_timeout(now, d),
    {
        match self.next_deadline() {
            Some(d) => {
                let t: u64 = if d > now {
                    d - now
                } else {
                    0
                };
                assert(is_earliest(self@.timers, d) && t == spec_timeout(now, d));
                Some(t)
            },
            None => None,
        }
    }

    /// Removes every timer whose deadline is not after `now` and returns
    /// them, earliest first. Timers that are not yet due stay.
    pub fn fire_due(&mut self, now: u64) -> (fired: Vec<(u64, u64)>)
        requires
            old(self)@.wf(),
        ensures
            final(self)@.wf(),
            final(self)@.next_id == old(self)@.next_id,
            final(self)@.timers == pending(old(self)@.timers, now),
            forall|e: (u64, u64)| fired@.contains(e) <==> due(old(self)@.timers, now).contains(e),
            forall|i: int, j: int| 0 <= i < j < fired.len() ==> pair_lt(fired[i], fired[j]),
    {
        let mut fired: Vec<(u64, u64)> = Vec::new();
        loop
            invariant
                self@.wf(),
                self@.next_id == old(self)@.next_id,
                forall|e: (u64, u64)| self@.timers.contains(e) ==> old(self)@.timers.contains(e),
                forall|e: (u64, u64)| fired@.contains(e) ==> old(self)@.timers.contains(e),
                forall|e: (u64, u64)|
                    old(self)@.timers.contains(e) ==> self@.timers.contains(e) || fired@.contains(e),
                forall|i: int| 0 <= i < fired.len() ==> (#[trigger] fired[i]).0 <= now,
                forall|i: int, e: (u64, u64)|
                    #![trigger fired[i], self@.timers.contains(e)]
                    0 <= i < fired.len() && self@.timers.contains(e) ==> pair_lt(fired[i], e),
                forall|i: int, j: int| 0 <= i < j < fired.len() ==> pair_lt(fired[i], fired[j]),
            ensures
                forall|e: (u64, u64)| self@.timers.contains(e) ==> e.0 > now,
            decreases self@.timers.len(),
        {
            let peek: Option<(u64, u64)> = set_smallest(&self.queue);
            let due: bool = match peek {
                Some(m) => m.0 <= now,
                None => false,
            };
            if !due {
                assert forall|e: (u64, u64)| self@.timers.contains(e) implies e.0 > now by {
                    assert(pair_le(peek->0, e));
                }
                break ;
            }
            let ghost before = self@.timers;
            let ghost fired_before = fired@;
            let taken: Option<(u64, u64)> = set_take_smallest(&mut self.queue);
            assert(before.contains(peek->0));
            assert(taken is Some);
            let m: (u64, u64) = match taken {
                Some(m) => m,
                None => (0, 0),
            };
            assert(pair_le(peek->0, m) && pair_le(m, peek->0));
            fired.push(m);
            proof {
                assert(fired@ == fired_before.push(m));
                assert forall|e: (u64, u64)| fired@.contains(e) implies old(self)@.timers.contains(e) by {
                    let i = choose|i: int| 0 <= i < fired@.len() && fired@[i] == e;
                    if i < fired_before.len() {
                        assert(fired_before[i] == e);
                        assert(fired_before.contains(e));
                    }
                }
                assert forall|e: (u64, u64)| old(self)@.timers.contains(e) implies self@.timers.contains(e)
                    || fired@.contains(e) by {
                    if fired_before.contains(e) {
                        let i = choose|i: int| 0 <= i < fired_before.len() && fired_before[i] == e;
                        assert(fired@[i] == e);
                    } else if e == m {
                        assert(fired@[fired@.len() - 1] == e);
                    }
                }
                assert forall|i: int, j: int| 0 <= i < j < fired.len() implies pair_lt(
                    fired[i],
                    fired[j],
                ) by {
                    if j == fired.len() - 1 {
                        assert(fired_before[i] == fired[i]);
                        assert(before.contains(m));
                    }
                }
            }
        }
        proof {
            assert(self@.timers =~= pending(old(self)@.timers, now)) by {
                assert forall|e: (u64, u64)| self@.timers.contains(e) implies old(self)@.timers.contains(e) by {}
                assert forall|e: (u64, u64)| old(self)@.timers.contains(e) && e.0 > now implies self@.timers.contains(e) by {
                    if fired@.contains(e) {
                        let i = choose|i: int| 0 <= i < fired@.len() && fired@[i] == e;
                        assert(fired[i].0 <= now);
                    }
                }
            }
            assert forall|e: (u64, u64)| fired@.contains(e) implies e.0 <= now by {
                let i = choose|i: int| 0 <= i < fired@.len() && fired@[i] == e;
                assert(fired[i].0 <= now);
            }
        }
        fired
    }
}

} // verus!
