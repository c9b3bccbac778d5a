//! The executor that runs fibers on a pool of worker threads.
//!
//! Every worker is a scheduler with its poller. A spawned task goes to the
//! worker whose turn it is, round robin, and stays there.

use crate::error::Async;
use crate::error::Error;
use vstd::prelude::*;

verus! {

/// `num_cpus::get`: the number of logical CPUs that the process may use. Its
/// documentation promises at least one.
#[verifier::external_body]
fn logical_cpus() -> (n: usize)
    ensures
        n >= 1,
{
    num_cpus::get()
}

/// The number of workers for a machine with `cpus` logical CPUs: two for
/// each, as far as `usize` goes.
pub open spec fn spec_default_thread_count(cpus: usize) -> usize {
    if 2 * cpus <= usize::MAX {
        (2 * cpus) as usize
    } else {
        usize::MAX
    }
}

/// The number of workers for a machine with `cpus` logical CPUs.
#[verifier::when_used_as_spec(spec_default_thread_count)]
pub fn default_thread_count(cpus: usize) -> (n: usize)
    ensures
        n == spec_default_thread_count(cpus),
{
    if cpus <= usize::MAX / 2 {
        cpus * 2
    } else {
        usize::MAX
    }
}

/// `i` is the index of the first worker that has died.
pub open spec fn is_first_dead(alive: Seq<bool>, i: int) -> bool {
    &&& 0 <= i < alive.len()
    &&& !alive[i]
    &&& forall|j: int| 0 <= j < i ==> alive[j]
}

/// The worker whose turn it is after that of `turn`, among `workers`: the
/// one after it, and after the last the first.
pub open spec fn next_turn(turn: int, workers: int) -> int {
    if turn + 1 >= workers {
        0
    } else {
        turn + 1
    }
}

/// The worker whose turn it is after `spawns` fibers were placed, when it
/// was the turn of `start` before the first of them.
pub open spec fn turn_after(workers: int, start: int, spawns: nat) -> int
    decreases spawns,
{
    if spawns == 0 {
        start
    } else {
        next_turn(turn_after(workers, start, (spawns - 1) as nat), workers)
    }
}

/// Placement is round robin: counted from the making of the executor, the
/// `k`-th fiber (the first being the 0-th) goes to worker `k mod N`. No
/// worker is passed over and none is taken twice in a row of `N`.
pub proof fn lemma_round_robin(workers: int, k: nat)
    requires
        workers > 0,
    ensures
        turn_after(workers, 0, k) == (k as int) % workers,
    decreases k,
{
    if k > 0 {
        let j = (k - 1) as nat;
        lemma_round_robin(workers, j);
        let q = j as int / workers;
        let r = j as int % workers;
        vstd::arithmetic::div_mod::lemma_fundamental_div_mod(j as int, workers);
        vstd::arithmetic::div_mod::lemma_mod_pos_bound(j as int, workers);
        if r + 1 >= workers {
            assert(k == (q + 1) * workers + 0) by (nonlinear_arith)
                requires
                    j == workers * q + r,
                    r + 1 == workers,
                    k == j + 1,
            ;
            vstd::arithmetic::div_mod::lemma_fundamental_div_mod_converse(
                k as int,
                workers,
                q + 1,
                0,
            );
        } else {
            assert(k == q * workers + (r + 1)) by (nonlinear_arith)
                requires
                    j == workers * q + r,
                    k == j + 1,
            ;
            vstd::arithmetic::div_mod::lemma_fundamental_div_mod_converse(
                k as int,
                workers,
                q,
                r + 1,
            );
        }
        assert(turn_after(workers, 0, k) == next_turn(r, workers));
    } else {
        vstd::arithmetic::div_mod::lemma_fundamental_div_mod_converse(0, workers, 0, 0);
    }
}

/// The turn of the workers of one executor. There is one for an executor,
/// whoever spawns: it is not copied with the handles.
#[derive(Debug)]
pub struct Turn {
    workers: usize,
    next: usize,
}

impl Turn {
    /// The number of workers.
    pub closed spec fn workers(&self) -> int {
        self.workers as int
    }

    /// The worker that takes the next fiber.
    pub closed spec fn next(&self) -> int {
        self.next as int
    }

    /// There is a worker, and the turn is some worker's.
    pub open spec fn wf(&self) -> bool {
        0 <= self.next() < self.workers()
    }

    /// The turn of `workers` workers, the first of which is the first to
    /// take a fiber.
    pub fn new(workers: usize) -> (t: Turn)
        requires
            workers > 0,
        ensures
            t.wf(),
            t.workers() == workers,
            t.next() == 0,
    {
        Turn { workers, next: 0 }
    }

    /// The worker for a new fiber: the one whose turn it is. The turn goes
    /// to the worker after it, and from the last worker to the first.
    pub fn next_worker(&mut self) -> (worker: usize)
        requires
            old(self).wf(),
        ensures
            final(self).wf(),
            worker == old(self).next(),
            final(self).workers() == old(self).workers(),
            final(self).next() == next_turn(old(self).next(), old(self).workers()),
    {
        let worker: usize = self.next;
        if worker + 1 == self.workers {
            self.next = 0;
        } else {
            self.next = worker + 1;
        }
        worker
    }
}

/// The state of an executor.
pub struct ExecutorView {
    /// For each worker, whether it lives.
    pub alive: Seq<bool>,
    /// The number of workers among which the turn goes round.
    pub workers: int,
    /// The worker that takes the next fiber.
    pub next: int,
}

impl ExecutorView {
    /// There is a worker, the turn goes round all the workers, and it is
    /// some worker's.
    pub open spec fn wf(self) -> bool {
        &&& self.workers == self.alive.len()
        &&& 0 <= self.next < self.workers
    }

    /// The state after a fiber was placed: the turn goes to the worker
    /// after the one that got it, and from the last worker to the first.
    pub open spec fn spawned(self) -> ExecutorView {
        ExecutorView { next: next_turn(self.next, self.workers), ..self }
    }

    /// The state after `spawns` fibers were placed.
    pub open spec fn spawned_times(self, spawns: nat) -> ExecutorView
        decreases spawns,
    {
        if spawns == 0 {
            self
        } else {
            self.spawned_times((spawns - 1) as nat).spawned()
        }
    }

    /// After `k` fibers were placed by an executor that has placed none
    /// before, through whatever handles, it is the turn of worker `k mod N`:
    /// the next fiber goes there.
    pub proof fn lemma_kth_spawn(self, k: nat)
        requires
            self.wf(),
            self.next == 0,
        ensures
            self.spawned_times(k).wf(),
            self.spawned_times(k).alive == self.alive,
            self.spawned_times(k).next == (k as int) % self.workers,
        decreases k,
    {
        lemma_round_robin(self.workers, k);
        self.lemma_spawned_times(k);
    }

    /// Placing fibers moves the turn and nothing else.
    pub proof fn lemma_spawned_times(self, k: nat)
        requires
            self.wf(),
        ensures
            self.spawned_times(k).wf(),
            self.spawned_times(k).alive == self.alive,
            self.spawned_times(k).workers == self.workers,
            self.spawned_times(k).next == turn_after(self.workers, self.next, k),
        decreases k,
    {
        if k > 0 {
            self.lemma_spawned_times((k - 1) as nat);
        }
    }

    /// What one round of the executor returns: the fatal error that names
    /// the first dead worker, if a worker has died.
    pub open spec fn run_once(self) -> Result<(), Error> {
        if exists|i: int| is_first_dead(self.alive, i) {
            Err(Error::WorkerDead((choose|i: int| is_first_dead(self.alive, i)) as usize))
        } else {
            Ok(())
        }
    }
}

impl ExecutorView {
    /// A round fails with the index of the first dead worker, and with no
    /// other; it succeeds when every worker lives.
    pub proof fn lemma_run_once(self, i: int)
        ensures
            is_first_dead(self.alive, i) ==> self.run_once() == Err::<(), Error>(
                Error::WorkerDead(i as usize),
            ),
            (forall|j: int| 0 <= j < self.alive.len() ==> self.alive[j]) ==> self.run_once() is Ok,
    {
        if is_first_dead(self.alive, i) {
            let c = choose|c: int| is_first_dead(self.alive, c);
            if c < i {
                assert(self.alive[c]);
            } else if i < c {
                assert(self.alive[i]);
            }
        }
        if forall|j: int| 0 <= j < self.alive.len() ==> self.alive[j] {
            assert forall|c: int| !is_first_dead(self.alive, c) by {
                if 0 <= c < self.alive.len() {
                    assert(self.alive[c]);
                }
            }
        }
    }
}

/// What [`ThreadPoolExecutor::run`] decides after a poll of the future that
/// it runs.
#[derive(Debug, PartialEq, Eq)]
pub enum RunStep<T> {
    /// The run ends with this.
    Done(Result<T, Error>),
    /// The future is to be polled again.
    Again,
}

/// An executor that runs spawned fibers on pooled threads.
#[derive(Debug)]
pub struct ThreadPoolExecutor {
    alive: Vec<bool>,
    turn: Turn,
}

impl View for ThreadPoolExecutor {
    type V = ExecutorView;

    closed spec fn view(&self) -> ExecutorView {
        ExecutorView { alive: self.alive@, workers: self.turn.workers(), next: self.turn.next() }
    }
}

/// A handle of a [`ThreadPoolExecutor`]: it hands fibers to the workers of
/// the executor. Handles are cloned freely; the turn stays with the
/// executor, and every handle spawns by it.
#[derive(Debug)]
pub struct ThreadPoolExecutorHandle {
    workers: usize,
}

impl ThreadPoolExecutorHandle {
    /// The number of workers of the executor.
    pub closed spec fn workers(&self) -> int {
        self.workers as int
    }

    /// Picks the worker for a new fiber: the one whose turn it is in
    /// `executor`, whichever handle is asked, and whatever was spawned
    /// through it before.
    pub fn spawn_boxed(&self, executor: &mut ThreadPoolExecutor) -> (worker: usize)
        requires
            old(executor)@.wf(),
            self.workers() == old(executor)@.workers,
        ensures
            final(executor)@.wf(),
            worker == old(executor)@.next,
            final(executor)@ == old(executor)@.spawned(),
    {
        executor.turn.next_worker()
    }
}

impl Clone for ThreadPoolExecutorHandle {
    fn clone(&self) -> (r: Self)
        ensures
            r.workers() == self.workers(),
    {
        ThreadPoolExecutorHandle { workers: self.workers }
    }
}

impl ThreadPoolExecutor {
    /// An executor with the default number of workers: two for each logical
    /// CPU of the machine.
    pub fn new() -> (r: Result<ThreadPoolExecutor, Error>)
        ensures
            r matches Ok(e) && e@.wf() && e@.next == 0 && (forall|i: int|
                0 <= i < e@.alive.len() ==> e@.alive[i]) && (exists|cpus: usize|
                cpus >= 1 && e@.workers == spec_default_thread_count(cpus)),
    {
        let cpus: usize = logical_cpus();
        let r = ThreadPoolExecutor::with_thread_count(default_thread_count(cpus));
        assert(r matches Ok(e) && e@.workers == spec_default_thread_count(cpus));
        r
    }

    /// An executor with `count` workers, all of them alive; the first takes
    /// the first task.
    pub fn with_thread_count(count: usize) -> (r: Result<ThreadPoolExecutor, Error>)
        requires
            count > 0,
        ensures
            r matches Ok(e) && e@.wf() && e@.next == 0 && e@.workers == count && forall|i: int|
                0 <= i < count ==> e@.alive[i],
    {
        let mut alive: Vec<bool> = Vec::new();
        let mut i: usize = 0;
        while i < count
            invariant
                i <= count,
                alive@.len() == i,
                forall|j: int| 0 <= j < i ==> alive@[j],
            decreases count - i,
        {
            alive.push(true);
            i += 1;
        }
        Ok(ThreadPoolExecutor { alive, turn: Turn::new(count) })
    }

    /// The number of workers.
    pub fn thread_count(&self) -> (n: usize)
        ensures
            n == self@.alive.len(),
    {
        self.alive.len()
    }

    /// A handle that hands fibers to the workers of this executor.
    pub fn handle(&self) -> (h: ThreadPoolExecutorHandle)
        requires
            self@.wf(),
        ensures
            h.workers() == self@.workers,
    {
        ThreadPoolExecutorHandle { workers: self.alive.len() }
    }

    /// Picks the worker for a new fiber: the one whose turn it is, as a
    /// handle of the executor does.
    pub fn spawn_boxed(&mut self) -> (worker: usize)
        requires
            old(self)@.wf(),
        ensures
            final(self)@.wf(),
            worker == old(self)@.next,
            final(self)@ == old(self)@.spawned(),
    {
        let handle = self.handle();
        handle.spawn_boxed(self)
    }

    /// The worker `index` has died. An index that names no worker changes
    /// nothing.
    pub fn worker_died(&mut self, index: usize)
        ensures
            final(self)@.next == old(self)@.next,
            final(self)@.workers == old(self)@.workers,
            final(self)@.alive == if index < old(self)@.alive.len() {
                old(self)@.alive.update(index as int, false)
            } else {
                old(self)@.alive
            },
    {
        if index < self.alive.len() {
            self.alive.set(index, false);
        }
    }

    /// One round of the executor: the workers run by themselves, so there is
    /// nothing to do but to see that they all live.
    pub fn run_once(&mut self) -> (r: Result<(), Error>)
        ensures
            final(self)@ == old(self)@,
            r == old(self)@.run_once(),
            forall|i: int|
                is_first_dead(old(self)@.alive, i) ==> r == Err::<(), Error>(
                    Error::WorkerDead(i as usize),
                ),
            r is Ok <==> forall|i: int| 0 <= i < old(self)@.alive.len() ==> old(self)@.alive[i],
    {
        let mut i: usize = 0;
        while i < self.alive.len()
            invariant
                i <= self.alive.len(),
                *self == *old(self),
                forall|j: int| 0 <= j < i ==> self.alive@[j],
            decreases self.alive.len() - i,
        {
            if !self.alive[i] {
                proof {
                    assert(is_first_dead(self@.alive, i as int));
                    self@.lemma_run_once(i as int);
                    assert forall|c: int| is_first_dead(self@.alive, c) implies c == i by {
                        if c < i {
                            assert(self.alive@[c]);
                        } else if i < c {
                            assert(self@.alive[i as int]);
                        }
                    }
                }
                return Err(Error::WorkerDead(i));
            }
            i += 1;
        }
        proof {
            self@.lemma_run_once(0);
            assert forall|c: int| !is_first_dead(self@.alive, c) by {
                if 0 <= c < self@.alive.len() {
                    assert(self.alive@[c]);
                }
            }
        }
        Ok(())
    }

    /// What the run of a future does after a poll of the future returned
    /// `polled`: it ends with the future's value or error; else it makes one
    /// round, ends if a worker has died, and polls again if none has.
    pub fn run<T>(&mut self, polled: Result<Async<T>, Error>) -> (step: RunStep<T>)
        ensures
            final(self)@ == old(self)@,
            step == match polled {
                Ok(Async::Ready(v)) => RunStep::Done(Ok(v)),
                Err(e) => RunStep::Done(Err(e)),
                Ok(Async::NotReady) => match old(self)@.run_once() {
                    Ok(_) => RunStep::Again,
                    Err(e) => RunStep::Done(Err(e)),
                },
            },
    {
        match polled {
            Ok(Async::Ready(v)) => RunStep::Done(Ok(v)),
            Err(e) => RunStep::Done(Err(e)),
            Ok(Async::NotReady) => match self.run_once() {
                Ok(_) => RunStep::Again,
                Err(e) => RunStep::Done(Err(e)),
            },
        }
    }
}

} // verus!
