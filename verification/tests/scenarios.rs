use fibers::error::Async;
use fibers::error::Error;
use fibers::executor::ThreadPoolExecutor;
use fibers::fiber::Exit;
use fibers::fiber::Outcome;
use fibers::fiber::Scheduler;
use fibers::io::poll::EventedHandle;
use fibers::io::poll::Interest;
use fibers::io::poll::Poller;
use fibers::io::poll::Ready;
use fibers::io::poll::Register;
use fibers::net::tcp::TcpListener;
use fibers::net::tcp::TcpStream;
use fibers::net::Action;
use fibers::net::Event;
use fibers::net::SocketAddr;
use fibers::sync::oneshot;
use fibers::sync::oneshot::Monitor;
use fibers::timer::TimerWheel;
use std::collections::HashMap;
use std::collections::VecDeque;

// ---- fib(7), by fibers that spawn monitored fibers -------------------------

enum FibTask {
    Start(u64),
    Join(u64, u64, Option<u64>, Option<u64>),
}

struct FibRuntime {
    scheduler: Scheduler,
    tasks: HashMap<u64, FibTask>,
    monitors: HashMap<u64, oneshot::Channel<Result<u64, Error>>>,
    results: HashMap<u64, u64>,
    polls: usize,
}

impl FibRuntime {
    fn spawn_monitor(&mut self, n: u64) -> u64 {
        let id = self.scheduler.spawn(true).unwrap();
        self.tasks.insert(id, FibTask::Start(n));
        self.monitors.insert(id, oneshot::channel());
        id
    }

    fn join(&mut self, me: u64, child: u64, got: Option<u64>) -> Option<u64> {
        if got.is_some() {
            return got;
        }
        let polled = self.monitors.get_mut(&child).unwrap().poll(Some(me));
        match oneshot::monitored(polled) {
            Ok(Async::Ready(v)) => Some(v),
            Ok(Async::NotReady) => None,
            Err(e) => panic!("{:?}", e),
        }
    }

    fn poll_task(&mut self, id: u64) -> Outcome {
        self.polls += 1;
        let (a, b, got_a, got_b) = match self.tasks.remove(&id).unwrap() {
            FibTask::Start(n) if n < 2 => {
                self.results.insert(id, n);
                return Outcome::Finished;
            }
            FibTask::Start(n) => (self.spawn_monitor(n - 1), self.spawn_monitor(n - 2), None, None),
            FibTask::Join(a, b, got_a, got_b) => (a, b, got_a, got_b),
        };
        let got_a = self.join(id, a, got_a);
        let got_b = self.join(id, b, got_b);
        match (got_a, got_b) {
            (Some(x), Some(y)) => {
                self.results.insert(id, x + y);
                Outcome::Finished
            }
            _ => {
                self.tasks.insert(id, FibTask::Join(a, b, got_a, got_b));
                Outcome::Pending
            }
        }
    }

    fn run_once(&mut self) -> bool {
        let id = match self.scheduler.begin_poll() {
            Some(id) => id,
            None => return false,
        };
        let outcome = self.poll_task(id);
        if let Some((fiber, exit)) = self.scheduler.end_poll(outcome) {
            assert_eq!(exit, Exit::Completed);
            let value = self.results[&fiber];
            let (sent, woken) = self.monitors.get_mut(&fiber).unwrap().send(Ok(value));
            assert_eq!(sent, Ok(()));
            if let Some(waiter) = woken {
                self.scheduler.wake(waiter);
            }
        }
        true
    }
}

#[test]
fn fibonacci_by_spawn_monitor() {
    let mut rt = FibRuntime {
        scheduler: Scheduler::new(),
        tasks: HashMap::new(),
        monitors: HashMap::new(),
        results: HashMap::new(),
        polls: 0,
    };
    let root = rt.spawn_monitor(7);
    while rt.run_once() {}
    assert!(rt.scheduler.is_idle());
    let answer = oneshot::monitored(rt.monitors.get_mut(&root).unwrap().poll(None));
    assert_eq!(answer, Ok(Async::Ready(13)));
    // fib(7) calls fib 41 times in all.
    assert_eq!(rt.monitors.len(), 41);
    assert!(rt.tasks.is_empty());
}

// ---- many fibers that sleep -------------------------------------------------

#[test]
fn many_small_fibers() {
    let count: u64 = 10_000;
    let mut scheduler = Scheduler::new();
    let mut wheel = TimerWheel::new();
    let mut sleeper_of_timer: HashMap<u64, u64> = HashMap::new();
    let mut asleep: HashMap<u64, bool> = HashMap::new();
    let mut completed: u64 = 0;
    let mut aborted: u64 = 0;
    let mut now: u64 = 0;
    for _ in 0..count {
        let id = scheduler.spawn(true).unwrap();
        asleep.insert(id, false);
    }
    loop {
        while let Some(id) = scheduler.begin_poll() {
            let outcome = if asleep[&id] {
                Outcome::Finished
            } else {
                let timer = wheel.sleep(now, 1).unwrap();
                sleeper_of_timer.insert(timer, id);
                asleep.insert(id, true);
                Outcome::Pending
            };
            match scheduler.end_poll(outcome) {
                Some((_, Exit::Completed)) => completed += 1,
                Some((_, Exit::Aborted)) => aborted += 1,
                None => {}
            }
        }
        if scheduler.is_idle() {
            break;
        }
        let sleep = wheel.timeout(now).expect("a parked fiber waits for a timer");
        assert_eq!(sleep, 1);
        now += sleep;
        for (deadline, timer) in wheel.fire_due(now) {
            assert!(deadline <= now);
            assert!(scheduler.wake(sleeper_of_timer[&timer]));
        }
    }
    assert_eq!(completed, count);
    assert_eq!(aborted, 0);
    assert_eq!(now, 1);
    assert_eq!(wheel.len(), 0);
}

// ---- worker death -----------------------------------------------------------

#[test]
fn worker_death() {
    let mut executor = ThreadPoolExecutor::with_thread_count(2).unwrap();
    let mut workers = vec![Scheduler::new(), Scheduler::new()];
    let first = executor.spawn_boxed();
    let doomed = workers[first].spawn(true).unwrap();
    let second = executor.spawn_boxed();
    let healthy = workers[second].spawn(true).unwrap();
    assert_ne!(first, second);

    // A panic in a task is caught at the scheduler: the monitor learns it.
    assert_eq!(workers[first].begin_poll(), Some(doomed));
    assert_eq!(workers[first].end_poll(Outcome::Panicked), Some((doomed, Exit::Aborted)));
    assert_eq!(executor.run_once(), Ok(()));
    assert_eq!(workers[second].begin_poll(), Some(healthy));
    assert_eq!(workers[second].end_poll(Outcome::Finished), Some((healthy, Exit::Completed)));

    // A panic of the loop itself kills the worker.
    executor.worker_died(first);
    assert_eq!(executor.run_once(), Err(Error::WorkerDead(first)));
}

// ---- echo over a loopback that lives in the test ----------------------------

struct Net {
    poller: Poller,
    monitors: HashMap<u64, oneshot::Channel<Result<(), Error>>>,
    next_monitor: u64,
}

impl Net {
    fn poll_monitor(&mut self, id: u64) -> Result<Async<()>, oneshot::MonitorError<Error>> {
        oneshot::monitored(self.monitors.get_mut(&id).unwrap().poll(None))
    }

    fn arm(&mut self, handle: EventedHandle, interest: Interest) -> Monitor {
        let id = self.next_monitor;
        self.next_monitor += 1;
        self.monitors.insert(id, oneshot::channel());
        self.poller.monitor(handle.token, interest, id).unwrap();
        Monitor { id }
    }

    fn ready(&mut self, token: u64, ready: Ready) {
        for id in self.poller.dispatch(token, ready) {
            let (sent, _) = self.monitors.get_mut(&id).unwrap().send(Ok(()));
            assert_eq!(sent, Ok(()));
        }
    }

    fn read(&mut self, s: &mut TcpStream, pipe: &mut VecDeque<u8>, buf: &mut Vec<u8>, want: usize) -> Result<usize, Error> {
        let mut action = s.read(Event::Begin);
        loop {
            action = match action {
                Action::PollMonitor(id) => {
                    let polled = self.poll_monitor(id);
                    s.read(Event::Polled(polled))
                }
                Action::Perform => {
                    let result = if pipe.is_empty() {
                        Err(Error::WouldBlock)
                    } else {
                        let mut n = 0;
                        while n < want && !pipe.is_empty() {
                            buf.push(pipe.pop_front().unwrap());
                            n += 1;
                        }
                        Ok(n)
                    };
                    s.read(Event::Performed(result))
                }
                Action::Arm(handle, interest) => {
                    let monitor = self.arm(handle, interest);
                    s.read(Event::Armed(monitor))
                }
                Action::Return(r) => return r,
                other => panic!("{:?}", other),
            };
        }
    }

    fn write(&mut self, s: &mut TcpStream, pipe: &mut VecDeque<u8>, bytes: &[u8]) -> Result<usize, Error> {
        let mut action = s.write(Event::Begin);
        loop {
            action = match action {
                Action::Perform => {
                    pipe.extend(bytes.iter().copied());
                    s.write(Event::Performed(Ok(bytes.len())))
                }
                Action::Return(r) => return r,
                other => panic!("{:?}", other),
            };
        }
    }
}

#[test]
fn echo() {
    let mut net = Net { poller: Poller::new(), monitors: HashMap::new(), next_monitor: 0 };
    let addr = SocketAddr { ip: 0x7f00_0001, port: 0, v6: false };
    let readable = Ready { readable: true, writable: false };

    // The listener binds and is registered.
    let mut bind = TcpListener::bind(addr);
    assert_eq!(bind.poll(Event::<()>::Begin), Action::Open(addr));
    assert_eq!(bind.poll(Event::<()>::Opened(Ok(Register { token: 0 }))), Action::PollRegister(0));
    let listening = net.poller.register().unwrap();
    let listener = match bind.poll(Event::<()>::Registered(Ok(Async::Ready(listening)))) {
        Action::Return(Ok(Async::Ready(l))) => l,
        other => panic!("{:?}", other),
    };
    let mut incoming = listener.incoming();

    // No client yet: the server parks on the listener.
    assert_eq!(incoming.poll(Event::Begin), Action::Perform);
    assert_eq!(
        incoming.poll(Event::Performed(Err(Error::WouldBlock))),
        Action::Arm(listening, Interest::Read)
    );
    let monitor = net.arm(listening, Interest::Read);
    assert_eq!(incoming.poll(Event::Armed(monitor)), Action::Return(Ok(Async::NotReady)));

    // The client connects.
    let mut connect = TcpStream::connect(addr);
    assert_eq!(connect.poll(Event::Begin), Action::Open(addr));
    assert_eq!(connect.poll(Event::Opened(Ok(Register { token: 1 }))), Action::PollRegister(1));
    let client_handle = net.poller.register().unwrap();
    assert_eq!(connect.poll(Event::Registered(Ok(Async::Ready(client_handle)))), Action::Perform);
    let mut client = match connect.poll(Event::Performed(Ok(()))) {
        Action::Return(Ok(Async::Ready(s))) => s,
        other => panic!("{:?}", other),
    };

    // The listener becomes readable: the server wakes and accepts.
    net.ready(listening.token, readable);
    let id = match incoming.poll(Event::Begin) {
        Action::PollMonitor(id) => id,
        other => panic!("{:?}", other),
    };
    let polled = net.poll_monitor(id);
    assert_eq!(incoming.poll(Event::Polled(polled)), Action::Perform);
    let mut connected = match incoming.poll(Event::Performed(Ok((Register { token: 2 }, addr)))) {
        Action::Return(Ok(Async::Ready(Some((c, _))))) => c,
        other => panic!("{:?}", other),
    };
    assert_eq!(connected.poll(Event::<()>::Begin), Action::PollRegister(2));
    let server_handle = net.poller.register().unwrap();
    let mut server = match connected.poll(Event::<()>::Registered(Ok(Async::Ready(server_handle)))) {
        Action::Return(Ok(Async::Ready(s))) => s,
        other => panic!("{:?}", other),
    };

    let mut to_server: VecDeque<u8> = VecDeque::new();
    let mut to_client: VecDeque<u8> = VecDeque::new();
    let mut at_server: Vec<u8> = Vec::new();
    let mut at_client: Vec<u8> = Vec::new();

    // Both sides read too early, and park.
    assert_eq!(net.read(&mut server, &mut to_server, &mut at_server, 4), Err(Error::WouldBlock));
    assert_eq!(net.read(&mut client, &mut to_client, &mut at_client, 4), Err(Error::WouldBlock));
    assert_eq!(net.read(&mut client, &mut to_client, &mut at_client, 4), Err(Error::WouldBlock));

    // The client writes; the server is woken, reads, and writes back.
    assert_eq!(net.write(&mut client, &mut to_server, b"ping"), Ok(4));
    net.ready(server_handle.token, readable);
    assert_eq!(net.read(&mut server, &mut to_server, &mut at_server, 4), Ok(4));
    assert_eq!(net.write(&mut server, &mut to_client, &at_server), Ok(4));
    net.ready(client_handle.token, readable);
    assert_eq!(net.read(&mut client, &mut to_client, &mut at_client, 4), Ok(4));
    assert_eq!(at_client, b"ping".to_vec());
    assert_eq!(client.armed(Interest::Read), None);
    assert_eq!(server.armed(Interest::Read), None);
}
