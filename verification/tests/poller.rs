use fibers::io::poll::Command;
use fibers::io::poll::EventedHandle;
use fibers::io::poll::Interest;
use fibers::io::poll::Poller;
use fibers::io::poll::PollerError;
use fibers::io::poll::Ready;
use fibers::io::poll::Registration;
use fibers::io::poll::Reply;
use fibers::io::poll::SharedHandle;

const READABLE: Ready = Ready { readable: true, writable: false };
const WRITABLE: Ready = Ready { readable: false, writable: true };
const BOTH: Ready = Ready { readable: true, writable: true };

#[test]
fn interest_tells_its_direction() {
    assert!(Interest::Read.is_read());
    assert!(!Interest::Read.is_write());
    assert!(Interest::Write.is_write());
    assert!(!Interest::Write.is_read());
    assert!(BOTH.has(Interest::Read) && BOTH.has(Interest::Write));
    assert!(READABLE.has(Interest::Read) && !READABLE.has(Interest::Write));
}

#[test]
fn handles_get_successive_tokens() {
    let mut p = Poller::new();
    assert_eq!(p.register(), Ok(EventedHandle { token: 0 }));
    assert_eq!(p.register(), Ok(EventedHandle { token: 1 }));
    assert_eq!(p.registration(0), Some(Registration { read_waker: None, write_waker: None }));
    assert_eq!(p.registration(2), None);
}

#[test]
fn a_slot_holds_one_monitor() {
    let mut p = Poller::new();
    let h = p.register().unwrap();
    assert_eq!(p.monitor(h.token, Interest::Read, 10), Ok(()));
    assert_eq!(p.monitor(h.token, Interest::Read, 11), Err(PollerError::Occupied));
    assert_eq!(
        p.registration(h.token),
        Some(Registration { read_waker: Some(10), write_waker: None })
    );
    assert_eq!(p.monitor(h.token, Interest::Write, 12), Ok(()));
    assert_eq!(
        p.registration(h.token),
        Some(Registration { read_waker: Some(10), write_waker: Some(12) })
    );
    assert_eq!(p.monitor(99, Interest::Read, 1), Err(PollerError::NotRegistered));
}

#[test]
fn readiness_fulfils_and_frees_the_slot() {
    let mut p = Poller::new();
    let h = p.register().unwrap();
    p.monitor(h.token, Interest::Read, 10).unwrap();
    p.monitor(h.token, Interest::Write, 12).unwrap();
    assert_eq!(p.dispatch(h.token, WRITABLE), vec![12]);
    assert_eq!(
        p.registration(h.token),
        Some(Registration { read_waker: Some(10), write_waker: None })
    );
    // The slot is free again: the handle can be armed anew.
    assert_eq!(p.monitor(h.token, Interest::Write, 13), Ok(()));
    assert_eq!(p.dispatch(h.token, BOTH), vec![10, 13]);
    assert_eq!(p.dispatch(h.token, BOTH), vec![]);
    assert_eq!(p.dispatch(77, BOTH), vec![]);
}

#[test]
fn events_are_dispatched_in_order() {
    let mut p = Poller::new();
    let a = p.register().unwrap().token;
    let b = p.register().unwrap().token;
    p.monitor(a, Interest::Read, 1).unwrap();
    p.monitor(a, Interest::Write, 2).unwrap();
    p.monitor(b, Interest::Read, 3).unwrap();
    let events = vec![(b, BOTH), (a, WRITABLE), (a, READABLE), (a, BOTH)];
    assert_eq!(p.dispatch_all(&events), vec![3, 2, 1]);
    assert_eq!(p.registration(a), Some(Registration { read_waker: None, write_waker: None }));
    assert_eq!(p.registration(b), Some(Registration { read_waker: None, write_waker: None }));
    assert_eq!(p.dispatch_all(&vec![]), vec![]);
}

#[test]
fn deregistering_drops_the_armed_monitors() {
    let mut p = Poller::new();
    let h = p.register().unwrap();
    p.monitor(h.token, Interest::Read, 10).unwrap();
    assert_eq!(
        p.deregister(h.token),
        Some(Registration { read_waker: Some(10), write_waker: None })
    );
    assert_eq!(p.deregister(h.token), None);
    assert_eq!(p.registration(h.token), None);
    assert_eq!(p.dispatch(h.token, BOTH), vec![]);
    // Tokens are not used again.
    assert_eq!(p.register(), Ok(EventedHandle { token: 1 }));
}

#[test]
fn inbox_is_served_up_to_the_shutdown() {
    let mut p = Poller::new();
    let commands = vec![
        Command::Register,
        Command::Monitor(0, Interest::Read, 5),
        Command::Monitor(0, Interest::Read, 6),
        Command::Register,
        Command::Deregister(1),
        Command::Shutdown,
        Command::Register,
    ];
    assert_eq!(
        p.drain(&commands),
        vec![
            Reply::Registered(Ok(EventedHandle { token: 0 })),
            Reply::Monitored(Ok(())),
            Reply::Monitored(Err(PollerError::Occupied)),
            Reply::Registered(Ok(EventedHandle { token: 1 })),
            Reply::Deregistered(Some(Registration { read_waker: None, write_waker: None })),
            Reply::Stopped,
        ]
    );
    assert_eq!(p.registration(0), Some(Registration { read_waker: Some(5), write_waker: None }));
    assert_eq!(p.registration(1), None);
    assert_eq!(p.registration(2), None);
    assert_eq!(p.handle(Command::Shutdown), Reply::Stopped);
    assert_eq!(p.handle(Command::Deregister(9)), Reply::Deregistered(None));
    assert_eq!(p.drain(&vec![]), vec![]);
}

#[test]
fn last_drop_deregisters_once() {
    let mut shared = SharedHandle::new(EventedHandle { token: 8 });
    assert_eq!(shared.count(), 1);
    assert!(shared.retain());
    assert!(shared.retain());
    assert_eq!(shared.count(), 3);
    assert_eq!(shared.release(), None);
    assert_eq!(shared.release(), None);
    assert_eq!(shared.release(), Some(Command::Deregister(8)));
    assert_eq!(shared.count(), 0);
    // Nothing is left to drop, and nothing comes back.
    assert_eq!(shared.release(), None);
    assert!(!shared.retain());
    assert_eq!(shared.count(), 0);
}
