use fibers::error::Async;
use fibers::error::Error;
use fibers::sync::mpsc;
use fibers::sync::oneshot;
use fibers::sync::oneshot::MonitorError;

#[test]
fn oneshot_carries_one_value() {
    let mut c = oneshot::channel::<u32>();
    assert_eq!(c.poll(Some(4)), Ok(Async::NotReady));
    assert_eq!(c.send(99), (Ok(()), Some(4)));
    assert_eq!(c.poll(Some(4)), Ok(Async::Ready(99)));
    assert_eq!(c.poll(Some(4)), Err(Error::Cancelled));
    assert_eq!(c.send(100), (Err(100), None));
}

#[test]
fn oneshot_without_waiter_wakes_nobody() {
    let mut c = oneshot::channel::<u32>();
    assert_eq!(c.send(1), (Ok(()), None));
    assert_eq!(c.poll(None), Ok(Async::Ready(1)));
}

#[test]
fn dropped_sender_cancels() {
    let mut c = oneshot::channel::<u32>();
    assert_eq!(c.poll(Some(2)), Ok(Async::NotReady));
    assert_eq!(c.drop_sender(), Some(2));
    assert_eq!(c.poll(Some(2)), Err(Error::Cancelled));
    assert_eq!(c.drop_sender(), None);
}

#[test]
fn dropped_receiver_gives_the_value_back() {
    let mut c = oneshot::channel::<u32>();
    assert_eq!(c.poll(Some(2)), Ok(Async::NotReady));
    c.drop_receiver();
    assert_eq!(c.send(5), (Err(5), None));
    assert_eq!(c.drop_sender(), None);
}

#[test]
fn monitor_tells_failure_from_abort() {
    assert_eq!(oneshot::monitored::<u8, Error>(Ok(Async::Ready(Ok(3)))), Ok(Async::Ready(3)));
    assert_eq!(
        oneshot::monitored::<u8, Error>(Ok(Async::Ready(Err(Error::Io(2))))),
        Err(MonitorError::Failed(Error::Io(2)))
    );
    assert_eq!(oneshot::monitored::<u8, Error>(Ok(Async::NotReady)), Ok(Async::NotReady));
    assert_eq!(oneshot::monitored::<u8, Error>(Err(Error::Cancelled)), Err(MonitorError::Aborted));
}

#[test]
fn stream_channel_keeps_the_order() {
    let mut c = mpsc::channel::<u32>();
    assert_eq!(c.poll(Some(1)), Async::NotReady);
    assert_eq!(c.send(10), (Ok(()), Some(1)));
    assert_eq!(c.send(20), (Ok(()), None));
    assert_eq!(c.send(30), (Ok(()), None));
    assert_eq!(c.poll(Some(1)), Async::Ready(Some(10)));
    assert_eq!(c.poll(Some(1)), Async::Ready(Some(20)));
    assert_eq!(c.poll(Some(1)), Async::Ready(Some(30)));
    assert_eq!(c.poll(Some(1)), Async::NotReady);
}

#[test]
fn stream_ends_when_all_senders_are_gone() {
    let mut c = mpsc::channel::<u32>();
    assert!(c.clone_sender());
    assert_eq!(c.send(1), (Ok(()), None));
    assert_eq!(c.drop_sender(), None);
    assert_eq!(c.poll(Some(6)), Async::Ready(Some(1)));
    assert_eq!(c.poll(Some(6)), Async::NotReady);
    assert_eq!(c.drop_sender(), Some(6));
    assert_eq!(c.poll(Some(6)), Async::Ready(None));
    assert_eq!(c.poll(Some(6)), Async::Ready(None));
    assert_eq!(c.drop_sender(), None);
    assert!(!c.clone_sender());
    assert_eq!(c.send(2), (Err(2), None));
}

#[test]
fn stream_without_receiver_gives_the_value_back() {
    let mut c = mpsc::channel::<u32>();
    assert_eq!(c.send(1), (Ok(()), None));
    c.drop_receiver();
    assert_eq!(c.send(2), (Err(2), None));
    assert_eq!(c.poll(None), Async::NotReady);
}
