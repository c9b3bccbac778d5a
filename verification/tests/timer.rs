use fibers::timer::TimerError;
use fibers::timer::TimerWheel;

#[test]
fn new_wheel_is_empty() {
    let w = TimerWheel::new();
    assert_eq!(w.len(), 0);
    assert_eq!(w.next_deadline(), None);
    assert_eq!(w.timeout(100), None);
}

#[test]
fn timers_get_successive_ids() {
    let mut w = TimerWheel::new();
    assert_eq!(w.deadline(50), Ok(0));
    assert_eq!(w.deadline(50), Ok(1));
    assert_eq!(w.deadline(10), Ok(2));
    assert_eq!(w.len(), 3);
}

#[test]
fn timers_fire_in_deadline_order() {
    let mut w = TimerWheel::new();
    assert_eq!(w.sleep(10, 5), Ok(0));
    assert_eq!(w.sleep(10, 2), Ok(1));
    assert_eq!(w.sleep(10, 9), Ok(2));
    assert_eq!(w.len(), 3);
    assert_eq!(w.next_deadline(), Some(12));
    assert_eq!(w.fire_due(15), vec![(12, 1), (15, 0)]);
    assert_eq!(w.len(), 1);
    assert_eq!(w.next_deadline(), Some(19));
    assert_eq!(w.fire_due(18), vec![]);
    assert_eq!(w.fire_due(19), vec![(19, 2)]);
    assert_eq!(w.len(), 0);
}

#[test]
fn timers_of_one_deadline_fire_in_the_order_of_their_ids() {
    let mut w = TimerWheel::new();
    w.deadline(7).unwrap();
    w.deadline(3).unwrap();
    w.deadline(7).unwrap();
    w.deadline(3).unwrap();
    assert_eq!(w.fire_due(7), vec![(3, 1), (3, 3), (7, 0), (7, 2)]);
}

#[test]
fn sleep_does_not_fire_early() {
    let mut w = TimerWheel::new();
    let id = w.sleep(1000, 50).unwrap();
    for now in 1000..1050 {
        assert_eq!(w.fire_due(now), vec![]);
        assert_eq!(w.timeout(now), Some(1050 - now));
    }
    assert_eq!(w.fire_due(1050), vec![(1050, id)]);
    assert_eq!(w.timeout(1050), None);
}

#[test]
fn sleep_of_no_time_is_due_at_once() {
    let mut w = TimerWheel::new();
    let id = w.sleep(5, 0).unwrap();
    assert_eq!(w.timeout(5), Some(0));
    assert_eq!(w.fire_due(5), vec![(5, id)]);
}

#[test]
fn overdue_timer_means_no_sleep() {
    let mut w = TimerWheel::new();
    w.deadline(10).unwrap();
    assert_eq!(w.timeout(3), Some(7));
    assert_eq!(w.timeout(10), Some(0));
    assert_eq!(w.timeout(500), Some(0));
}

#[test]
fn deadline_beyond_the_clock_is_refused() {
    let mut w = TimerWheel::new();
    assert_eq!(w.sleep(u64::MAX, 1), Err(TimerError::Overflow));
    assert_eq!(w.sleep(u64::MAX - 1, 2), Err(TimerError::Overflow));
    assert_eq!(w.len(), 0);
    assert_eq!(w.sleep(u64::MAX - 1, 1), Ok(0));
    assert_eq!(w.next_deadline(), Some(u64::MAX));
    assert_eq!(w.fire_due(u64::MAX - 1), vec![]);
    assert_eq!(w.fire_due(u64::MAX), vec![(u64::MAX, 0)]);
}

#[test]
fn many_timers_come_out_sorted() {
    let mut w = TimerWheel::new();
    let mut x: u64 = 12345;
    let mut expected: Vec<(u64, u64)> = Vec::new();
    for id in 0..2000u64 {
        x = x.wrapping_mul(6364136223846793005).wrapping_add(1442695040888963407);
        let deadline = (x >> 33) % 500;
        assert_eq!(w.deadline(deadline), Ok(id));
        expected.push((deadline, id));
    }
    expected.sort();
    let due: Vec<(u64, u64)> = expected.iter().copied().filter(|e| e.0 <= 250).collect();
    let later: Vec<(u64, u64)> = expected.iter().copied().filter(|e| e.0 > 250).collect();
    assert_eq!(w.fire_due(250), due);
    assert_eq!(w.len(), later.len());
    assert_eq!(w.fire_due(499), later);
    assert_eq!(w.len(), 0);
}
