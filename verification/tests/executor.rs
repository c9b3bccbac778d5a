use fibers::error::Async;
use fibers::error::Error;
use fibers::executor::default_thread_count;
use fibers::executor::RunStep;
use fibers::executor::ThreadPoolExecutor;
use fibers::executor::Turn;

#[test]
fn default_is_two_workers_for_each_cpu() {
    assert_eq!(default_thread_count(1), 2);
    assert_eq!(default_thread_count(4), 8);
    assert_eq!(default_thread_count(usize::MAX / 2), usize::MAX - 1);
    assert_eq!(default_thread_count(usize::MAX / 2 + 1), usize::MAX);
    assert_eq!(default_thread_count(usize::MAX), usize::MAX);
}

#[test]
fn new_executor_has_an_even_number_of_workers() {
    let executor = ThreadPoolExecutor::new().unwrap();
    assert!(executor.thread_count() >= 2);
    assert_eq!(executor.thread_count() % 2, 0);
}

#[test]
fn tasks_go_to_the_workers_in_turn() {
    let mut executor = ThreadPoolExecutor::with_thread_count(3).unwrap();
    assert_eq!(executor.thread_count(), 3);
    let picked: Vec<usize> = (0..7).map(|_| executor.spawn_boxed()).collect();
    assert_eq!(picked, vec![0, 1, 2, 0, 1, 2, 0]);
}

#[test]
fn every_handle_spawns_by_the_one_turn() {
    let mut executor = ThreadPoolExecutor::with_thread_count(3).unwrap();
    assert_eq!(executor.spawn_boxed(), 0);
    let handle = executor.handle();
    assert_eq!(handle.spawn_boxed(&mut executor), 1);
    let clone = handle.clone();
    assert_eq!(clone.spawn_boxed(&mut executor), 2);
    assert_eq!(handle.spawn_boxed(&mut executor), 0);
    assert_eq!(executor.handle().spawn_boxed(&mut executor), 1);
    assert_eq!(executor.spawn_boxed(), 2);
    assert_eq!(clone.clone().spawn_boxed(&mut executor), 0);
}

#[test]
fn kth_spawn_goes_to_worker_k_mod_n() {
    for workers in 1..6usize {
        let mut executor = ThreadPoolExecutor::with_thread_count(workers).unwrap();
        let handles = vec![executor.handle(), executor.handle().clone(), executor.handle()];
        for k in 0..40usize {
            let worker = if k % 4 == 3 {
                executor.spawn_boxed()
            } else {
                handles[k % 3].spawn_boxed(&mut executor)
            };
            assert_eq!(worker, k % workers);
        }
    }
}

#[test]
fn turn_goes_round() {
    let mut turn = Turn::new(2);
    let picked: Vec<usize> = (0..5).map(|_| turn.next_worker()).collect();
    assert_eq!(picked, vec![0, 1, 0, 1, 0]);
}

#[test]
fn single_worker_takes_everything() {
    let mut executor = ThreadPoolExecutor::with_thread_count(1).unwrap();
    assert_eq!(executor.spawn_boxed(), 0);
    assert_eq!(executor.spawn_boxed(), 0);
}

#[test]
fn dead_worker_is_fatal() {
    let mut executor = ThreadPoolExecutor::with_thread_count(4).unwrap();
    assert_eq!(executor.run_once(), Ok(()));
    executor.worker_died(9);
    assert_eq!(executor.run_once(), Ok(()));
    executor.worker_died(2);
    assert_eq!(executor.run_once(), Err(Error::WorkerDead(2)));
    assert_eq!(executor.run_once(), Err(Error::WorkerDead(2)));
    executor.worker_died(1);
    assert_eq!(executor.run_once(), Err(Error::WorkerDead(1)));
    assert!(Error::WorkerDead(1).is_fatal());
    assert!(!Error::Aborted.is_fatal());
    assert!(Error::WouldBlock.is_would_block());
    assert!(!Error::Io(11).is_would_block());
}

#[test]
fn run_goes_on_until_the_future_is_done() {
    let mut executor = ThreadPoolExecutor::with_thread_count(2).unwrap();
    assert_eq!(executor.run::<u8>(Ok(Async::NotReady)), RunStep::Again);
    assert_eq!(executor.run(Ok(Async::Ready(13u8))), RunStep::Done(Ok(13)));
    assert_eq!(executor.run::<u8>(Err(Error::Cancelled)), RunStep::Done(Err(Error::Cancelled)));
    executor.worker_died(0);
    assert_eq!(
        executor.run::<u8>(Ok(Async::NotReady)),
        RunStep::Done(Err(Error::WorkerDead(0)))
    );
    assert_eq!(executor.run(Ok(Async::Ready(1u8))), RunStep::Done(Ok(1)));
    assert!(Async::Ready(1).is_ready());
    assert!(Async::<u8>::NotReady.is_not_ready());
}
