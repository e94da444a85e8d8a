use thread_pool::channel::{Channel, Received, SendError};
use thread_pool::pool::{PoolError, ShutdownStep, ThreadPool};
use thread_pool::worker::{Outcome, Worker, WorkerState};

fn claim(pool: &mut ThreadPool, id: usize) -> Received {
    if pool.lock_holder() != Some(id) {
        assert!(pool.worker_lock(id));
    }
    pool.worker_receive(id)
}

fn pool_of(size: usize) -> ThreadPool {
    match ThreadPool::new(size) {
        Ok(pool) => pool,
        Err(e) => panic!("no pool of size {}: {:?}", size, e),
    }
}

#[test]
fn channel_delivers_in_order_of_sending() {
    let mut c = Channel::new();
    assert!(c.is_open());
    assert_eq!(c.len(), 0);
    assert_eq!(c.send(4), Ok(()));
    assert_eq!(c.send(2), Ok(()));
    assert_eq!(c.send(4), Ok(()));
    assert_eq!(c.len(), 3);
    assert_eq!(c.receive(), Received::Job(4));
    assert_eq!(c.receive(), Received::Job(2));
    assert_eq!(c.receive(), Received::Job(4));
    assert_eq!(c.receive(), Received::Empty);
    assert_eq!(c.len(), 0);
}

#[test]
fn channel_closed_keeps_queued_jobs_and_refuses_new_ones() {
    let mut c = Channel::new();
    assert_eq!(c.send(1), Ok(()));
    c.close();
    assert!(!c.is_open());
    assert_eq!(c.send(2), Err(SendError(2)));
    assert_eq!(c.len(), 1);
    assert_eq!(c.receive(), Received::Job(1));
    assert_eq!(c.receive(), Received::Closed);
    assert_eq!(c.receive(), Received::Closed);
}

#[test]
fn worker_follows_its_loop() {
    let mut w = Worker::new(3);
    assert_eq!(w.id(), 3);
    assert_eq!(w.state(), WorkerState::Idle);
    assert!(w.is_live());
    assert!(!w.is_joined());
    w.on_receive(Received::Empty);
    assert_eq!(w.state(), WorkerState::Idle);
    w.on_receive(Received::Job(8));
    assert_eq!(w.state(), WorkerState::Busy(8));
    assert!(w.is_live());
    assert_eq!(w.on_finish(Outcome::Completed), 8);
    assert_eq!(w.state(), WorkerState::Idle);
    w.on_receive(Received::Closed);
    assert_eq!(w.state(), WorkerState::Exited);
    assert!(w.is_terminated());
    assert!(!w.is_live());
    w.mark_joined();
    assert!(w.is_joined());
}

#[test]
fn worker_is_lost_to_a_failing_job() {
    let mut w = Worker::new(0);
    w.on_receive(Received::Job(5));
    assert_eq!(w.on_finish(Outcome::Failed), 5);
    assert_eq!(w.state(), WorkerState::Failed);
    assert!(w.is_terminated());
    assert!(!w.is_live());
}

#[test]
fn new_pool_has_as_many_idle_workers_as_asked() {
    for size in 1..9usize {
        let pool = pool_of(size);
        assert_eq!(pool.size(), size);
        assert_eq!(pool.capacity(), size);
        assert_eq!(pool.pending(), 0);
        assert!(pool.is_accepting());
        assert!(!pool.is_shut_down());
        for id in 0..size {
            assert_eq!(pool.worker_state(id), WorkerState::Idle);
        }
    }
}

#[test]
fn pool_of_no_workers_is_refused() {
    assert!(matches!(ThreadPool::new(0), Err(PoolError::ZeroWorkers)));
}

#[test]
fn jobs_reach_workers_in_submission_order_and_once() {
    let mut pool = pool_of(3);
    for job in [11u64, 12, 13, 14, 15] {
        assert_eq!(pool.execute(job), Ok(()));
    }
    assert_eq!(pool.pending(), 5);
    assert_eq!(claim(&mut pool, 2), Received::Job(11));
    assert_eq!(claim(&mut pool, 0), Received::Job(12));
    assert_eq!(claim(&mut pool, 1), Received::Job(13));
    assert_eq!(pool.worker_finish(0, Outcome::Completed), 12);
    assert_eq!(claim(&mut pool, 0), Received::Job(14));
    assert_eq!(pool.worker_finish(2, Outcome::Completed), 11);
    assert_eq!(claim(&mut pool, 2), Received::Job(15));
    assert_eq!(pool.pending(), 0);
    assert_eq!(pool.worker_finish(1, Outcome::Completed), 13);
    assert_eq!(claim(&mut pool, 1), Received::Empty);
    assert_eq!(pool.worker_state(1), WorkerState::Idle);
    assert_eq!(pool.worker_state(0), WorkerState::Busy(14));
    assert_eq!(pool.worker_state(2), WorkerState::Busy(15));
}

#[test]
fn two_jobs_are_in_flight_together_on_two_workers() {
    let mut pool = pool_of(2);
    assert_eq!(pool.execute(1), Ok(()));
    assert_eq!(pool.execute(2), Ok(()));
    assert_eq!(claim(&mut pool, 0), Received::Job(1));
    assert_eq!(claim(&mut pool, 1), Received::Job(2));
    assert_eq!(pool.worker_state(0), WorkerState::Busy(1));
    assert_eq!(pool.worker_state(1), WorkerState::Busy(2));
    assert_eq!(pool.capacity(), 2);
    assert_eq!(pool.worker_finish(1, Outcome::Completed), 2);
    assert_eq!(pool.worker_finish(0, Outcome::Completed), 1);
}

#[test]
fn shutdown_waits_for_every_queued_job() {
    let mut pool = pool_of(1);
    for job in 1..6u64 {
        assert_eq!(pool.execute(job), Ok(()));
    }
    assert_eq!(pool.shutdown_step(), ShutdownStep::Blocked(0));
    assert!(!pool.is_accepting());
    assert_eq!(pool.pending(), 5);
    for job in 1..6u64 {
        assert_eq!(claim(&mut pool, 0), Received::Job(job));
        assert_eq!(pool.shutdown_step(), ShutdownStep::Blocked(0));
        assert!(!pool.is_shut_down());
        assert_eq!(pool.worker_finish(0, Outcome::Completed), job);
        assert_eq!(pool.shutdown_step(), ShutdownStep::Blocked(0));
    }
    assert_eq!(claim(&mut pool, 0), Received::Closed);
    assert_eq!(pool.worker_state(0), WorkerState::Exited);
    assert_eq!(pool.shutdown_step(), ShutdownStep::Joined(0));
    assert_eq!(pool.shutdown_step(), ShutdownStep::Done);
    assert!(pool.is_shut_down());
    assert_eq!(pool.pending(), 0);
    assert_eq!(pool.capacity(), 0);
}

#[test]
fn shutdown_collects_workers_in_construction_order() {
    let mut pool = pool_of(3);
    assert_eq!(pool.shutdown_step(), ShutdownStep::Blocked(0));
    assert_eq!(claim(&mut pool, 2), Received::Closed);
    assert_eq!(claim(&mut pool, 1), Received::Closed);
    assert_eq!(pool.shutdown_step(), ShutdownStep::Blocked(0));
    assert_eq!(claim(&mut pool, 0), Received::Closed);
    assert_eq!(pool.shutdown_step(), ShutdownStep::Joined(0));
    assert_eq!(pool.shutdown_step(), ShutdownStep::Joined(1));
    assert!(!pool.is_shut_down());
    assert_eq!(pool.shutdown_step(), ShutdownStep::Joined(2));
    assert_eq!(pool.shutdown_step(), ShutdownStep::Done);
    assert_eq!(pool.shutdown_step(), ShutdownStep::Done);
    assert!(pool.is_shut_down());
}

#[test]
fn submission_after_shutdown_is_refused_and_enqueues_nothing() {
    let mut pool = pool_of(2);
    assert_eq!(pool.execute(1), Ok(()));
    assert_eq!(pool.shutdown_step(), ShutdownStep::Blocked(0));
    assert_eq!(pool.execute(2), Err(PoolError::Closed));
    assert_eq!(pool.pending(), 1);
    assert_eq!(claim(&mut pool, 0), Received::Job(1));
    assert_eq!(claim(&mut pool, 1), Received::Closed);
    assert_eq!(pool.execute(3), Err(PoolError::Closed));
    assert_eq!(pool.pending(), 0);
}

#[test]
fn failing_job_costs_exactly_its_own_worker() {
    let mut pool = pool_of(2);
    assert_eq!(pool.execute(1), Ok(()));
    assert_eq!(pool.execute(2), Ok(()));
    assert_eq!(claim(&mut pool, 0), Received::Job(1));
    assert_eq!(claim(&mut pool, 1), Received::Job(2));
    assert_eq!(pool.worker_finish(0, Outcome::Failed), 1);
    assert_eq!(pool.worker_state(0), WorkerState::Failed);
    assert_eq!(pool.worker_state(1), WorkerState::Busy(2));
    assert_eq!(pool.capacity(), 1);
    assert_eq!(pool.worker_finish(1, Outcome::Completed), 2);
    assert_eq!(pool.worker_state(1), WorkerState::Idle);
    assert_eq!(pool.capacity(), 1);
    assert!(pool.is_accepting());
    assert_eq!(pool.execute(3), Ok(()));
    assert_eq!(claim(&mut pool, 1), Received::Job(3));
}

#[test]
fn jobs_are_abandoned_when_the_only_worker_is_lost() {
    let mut pool = pool_of(1);
    assert_eq!(pool.execute(1), Ok(()));
    assert_eq!(pool.execute(2), Ok(()));
    assert_eq!(claim(&mut pool, 0), Received::Job(1));
    assert_eq!(pool.worker_finish(0, Outcome::Failed), 1);
    assert_eq!(pool.capacity(), 0);
    assert_eq!(pool.shutdown_step(), ShutdownStep::Joined(0));
    assert_eq!(pool.shutdown_step(), ShutdownStep::Done);
    assert!(pool.is_shut_down());
    assert_eq!(pool.pending(), 1);
}

#[test]
fn worker_loop_runs_pending_jobs_oldest_first_then_waits() {
    let mut pool = pool_of(2);
    for job in [5u64, 3, 5, 8] {
        assert_eq!(pool.execute(job), Ok(()));
    }
    assert_eq!(pool.run_worker(1), vec![5, 3, 5, 8]);
    assert_eq!(pool.pending(), 0);
    assert_eq!(pool.worker_state(1), WorkerState::Idle);
    assert_eq!(pool.worker_state(0), WorkerState::Idle);
    assert_eq!(pool.lock_holder(), Some(1));
    assert!(!pool.worker_lock(0));
    assert_eq!(pool.run_worker(1), Vec::<u64>::new());
    assert_eq!(pool.worker_state(1), WorkerState::Idle);
    assert!(pool.is_accepting());
}

#[test]
fn worker_loop_exits_on_a_closed_and_empty_channel() {
    let mut pool = pool_of(2);
    assert_eq!(pool.execute(1), Ok(()));
    assert_eq!(pool.shutdown_step(), ShutdownStep::Blocked(0));
    assert_eq!(pool.run_worker(1), vec![1]);
    assert_eq!(pool.worker_state(1), WorkerState::Exited);
    assert_eq!(pool.worker_state(0), WorkerState::Idle);
    assert_eq!(pool.capacity(), 1);
    assert_eq!(pool.run_worker(0), Vec::<u64>::new());
    assert_eq!(pool.worker_state(0), WorkerState::Exited);
    assert_eq!(pool.capacity(), 0);
}

#[test]
fn shutdown_of_one_worker_completes_five_queued_jobs() {
    let mut pool = pool_of(1);
    for job in 1..6u64 {
        assert_eq!(pool.execute(job), Ok(()));
    }
    assert_eq!(pool.shutdown(), vec![1, 2, 3, 4, 5]);
    assert!(pool.is_shut_down());
    assert!(!pool.is_accepting());
    assert_eq!(pool.pending(), 0);
    assert_eq!(pool.worker_state(0), WorkerState::Exited);
    assert_eq!(pool.execute(6), Err(PoolError::Closed));
    assert_eq!(pool.pending(), 0);
    assert_eq!(pool.shutdown(), Vec::<u64>::new());
    assert_eq!(pool.shutdown_step(), ShutdownStep::Done);
}

#[test]
fn shutdown_goes_on_after_a_lost_worker() {
    let mut pool = pool_of(3);
    for job in [10u64, 20, 30] {
        assert_eq!(pool.execute(job), Ok(()));
    }
    assert_eq!(claim(&mut pool, 0), Received::Job(10));
    assert_eq!(pool.worker_finish(0, Outcome::Failed), 10);
    assert_eq!(pool.shutdown(), vec![20, 30]);
    assert!(pool.is_shut_down());
    assert_eq!(pool.worker_state(0), WorkerState::Failed);
    assert_eq!(pool.worker_state(1), WorkerState::Exited);
    assert_eq!(pool.worker_state(2), WorkerState::Exited);
    assert_eq!(pool.pending(), 0);
}

#[test]
fn shutdown_without_a_worker_left_abandons_the_queue() {
    let mut pool = pool_of(1);
    assert_eq!(pool.execute(1), Ok(()));
    assert_eq!(pool.execute(2), Ok(()));
    assert_eq!(claim(&mut pool, 0), Received::Job(1));
    assert_eq!(pool.worker_finish(0, Outcome::Failed), 1);
    assert_eq!(pool.shutdown(), Vec::<u64>::new());
    assert!(pool.is_shut_down());
    assert_eq!(pool.pending(), 1);
}

fn some_operation(x: i32) -> i32 {
    2 + x
}

fn other_operation(x: i32, y: i32) -> bool {
    x == y
}

fn run_job(job: u64) {
    match job {
        0 => {
            let result = some_operation(5);
            assert_eq!(7, result);
        }
        1 => {
            assert!(other_operation(5, 5));
            assert!(!other_operation(1, 2));
        }
        _ => unreachable!(),
    }
}

#[test]
#[should_panic]
fn threadpool_size_cannot_be_zero() {
    let _pool = ThreadPool::new(0).unwrap();
}

#[test]
fn two_threads_execute_operation() {
    let mut pool = pool_of(2);
    assert_eq!(pool.execute(0), Ok(()));
    assert_eq!(pool.execute(1), Ok(()));
    let mut ran = Vec::new();
    for id in 0..2 {
        match claim(&mut pool, id) {
            Received::Job(job) => {
                run_job(job);
                ran.push(pool.worker_finish(id, Outcome::Completed));
            }
            other => panic!("worker {} got {:?}", id, other),
        }
    }
    assert_eq!(ran, vec![0, 1]);
    assert_eq!(pool.shutdown(), Vec::<u64>::new());
    assert!(pool.is_shut_down());
}

#[test]
fn lock_is_held_while_waiting_and_free_while_running() {
    let mut pool = pool_of(2);
    assert_eq!(pool.lock_holder(), None);
    assert!(pool.worker_lock(0));
    assert_eq!(pool.lock_holder(), Some(0));
    assert!(!pool.worker_lock(1));
    assert_eq!(pool.lock_holder(), Some(0));
    assert_eq!(pool.worker_receive(0), Received::Empty);
    assert_eq!(pool.lock_holder(), Some(0));
    assert_eq!(pool.execute(7), Ok(()));
    assert_eq!(pool.execute(8), Ok(()));
    assert_eq!(pool.worker_receive(0), Received::Job(7));
    assert_eq!(pool.lock_holder(), None);
    assert!(pool.worker_lock(1));
    assert_eq!(pool.worker_receive(1), Received::Job(8));
    assert_eq!(pool.lock_holder(), None);
    assert_eq!(pool.worker_state(0), WorkerState::Busy(7));
    assert_eq!(pool.worker_state(1), WorkerState::Busy(8));
}

#[test]
fn teardown_wakes_the_worker_that_waits_with_the_lock() {
    let mut pool = pool_of(3);
    assert!(pool.worker_lock(2));
    assert_eq!(pool.worker_receive(2), Received::Empty);
    assert_eq!(pool.execute(4), Ok(()));
    assert_eq!(pool.shutdown(), vec![4]);
    assert!(pool.is_shut_down());
    assert_eq!(pool.lock_holder(), None);
    for id in 0..3 {
        assert_eq!(pool.worker_state(id), WorkerState::Exited);
    }
}

#[test]
fn worker_loop_ends_waiting_with_the_lock_on_an_open_channel() {
    let mut pool = pool_of(2);
    assert_eq!(pool.execute(1), Ok(()));
    assert_eq!(pool.run_worker(0), vec![1]);
    assert_eq!(pool.lock_holder(), Some(0));
    assert_eq!(pool.execute(2), Ok(()));
    assert_eq!(pool.run_worker(0), vec![2]);
    assert_eq!(pool.lock_holder(), Some(0));
}

#[test]
fn shutdown_lets_jobs_in_flight_end_first() {
    let mut pool = pool_of(3);
    for job in [1u64, 2, 3, 4, 5] {
        assert_eq!(pool.execute(job), Ok(()));
    }
    assert_eq!(claim(&mut pool, 2), Received::Job(1));
    assert_eq!(claim(&mut pool, 0), Received::Job(2));
    assert_eq!(pool.finish_jobs(), vec![2, 1]);
    assert_eq!(pool.worker_state(0), WorkerState::Idle);
    assert_eq!(pool.worker_state(2), WorkerState::Idle);
    assert_eq!(claim(&mut pool, 1), Received::Job(3));
    assert_eq!(pool.shutdown(), vec![3, 4, 5]);
    assert!(pool.is_shut_down());
    assert_eq!(pool.pending(), 0);
    assert_eq!(pool.capacity(), 0);
}

#[test]
fn shutdown_with_only_busy_workers_still_runs_the_queue() {
    let mut pool = pool_of(2);
    for job in [7u64, 8, 9] {
        assert_eq!(pool.execute(job), Ok(()));
    }
    assert_eq!(claim(&mut pool, 1), Received::Job(7));
    assert_eq!(claim(&mut pool, 0), Received::Job(8));
    assert_eq!(pool.shutdown(), vec![8, 7, 9]);
    assert!(pool.is_shut_down());
    assert_eq!(pool.worker_state(0), WorkerState::Exited);
    assert_eq!(pool.worker_state(1), WorkerState::Exited);
}
