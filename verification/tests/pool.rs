use worker_pool::Connection;
use worker_pool::RecordingWorker;
use worker_pool::WorkerPool;

#[test]
fn capacity_two_scenario() {
    // assign(A) -> true, assign(B) -> true, assign(C) -> false (queue full);
    // the drain pass executes A then B, in that order; afterwards C fits.
    let mut pool = WorkerPool::new(2, RecordingWorker::new());
    assert!(pool.assign_connection(Connection::new(1)));
    assert!(pool.assign_connection(Connection::new(2)));
    assert!(!pool.assign_connection(Connection::new(3)));
    pool.wake();
    pool.drain();
    assert_eq!(pool.worker.log, vec![1, 2]);
    assert!(pool.assign_connection(Connection::new(3)));
}

#[test]
fn capacity_one_single_winner() {
    // Two producers race for the single slot: exactly one assignment
    // succeeds, and the successful connection is the one executed.
    let mut pool = WorkerPool::new(1, RecordingWorker::new());
    let first = pool.assign_connection(Connection::new(7));
    let second = pool.assign_connection(Connection::new(8));
    assert!(first);
    assert!(!second);
    pool.wake();
    pool.drain();
    assert_eq!(pool.worker.log, vec![7]);
}

#[test]
fn idle_pool_stays_parked() {
    // With no connection ever assigned the dispatch loop stays in WAITING:
    // there is nothing to pop and no pending wake that would spin it.
    let mut pool = WorkerPool::new(3, RecordingWorker::new());
    assert!(pool.is_waiting());
    assert!(!pool.has_pending_wake());
    assert_eq!(pool.next_connection(), None);
    assert!(pool.is_waiting());
    assert!(!pool.has_pending_wake());
    assert_eq!(pool.next_connection(), None);
    assert!(pool.worker.log.is_empty());
}

#[test]
fn queue_is_fifo() {
    // Connections come back out of the queue oldest first.
    let mut pool = WorkerPool::new(4, RecordingWorker::new());
    assert!(pool.assign_connection(Connection::new(10)));
    assert!(pool.assign_connection(Connection::new(11)));
    assert!(pool.assign_connection(Connection::new(12)));
    assert_eq!(pool.next_connection(), Some(Connection::new(10)));
    assert_eq!(pool.next_connection(), Some(Connection::new(11)));
    assert_eq!(pool.next_connection(), Some(Connection::new(12)));
    assert_eq!(pool.next_connection(), None);
}

#[test]
fn rejection_only_at_capacity() {
    // assign returns false exactly when the queue is full; popping one
    // element makes room for exactly one more.
    let mut pool = WorkerPool::new(2, RecordingWorker::new());
    assert!(pool.assign_connection(Connection::new(1)));
    assert!(pool.assign_connection(Connection::new(2)));
    assert!(!pool.assign_connection(Connection::new(3)));
    assert_eq!(pool.next_connection(), Some(Connection::new(1)));
    assert!(pool.assign_connection(Connection::new(4)));
    assert!(!pool.assign_connection(Connection::new(5)));
}

#[test]
fn signals_coalesce_into_one_pending_wake() {
    // Several successful assignments issue several signals, but they
    // collapse into a single pending wake, consumed by a single wakeup.
    let mut pool = WorkerPool::new(4, RecordingWorker::new());
    assert!(pool.assign_connection(Connection::new(1)));
    assert!(pool.assign_connection(Connection::new(2)));
    assert!(pool.assign_connection(Connection::new(3)));
    assert!(pool.has_pending_wake());
    pool.wake();
    assert!(!pool.has_pending_wake());
    pool.drain();
    assert_eq!(pool.worker.log, vec![1, 2, 3]);
    assert!(!pool.has_pending_wake());
}

#[test]
fn drain_after_late_assignment() {
    // A connection assigned while the loop is draining leaves a pending
    // wake behind, so the loop is woken again rather than deadlocking.
    let mut pool = WorkerPool::new(2, RecordingWorker::new());
    assert!(pool.assign_connection(Connection::new(1)));
    pool.wake();
    pool.drain();
    assert_eq!(pool.worker.log, vec![1]);
    // producer runs while the consumer is between drain passes
    assert!(pool.assign_connection(Connection::new(2)));
    assert!(pool.has_pending_wake());
    pool.wake();
    pool.drain();
    assert_eq!(pool.worker.log, vec![1, 2]);
}

#[test]
fn connection_keeps_identifier() {
    let c = Connection::new(42);
    assert_eq!(c.id, 42);
    assert_eq!(c, Connection::new(42));
}
