use std::sync::Arc;
use std::sync::Mutex;

use worker_pool::Connection;
use worker_pool::RecordingWorker;
use worker_pool::WorkerPool;

#[test]
fn stored_permit_wakes_the_next_wait() {
    // Assignments made before the consumer parks leave a permit in the
    // notifier, so the consumer's wait returns immediately and the drain
    // pass sees both connections. Hangs here would mean a lost wakeup.
    let rt = tokio::runtime::Builder::new_current_thread().build().unwrap();
    rt.block_on(async {
        let pool = Arc::new(Mutex::new(WorkerPool::new(4, RecordingWorker::new())));
        let notifier = pool.lock().unwrap().notifier();
        assert!(pool.lock().unwrap().assign_connection(Connection::new(1)));
        assert!(pool.lock().unwrap().assign_connection(Connection::new(2)));
        notifier.notified().await;
        let mut p = pool.lock().unwrap();
        p.wake();
        p.drain();
        assert_eq!(p.worker.log, vec![1, 2]);
    });
}

#[test]
fn wakeup_reaches_a_parked_consumer_task() {
    // The consumer runs as its own task; a producer assignment wakes it
    // through the notifier and the accepted connection is executed.
    let rt = tokio::runtime::Builder::new_multi_thread()
        .worker_threads(2)
        .build()
        .unwrap();
    rt.block_on(async {
        let pool = Arc::new(Mutex::new(WorkerPool::new(2, RecordingWorker::new())));
        let consumer_pool = Arc::clone(&pool);
        let consumer = tokio::spawn(async move {
            let notifier = consumer_pool.lock().unwrap().notifier();
            notifier.notified().await;
            let mut p = consumer_pool.lock().unwrap();
            p.wake();
            p.drain();
            p.worker.log.clone()
        });
        assert!(pool.lock().unwrap().assign_connection(Connection::new(9)));
        let log = consumer.await.unwrap();
        assert_eq!(log, vec![9]);
    });
}
