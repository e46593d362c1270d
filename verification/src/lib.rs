//! A dispatch primitive for handing inbound connections to a single
//! asynchronous processing loop: a bounded, non-blocking work queue paired
//! with a coalescing wakeup signal.

pub mod connection;
pub mod pool;
pub mod queue;
pub mod signal;

pub use connection::Connection;
pub use pool::DispatchState;
pub use pool::RecordingWorker;
pub use pool::Worker;
pub use pool::WorkerPool;
pub use signal::WakeSignal;
