use vstd::prelude::*;

use crate::connection::Connection;
use crate::queue::{queue_capacity, queue_contents, queue_new, queue_pop, queue_push};
use crate::signal::{notify_new, notify_waiter, WakeSignal};

verus! {

/// The capability the pool hands each accepted connection to. The single
/// extension point of the library: implement it to define what happens to a
/// connection once the dispatch loop picks it up.
pub trait Worker {
    /// The identifiers of the connections this worker has executed so far,
    /// in execution order.
    spec fn handled(&self) -> Seq<u64>;

    /// Process one connection. The pool calls this exactly once per
    /// accepted connection, in acceptance order; how the connection is
    /// handled, and what happens on failure, is entirely the worker's own
    /// concern.
    fn execute(&mut self, connection: Connection)
        ensures
            final(self).handled() == old(self).handled().push(connection.id),
    ;
}

/// The two logical states of the dispatch loop: parked on the wakeup
/// signal, or popping the queue until it is empty.
#[derive(Clone, Copy, PartialEq, Eq, Structural, Debug)]
pub enum DispatchState {
    Waiting,
    Draining,
}

/// One dispatch shard: a bounded FIFO queue of pending connections, a
/// coalescing wakeup signal, and the worker that processes each connection.
///
/// Producers call `assign_connection`; the single consumer alternates
/// between waiting on the notifier (`wake` marks the return from that wait)
/// and draining the queue (`next_connection` or `drain`).
pub struct WorkerPool<W> {
    queue: crossbeam_queue::ArrayQueue<u64>,
    notifier: std::sync::Arc<tokio::sync::Notify>,
    signal: WakeSignal,
    state: DispatchState,
    pub worker: W,
    accepted: Ghost<Seq<u64>>,
    delivered: Ghost<Seq<u64>>,
}

impl<W> WorkerPool<W> {
    /// The fixed capacity of the queue, as set at construction.
    pub closed spec fn capacity(self) -> nat {
        queue_capacity(self.queue)
    }

    /// The identifiers accepted but not yet handed over, oldest first.
    pub closed spec fn queued(self) -> Seq<u64> {
        queue_contents(self.queue)
    }

    /// The identifiers of every connection accepted so far, in acceptance
    /// order.
    pub closed spec fn accepted(self) -> Seq<u64> {
        self.accepted@
    }

    /// The identifiers handed to the worker so far, in hand-off order.
    pub closed spec fn delivered(self) -> Seq<u64> {
        self.delivered@
    }

    /// Whether a wakeup is pending: set by every successful assignment,
    /// consumed when the dispatch loop returns from its wait.
    pub closed spec fn wake_pending(self) -> bool {
        self.signal.is_pending()
    }

    /// The dispatch loop's current logical state.
    pub closed spec fn dispatch_state(self) -> DispatchState {
        self.state
    }

    /// The worker bound to this pool, for speaking of its state in
    /// contracts.
    pub closed spec fn worker(self) -> W {
        self.worker
    }

    /// Well-formedness: the queue never exceeds its positive capacity; the
    /// connections accepted so far are exactly those already delivered
    /// followed by those still queued; and while items remain queued with
    /// the dispatch loop parked, a wakeup is pending, so the loop cannot
    /// stay parked with work outstanding.
    pub open spec fn wf(self) -> bool {
        &&& 1 <= self.capacity()
        &&& self.queued().len() <= self.capacity()
        &&& self.accepted() == self.delivered() + self.queued()
        &&& (self.queued().len() > 0 && self.dispatch_state() == DispatchState::Waiting
            ==> self.wake_pending())
    }

    /// Create an empty pool of the given fixed capacity, bound to the given
    /// worker, with the dispatch loop considered parked and no wake pending.
    pub fn new(queue_size: usize, worker: W) -> (pool: WorkerPool<W>)
        requires
            1 <= queue_size < usize::MAX / 2,
        ensures
            pool.wf(),
            pool.capacity() == queue_size,
            pool.queued().len() == 0,
            pool.accepted().len() == 0,
            pool.delivered().len() == 0,
            !pool.wake_pending(),
            pool.dispatch_state() == DispatchState::Waiting,
            pool.worker() == worker,
    {
        let pool = WorkerPool {
            queue: queue_new(queue_size),
            notifier: std::sync::Arc::new(notify_new()),
            signal: WakeSignal::new(),
            state: DispatchState::Waiting,
            worker,
            accepted: Ghost(Seq::empty()),
            delivered: Ghost(Seq::empty()),
        };
        proof {
            assert(pool.accepted() =~= pool.delivered() + pool.queued());
        }
        pool
    }

    /// The producer-facing entry point: try to enqueue the connection and,
    /// on success, leave a wakeup pending and notify the dispatch task. The
    /// attempt is rejected exactly when the queue is at capacity; nothing is
    /// retried, buffered or blocked on.
    pub fn assign_connection(&mut self, connection: Connection) -> (accepted: bool)
        requires
            old(self).wf(),
        ensures
            final(self).wf(),
            accepted == (old(self).queued().len() < old(self).capacity()),
            final(self).capacity() == old(self).capacity(),
            final(self).delivered() == old(self).delivered(),
            final(self).dispatch_state() == old(self).dispatch_state(),
            final(self).worker() == old(self).worker(),
            accepted ==> final(self).queued() == old(self).queued().push(connection.id),
            accepted ==> final(self).accepted() == old(self).accepted().push(connection.id),
            accepted ==> final(self).wake_pending(),
            !accepted ==> final(self).queued() == old(self).queued(),
            !accepted ==> final(self).accepted() == old(self).accepted(),
            !accepted ==> final(self).wake_pending() == old(self).wake_pending(),
    {
        let pushed = queue_push(&mut self.queue, connection.id);
        if pushed {
            self.accepted = Ghost(self.accepted@.push(connection.id));
            self.signal.signal();
            notify_waiter(&self.notifier);
            proof {
                assert(self.accepted() =~= self.delivered() + self.queued());
            }
            true
        } else {
            false
        }
    }

    /// Whether the dispatch loop is currently in its WAITING state.
    pub fn is_waiting(&self) -> (waiting: bool)
        ensures
            waiting == (self.dispatch_state() == DispatchState::Waiting),
    {
        self.state == DispatchState::Waiting
    }

    /// Whether a wakeup is pending, that is, whether a wait begun now would
    /// return immediately instead of parking.
    pub fn has_pending_wake(&self) -> (pending: bool)
        ensures
            pending == self.wake_pending(),
    {
        self.signal.pending
    }

    /// Relies on std::sync::Arc::clone: hands out another handle to the
    /// notifier this pool signals, so the dispatch task can wait on it
    /// without holding the pool itself.
    #[verifier::external_body]
    pub fn notifier(&self) -> std::sync::Arc<tokio::sync::Notify> {
        std::sync::Arc::clone(&self.notifier)
    }

    /// The WAITING to DRAINING transition: the dispatch task has returned
    /// from waiting on the notifier and is about to drain the queue; the
    /// pending wake, if any, is consumed.
    pub fn wake(&mut self)
        requires
            old(self).wf(),
        ensures
            final(self).wf(),
            final(self).dispatch_state() == DispatchState::Draining,
            !final(self).wake_pending(),
            final(self).capacity() == old(self).capacity(),
            final(self).queued() == old(self).queued(),
            final(self).accepted() == old(self).accepted(),
            final(self).delivered() == old(self).delivered(),
            final(self).worker() == old(self).worker(),
    {
        let _was_pending = self.signal.consume();
        self.state = DispatchState::Draining;
    }

    /// One step of the drain pass: pop the oldest pending connection and
    /// record its hand-off, or, when the queue is empty, park the dispatch
    /// loop again. The connection returned is always the next accepted one
    /// not yet delivered, so hand-off order is acceptance order.
    pub fn next_connection(&mut self) -> (next: Option<Connection>)
        requires
            old(self).wf(),
        ensures
            final(self).wf(),
            final(self).capacity() == old(self).capacity(),
            final(self).accepted() == old(self).accepted(),
            final(self).worker() == old(self).worker(),
            match next {
                Some(c) => {
                    &&& old(self).queued().len() > 0
                    &&& c.id == old(self).queued()[0]
                    &&& c.id == old(self).accepted()[old(self).delivered().len() as int]
                    &&& final(self).queued() == old(self).queued().drop_first()
                    &&& final(self).delivered() == old(self).delivered().push(c.id)
                    &&& final(self).dispatch_state() == DispatchState::Draining
                    &&& final(self).wake_pending() == old(self).wake_pending()
                },
                None => {
                    &&& old(self).queued().len() == 0
                    &&& final(self).queued() == old(self).queued()
                    &&& final(self).delivered() == old(self).delivered()
                    &&& final(self).dispatch_state() == DispatchState::Waiting
                    &&& final(self).wake_pending() == old(self).wake_pending()
                },
            },
    {
        match queue_pop(&mut self.queue) {
            Some(id) => {
                self.delivered = Ghost(self.delivered@.push(id));
                self.state = DispatchState::Draining;
                proof {
                    assert(old(self).accepted() == old(self).delivered() + old(self).queued());
                    assert(self.accepted() =~= self.delivered() + self.queued());
                }
                Some(Connection { id })
            },
            None => {
                self.state = DispatchState::Waiting;
                None
            },
        }
    }
}

impl<W: Worker> WorkerPool<W> {
    /// The DRAINING phase of the dispatch loop, for workers that do not
    /// suspend: pop until the queue is empty, handing each connection to
    /// the worker in acceptance order, then go back to WAITING. Afterwards
    /// every connection ever accepted has been delivered.
    pub fn drain(&mut self)
        requires
            old(self).wf(),
        ensures
            final(self).wf(),
            final(self).capacity() == old(self).capacity(),
            final(self).queued().len() == 0,
            final(self).accepted() == old(self).accepted(),
            final(self).delivered() == old(self).delivered() + old(self).queued(),
            final(self).delivered() == old(self).accepted(),
            final(self).worker().handled() == old(self).worker().handled() + old(self).queued(),
            final(self).dispatch_state() == DispatchState::Waiting,
            final(self).wake_pending() == old(self).wake_pending(),
    {
        let ghost mut k: int = 0;
        loop
            invariant
                self.wf(),
                0 <= k <= old(self).queued().len(),
                self.capacity() == old(self).capacity(),
                self.accepted() == old(self).accepted(),
                self.wake_pending() == old(self).wake_pending(),
                self.queued() == old(self).queued().skip(k),
                self.delivered() == old(self).delivered() + old(self).queued().take(k),
                self.worker().handled() == old(self).worker().handled() + old(self).queued().take(k),
            ensures
                self.wf(),
                self.queued().len() == 0,
                self.capacity() == old(self).capacity(),
                self.accepted() == old(self).accepted(),
                self.wake_pending() == old(self).wake_pending(),
                self.delivered() == old(self).delivered() + old(self).queued(),
                self.worker().handled() == old(self).worker().handled() + old(self).queued(),
                self.dispatch_state() == DispatchState::Waiting,
            decreases self.queued().len(),
        {
            match self.next_connection() {
                Some(c) => {
                    self.worker.execute(c);
                    proof {
                        k = k + 1;
                    }
                },
                None => {
                    proof {
                        assert(k == old(self).queued().len());
                        assert(old(self).queued().take(k) =~= old(self).queued());
                    }
                    break ;
                },
            }
        }
    }
}

/// Capacity invariant: however the pool has been used, the number of queued
/// connections never exceeds the capacity fixed at construction.
pub proof fn lemma_capacity_invariant<W>(pool: WorkerPool<W>)
    requires
        pool.wf(),
    ensures
        pool.queued().len() <= pool.capacity(),
{
}

/// FIFO hand-off: the sequence of connections handed to the worker is a
/// prefix of the sequence of accepted connections, position by position; a
/// connection accepted earlier is therefore delivered earlier.
pub proof fn lemma_fifo_order<W>(pool: WorkerPool<W>)
    requires
        pool.wf(),
    ensures
        pool.delivered().len() <= pool.accepted().len(),
        forall|i: int|
            0 <= i < pool.delivered().len() ==> pool.delivered()[i] == pool.accepted()[i],
{
}

/// No lost accept: every connection ever accepted is either already
/// delivered to the worker or still sits in the queue; nothing is dropped
/// between acceptance and hand-off.
pub proof fn lemma_no_lost_accept<W>(pool: WorkerPool<W>)
    requires
        pool.wf(),
    ensures
        pool.accepted() == pool.delivered() + pool.queued(),
{
}

/// No missed wakeup: if connections remain queued while the dispatch loop
/// is parked, a wake is pending, so the next wait returns immediately and
/// the loop cannot stay parked with work outstanding.
pub proof fn lemma_no_missed_wakeup<W>(pool: WorkerPool<W>)
    requires
        pool.wf(),
        pool.queued().len() > 0,
        pool.dispatch_state() == DispatchState::Waiting,
    ensures
        pool.wake_pending(),
{
}

/// A worker that records the identifier of each connection it executes, in
/// order: the simplest complete implementation of the capability, useful
/// for observing the hand-off order.
pub struct RecordingWorker {
    pub log: Vec<u64>,
}

impl RecordingWorker {
    pub fn new() -> (w: RecordingWorker)
        ensures
            w.handled() == Seq::<u64>::empty(),
    {
        RecordingWorker { log: Vec::new() }
    }
}

impl Worker for RecordingWorker {
    open spec fn handled(&self) -> Seq<u64> {
        self.log@
    }

    fn execute(&mut self, connection: Connection) {
        self.log.push(connection.id);
    }
}

} // verus!
