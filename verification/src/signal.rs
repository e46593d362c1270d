use vstd::prelude::*;

verus! {

/// The coalescing wakeup state: either no pending wake or exactly one
/// pending wake. Any number of signals issued before the pending wake is
/// consumed collapse into a single pending wake; the flag carries no count.
pub struct WakeSignal {
    pub pending: bool,
}

/// The state a signal is left in by `signal()`: one pending wake, whatever
/// the previous state was. This is what makes the signal coalescing.
pub open spec fn signaled(s: WakeSignal) -> WakeSignal {
    WakeSignal { pending: true }
}

impl WakeSignal {
    pub open spec fn is_pending(self) -> bool {
        self.pending
    }

    pub fn new() -> (s: WakeSignal)
        ensures
            !s.is_pending(),
    {
        WakeSignal { pending: false }
    }

    /// Record a wakeup. Signalling is absorbing: afterwards exactly one wake
    /// is pending, no matter how many signals came before.
    pub fn signal(&mut self)
        ensures
            *final(self) == signaled(*old(self)),
            final(self).is_pending(),
    {
        self.pending = true;
    }

    /// The consumer's side of `wait()`: report whether a wake was pending
    /// and clear it, so the next wait will park unless a new signal arrives.
    pub fn consume(&mut self) -> (was_pending: bool)
        ensures
            was_pending == old(self).is_pending(),
            !final(self).is_pending(),
    {
        let was_pending = self.pending;
        self.pending = false;
        was_pending
    }
}

/// Coalescing law: issuing a signal on an already-signalled state changes
/// nothing, so any run of consecutive signals leaves the same state as a
/// single one.
pub proof fn lemma_signal_coalesces(s: WakeSignal)
    ensures
        signaled(signaled(s)) == signaled(s),
        signaled(s).is_pending(),
{
}

#[verifier::external_type_specification]
#[verifier::external_body]
pub struct ExNotify(tokio::sync::Notify);

/// Relies on tokio::sync::Notify::new: a fresh notifier with no waiter and
/// no stored permit.
#[verifier::external_body]
pub(crate) fn notify_new() -> tokio::sync::Notify {
    tokio::sync::Notify::new()
}

/// Relies on tokio::sync::Notify::notify_one: wakes the task waiting on the
/// notifier, or, when none waits, stores a single permit so that the next
/// wait returns immediately; repeated calls coalesce into that one permit.
#[verifier::external_body]
pub(crate) fn notify_waiter(n: &tokio::sync::Notify) {
    n.notify_one();
}

} // verus!
