//! The shared, idempotent, cooperative stop flag.

use vstd::prelude::*;

verus! {

/// A stop flag created once at process start and shared everywhere. It can
/// only move from unsignalled to signalled and never back; re-firing is a
/// no-op. The asynchronous shell pairs it with a wake-up primitive so that
/// suspended tasks observe it promptly.
pub struct CancellationSignal {
    pub signalled: bool,
}

/// What one firing does to the signal, as a value transformation.
pub open spec fn spec_fire(s: CancellationSignal) -> CancellationSignal {
    CancellationSignal { signalled: true }
}

/// The signal after `n` firings.
pub open spec fn fired_n(s: CancellationSignal, n: nat) -> CancellationSignal
    decreases n,
{
    if n == 0 {
        s
    } else {
        spec_fire(fired_n(s, (n - 1) as nat))
    }
}

impl CancellationSignal {
    pub fn new() -> (r: CancellationSignal)
        ensures
            !r.signalled,
    {
        CancellationSignal { signalled: false }
    }

    /// Fires the signal. Idempotent: firing a signalled signal changes
    /// nothing, and a signal never un-fires.
    pub fn fire(&mut self)
        ensures
            final (self).signalled,
            *final (self) == spec_fire(*old(self)),
    {
        self.signalled = true;
    }

    pub fn is_fired(&self) -> (r: bool)
        ensures
            r == self.signalled,
    {
        self.signalled
    }
}

/// Firing the signal any number of times at least one leaves it signalled,
/// and the result is the same whatever the number: cancellation is
/// idempotent.
pub proof fn lemma_fire_idempotent(s: CancellationSignal, n: nat)
    requires
        n >= 1,
    ensures
        fired_n(s, n).signalled,
        fired_n(s, n) == spec_fire(s),
    decreases n,
{
    if n > 1 {
        lemma_fire_idempotent(s, (n - 1) as nat);
    }
}

/// A signalled signal stays signalled under any further firings: it never
/// un-signals.
pub proof fn lemma_never_unsignals(s: CancellationSignal, n: nat)
    requires
        s.signalled,
    ensures
        fired_n(s, n).signalled,
{
    if n >= 1 {
        lemma_fire_idempotent(s, n);
    }
}

} // verus!
