//! Cooperative cancellation fed by two independent sources: the external
//! shutdown signal and the pool's own quota signal.

use vstd::prelude::*;

verus! {

/// What a loop has observed of the two shutdown broadcasts. Each source can
/// only go from quiet to fired.
#[derive(Clone, Copy, Debug, PartialEq, Eq, Structural)]
pub struct ShutdownState {
    pub external: bool,
    pub local: bool,
}

impl ShutdownState {
    pub open spec fn triggered_spec(&self) -> bool {
        self.external || self.local
    }

    pub fn new() -> (r: ShutdownState)
        ensures
            !r.external,
            !r.local,
    {
        ShutdownState { external: false, local: false }
    }

    pub fn is_triggered(&self) -> (r: bool)
        ensures
            r == self.triggered_spec(),
    {
        self.external || self.local
    }

    /// Records that the external shutdown signal was received.
    pub fn fire_external(&mut self)
        ensures
            final(self).external,
            final(self).local == old(self).local,
    {
        self.external = true;
    }

    /// Records that the pool's quota signal was received.
    pub fn fire_local(&mut self)
        ensures
            final(self).local,
            final(self).external == old(self).external,
    {
        self.local = true;
    }
}

/// Firing is monotonic and idempotent: once triggered the state stays
/// triggered whichever source fires next, and firing a source twice leaves
/// the same state as firing it once.
pub proof fn lemma_firing_monotonic_idempotent(s: ShutdownState)
    ensures
        s.triggered_spec() ==> (ShutdownState { external: true, ..s }).triggered_spec(),
        s.triggered_spec() ==> (ShutdownState { local: true, ..s }).triggered_spec(),
        (ShutdownState { external: true, ..(ShutdownState { external: true, ..s }) })
            == (ShutdownState { external: true, ..s }),
        (ShutdownState { local: true, ..(ShutdownState { local: true, ..s }) })
            == (ShutdownState { local: true, ..s }),
{
}

} // verus!
