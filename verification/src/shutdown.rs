//! The shutdown signal: a single broadcast value meaning "stop now".
//!
//! The signal makes at most one meaningful transition per process lifetime,
//! from unset to fired. Once fired it stays fired, so every task that checks
//! it at a later point observes the stop request. The surrounding process
//! holds one instance behind its own fan-out primitive and asks each task to
//! consult it at every scheduling point.
use vstd::prelude::*;

verus! {

/// Broadcast stop request; fired at most once, never cleared.
pub struct ShutdownSignal {
    fired: bool,
}

impl ShutdownSignal {
    /// Whether the stop request has been issued.
    pub closed spec fn spec_fired(&self) -> bool {
        self.fired
    }

    /// A fresh signal: not fired.
    pub fn new() -> (s: ShutdownSignal)
        ensures
            !s.spec_fired(),
    {
        ShutdownSignal { fired: false }
    }

    /// Issues the stop request. Firing is idempotent: the signal is fired
    /// afterwards whether or not it already was, and it can never return to
    /// the unset state.
    pub fn fire(&mut self)
        ensures
            final(self).spec_fired(),
    {
        self.fired = true;
    }

    /// Observes the signal.
    pub fn is_fired(&self) -> (r: bool)
        ensures
            r == self.spec_fired(),
    {
        self.fired
    }
}

} // verus!
