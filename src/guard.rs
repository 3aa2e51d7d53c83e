//! The outcome of entering a guarded shared structure. A guard that a
//! previous holder left inconsistent still hands out its data: the caller
//! continues with it and reports a warning instead of failing.
use vstd::prelude::*;

verus! {

/// What an attempt to enter a guarded structure produced.
pub enum GuardOutcome<G> {
    /// The guard was healthy.
    Healthy(G),
    /// A previous holder stopped mid-update; the data is still reachable.
    Poisoned(G),
}

impl<G> GuardOutcome<G> {
    /// Recovers the guarded data whatever the guard's health, together with
    /// whether a warning is due.
    pub fn recover(self) -> (r: (G, bool))
        ensures
            r == match self {
                GuardOutcome::Healthy(g) => (g, false),
                GuardOutcome::Poisoned(g) => (g, true),
            },
    {
        match self {
            GuardOutcome::Healthy(g) => (g, false),
            GuardOutcome::Poisoned(g) => (g, true),
        }
    }
}

} // verus!
