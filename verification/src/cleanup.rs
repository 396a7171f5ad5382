//! A scope-bound cleanup guard: it owns a caller-supplied action and runs it
//! exactly once, on the way out of the scope that owns the guard.
//!
//! The guard is closed explicitly from every exit path; closing a guard that
//! has already been closed does nothing. The action's single run is the
//! whole point, so the arming state machine is spelled out and proved below:
//! over any number of closes, an armed guard fires exactly once and a
//! disarmed one never fires.

use vstd::prelude::*;

verus! {

/// The caller-supplied cleanup action. Nothing is assumed of it: the guard
/// only promises how often it runs, not what it does.
pub trait Cleanup {
    fn run(&mut self);
}

pub struct ScopedCleanup<F: Cleanup> {
    action: F,
    armed: bool,
}

impl<F: Cleanup> ScopedCleanup<F> {
    /// A freshly constructed guard is armed: its action has not run.
    pub closed spec fn is_armed(&self) -> bool {
        self.armed
    }

    pub fn new(action: F) -> (guard: Self)
        ensures
            guard.is_armed(),
    {
        ScopedCleanup { action, armed: true }
    }

    /// Whether the action is still pending.
    pub fn pending(&self) -> (armed: bool)
        ensures
            armed == self.is_armed(),
    {
        self.armed
    }

    /// Run the action if it has not run yet, and disarm the guard. Called
    /// from every exit path of the owning scope; only the first call fires.
    pub fn close(&mut self)
        ensures
            !final (self).is_armed(),
            final (self).is_armed() == close_transition(old(self).is_armed()).0,
    {
        if self.armed {
            self.armed = false;
            self.action.run();
        }
    }
}

/// One close of the guard: the new arming state, and whether this close
/// fires the action. A close fires exactly when the guard was still armed,
/// and always leaves the guard disarmed.
pub open spec fn close_transition(armed: bool) -> (bool, bool) {
    (false, armed)
}

/// How many times the action fires over `closes` consecutive closes of a
/// guard whose arming state starts at `armed`.
pub open spec fn fires_within(armed: bool, closes: nat) -> nat
    decreases closes,
{
    if closes == 0 {
        0
    } else {
        let stepped = close_transition(armed);
        (if stepped.1 {
            1nat
        } else {
            0nat
        }) + fires_within(stepped.0, (closes - 1) as nat)
    }
}

/// However a scope is left, the action of an armed guard runs exactly once:
/// any positive number of closes fires it one single time.
pub proof fn lemma_armed_guard_fires_exactly_once(closes: nat)
    requires
        closes >= 1,
    ensures
        fires_within(true, closes) == 1,
{
    lemma_disarmed_guard_never_fires((closes - 1) as nat);
}

/// A guard whose action has already run never runs it again.
pub proof fn lemma_disarmed_guard_never_fires(closes: nat)
    ensures
        fires_within(false, closes) == 0,
    decreases closes,
{
    if closes > 0 {
        lemma_disarmed_guard_never_fires((closes - 1) as nat);
    }
}

} // verus!
