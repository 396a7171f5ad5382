//! The watchdog that races a grace period against a lock acquisition.
//!
//! A watchdog repeatedly observes two facts: whether the acquisition it
//! guards has succeeded, and whether its deadline has elapsed. Each
//! observation drives one step of a three-state machine: from `Waiting` it
//! either exits silently on success or, once the deadline has passed with no
//! success, emits exactly one timeout report; both outcomes are terminal.

use vstd::prelude::*;

verus! {

/// Grace period granted to an acquisition before it is reported, in seconds.
pub const GRACE_SECS: u64 = 3;

#[derive(Clone, Copy, Debug, PartialEq, Eq, Structural)]
pub enum WatchdogState {
    Waiting,
    SucceededSilently,
    ReportedTimeout,
}

/// One observation made by a polling watchdog: whether the acquisition's
/// success flag was set, and whether the deadline had elapsed.
#[derive(Clone, Copy, Debug, PartialEq, Eq, Structural)]
pub struct Observation {
    pub succeeded: bool,
    pub timed_out: bool,
}

/// The transition relation: the next state, and whether this step emits the
/// timeout report. Success takes precedence over the deadline, and the two
/// non-waiting states are terminal and silent.
pub open spec fn step_spec(state: WatchdogState, obs: Observation) -> (WatchdogState, bool) {
    match state {
        WatchdogState::Waiting => {
            if obs.succeeded {
                (WatchdogState::SucceededSilently, false)
            } else if obs.timed_out {
                (WatchdogState::ReportedTimeout, true)
            } else {
                (WatchdogState::Waiting, false)
            }
        },
        WatchdogState::SucceededSilently => (WatchdogState::SucceededSilently, false),
        WatchdogState::ReportedTimeout => (WatchdogState::ReportedTimeout, false),
    }
}

/// Drive the state machine by one observation; the second component of the
/// result says whether a report must be emitted now.
pub fn watchdog_step(state: WatchdogState, obs: Observation) -> (r: (WatchdogState, bool))
    ensures
        r == step_spec(state, obs),
{
    match state {
        WatchdogState::Waiting => {
            if obs.succeeded {
                (WatchdogState::SucceededSilently, false)
            } else if obs.timed_out {
                (WatchdogState::ReportedTimeout, true)
            } else {
                (WatchdogState::Waiting, false)
            }
        },
        WatchdogState::SucceededSilently => (WatchdogState::SucceededSilently, false),
        WatchdogState::ReportedTimeout => (WatchdogState::ReportedTimeout, false),
    }
}

/// How many reports a watchdog starting in `state` emits over a whole
/// sequence of observations.
pub open spec fn reports_emitted(state: WatchdogState, trace: Seq<Observation>) -> nat
    decreases trace.len(),
{
    if trace.len() == 0 {
        0
    } else {
        let stepped = step_spec(state, trace[0]);
        (if stepped.1 {
            1nat
        } else {
            0nat
        }) + reports_emitted(stepped.0, trace.subrange(1, trace.len() as int))
    }
}

/// A watchdog that has left `Waiting` never reports again.
pub proof fn lemma_terminal_states_silent(state: WatchdogState, trace: Seq<Observation>)
    requires
        state != WatchdogState::Waiting,
    ensures
        reports_emitted(state, trace) == 0,
    decreases trace.len(),
{
    if trace.len() > 0 {
        let stepped = step_spec(state, trace[0]);
        lemma_terminal_states_silent(stepped.0, trace.subrange(1, trace.len() as int));
    }
}

/// An acquisition that completes within the grace period produces no
/// diagnostic output: if at every observation where the deadline has elapsed
/// the success flag is already set, no report is ever emitted.
pub proof fn lemma_timely_success_is_silent(state: WatchdogState, trace: Seq<Observation>)
    requires
        forall|i: int| 0 <= i < trace.len() ==> (#[trigger] trace[i].timed_out ==> trace[i].succeeded),
    ensures
        reports_emitted(state, trace) == 0,
    decreases trace.len(),
{
    if trace.len() > 0 {
        let stepped = step_spec(state, trace[0]);
        assert(!stepped.1);
        let rest = trace.subrange(1, trace.len() as int);
        assert(forall|i: int|
            0 <= i < rest.len() ==> (#[trigger] rest[i].timed_out ==> rest[i].succeeded)) by {
            assert(forall|i: int| 0 <= i < rest.len() ==> rest[i] == trace[i + 1]);
        }
        lemma_timely_success_is_silent(stepped.0, rest);
    }
}

/// An acquisition that blocks strictly past the grace period is reported
/// exactly once: if the success flag is never observed set and the deadline
/// is observed elapsed at least once, one report is emitted in the whole
/// trace, no more and no fewer.
pub proof fn lemma_blocked_attempt_reported_once(trace: Seq<Observation>)
    requires
        forall|i: int| 0 <= i < trace.len() ==> !(#[trigger] trace[i]).succeeded,
        exists|i: int| 0 <= i < trace.len() && (#[trigger] trace[i]).timed_out,
    ensures
        reports_emitted(WatchdogState::Waiting, trace) == 1,
    decreases trace.len(),
{
    let witness = choose|i: int| 0 <= i < trace.len() && (#[trigger] trace[i]).timed_out;
    let rest = trace.subrange(1, trace.len() as int);
    assert(forall|i: int| 0 <= i < rest.len() ==> rest[i] == trace[i + 1]);
    if trace[0].timed_out {
        lemma_terminal_states_silent(WatchdogState::ReportedTimeout, rest);
    } else {
        assert(0 <= witness - 1 < rest.len() && rest[witness - 1].timed_out);
        lemma_blocked_attempt_reported_once(rest);
    }
}

} // verus!
