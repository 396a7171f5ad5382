//! A ghost model of the diagnostic state shared between a lock and its
//! watchdogs.
//!
//! Each acquisition attempt gets an identity. An attempt that returns from
//! the underlying lock first signals success (its flag flips) and only then
//! overwrites the shared holder record with its own stack. The model keeps
//! the set of attempts that have signalled and the identity of the attempt
//! the record currently shows, and proves that the record never shows an
//! attempt that is still blocked.

use vstd::prelude::*;

verus! {

pub struct DiagnosticState {
    /// The attempt whose stack the shared holder record currently shows;
    /// `None` before the first successful acquisition.
    pub record: Option<nat>,
    /// Attempts whose success flag has been set: their underlying
    /// acquisition has returned.
    pub completed: Set<nat>,
}

/// One transition of the shared diagnostic state, as driven by the acquiring
/// threads. The flag flip (`Signal`) is sequenced strictly before the record
/// overwrite (`Overwrite`) of the same attempt.
pub enum DiagnosticEvent {
    Signal(nat),
    Overwrite(nat),
}

pub open spec fn initial_state() -> DiagnosticState {
    DiagnosticState { record: None, completed: Set::empty() }
}

/// An event is admissible only if an overwrite comes from an attempt that
/// has already signalled: the acquiring thread flips its flag first.
pub open spec fn event_allowed(state: DiagnosticState, event: DiagnosticEvent) -> bool {
    match event {
        DiagnosticEvent::Signal(_) => true,
        DiagnosticEvent::Overwrite(id) => state.completed.contains(id),
    }
}

pub open spec fn apply_event(state: DiagnosticState, event: DiagnosticEvent) -> DiagnosticState {
    match event {
        DiagnosticEvent::Signal(id) => DiagnosticState {
            completed: state.completed.insert(id),
            ..state
        },
        DiagnosticEvent::Overwrite(id) => DiagnosticState { record: Some(id), ..state },
    }
}

/// The invariant: the record only ever shows an attempt whose acquisition
/// has completed.
pub open spec fn record_shows_completed(state: DiagnosticState) -> bool {
    match state.record {
        Some(id) => state.completed.contains(id),
        None => true,
    }
}

pub open spec fn apply_trace(state: DiagnosticState, trace: Seq<DiagnosticEvent>) -> DiagnosticState
    decreases trace.len(),
{
    if trace.len() == 0 {
        state
    } else {
        apply_trace(apply_event(state, trace[0]), trace.subrange(1, trace.len() as int))
    }
}

pub open spec fn trace_allowed(state: DiagnosticState, trace: Seq<DiagnosticEvent>) -> bool
    decreases trace.len(),
{
    trace.len() == 0 || (event_allowed(state, trace[0]) && trace_allowed(
        apply_event(state, trace[0]),
        trace.subrange(1, trace.len() as int),
    ))
}

pub proof fn lemma_initial_state_holds_invariant()
    ensures
        record_shows_completed(initial_state()),
{
}

pub proof fn lemma_event_preserves_invariant(state: DiagnosticState, event: DiagnosticEvent)
    requires
        record_shows_completed(state),
        event_allowed(state, event),
    ensures
        record_shows_completed(apply_event(state, event)),
{
}

/// After any admissible sequence of signals and overwrites, the record still
/// shows only a completed attempt.
pub proof fn lemma_trace_preserves_invariant(state: DiagnosticState, trace: Seq<DiagnosticEvent>)
    requires
        record_shows_completed(state),
        trace_allowed(state, trace),
    ensures
        record_shows_completed(apply_trace(state, trace)),
    decreases trace.len(),
{
    if trace.len() > 0 {
        lemma_event_preserves_invariant(state, trace[0]);
        lemma_trace_preserves_invariant(
            apply_event(state, trace[0]),
            trace.subrange(1, trace.len() as int),
        );
    }
}

/// The record overwrite always reflects a completed acquisition, never an
/// attempt that is still blocked: a watchdog whose own attempt has not
/// signalled can trust that the record it reads is not that attempt's stack.
pub proof fn lemma_blocked_attempt_never_shown(state: DiagnosticState, attempt: nat)
    requires
        record_shows_completed(state),
        !state.completed.contains(attempt),
    ensures
        state.record != Some(attempt),
{
}

/// The record shows the most recently overwritten attempt: whatever came
/// before, a trace that ends in an overwrite by `attempt` leaves the record
/// at exactly `attempt`.
pub proof fn lemma_record_shows_latest_overwrite(
    state: DiagnosticState,
    trace: Seq<DiagnosticEvent>,
    attempt: nat,
)
    requires
        trace.len() > 0,
        trace.last() == DiagnosticEvent::Overwrite(attempt),
    ensures
        apply_trace(state, trace).record == Some(attempt),
    decreases trace.len(),
{
    let rest = trace.subrange(1, trace.len() as int);
    if trace.len() == 1 {
        assert(apply_trace(apply_event(state, trace[0]), rest) == apply_event(state, trace[0]));
    } else {
        assert(rest.last() == trace.last());
        lemma_record_shows_latest_overwrite(apply_event(state, trace[0]), rest, attempt);
    }
}

} // verus!
