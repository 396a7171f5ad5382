use lockwatch::cleanup::{Cleanup, ScopedCleanup};
use lockwatch::paths::{canonicalize, normalize, resolve_or_fallback, NormalizedPathBuf};
use lockwatch::report::{classify_holder, HolderInfo};
use lockwatch::timefmt::{coarse_figure, unit_suffix, TimeUnit};
use lockwatch::watchdog::{watchdog_step, Observation, WatchdogState};

use std::cell::Cell;
use std::rc::Rc;

#[test]
fn coarse_figure_picks_seconds() {
    let figure = coarse_figure(3_500_000_000);
    assert_eq!(figure.value, 3);
    assert_eq!(figure.unit, TimeUnit::Seconds);
}

#[test]
fn coarse_figure_picks_millis() {
    let figure = coarse_figure(12_345_678);
    assert_eq!(figure.value, 12);
    assert_eq!(figure.unit, TimeUnit::Millis);
}

#[test]
fn coarse_figure_picks_micros() {
    let figure = coarse_figure(999_999);
    assert_eq!(figure.value, 999);
    assert_eq!(figure.unit, TimeUnit::Micros);
}

#[test]
fn coarse_figure_picks_nanos() {
    let figure = coarse_figure(999);
    assert_eq!(figure.value, 999);
    assert_eq!(figure.unit, TimeUnit::Nanos);
    let zero = coarse_figure(0);
    assert_eq!(zero.value, 0);
    assert_eq!(zero.unit, TimeUnit::Nanos);
}

#[test]
fn coarse_figure_boundaries() {
    let second = coarse_figure(1_000_000_000);
    assert_eq!(second.value, 1);
    assert_eq!(second.unit, TimeUnit::Seconds);
    let just_under = coarse_figure(999_999_999);
    assert_eq!(just_under.value, 999);
    assert_eq!(just_under.unit, TimeUnit::Millis);
}

#[test]
fn unit_suffixes() {
    assert_eq!(unit_suffix(TimeUnit::Seconds), "s");
    assert_eq!(unit_suffix(TimeUnit::Millis), "ms");
    assert_eq!(unit_suffix(TimeUnit::Micros), "us");
    assert_eq!(unit_suffix(TimeUnit::Nanos), "ns");
}

#[test]
fn watchdog_success_is_silent() {
    let obs = Observation { succeeded: true, timed_out: false };
    let (state, report) = watchdog_step(WatchdogState::Waiting, obs);
    assert_eq!(state, WatchdogState::SucceededSilently);
    assert!(!report);
}

#[test]
fn watchdog_success_wins_over_deadline() {
    let obs = Observation { succeeded: true, timed_out: true };
    let (state, report) = watchdog_step(WatchdogState::Waiting, obs);
    assert_eq!(state, WatchdogState::SucceededSilently);
    assert!(!report);
}

#[test]
fn watchdog_timeout_reports() {
    let obs = Observation { succeeded: false, timed_out: true };
    let (state, report) = watchdog_step(WatchdogState::Waiting, obs);
    assert_eq!(state, WatchdogState::ReportedTimeout);
    assert!(report);
}

#[test]
fn watchdog_keeps_waiting() {
    let obs = Observation { succeeded: false, timed_out: false };
    let (state, report) = watchdog_step(WatchdogState::Waiting, obs);
    assert_eq!(state, WatchdogState::Waiting);
    assert!(!report);
}

#[test]
fn watchdog_terminal_states_absorb() {
    let obs = Observation { succeeded: false, timed_out: true };
    let (after_success, report_a) = watchdog_step(WatchdogState::SucceededSilently, obs);
    assert_eq!(after_success, WatchdogState::SucceededSilently);
    assert!(!report_a);
    let (after_report, report_b) = watchdog_step(WatchdogState::ReportedTimeout, obs);
    assert_eq!(after_report, WatchdogState::ReportedTimeout);
    assert!(!report_b);
}

fn run_trace(trace: &[(bool, bool)]) -> u32 {
    let mut state = WatchdogState::Waiting;
    let mut reports: u32 = 0;
    for &(succeeded, timed_out) in trace {
        let (next, report) = watchdog_step(state, Observation { succeeded, timed_out });
        if report {
            reports += 1;
        }
        state = next;
    }
    reports
}

#[test]
fn timely_acquisition_trace_stays_silent() {
    let reports = run_trace(&[(false, false), (false, false), (true, false), (true, true)]);
    assert_eq!(reports, 0);
}

#[test]
fn blocked_acquisition_trace_reports_exactly_once() {
    let reports = run_trace(&[
        (false, false),
        (false, false),
        (false, true),
        (false, true),
        (false, true),
    ]);
    assert_eq!(reports, 1);
}

#[test]
fn unknown_holder_when_record_empty() {
    let holder = classify_holder::<String>(None);
    assert!(matches!(holder, HolderInfo::Unknown));
}

#[test]
fn known_holder_carries_stack_and_elapsed() {
    let holder = classify_holder(Some((String::from("stack text"), 2_000_000_000u128)));
    match holder {
        HolderInfo::Held { stack, elapsed } => {
            assert_eq!(stack, "stack text");
            assert_eq!(elapsed.value, 2);
            assert_eq!(elapsed.unit, TimeUnit::Seconds);
        }
        HolderInfo::Unknown => panic!("holder should be known"),
    }
}

struct CountingAction {
    runs: Rc<Cell<u32>>,
}

impl Cleanup for CountingAction {
    fn run(&mut self) {
        self.runs.set(self.runs.get() + 1);
    }
}

#[test]
fn cleanup_runs_exactly_once() {
    let runs = Rc::new(Cell::new(0));
    let mut guard = ScopedCleanup::new(CountingAction { runs: Rc::clone(&runs) });
    assert!(guard.pending());
    guard.close();
    assert_eq!(runs.get(), 1);
    assert!(!guard.pending());
    guard.close();
    assert_eq!(runs.get(), 1);
}

fn scope_with_early_return(early: bool, runs: &Rc<Cell<u32>>) -> u32 {
    let mut guard = ScopedCleanup::new(CountingAction { runs: Rc::clone(runs) });
    if early {
        guard.close();
        return 1;
    }
    let outcome = 2;
    guard.close();
    outcome
}

#[test]
fn cleanup_fires_once_on_every_exit_path() {
    let runs = Rc::new(Cell::new(0));
    assert_eq!(scope_with_early_return(true, &runs), 1);
    assert_eq!(runs.get(), 1);
    let other = Rc::new(Cell::new(0));
    assert_eq!(scope_with_early_return(false, &other), 2);
    assert_eq!(other.get(), 1);
}

#[test]
fn unresolvable_path_is_kept() {
    let path = String::from("/no/such/lockwatch/path");
    assert_eq!(normalize(path.clone()), path);
    assert_eq!(canonicalize(path.clone()), path);
}

#[test]
fn fallback_rule_exact() {
    let resolved = resolve_or_fallback(String::from("a"), Some(String::from("b")));
    assert_eq!(resolved, "b");
    let kept = resolve_or_fallback(String::from("a"), None);
    assert_eq!(kept, "a");
}

#[test]
fn normalized_path_keeps_original() {
    let value = NormalizedPathBuf::from(String::from("/no/such/lockwatch/other"));
    assert_eq!(value.path(), "/no/such/lockwatch/other");
    assert_eq!(value.normalized, "/no/such/lockwatch/other");
    let from_str = NormalizedPathBuf::from("/no/such/lockwatch/third");
    assert_eq!(from_str.path(), "/no/such/lockwatch/third");
    let cloned = from_str.clone();
    assert_eq!(cloned.normalized, "/no/such/lockwatch/third");
}
