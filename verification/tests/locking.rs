use lockwatch::lock::InstrumentedLock;

use std::time::Instant;

#[test]
fn written_value_visible_to_subsequent_read() {
    let lock = InstrumentedLock::new(0u32);
    {
        let mut guard = lock.write();
        assert_eq!(*guard.value(), 0);
        guard.set(1);
        assert_eq!(*guard.value(), 1);
    }
    let guard = lock.read();
    assert_eq!(*guard.value(), 1);
}

#[test]
fn concurrent_readers_share_the_lock() {
    let lock = InstrumentedLock::new(7u32);
    let first = lock.read();
    let second = lock.read();
    assert_eq!(*first.value(), 7);
    assert_eq!(*second.value(), 7);
}

#[test]
fn many_readers_succeed_without_any_watchdog_timeout() {
    let lock = InstrumentedLock::new(3u32);
    let mut attempts = Vec::new();
    let mut guards = Vec::new();
    for _ in 0..8 {
        let (flag, task) = lock.begin_attempt();
        let guard = lock.acquire_read(&flag);
        attempts.push(task);
        guards.push(guard);
    }
    for guard in &guards {
        assert_eq!(*guard.value(), 3);
    }
    // Every attempt completed well inside the grace period, so each
    // watchdog exits silently on its very next poll.
    for task in &mut attempts {
        assert!(!task.poll());
    }
}

#[test]
fn watchdog_exits_silently_after_success() {
    let lock = InstrumentedLock::new(0u32);
    let (flag, mut task) = lock.begin_attempt();
    let guard = lock.acquire_read(&flag);
    assert_eq!(*guard.value(), 0);
    let mut polls = 0u32;
    while task.poll() {
        polls += 1;
        assert!(polls < 1_000_000, "watchdog should see the success flag");
    }
}

#[test]
fn watchdog_times_out_on_never_acquired_lock() {
    // The attempt never completes, so the watchdog must report after the
    // grace period, with the holder unknown: nothing was ever recorded.
    let lock = InstrumentedLock::new(0u32);
    let (_flag, mut task) = lock.begin_attempt();
    let started = Instant::now();
    while task.poll() {
        assert!(started.elapsed().as_secs() < 15, "watchdog must stop at the deadline");
    }
    let waited = started.elapsed().as_secs();
    assert!(waited >= 3, "report must not come before the grace period");
}

#[test]
fn watchdog_times_out_with_recorded_holder() {
    // A completed write fills the holder record; a later attempt that never
    // completes is reported with that record still present.
    let lock = InstrumentedLock::new(0u32);
    {
        let mut guard = lock.write();
        guard.set(5);
    }
    let (_flag, mut task) = lock.begin_attempt();
    let started = Instant::now();
    while task.poll() {
        assert!(started.elapsed().as_secs() < 15, "watchdog must stop at the deadline");
    }
    assert!(started.elapsed().as_secs() >= 3);
    let guard = lock.read();
    assert_eq!(*guard.value(), 5);
}
