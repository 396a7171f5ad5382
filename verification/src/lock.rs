//! The instrumented reader/writer lock.
//!
//! [`InstrumentedLock`] wraps a `parking_lot` reader/writer lock. Every
//! acquisition attempt captures the caller's stack and gets a fresh success
//! flag and a [`WatchdogTask`]; the acquisition then blocks as an ordinary
//! lock does, flips the flag on success, and only then overwrites the
//! shared holder record with a stack captured at completion. The watchdog,
//! polled on a thread of the caller's choosing, races the flag against the
//! grace period and, on timeout, reports the waiting stack and whatever
//! the record shows — reading the record only without blocking, so the
//! diagnostic itself can never hang.
//!
//! The decision logic is verified: the polling steps follow
//! [`crate::watchdog::step_spec`], and the holder part of a report follows
//! [`crate::report::classify_holder`]. The lock, flag, record cell, clock
//! and stack capture are trusted boundaries with the outside crates.

use std::io::Write;
use std::sync::atomic::AtomicBool;
use std::sync::atomic::Ordering;
use std::sync::Arc;
use vstd::prelude::*;

use crate::clock::{elapsed_after_nanos, elapsed_secs, now};
use crate::report::{classify_holder, HolderInfo};
use crate::stack::{capture_stack, render_stack};
use crate::timefmt::unit_suffix;
use crate::watchdog::{watchdog_step, Observation, WatchdogState, GRACE_SECS};

verus! {

/// What the holder record stores: the stack captured when the most recent
/// acquisition completed, and the moment of that capture.
pub struct HolderRecord {
    pub stack: backtrace::Backtrace,
    pub captured_at: std::time::Instant,
}

/// The reader/writer lock this library instruments, declared so that it can
/// stand in fields and signatures; its values stay opaque.
#[verifier::external_type_specification]
#[verifier::external_body]
#[verifier::reject_recursive_types(R)]
#[verifier::reject_recursive_types(T)]
pub struct ExRwLock<R, T: ?Sized>(parking_lot::lock_api::RwLock<R, T>);

/// The raw lock that parameterizes `parking_lot`'s reader/writer lock.
#[verifier::external_type_specification]
#[verifier::external_body]
pub struct ExRawRwLock(parking_lot::RawRwLock);

/// A shared read guard of the underlying lock; releases on drop. It holds
/// `parking_lot`'s own guard: that guard's type cannot be declared here,
/// since its bounds name a trait of `lock_api`.
#[verifier::external_body]
#[verifier::reject_recursive_types(T)]
pub struct ReadGuard<'a, T> {
    inner: parking_lot::RwLockReadGuard<'a, T>,
}

/// Holder of `parking_lot`'s exclusive write guard; releases on drop. As
/// with the read guard, the guard's own type cannot be declared.
#[verifier::external_body]
#[verifier::reject_recursive_types(T)]
struct WriteGuardCell<'a, T> {
    inner: parking_lot::RwLockWriteGuard<'a, T>,
}

/// An exclusive write guard of the underlying lock, together with the value
/// most recently written through it. While the guard lives nothing else can
/// touch the protected value, so a value written through the guard is
/// exactly what a later read through the same guard sees.
#[verifier::reject_recursive_types(T)]
pub struct WriteGuard<'a, T> {
    cell: WriteGuardCell<'a, T>,
    written: Ghost<Option<T>>,
}

impl<'a, T> WriteGuard<'a, T> {
    /// The value most recently written through this guard; `None` when
    /// nothing was written yet and the guard still shows the value the lock
    /// held at acquisition.
    pub closed spec fn last_written(&self) -> Option<T> {
        self.written@
    }

    /// Relies on the Deref impl of parking_lot's write guard: a reference
    /// to the protected value, which this exclusive guard keeps unchanged
    /// since the last write through it.
    #[verifier::external_body]
    pub fn value(&self) -> (current: &T)
        ensures
            self.last_written() is Some ==> Some(*current) == self.last_written(),
    {
        &*self.cell.inner
    }

    /// Relies on the DerefMut impl of parking_lot's write guard: replaces
    /// the protected value.
    #[verifier::external_body]
    pub fn set(&mut self, value: T)
        ensures
            final (self).last_written() == Some(value),
    {
        *self.cell.inner = value;
    }
}

/// Relies on parking_lot::RwLock::new.
#[verifier::external_body]
fn lock_new<T>(value: T) -> parking_lot::RwLock<T> {
    parking_lot::RwLock::new(value)
}

/// Relies on parking_lot::RwLock::read: blocks until no writer holds the
/// lock; any number of readers may hold guards at once.
#[verifier::external_body]
fn lock_read<'a, T>(cell: &'a parking_lot::RwLock<T>) -> ReadGuard<'a, T> {
    ReadGuard { inner: cell.read() }
}

/// Relies on parking_lot::RwLock::write: blocks until the lock is free,
/// then holds it exclusively.
#[verifier::external_body]
fn lock_write_cell<'a, T>(cell: &'a parking_lot::RwLock<T>) -> WriteGuardCell<'a, T> {
    WriteGuardCell { inner: cell.write() }
}

/// Acquire the underlying lock exclusively; nothing was written through the
/// fresh guard yet.
fn lock_write<'a, T>(cell: &'a parking_lot::RwLock<T>) -> (guard: WriteGuard<'a, T>)
    ensures
        guard.last_written() is None,
{
    WriteGuard { cell: lock_write_cell(cell), written: Ghost(None) }
}

impl<'a, T> ReadGuard<'a, T> {
    /// Relies on the Deref impl of parking_lot's read guard: a reference to
    /// the protected value.
    #[verifier::external_body]
    pub fn value(&self) -> &T {
        &*self.inner
    }
}

/// One acquisition attempt's success flag, shared between the acquiring
/// call and its watchdog; set exactly once, when the acquisition returns.
pub struct SuccessFlag {
    inner: Arc<AtomicBool>,
}

impl SuccessFlag {
    /// Relies on AtomicBool::new and Arc::new: a fresh, unset flag.
    #[verifier::external_body]
    fn new() -> SuccessFlag {
        SuccessFlag { inner: Arc::new(AtomicBool::new(false)) }
    }

    /// Relies on Arc::clone: a handle to the same flag.
    #[verifier::external_body]
    fn clone_handle(&self) -> SuccessFlag {
        SuccessFlag { inner: Arc::clone(&self.inner) }
    }

    /// Relies on AtomicBool::store with release ordering, so that the
    /// watchdog's acquire load synchronizes with the acquiring thread.
    #[verifier::external_body]
    fn set(&self) {
        self.inner.store(true, Ordering::Release);
    }

    /// Relies on AtomicBool::load with acquire ordering. The result depends
    /// on timing, so nothing is stated of it.
    #[verifier::external_body]
    fn is_set(&self) -> bool {
        self.inner.load(Ordering::Acquire)
    }
}

/// The shared holder record: one per lock instance, owned jointly by the
/// lock and every in-flight watchdog it has spawned. Guarded by its own
/// small lock; the watchdog side only ever uses non-blocking access.
pub struct RecordCell {
    inner: Arc<parking_lot::RwLock<Option<HolderRecord>>>,
}

impl RecordCell {
    /// Relies on parking_lot::RwLock::new and Arc::new: an empty record.
    #[verifier::external_body]
    fn new_empty() -> RecordCell {
        RecordCell { inner: Arc::new(parking_lot::RwLock::new(None)) }
    }

    /// Relies on Arc::clone: a handle to the same record.
    #[verifier::external_body]
    fn clone_handle(&self) -> RecordCell {
        RecordCell { inner: Arc::clone(&self.inner) }
    }

    /// Relies on parking_lot::RwLock::write: overwrites the record with the
    /// given completion. The replacement is atomic to outside observers.
    #[verifier::external_body]
    fn store(&self, record: HolderRecord) {
        *self.inner.write() = Some(record);
    }

    /// Relies on parking_lot::RwLock::try_write: `None` when the record is
    /// busy and waiting would block; otherwise takes the content out,
    /// leaving the record empty. Never blocks.
    #[verifier::external_body]
    fn try_take(&self) -> Option<Option<HolderRecord>> {
        match self.inner.try_write() {
            Some(mut guard) => Some(guard.take()),
            None => None,
        }
    }

    /// Relies on parking_lot::RwLock::read: a snapshot of the current
    /// content, possibly stale by the time it is returned. The record's own
    /// lock is only ever held briefly, so this is bounded-wait.
    #[verifier::external_body]
    fn read_snapshot(&self) -> Option<HolderRecord> {
        match &*self.inner.read() {
            Some(record) => Some(
                HolderRecord { stack: record.stack.clone(), captured_at: record.captured_at },
            ),
            None => None,
        }
    }
}

/// Relies on std::io::Stdout: prints one diagnostic line.
#[verifier::external_body]
fn emit_line(line: &str) {
    let _ = writeln!(std::io::stdout(), "{}", line);
}

/// Relies on std::io::Stdout: prints the holder header with the elapsed
/// figure and its unit suffix.
#[verifier::external_body]
fn emit_holder_header(value: u128, suffix: &str) {
    let _ = writeln!(std::io::stdout(), "[RwLock] Locked {}{} before by:", value, suffix);
}

/// Emit the timeout report: the waiting stack, then the holder as the
/// record shows it. The record is read without ever blocking: taken
/// outright when its lock is free, otherwise snapshotted, so the diagnostic
/// cannot become a second deadlock. The holder line follows
/// [`classify_holder`] exactly: unknown when no acquisition ever completed.
fn emit_timeout_report(waiting_stack: &backtrace::Backtrace, record: &RecordCell) {
    emit_line("[RwLock] POTENTIAL DEADLOCK!");
    emit_line("[RwLock] Invoked by:");
    let waiting_text = render_stack(waiting_stack);
    emit_line(waiting_text.as_str());
    let content = match record.try_take() {
        Some(taken) => taken,
        None => record.read_snapshot(),
    };
    let with_elapsed = match content {
        Some(holder) => {
            let elapsed_ns = elapsed_after_nanos(&holder.captured_at, GRACE_SECS);
            Some((holder.stack, elapsed_ns))
        },
        None => None,
    };
    match classify_holder(with_elapsed) {
        HolderInfo::Unknown => {
            emit_line("[RwLock] Locked by: UNKNOWN");
        },
        HolderInfo::Held { stack, elapsed } => {
            emit_holder_header(elapsed.value, unit_suffix(elapsed.unit));
            let holder_text = render_stack(&stack);
            emit_line(holder_text.as_str());
        },
    }
}

/// One watchdog, watching one acquisition attempt: the waiting stack
/// captured when the attempt began, a handle to the attempt's success flag,
/// a handle to the lock's holder record, the moment the attempt started,
/// and where the watchdog stands in its state machine. Produced by
/// [`InstrumentedLock::begin_attempt`]; polled until done, usually on a
/// thread of its own, since the acquisition it observes may block
/// indefinitely.
pub struct WatchdogTask {
    waiting_stack: backtrace::Backtrace,
    flag: SuccessFlag,
    record: RecordCell,
    started: std::time::Instant,
    state: WatchdogState,
}

impl WatchdogTask {
    pub closed spec fn current_state(&self) -> WatchdogState {
        self.state
    }

    /// One poll: observe the success flag and the clock, and drive the
    /// verified state machine one step by exactly that observation. Emits
    /// the timeout report on the single step that reports. Returns whether
    /// the watchdog is still waiting and must be polled again; whoever
    /// runs the watchdog loops on this until it says done.
    pub fn poll(&mut self) -> (more: bool)
        ensures
            more == (final (self).current_state() == WatchdogState::Waiting),
            old(self).current_state() != WatchdogState::Waiting ==> final (self).current_state()
                == old(self).current_state(),
    {
        let obs = Observation {
            succeeded: self.flag.is_set(),
            timed_out: elapsed_secs(&self.started) >= GRACE_SECS,
        };
        let stepped = watchdog_step(self.state, obs);
        if stepped.1 {
            emit_timeout_report(&self.waiting_stack, &self.record);
        }
        self.state = stepped.0;
        match self.state {
            WatchdogState::Waiting => true,
            _ => false,
        }
    }
}

/// A reader/writer lock that diagnoses likely deadlocks: semantically an
/// ordinary blocking lock, plus a per-acquisition watchdog that reports the
/// waiting stack and the recorded holder when an acquisition outlives the
/// grace period.
#[verifier::reject_recursive_types(T)]
pub struct InstrumentedLock<T> {
    inner: parking_lot::RwLock<T>,
    record: RecordCell,
}

impl<T> InstrumentedLock<T> {
    /// A fresh lock around `value`, with an empty holder record: no
    /// acquisition has completed yet, and a watchdog that fires before one
    /// does reports the holder as unknown.
    pub fn new(value: T) -> InstrumentedLock<T> {
        InstrumentedLock { inner: lock_new(value), record: RecordCell::new_empty() }
    }

    /// Begin an acquisition attempt: capture the caller's stack and create
    /// the attempt's fresh, unset success flag. The flag goes to the
    /// acquiring side, the task to the watchdog that observes it; both
    /// hold handles to the same flag, never reused across attempts.
    pub fn begin_attempt(&self) -> (attempt: (SuccessFlag, WatchdogTask))
        ensures
            attempt.1.current_state() == WatchdogState::Waiting,
    {
        let waiting_stack = capture_stack();
        let flag = SuccessFlag::new();
        let task = WatchdogTask {
            waiting_stack,
            flag: flag.clone_handle(),
            record: self.record.clone_handle(),
            started: now(),
            state: WatchdogState::Waiting,
        };
        (flag, task)
    }

    /// Overwrite the holder record with a stack captured now: the record
    /// reflects the acquisition that has just completed.
    fn record_completion(&self) {
        self.record.store(HolderRecord { stack: capture_stack(), captured_at: now() });
    }

    /// Acquire shared read access for the attempt whose flag this is,
    /// blocking as an ordinary reader/writer lock does. The success flag is
    /// flipped strictly before the record is overwritten, so a watchdog of
    /// this attempt that sees the flag still unset never reads this
    /// attempt's own stack as the holder.
    pub fn acquire_read<'a>(&'a self, flag: &SuccessFlag) -> ReadGuard<'a, T> {
        let guard = lock_read(&self.inner);
        flag.set();
        self.record_completion();
        guard
    }

    /// Acquire exclusive write access; otherwise as [`Self::acquire_read`].
    pub fn acquire_write<'a>(&'a self, flag: &SuccessFlag) -> (guard: WriteGuard<'a, T>)
        ensures
            guard.last_written() is None,
    {
        let guard = lock_write(&self.inner);
        flag.set();
        self.record_completion();
        guard
    }

    /// Acquire shared read access as a fresh attempt of its own. The
    /// attempt is instrumented exactly as under a watchdog; whoever wants
    /// the diagnostic live pairs [`Self::begin_attempt`] with
    /// [`WatchdogTask::poll`] on a second thread instead.
    pub fn read<'a>(&'a self) -> ReadGuard<'a, T> {
        let (flag, _task) = self.begin_attempt();
        self.acquire_read(&flag)
    }

    /// Acquire exclusive write access; otherwise as [`Self::read`].
    pub fn write<'a>(&'a self) -> (guard: WriteGuard<'a, T>)
        ensures
            guard.last_written() is None,
    {
        let (flag, _task) = self.begin_attempt();
        self.acquire_write(&flag)
    }
}

} // verus!
