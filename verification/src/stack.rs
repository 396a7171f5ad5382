//! The stack-capture collaborator: an opaque, printable snapshot of the
//! calling thread's stack, taken when an acquisition attempt begins and
//! again when one succeeds.

use vstd::prelude::*;

verus! {

#[verifier::external_type_specification]
#[verifier::external_body]
pub struct ExBacktrace(backtrace::Backtrace);

/// Relies on backtrace::Backtrace::new: captures the calling thread's stack
/// at the point of the call. The snapshot depends on the call site, so
/// nothing is stated of it.
#[verifier::external_body]
pub fn capture_stack() -> backtrace::Backtrace {
    backtrace::Backtrace::new()
}

/// Relies on the Debug impl of backtrace::Backtrace: renders the snapshot's
/// frames as multi-line text for a diagnostic report.
#[verifier::external_body]
pub fn render_stack(stack: &backtrace::Backtrace) -> String {
    format!("{:#?}", stack)
}

} // verus!
