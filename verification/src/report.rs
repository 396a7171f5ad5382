//! Assembly of the timeout report's content.
//!
//! A timed-out watchdog reads the shared holder record as best it can and
//! hands whatever it saw to [`classify_holder`], which decides what the
//! report says about the holder: the holder is unknown exactly when no
//! acquisition had ever completed, and otherwise the report carries the
//! holder's stack together with a coarse elapsed-time figure.

use vstd::prelude::*;

use crate::timefmt::{coarse_figure, coarse_figure_spec, ElapsedFigure};

verus! {

/// What a timeout report says about the current holder of the lock.
pub enum HolderInfo<S> {
    /// The lock was never successfully acquired before: nothing stale or
    /// fabricated is shown.
    Unknown,
    /// The stack recorded by the most recently completed acquisition, and
    /// roughly how long ago it was captured.
    Held { stack: S, elapsed: ElapsedFigure },
}

/// Decide the holder part of a report from what the record held. `record`
/// is the record's content as the watchdog managed to read it: the holder's
/// stack and the elapsed nanoseconds since that capture, measured from the
/// watchdog's own deadline.
pub fn classify_holder<S>(record: Option<(S, u128)>) -> (holder: HolderInfo<S>)
    ensures
        record is None <==> holder is Unknown,
        match record {
            None => holder is Unknown,
            Some(content) => holder == (HolderInfo::Held {
                stack: content.0,
                elapsed: coarse_figure_spec(content.1),
            }),
        },
{
    match record {
        None => HolderInfo::Unknown,
        Some((stack, elapsed_ns)) => HolderInfo::Held {
            stack,
            elapsed: coarse_figure(elapsed_ns),
        },
    }
}

} // verus!
