//! Coarse display of an elapsed duration: the figure shown by a timeout
//! report is the elapsed time in the coarsest unit (seconds, milliseconds,
//! microseconds, nanoseconds) in which it is still non-zero.

use vstd::prelude::*;

verus! {

#[derive(Clone, Copy, Debug, PartialEq, Eq, Structural)]
pub enum TimeUnit {
    Seconds,
    Millis,
    Micros,
    Nanos,
}

/// An elapsed duration rendered as an integer count of one unit.
#[derive(Clone, Copy, Debug, PartialEq, Eq, Structural)]
pub struct ElapsedFigure {
    pub value: u128,
    pub unit: TimeUnit,
}

pub const NANOS_PER_SEC: u128 = 1_000_000_000;

pub const NANOS_PER_MILLI: u128 = 1_000_000;

pub const NANOS_PER_MICRO: u128 = 1_000;

/// The coarsest unit in which `ns` nanoseconds are still non-zero;
/// nanoseconds themselves when even that count is zero.
pub open spec fn coarse_unit_spec(ns: u128) -> TimeUnit {
    if ns >= NANOS_PER_SEC {
        TimeUnit::Seconds
    } else if ns >= NANOS_PER_MILLI {
        TimeUnit::Millis
    } else if ns >= NANOS_PER_MICRO {
        TimeUnit::Micros
    } else {
        TimeUnit::Nanos
    }
}

pub open spec fn unit_divisor(unit: TimeUnit) -> u128 {
    match unit {
        TimeUnit::Seconds => NANOS_PER_SEC,
        TimeUnit::Millis => NANOS_PER_MILLI,
        TimeUnit::Micros => NANOS_PER_MICRO,
        TimeUnit::Nanos => 1,
    }
}

pub open spec fn coarse_figure_spec(ns: u128) -> ElapsedFigure {
    ElapsedFigure { value: ns / unit_divisor(coarse_unit_spec(ns)), unit: coarse_unit_spec(ns) }
}

/// Render `ns` nanoseconds in the coarsest non-zero unit.
pub fn coarse_figure(ns: u128) -> (figure: ElapsedFigure)
    ensures
        figure == coarse_figure_spec(ns),
{
    if ns >= NANOS_PER_SEC {
        ElapsedFigure { value: ns / NANOS_PER_SEC, unit: TimeUnit::Seconds }
    } else if ns >= NANOS_PER_MILLI {
        ElapsedFigure { value: ns / NANOS_PER_MILLI, unit: TimeUnit::Millis }
    } else if ns >= NANOS_PER_MICRO {
        ElapsedFigure { value: ns / NANOS_PER_MICRO, unit: TimeUnit::Micros }
    } else {
        proof {
            vstd::arithmetic::div_mod::lemma_div_basics(ns as int);
        }
        ElapsedFigure { value: ns, unit: TimeUnit::Nanos }
    }
}

/// Suffix printed after the figure's value.
pub fn unit_suffix(unit: TimeUnit) -> (suffix: &'static str)
    ensures
        unit == TimeUnit::Seconds ==> suffix@ == "s"@,
        unit == TimeUnit::Millis ==> suffix@ == "ms"@,
        unit == TimeUnit::Micros ==> suffix@ == "us"@,
        unit == TimeUnit::Nanos ==> suffix@ == "ns"@,
{
    match unit {
        TimeUnit::Seconds => "s",
        TimeUnit::Millis => "ms",
        TimeUnit::Micros => "us",
        TimeUnit::Nanos => "ns",
    }
}

/// A rendered figure is never zero unless the elapsed time itself was under
/// one nanosecond: the chosen unit divides out to a non-zero count.
pub proof fn lemma_figure_nonzero(ns: u128)
    requires
        ns > 0,
    ensures
        coarse_figure_spec(ns).value > 0,
{
    if ns >= NANOS_PER_SEC {
        vstd::arithmetic::div_mod::lemma_div_non_zero(ns as int, NANOS_PER_SEC as int);
    } else if ns >= NANOS_PER_MILLI {
        vstd::arithmetic::div_mod::lemma_div_non_zero(ns as int, NANOS_PER_MILLI as int);
    } else if ns >= NANOS_PER_MICRO {
        vstd::arithmetic::div_mod::lemma_div_non_zero(ns as int, NANOS_PER_MICRO as int);
    } else {
        vstd::arithmetic::div_mod::lemma_div_basics(ns as int);
    }
}

} // verus!
