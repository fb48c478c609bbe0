//! Time spans in whole nanoseconds, and the monotonic clock.

use vstd::prelude::*;

verus! {

/// Nanoseconds in one millisecond.
pub const NANOS_PER_MILLI: u64 = 1_000_000;

/// A non-negative span of time, in whole nanoseconds.
///
/// The view of a span is its number of nanoseconds.
#[derive(Clone, Copy, Debug, PartialEq, Eq, Structural)]
pub struct Duration {
    pub nanos: u64,
}

impl View for Duration {
    type V = nat;

    open spec fn view(&self) -> nat {
        self.nanos as nat
    }
}

/// The largest number of nanoseconds that a span can hold.
pub open spec fn max_nanos() -> nat {
    u64::MAX as nat
}

/// `a - b`, or zero where `b` is the larger.
pub open spec fn floored_diff(a: nat, b: nat) -> nat {
    if a >= b {
        (a - b) as nat
    } else {
        0
    }
}

/// A count of any width, cut off at the largest span.
pub open spec fn capped(n: nat) -> nat {
    if n <= max_nanos() {
        n
    } else {
        max_nanos()
    }
}

impl Duration {
    /// The span of `n` nanoseconds, cut off at the largest span.
    pub open spec fn of(n: nat) -> Duration {
        Duration { nanos: capped(n) as u64 }
    }

    /// The sum of two spans, cut off at the largest span.
    pub open spec fn plus(self, other: Duration) -> Duration {
        Duration::of(self@ + other@)
    }

    /// The span by which `self` is longer than `other`, zero where it is not.
    pub open spec fn minus(self, other: Duration) -> Duration {
        Duration::of(floored_diff(self@, other@))
    }

    /// The empty span.
    pub fn zero() -> (d: Duration)
        ensures
            d == Duration::of(0),
    {
        Duration { nanos: 0 }
    }

    /// A span of `nanos` nanoseconds.
    pub fn from_nanos(nanos: u64) -> (d: Duration)
        ensures
            d == Duration::of(nanos as nat),
    {
        Duration { nanos }
    }

    /// A span of `millis` milliseconds, cut off at the largest span.
    pub fn from_millis(millis: u64) -> (d: Duration)
        ensures
            d == Duration::of(millis as nat * NANOS_PER_MILLI as nat),
    {
        if millis <= u64::MAX / NANOS_PER_MILLI {
            assert(millis * NANOS_PER_MILLI <= u64::MAX) by (nonlinear_arith)
                requires
                    millis <= u64::MAX / NANOS_PER_MILLI,
                    NANOS_PER_MILLI == 1_000_000,
            ;
            Duration { nanos: millis * NANOS_PER_MILLI }
        } else {
            assert(millis * NANOS_PER_MILLI > u64::MAX) by (nonlinear_arith)
                requires
                    millis > u64::MAX / NANOS_PER_MILLI,
                    NANOS_PER_MILLI == 1_000_000,
            ;
            Duration { nanos: u64::MAX }
        }
    }

    /// A clock reading of any width as a span, cut off at the largest span.
    pub fn from_wide_nanos(nanos: u128) -> (d: Duration)
        ensures
            d == Duration::of(nanos as nat),
    {
        if nanos <= u64::MAX as u128 {
            Duration { nanos: nanos as u64 }
        } else {
            Duration { nanos: u64::MAX }
        }
    }

    /// The nanoseconds in the span.
    pub fn as_nanos(&self) -> (n: u64)
        ensures
            n == self@,
    {
        self.nanos
    }

    /// The sum of two spans, cut off at the largest span.
    pub fn saturating_add(self, other: Duration) -> (d: Duration)
        ensures
            d == self.plus(other),
    {
        if self.nanos <= u64::MAX - other.nanos {
            Duration { nanos: self.nanos + other.nanos }
        } else {
            Duration { nanos: u64::MAX }
        }
    }

    /// The span by which `self` is longer than `other`, zero where it is not.
    pub fn saturating_sub(self, other: Duration) -> (d: Duration)
        ensures
            d == self.minus(other),
    {
        if self.nanos >= other.nanos {
            Duration { nanos: self.nanos - other.nanos }
        } else {
            Duration { nanos: 0 }
        }
    }
}

/// Whether `a` lies strictly within `diff` of `b`: `b - diff < a < b + diff`,
/// taken over the integers.
pub fn approx_eq(a: Duration, b: Duration, diff: Duration) -> (r: bool)
    ensures
        r == (b@ - diff@ < a@ && a@ < b@ + diff@),
{
    let above: bool = if b.nanos >= diff.nanos {
        a.nanos > b.nanos - diff.nanos
    } else {
        true
    };
    let below: bool = if b.nanos <= u64::MAX - diff.nanos {
        a.nanos < b.nanos + diff.nanos
    } else {
        true
    };
    above && below
}

/// `std::time::Instant`, a reading of the monotonic clock. Nothing is known
/// of what a value holds.
#[verifier::external_type_specification]
#[verifier::external_body]
pub struct ExInstant(std::time::Instant);

/// Reads the monotonic clock with `std::time::Instant::now`. The reading
/// depends on when the call is made, so nothing is claimed of it.
#[verifier::external_body]
pub(crate) fn clock_start() -> (origin: std::time::Instant) {
    std::time::Instant::now()
}

/// The nanoseconds that have passed since `origin`, read with
/// `std::time::Instant::elapsed`. The result depends on when the call is
/// made, so nothing is claimed of it.
#[verifier::external_body]
pub(crate) fn clock_elapsed(origin: &std::time::Instant) -> (nanos: u128) {
    origin.elapsed().as_nanos()
}

} // verus!
