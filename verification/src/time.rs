use vstd::prelude::*;

verus! {

/// A span of time, counted in whole nanoseconds.
#[derive(Clone, Copy, Debug, PartialEq, Eq, Hash, Structural)]
pub struct Duration {
    pub nanos: u128,
}

/// A point in time, counted in nanoseconds from an origin that the
/// caller fixes once (all instants handed to one cache share it).
#[derive(Clone, Copy, Debug, PartialEq, Eq, Hash, Structural)]
pub struct Instant {
    pub nanos: u128,
}

/// The number of nanoseconds in one second.
pub const NANOS_PER_SEC: u128 = 1_000_000_000;

/// The number of nanoseconds in one millisecond.
pub const NANOS_PER_MILLI: u128 = 1_000_000;

impl Duration {
    /// A span of `secs` whole seconds.
    pub fn from_secs(secs: u64) -> (d: Duration)
        ensures
            d.nanos == secs * NANOS_PER_SEC,
    {
        assert(secs * NANOS_PER_SEC <= u64::MAX * NANOS_PER_SEC) by (nonlinear_arith);
        Duration { nanos: secs as u128 * NANOS_PER_SEC }
    }

    /// A span of `millis` whole milliseconds.
    pub fn from_millis(millis: u64) -> (d: Duration)
        ensures
            d.nanos == millis * NANOS_PER_MILLI,
    {
        assert(millis * NANOS_PER_MILLI <= u64::MAX * NANOS_PER_MILLI) by (nonlinear_arith);
        Duration { nanos: millis as u128 * NANOS_PER_MILLI }
    }

    /// A span of `nanos` nanoseconds.
    pub fn from_nanos(nanos: u128) -> (d: Duration)
        ensures
            d.nanos == nanos,
    {
        Duration { nanos }
    }

    /// The length of the span in nanoseconds.
    pub fn as_nanos(&self) -> (n: u128)
        ensures
            n == self.nanos,
    {
        self.nanos
    }
}

impl Instant {
    /// The instant `nanos` nanoseconds after the origin.
    pub fn from_nanos(nanos: u128) -> (t: Instant)
        ensures
            t.nanos == nanos,
    {
        Instant { nanos }
    }

    /// The instant `d` after `self`, or `None` where it cannot be represented.
    pub open spec fn spec_checked_add(self, d: Duration) -> Option<Instant> {
        if self.nanos + d.nanos <= u128::MAX {
            Some(Instant { nanos: (self.nanos + d.nanos) as u128 })
        } else {
            None
        }
    }

    /// The instant `d` after `self`, or `None` where it cannot be represented.
    pub fn checked_add(&self, d: Duration) -> (r: Option<Instant>)
        ensures
            r == self.spec_checked_add(d),
    {
        match self.nanos.checked_add(d.nanos) {
            Some(n) => Some(Instant { nanos: n }),
            None => None,
        }
    }

    /// Whether `self` lies strictly after `other`.
    pub fn is_after(&self, other: &Instant) -> (b: bool)
        ensures
            b == (self.nanos > other.nanos),
    {
        self.nanos > other.nanos
    }
}

/// Adding a span to an instant gives the instant that many nanoseconds
/// later, and fails exactly where that count does not fit.
pub proof fn lemma_checked_add(t: Instant, d: Duration)
    ensures
        t.spec_checked_add(d) is Some <==> t.nanos + d.nanos <= u128::MAX,
        t.spec_checked_add(d) matches Some(u) ==> u.nanos == t.nanos + d.nanos,
{
}

} // verus!
