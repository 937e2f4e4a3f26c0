//! Spans and instants as plain nanosecond counts.
//!
//! The library never reads a clock: every function whose result depends on the
//! current time takes it as an argument.

use vstd::prelude::*;

verus! {

/// Nanoseconds in one second.
pub const NANOS_PER_SEC: u128 = 1_000_000_000;

/// Nanoseconds in one millisecond.
pub const NANOS_PER_MILLI: u128 = 1_000_000;

/// Largest span: `u64::MAX` seconds and 999,999,999 nanoseconds.
pub const MAX_DURATION_NANOS: u128 = 18_446_744_073_709_551_615_999_999_999;

/// Latest instant: `i64::MAX` seconds and 999,999,999 nanoseconds after the origin.
pub const MAX_INSTANT_NANOS: u128 = 9_223_372_036_854_775_807_999_999_999;

/// A span of time.
#[derive(Clone, Copy, Debug, PartialEq, Eq, Structural)]
pub struct Duration {
    /// Length of the span in nanoseconds.
    pub nanos: u128,
}

impl Duration {
    /// Returns the empty span.
    pub fn zero() -> (span: Duration)
        ensures
            span.nanos == 0,
    {
        Duration { nanos: 0 }
    }

    /// Returns the longest span.
    pub fn max() -> (span: Duration)
        ensures
            span.nanos == MAX_DURATION_NANOS,
    {
        Duration { nanos: MAX_DURATION_NANOS }
    }

    /// Returns a span of whole seconds.
    pub fn from_secs(secs: u64) -> (span: Duration)
        ensures
            span.nanos == secs * NANOS_PER_SEC,
            span.nanos <= MAX_DURATION_NANOS,
    {
        Duration { nanos: secs as u128 * NANOS_PER_SEC }
    }

    /// Returns a span of nanoseconds.
    pub fn from_nanos(nanos: u128) -> (span: Duration)
        ensures
            span.nanos == nanos,
    {
        Duration { nanos }
    }

    /// Returns the whole seconds in the span.
    pub fn as_secs(self) -> (secs: u128)
        ensures
            secs == self.nanos as int / 1_000_000_000,
    {
        self.nanos / NANOS_PER_SEC
    }

    /// Returns the whole milliseconds in the span.
    pub fn as_millis(self) -> (millis: u128)
        ensures
            millis == self.nanos as int / 1_000_000,
    {
        self.nanos / NANOS_PER_MILLI
    }

    /// Returns whether the span is empty.
    pub fn is_zero(self) -> (empty: bool)
        ensures
            empty == (self.nanos == 0),
    {
        self.nanos == 0
    }
}

/// A point on a monotonic clock.
#[derive(Clone, Copy, Debug, PartialEq, Eq, Structural)]
pub struct Instant {
    /// Nanoseconds since the clock's origin.
    pub nanos: u128,
}

impl Instant {
    /// The instant `span` after this one, where the clock can represent it.
    pub open spec fn plus(self, span: Duration) -> Option<Instant> {
        if self.nanos + span.nanos <= MAX_INSTANT_NANOS {
            Some(Instant { nanos: (self.nanos + span.nanos) as u128 })
        } else {
            None
        }
    }

    /// The span from `earlier` to this instant, empty where `earlier` is later.
    pub open spec fn since(self, earlier: Instant) -> int {
        if self.nanos >= earlier.nanos {
            self.nanos - earlier.nanos
        } else {
            0
        }
    }

    /// Returns the instant that many nanoseconds after the origin.
    pub fn from_nanos(nanos: u128) -> (instant: Instant)
        ensures
            instant.nanos == nanos,
    {
        Instant { nanos }
    }

    /// Returns the instant `span` after this one, or `None` past the clock's end.
    pub fn checked_add(self, span: Duration) -> (later: Option<Instant>)
        ensures
            later == self.plus(span),
    {
        match self.nanos.checked_add(span.nanos) {
            Some(nanos) => if nanos <= MAX_INSTANT_NANOS {
                Some(Instant { nanos })
            } else {
                None
            },
            None => None,
        }
    }

    /// Returns the span from `earlier`, saturating at the empty span.
    pub fn duration_since(self, earlier: Instant) -> (span: Duration)
        ensures
            span.nanos == self.since(earlier),
    {
        if self.nanos >= earlier.nanos {
            Duration { nanos: self.nanos - earlier.nanos }
        } else {
            Duration { nanos: 0 }
        }
    }
}

/// Going on for a span and measuring from where one came gives the span back; measuring from a
/// later instant gives none. Only the end of the clock keeps an instant from being reached.
pub proof fn spans_are_what_passes(from: Instant, span: Duration, other: Instant)
    ensures
        from.plus(span) is Some <==> from.nanos + span.nanos
            <= 9_223_372_036_854_775_807_999_999_999,
        from.plus(span) matches Some(later) ==> later.nanos == from.nanos + span.nanos
            && later.since(from) == span.nanos && from.since(later) == 0,
        other.nanos >= from.nanos ==> other.since(from) == other.nanos - from.nanos,
        other.nanos <= from.nanos ==> other.since(from) == 0,
{
}

} // verus!
