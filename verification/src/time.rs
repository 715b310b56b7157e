//! Spans of time and points on a monotonic clock, as whole nanoseconds.

use vstd::prelude::*;

verus! {

/// Nanoseconds in one second.
pub const NANOS_PER_SEC: u128 = 1_000_000_000;

/// Nanoseconds in one millisecond.
pub const NANOS_PER_MILLI: u128 = 1_000_000;

/// A span of time, held as a count of nanoseconds.
#[derive(Clone, Copy, Debug, PartialEq, Eq, PartialOrd, Ord, Hash, Structural)]
pub struct Duration {
    pub nanos: u128,
}

impl View for Duration {
    type V = nat;

    open spec fn view(&self) -> nat {
        self.nanos as nat
    }
}

impl Duration {
    /// The empty span.
    pub fn zero() -> (d: Duration)
        ensures
            d@ == 0,
    {
        Duration { nanos: 0 }
    }

    pub fn from_nanos(nanos: u128) -> (d: Duration)
        ensures
            d@ == nanos,
    {
        Duration { nanos }
    }

    pub fn from_millis(millis: u64) -> (d: Duration)
        ensures
            d@ == millis * 1_000_000,
    {
        Duration { nanos: (millis as u128) * NANOS_PER_MILLI }
    }

    pub fn from_secs(secs: u64) -> (d: Duration)
        ensures
            d@ == secs * 1_000_000_000,
    {
        Duration { nanos: (secs as u128) * NANOS_PER_SEC }
    }

    pub fn as_nanos(&self) -> (n: u128)
        ensures
            n == self@,
    {
        self.nanos
    }

    /// Whole milliseconds in the span; the remainder is dropped.
    pub fn as_millis(&self) -> (n: u128)
        ensures
            n == self@ / 1_000_000,
    {
        self.nanos / NANOS_PER_MILLI
    }

    /// Whole seconds in the span; the remainder is dropped.
    pub fn as_secs(&self) -> (n: u128)
        ensures
            n == self@ / 1_000_000_000,
    {
        self.nanos / NANOS_PER_SEC
    }

    pub fn is_zero(&self) -> (b: bool)
        ensures
            b == (self@ == 0),
    {
        self.nanos == 0
    }

    /// `self - other`, or zero where `other` is the longer span.
    pub fn saturating_sub(&self, other: Duration) -> (d: Duration)
        ensures
            d@ == if self@ >= other@ { self@ - other@ } else { 0 },
    {
        if self.nanos >= other.nanos {
            Duration { nanos: self.nanos - other.nanos }
        } else {
            Duration { nanos: 0 }
        }
    }
}

/// A point in time: nanoseconds since the origin of the clock that read it.
#[derive(Clone, Copy, Debug, PartialEq, Eq, PartialOrd, Ord, Hash, Structural)]
pub struct Instant {
    pub nanos: u128,
}

impl View for Instant {
    type V = nat;

    open spec fn view(&self) -> nat {
        self.nanos as nat
    }
}

/// Time passed from `earlier` to `later`; zero where `later` is not after `earlier`.
pub open spec fn elapsed_between(earlier: Instant, later: Instant) -> nat {
    if later@ >= earlier@ {
        (later@ - earlier@) as nat
    } else {
        0
    }
}

impl Instant {
    pub fn from_nanos(nanos: u128) -> (t: Instant)
        ensures
            t@ == nanos,
    {
        Instant { nanos }
    }

    pub fn as_nanos(&self) -> (n: u128)
        ensures
            n == self@,
    {
        self.nanos
    }

    /// Time passed since `earlier`, or zero where `earlier` is the later point.
    pub fn saturating_duration_since(&self, earlier: Instant) -> (d: Duration)
        ensures
            d@ == elapsed_between(earlier, *self),
    {
        if self.nanos >= earlier.nanos {
            Duration { nanos: self.nanos - earlier.nanos }
        } else {
            Duration { nanos: 0 }
        }
    }

    /// The point `span` after this one, held at the largest point the type can express.
    pub fn saturating_add(&self, span: Duration) -> (t: Instant)
        ensures
            t@ == if self@ + span@ <= u128::MAX { self@ + span@ } else { u128::MAX as nat },
    {
        if span.nanos <= u128::MAX - self.nanos {
            Instant { nanos: self.nanos + span.nanos }
        } else {
            Instant { nanos: u128::MAX }
        }
    }
}

/// `std::time::Instant`, a reading of the machine's monotonic clock. It is
/// carried as it is; nothing is known of what it holds.
#[verifier::external_type_specification]
#[verifier::external_body]
pub struct ExStdInstant(std::time::Instant);

/// A monotonic clock. Its readings count nanoseconds from the moment it was made.
#[derive(Clone, Copy, Debug)]
pub struct Clock {
    origin: std::time::Instant,
}

/// `std::time::Instant::now`: the present moment on the machine's monotonic
/// clock. The value depends on when the call is made, so nothing is claimed of it.
#[verifier::external_body]
fn machine_now() -> std::time::Instant {
    std::time::Instant::now()
}

/// `std::time::Instant::saturating_duration_since`: the time from `earlier`
/// to `later` in nanoseconds, zero where `later` is not the later one.
/// Nothing is claimed of the number, as nothing is known of the two readings.
#[verifier::external_body]
fn nanos_between(earlier: &std::time::Instant, later: &std::time::Instant) -> u128 {
    later.saturating_duration_since(*earlier).as_nanos()
}

impl Clock {
    /// A clock whose origin is the present moment.
    pub fn new() -> Clock {
        Clock { origin: machine_now() }
    }

    /// The present moment on this clock.
    pub fn now(&self) -> Instant {
        let present = machine_now();
        Instant { nanos: nanos_between(&self.origin, &present) }
    }
}

} // verus!
