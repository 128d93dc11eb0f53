//! Points in time and spans of time, both counted in nanoseconds.
//!
//! A point in time is read from the system clock; every computation on it
//! is an integer computation on nanoseconds.
use vstd::prelude::*;

verus! {

/// Nanoseconds in one millisecond.
pub const NANOS_PER_MILLI: u128 = 1_000_000;

/// Nanoseconds in one second.
pub const NANOS_PER_SEC: u128 = 1_000_000_000;

/// A span of time, in nanoseconds.
#[derive(Clone, Copy, Debug, PartialEq, Eq, Structural)]
pub struct Duration {
    pub nanos: u128,
}

/// A point in time, in nanoseconds since the clock's origin.
#[derive(Clone, Copy, Debug, PartialEq, Eq, Structural)]
pub struct Instant {
    pub nanos: u128,
}

impl Duration {
    /// The empty span.
    pub fn zero() -> (d: Duration)
        ensures
            d.nanos == 0,
    {
        Duration { nanos: 0 }
    }

    pub fn from_nanos(nanos: u128) -> (d: Duration)
        ensures
            d.nanos == nanos,
    {
        Duration { nanos }
    }

    pub open spec fn spec_from_millis(millis: u64) -> Duration {
        Duration { nanos: (millis * NANOS_PER_MILLI) as u128 }
    }

    pub fn from_millis(millis: u64) -> (d: Duration)
        ensures
            d == Duration::spec_from_millis(millis),
            d.nanos == millis * NANOS_PER_MILLI,
    {
        Duration { nanos: millis as u128 * NANOS_PER_MILLI }
    }

    pub fn from_secs(secs: u64) -> (d: Duration)
        ensures
            d.nanos == secs * NANOS_PER_SEC,
    {
        Duration { nanos: secs as u128 * NANOS_PER_SEC }
    }

    pub fn as_nanos(&self) -> (n: u128)
        ensures
            n == self.nanos,
    {
        self.nanos
    }

    pub fn as_millis(&self) -> (n: u128)
        ensures
            n == self.nanos / NANOS_PER_MILLI,
    {
        self.nanos / NANOS_PER_MILLI
    }

    /// Whole seconds of the span.
    pub fn as_secs(&self) -> (n: u128)
        ensures
            n == self.nanos / NANOS_PER_SEC,
    {
        self.nanos / NANOS_PER_SEC
    }

    pub fn is_zero(&self) -> (b: bool)
        ensures
            b == (self.nanos == 0),
    {
        self.nanos == 0
    }

    /// `self - other`, or zero where `other` is the longer span.
    pub fn saturating_sub(&self, other: Duration) -> (d: Duration)
        ensures
            d.nanos == if self.nanos >= other.nanos { self.nanos - other.nanos } else { 0 },
    {
        if self.nanos >= other.nanos {
            Duration { nanos: self.nanos - other.nanos }
        } else {
            Duration { nanos: 0 }
        }
    }
}

impl Instant {
    pub fn from_nanos(nanos: u128) -> (t: Instant)
        ensures
            t.nanos == nanos,
    {
        Instant { nanos }
    }

    pub open spec fn spec_duration_since(self, earlier: Instant) -> Duration {
        Duration {
            nanos: if self.nanos >= earlier.nanos { (self.nanos - earlier.nanos) as u128 } else { 0 },
        }
    }

    /// The span from `earlier` to `self`, or zero where `earlier` comes after `self`.
    pub fn duration_since(&self, earlier: Instant) -> (d: Duration)
        ensures
            d == self.spec_duration_since(earlier),
            d.nanos == if self.nanos >= earlier.nanos { self.nanos - earlier.nanos } else { 0 },
    {
        if self.nanos >= earlier.nanos {
            Duration { nanos: self.nanos - earlier.nanos }
        } else {
            Duration { nanos: 0 }
        }
    }

    /// The span from `earlier` to `self`, or `None` where `earlier` comes after `self`.
    pub fn checked_duration_since(&self, earlier: Instant) -> (d: Option<Duration>)
        ensures
            match d {
                Some(d) => self.nanos >= earlier.nanos && d.nanos == self.nanos - earlier.nanos,
                None => self.nanos < earlier.nanos,
            },
    {
        if self.nanos >= earlier.nanos {
            Some(Duration { nanos: self.nanos - earlier.nanos })
        } else {
            None
        }
    }

    /// The point `d` after `self`.
    pub fn add_duration(&self, d: Duration) -> (t: Instant)
        requires
            self.nanos + d.nanos <= u128::MAX,
        ensures
            t.nanos == self.nanos + d.nanos,
    {
        Instant { nanos: self.nanos + d.nanos }
    }
}

#[verifier::external_type_specification]
#[verifier::external_body]
pub struct ExSystemTime(std::time::SystemTime);

#[verifier::external_type_specification]
#[verifier::external_body]
pub struct ExSystemTimeError(std::time::SystemTimeError);

/// `std::time::SystemTime::now`: the wall clock's reading. Nothing is
/// promised of it: it depends on the machine and the moment of the call.
#[verifier::external_body]
fn system_now() -> std::time::SystemTime {
    std::time::SystemTime::now()
}

/// `SystemTime::duration_since` with `UNIX_EPOCH`: how long after the Unix
/// epoch the reading lies, or an error for a reading before it. Nothing is
/// stated of the span, which depends on the opaque reading.
#[verifier::external_body]
fn since_unix_epoch(t: std::time::SystemTime) -> Result<
    core::time::Duration,
    std::time::SystemTimeError,
> {
    t.duration_since(std::time::UNIX_EPOCH)
}

/// `core::time::Duration::as_nanos`: the whole nanoseconds of a span.
/// Nothing is stated of it, as the span is opaque here.
#[verifier::external_body]
fn std_duration_nanos(d: core::time::Duration) -> u128 {
    d.as_nanos()
}

/// Reads the system clock as nanoseconds since the Unix epoch; a clock set
/// before the epoch reads as zero.
pub(crate) fn clock_now() -> (t: Instant) {
    match since_unix_epoch(system_now()) {
        Ok(d) => Instant { nanos: std_duration_nanos(d) },
        Err(_) => Instant { nanos: 0 },
    }
}

} // verus!
