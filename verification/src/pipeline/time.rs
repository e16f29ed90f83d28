//! Spans and points of time at microsecond resolution.
//!
//! The pipeline measures every interval in whole microseconds, so a span is
//! a count of microseconds and a point of time is a count of microseconds
//! since the Unix epoch.

use vstd::prelude::*;

verus! {

/// The value of the 64-bit pattern `x` read as a two's-complement signed integer.
pub open spec fn as_signed(x: u64) -> int {
    if x <= i64::MAX {
        x as int
    } else {
        x - 0x1_0000_0000_0000_0000
    }
}

/// The value of the 64-bit pattern `x` read as an unsigned integer.
pub open spec fn as_unsigned(x: i64) -> int {
    if x >= 0 {
        x as int
    } else {
        x + 0x1_0000_0000_0000_0000
    }
}

/// `x` wrapped into the range of `i64` (for `x` at most one wrap away).
pub open spec fn wrapping_i64(x: int) -> int {
    if x > i64::MAX {
        x - 0x1_0000_0000_0000_0000
    } else if x < i64::MIN {
        x + 0x1_0000_0000_0000_0000
    } else {
        x
    }
}

/// Reinterprets the bits of `x` as a signed integer (the `as i64` cast).
pub fn reinterpret_as_i64(x: u64) -> (r: i64)
    ensures
        r == as_signed(x),
{
    if x <= 0x7fff_ffff_ffff_ffff {
        x as i64
    } else {
        let low: u64 = x - 0x8000_0000_0000_0000;
        (low as i64) + i64::MIN
    }
}

/// Reinterprets the bits of `x` as an unsigned integer (the `as u64` cast).
pub fn reinterpret_as_u64(x: i64) -> (r: u64)
    ensures
        r == as_unsigned(x),
{
    if x >= 0 {
        x as u64
    } else {
        let shifted: i64 = x - i64::MIN;
        (shifted as u64) + 0x8000_0000_0000_0000
    }
}

/// A span of time, in whole microseconds.
#[derive(Clone, Copy, Debug, PartialEq, Eq, Structural)]
pub struct Duration {
    pub micros: u64,
}

impl Duration {
    /// The span of `micros` microseconds.
    pub fn from_micros(micros: u64) -> (d: Duration)
        ensures
            d.micros == micros,
    {
        Duration { micros }
    }

    /// The span of `millis` milliseconds.
    pub fn from_millis(millis: u64) -> (d: Duration)
        requires
            millis * 1000 <= u64::MAX,
        ensures
            d.micros == millis * 1000,
    {
        Duration { micros: millis * 1000 }
    }

    /// The span of `secs` seconds.
    pub fn from_secs(secs: u64) -> (d: Duration)
        requires
            secs * 1_000_000 <= u64::MAX,
        ensures
            d.micros == secs * 1_000_000,
    {
        Duration { micros: secs * 1_000_000 }
    }

    /// The length of the span in microseconds.
    pub fn as_micros(&self) -> (m: u64)
        ensures
            m == self.micros,
    {
        self.micros
    }

    /// The length of the span in whole milliseconds.
    pub fn as_millis(&self) -> (m: u64)
        ensures
            m == self.micros / 1000,
    {
        self.micros / 1000
    }
}

/// A point of time: microseconds since the Unix epoch.
#[derive(Clone, Copy, Debug, PartialEq, Eq, Structural)]
pub struct Instant {
    pub micros: u64,
}

/// The span from `earlier` to `later`, or zero when `earlier` is not before `later`.
pub open spec fn span_between(later: Instant, earlier: Instant) -> nat {
    if later.micros >= earlier.micros {
        (later.micros - earlier.micros) as nat
    } else {
        0
    }
}

/// `std::time::UNIX_EPOCH.elapsed()`: the span from the Unix epoch to the
/// time of the call, or `None` in place of the error it returns when the
/// system clock reads before the epoch. Nothing is promised of the span: it
/// depends on the time of the call.
#[verifier::external_body]
fn elapsed_since_epoch() -> Option<std::time::Duration> {
    std::time::UNIX_EPOCH.elapsed().ok()
}

/// `std::time::Duration::as_micros`: the whole microseconds of the span.
/// The span is opaque here, so no clause ties the count to it.
#[verifier::external_body]
fn whole_micros(d: &std::time::Duration) -> u128 {
    d.as_micros()
}

impl Instant {
    /// The point of time `micros` microseconds after the epoch.
    pub fn from_micros(micros: u64) -> (i: Instant)
        ensures
            i.micros == micros,
    {
        Instant { micros }
    }

    /// The current time, read from the system clock; a clock set before the
    /// epoch reads as the epoch, and one beyond the range of `u64`
    /// microseconds as its end.
    pub fn now() -> Instant {
        let micros: u64 = match elapsed_since_epoch() {
            Some(d) => {
                let m = whole_micros(&d);
                if m > u64::MAX as u128 {
                    u64::MAX
                } else {
                    m as u64
                }
            },
            None => 0,
        };
        Instant { micros }
    }

    /// The span from `earlier` to `self`; zero when `earlier` is later.
    pub fn saturating_duration_since(&self, earlier: Instant) -> (d: Duration)
        ensures
            d.micros == span_between(*self, earlier),
    {
        if self.micros >= earlier.micros {
            Duration { micros: self.micros - earlier.micros }
        } else {
            Duration { micros: 0 }
        }
    }

    /// The span from `earlier` to `self`; zero when `earlier` is later.
    pub fn duration_since(&self, earlier: Instant) -> (d: Duration)
        ensures
            d.micros == span_between(*self, earlier),
    {
        self.saturating_duration_since(earlier)
    }

    /// The point of time `d` after `self`.
    pub fn add(&self, d: Duration) -> (i: Instant)
        requires
            self.micros + d.micros <= u64::MAX,
        ensures
            i.micros == self.micros + d.micros,
    {
        Instant { micros: self.micros + d.micros }
    }

    /// The span from `self` to the time of the call; zero if the clock reads earlier.
    pub fn elapsed(&self) -> (d: Duration)
        ensures
            exists|now: Instant| d.micros == #[trigger] span_between(now, *self),
    {
        let now = Instant::now();
        now.saturating_duration_since(*self)
    }
}

} // verus!
