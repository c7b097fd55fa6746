//! Times of day, by which the trading day's boundaries are told.

use chrono::{Timelike, Utc};
use vstd::prelude::*;

verus! {

/// A time of day: whole seconds since midnight, and the nanoseconds since
/// that whole second. Times are ordered by the seconds, then the nanoseconds.
#[derive(Debug, Clone, Copy, PartialEq, Eq, Structural)]
pub struct TimeOfDay {
    pub secs: u32,
    pub frac: u32,
}

impl TimeOfDay {
    /// Whether `self` is strictly earlier in the day than `other`.
    pub open spec fn precedes(self, other: TimeOfDay) -> bool {
        self.secs < other.secs || (self.secs == other.secs && self.frac < other.frac)
    }

    /// Whether `self` lies strictly between `start` and `end`.
    pub open spec fn within(self, start: TimeOfDay, end: TimeOfDay) -> bool {
        start.precedes(self) && self.precedes(end)
    }

    /// The time `hour:min:sec`, where that is a time of day.
    pub fn from_hms(hour: u32, min: u32, sec: u32) -> (t: Option<TimeOfDay>)
        ensures
            t is Some <==> hour < 24 && min < 60 && sec < 60,
            t is Some ==> t->0.secs == hour * 3600 + min * 60 + sec && t->0.frac == 0,
    {
        if hour < 24 && min < 60 && sec < 60 {
            Some(TimeOfDay { secs: hour * 3600 + min * 60 + sec, frac: 0 })
        } else {
            None
        }
    }

    /// Whether `self` is strictly earlier in the day than `other`.
    pub fn is_before(&self, other: &TimeOfDay) -> (b: bool)
        ensures
            b == self.precedes(*other),
    {
        self.secs < other.secs || (self.secs == other.secs && self.frac < other.frac)
    }

    /// Whether `self` is strictly later in the day than `other`.
    pub fn is_after(&self, other: &TimeOfDay) -> (b: bool)
        ensures
            b == other.precedes(*self),
    {
        other.is_before(self)
    }
}

/// The time of day in UTC, read from the system clock by `chrono::Utc::now`
/// and taken apart with `Timelike::num_seconds_from_midnight` and
/// `Timelike::nanosecond`. The result differs from call to call; the
/// contract states only the range that `chrono` documents for a time of day,
/// where the nanoseconds run past one second during a leap second.
/// `Utc::now` panics where the system clock stands before the year 1970 or
/// beyond the dates that `chrono` can hold.
#[verifier::external_body]
pub(crate) fn utc_time_of_day() -> (t: TimeOfDay)
    ensures
        t.secs < 86_400,
        t.frac < 2_000_000_000,
{
    let now = Utc::now().time();
    TimeOfDay { secs: now.num_seconds_from_midnight(), frac: now.nanosecond() }
}

} // verus!
