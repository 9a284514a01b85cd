//! Points in time as plain values, and the cooldown arithmetic on them.

use chrono::Timelike;
use vstd::prelude::*;

verus! {

/// Nanoseconds in one second.
pub const NANOS_PER_SECOND: u32 = 1_000_000_000;

/// Nanoseconds in one millisecond.
pub const NANOS_PER_MILLI: u32 = 1_000_000;

/// Seconds that must lie between two posts, and between two notification
/// checks.
pub const COOLDOWN_SECONDS: u32 = 300;

/// A point in time: whole seconds since the Unix epoch and the nanoseconds
/// past that second.
#[derive(Clone, Copy, Debug, PartialEq, Eq, Structural)]
pub struct Timestamp {
    pub secs: i64,
    pub nanos: u32,
}

/// A reading of the wall clock in UTC: the point in time and its place in
/// the day.
#[derive(Clone, Copy, Debug, PartialEq, Eq, Structural)]
pub struct WallClock {
    pub at: Timestamp,
    pub hour: u32,
    pub minute: u32,
    pub second: u32,
}

/// Reads the wall clock.
///
/// Trusted: wraps `chrono::Utc::now` and copies out the fields that
/// `DateTime::timestamp`, `DateTime::timestamp_subsec_nanos` and the
/// `Timelike` accessors report. Nothing is claimed of the reading.
/// `Utc::now` panics where the system clock stands before 1970.
#[verifier::external_body]
pub(crate) fn utc_now() -> WallClock {
    let t = chrono::Utc::now();
    WallClock {
        at: Timestamp { secs: t.timestamp(), nanos: t.timestamp_subsec_nanos() },
        hour: t.hour(),
        minute: t.minute(),
        second: t.second(),
    }
}

impl Timestamp {
    /// Nanoseconds since the Unix epoch.
    pub open spec fn total_nanos(self) -> int {
        self.secs * 1_000_000_000 + self.nanos
    }

    /// Nanoseconds from `earlier` to `self`; negative if `self` is the
    /// earlier one.
    pub open spec fn nanos_since(self, earlier: Timestamp) -> int {
        self.total_nanos() - earlier.total_nanos()
    }

    /// Whether at least `seconds` whole seconds lie between `earlier` and
    /// `self`.
    pub fn at_least_after(&self, earlier: &Timestamp, seconds: u32) -> (r: bool)
        ensures
            r == (self.nanos_since(*earlier) >= seconds * 1_000_000_000),
    {
        let behind: i128 = earlier.secs as i128 * 1_000_000_000 + earlier.nanos as i128;
        let here: i128 = self.secs as i128 * 1_000_000_000 + self.nanos as i128;
        here - behind >= seconds as i128 * 1_000_000_000
    }

    /// The point `seconds` later, held at the last representable second
    /// where the sum would pass it.
    pub fn plus_seconds(&self, seconds: u32) -> (r: Timestamp)
        ensures
            r.nanos == self.nanos,
            r.secs == if self.secs + seconds <= i64::MAX {
                self.secs + seconds
            } else {
                i64::MAX as int
            },
    {
        let sum: i128 = self.secs as i128 + seconds as i128;
        let secs: i64 = if sum <= i64::MAX as i128 {
            sum as i64
        } else {
            i64::MAX
        };
        Timestamp { secs, nanos: self.nanos }
    }

    /// Whole seconds from `self` to `later`, rounded towards zero, and zero
    /// where `later` is not after `self` or the count does not fit.
    pub open spec fn whole_seconds_until(self, later: Timestamp) -> int {
        let d = later.nanos_since(self);
        if d <= 0 || d / 1_000_000_000 > u64::MAX {
            0
        } else {
            d / 1_000_000_000
        }
    }

    /// Whole seconds to wait from `self` until `later`.
    pub fn seconds_until(&self, later: &Timestamp) -> (r: u64)
        ensures
            r == self.whole_seconds_until(*later),
    {
        let behind: i128 = self.secs as i128 * 1_000_000_000 + self.nanos as i128;
        let ahead: i128 = later.secs as i128 * 1_000_000_000 + later.nanos as i128;
        let d: i128 = ahead - behind;
        if d <= 0 {
            0
        } else {
            let s: i128 = d / 1_000_000_000;
            if s > u64::MAX as i128 {
                0
            } else {
                s as u64
            }
        }
    }

    /// Whole milliseconds from `self` to the start of the next second.
    pub open spec fn millis_to_next_second(self) -> int {
        if self.nanos < 1_000_000_000 {
            (1_000_000_000 - self.nanos) / 1_000_000
        } else {
            0
        }
    }

    /// How long a loop that wakes once per second sleeps at `self`, in
    /// milliseconds: the time left to the next second boundary, so that the
    /// ticks do not drift.
    pub fn millis_until_next_second(&self) -> (r: u64)
        ensures
            r == self.millis_to_next_second(),
            r <= 1000,
    {
        if self.nanos < NANOS_PER_SECOND {
            ((NANOS_PER_SECOND - self.nanos) / NANOS_PER_MILLI) as u64
        } else {
            0
        }
    }
}

/// No earlier action, or one that lies at least the cooldown back.
pub open spec fn cooldown_over(last: Option<Timestamp>, now: Timestamp) -> bool {
    match last {
        None => true,
        Some(t) => now.nanos_since(t) >= COOLDOWN_SECONDS * 1_000_000_000,
    }
}

/// Whether an action whose last occurrence was at `last` may be repeated at
/// `now`.
pub fn cooldown_elapsed(last: Option<Timestamp>, now: Timestamp) -> (r: bool)
    ensures
        r == cooldown_over(last, now),
{
    match last {
        None => true,
        Some(t) => now.at_least_after(&t, COOLDOWN_SECONDS),
    }
}

/// The reading falls on the first second of one of the `marks` of the hour.
pub open spec fn on_minute_mark(marks: Seq<u32>, now: WallClock) -> bool {
    marks.contains(now.minute) && now.second == 0
}

/// Whether a scheduled action is due at `now`: the minute is one of `marks`
/// and the second is zero, so that it comes due once per mark.
pub fn is_minute_mark(marks: &Vec<u32>, now: &WallClock) -> (r: bool)
    ensures
        r == on_minute_mark(marks@, *now),
{
    if now.second != 0 {
        return false;
    }
    let mut i: usize = 0;
    while i < marks.len()
        invariant
            i <= marks.len(),
            now.second == 0,
            forall|j: int| 0 <= j < i ==> marks@[j] != now.minute,
        decreases marks.len() - i,
    {
        if marks[i] == now.minute {
            assert(marks@[i as int] == now.minute);
            return true;
        }
        i += 1;
    }
    false
}

} // verus!
