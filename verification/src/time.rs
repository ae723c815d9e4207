//! Timestamp arithmetic for wait timeouts and clock readings.
//!
//! A [`Timespec`] is a calendar or elapsed time split into whole seconds and
//! a sub-second nanosecond count; [`Duration`] is the unsigned span between
//! two of them. Every operation is specified in the single nanosecond domain:
//! the integer `seconds * 1_000_000_000 + nanoseconds`, so carrying and
//! borrowing between the two fields cannot drift from the intended value.
//! Reading a clock is the platform's business; this layer only computes.

use vstd::prelude::*;

verus! {

/// Nanoseconds per second.
pub const NSEC_PER_SEC: u32 = 1_000_000_000;

/// An unsigned span of time: whole seconds plus a sub-second remainder.
#[derive(Clone, Copy, Debug, PartialEq, Eq, PartialOrd, Ord, Hash, Structural)]
pub struct Duration {
    /// Whole seconds.
    pub secs: u64,
    /// Remainder, always below one second.
    pub nanos: u32,
}

impl Duration {
    /// The nanosecond field is a remainder: below one second.
    pub open spec fn wf(self) -> bool {
        self.nanos < NSEC_PER_SEC
    }

    /// The span as one integer count of nanoseconds.
    pub open spec fn as_ns(self) -> int {
        self.secs * 1_000_000_000 + self.nanos
    }

    /// Build a span from seconds and a sub-second remainder.
    pub fn new(secs: u64, nanos: u32) -> (d: Duration)
        requires
            nanos < NSEC_PER_SEC,
        ensures
            d.secs == secs,
            d.nanos == nanos,
            d.wf(),
    {
        Duration { secs, nanos }
    }

    /// Whole seconds of the span.
    pub fn as_secs(&self) -> (s: u64)
        ensures
            s == self.secs,
    {
        self.secs
    }

    /// Sub-second remainder of the span.
    pub fn subsec_nanos(&self) -> (n: u32)
        ensures
            n == self.nanos,
    {
        self.nanos
    }
}

/// A point in time: seconds since an epoch (or any other anchor), plus a
/// sub-second nanosecond count. Seconds may be negative; the nanosecond field
/// never is.
#[derive(Clone, Copy, Debug, PartialEq, Eq, PartialOrd, Ord, Hash, Structural)]
pub struct Timespec {
    /// Whole seconds since the anchor.
    pub tv_sec: i64,
    /// Nanoseconds past `tv_sec`, always below one second.
    pub tv_nsec: u32,
}

/// The largest value a [`Timespec`] can hold, in nanoseconds.
pub open spec fn timespec_max_ns() -> int {
    i64::MAX * 1_000_000_000 + (NSEC_PER_SEC - 1)
}

/// The smallest value a [`Timespec`] can hold, in nanoseconds.
pub open spec fn timespec_min_ns() -> int {
    i64::MIN * 1_000_000_000
}

impl Timespec {
    /// The nanosecond field is a remainder: below one second.
    pub open spec fn wf(self) -> bool {
        self.tv_nsec < NSEC_PER_SEC
    }

    /// The point in time as one integer count of nanoseconds.
    pub open spec fn as_ns(self) -> int {
        self.tv_sec * 1_000_000_000 + self.tv_nsec
    }

    /// Build a timestamp from seconds and nanoseconds. A nanosecond count
    /// outside `[0, 1_000_000_000)` is an invalid timestamp and excluded.
    pub fn new(tv_sec: i64, tv_nsec: i64) -> (t: Timespec)
        requires
            0 <= tv_nsec < NSEC_PER_SEC,
        ensures
            t.tv_sec == tv_sec,
            t.tv_nsec == tv_nsec,
            t.wf(),
    {
        Timespec { tv_sec, tv_nsec: tv_nsec as u32 }
    }

    /// The zero timestamp: the anchor itself.
    pub fn zero() -> (t: Timespec)
        ensures
            t.tv_sec == 0,
            t.tv_nsec == 0,
            t.wf(),
            t.as_ns() == 0,
    {
        Timespec { tv_sec: 0, tv_nsec: 0 }
    }

    /// Whole seconds.
    pub fn sec(&self) -> (s: i64)
        ensures
            s == self.tv_sec,
    {
        self.tv_sec
    }

    /// Sub-second nanoseconds.
    pub fn nsec(&self) -> (n: i64)
        ensures
            n == self.tv_nsec,
    {
        self.tv_nsec as i64
    }

    /// The span from `other` up to `self`: forwards as `Ok`, backwards as
    /// `Err`, exact in the nanosecond domain either way.
    pub fn sub_timespec(&self, other: &Timespec) -> (r: Result<Duration, Duration>)
        requires
            self.wf(),
            other.wf(),
        ensures
            self.as_ns() >= other.as_ns() ==> (r matches Ok(d) && d.wf() && d.as_ns()
                == self.as_ns() - other.as_ns()),
            self.as_ns() < other.as_ns() ==> (r matches Err(d) && d.wf() && d.as_ns()
                == other.as_ns() - self.as_ns()),
    {
        if self.tv_sec > other.tv_sec || (self.tv_sec == other.tv_sec && self.tv_nsec
            >= other.tv_nsec) {
            Ok(diff_ns(self, other))
        } else {
            Err(diff_ns(other, self))
        }
    }

    /// Move the timestamp forwards; nothing is returned when the result
    /// would not fit.
    pub fn checked_add_duration(&self, other: &Duration) -> (r: Option<Timespec>)
        requires
            self.wf(),
            other.wf(),
        ensures
            r matches Some(t) ==> t.wf() && t.as_ns() == self.as_ns() + other.as_ns(),
            r is None <==> self.as_ns() + other.as_ns() > timespec_max_ns(),
    {
        let mut nsec = self.tv_nsec + other.nanos;
        let mut carry: u64 = 0;
        if nsec >= NSEC_PER_SEC {
            nsec = nsec - NSEC_PER_SEC;
            carry = 1;
        }
        let total: i128 = self.tv_sec as i128 + other.secs as i128 + carry as i128;
        if total > i64::MAX as i128 {
            None
        } else {
            Some(Timespec { tv_sec: total as i64, tv_nsec: nsec })
        }
    }

    /// Move the timestamp backwards; nothing is returned when the result
    /// would not fit.
    pub fn checked_sub_duration(&self, other: &Duration) -> (r: Option<Timespec>)
        requires
            self.wf(),
            other.wf(),
        ensures
            r matches Some(t) ==> t.wf() && t.as_ns() == self.as_ns() - other.as_ns(),
            r is None <==> self.as_ns() - other.as_ns() < timespec_min_ns(),
    {
        let mut nsec: i64 = self.tv_nsec as i64 - other.nanos as i64;
        let mut borrow: u64 = 0;
        if nsec < 0 {
            nsec = nsec + NSEC_PER_SEC as i64;
            borrow = 1;
        }
        let total: i128 = self.tv_sec as i128 - other.secs as i128 - borrow as i128;
        if total < i64::MIN as i128 {
            None
        } else {
            Some(Timespec { tv_sec: total as i64, tv_nsec: nsec as u32 })
        }
    }
}

/// The span from `b` up to `a`, for `a` not before `b`.
fn diff_ns(a: &Timespec, b: &Timespec) -> (d: Duration)
    requires
        a.wf(),
        b.wf(),
        a.as_ns() >= b.as_ns(),
    ensures
        d.wf(),
        d.as_ns() == a.as_ns() - b.as_ns(),
{
    if a.tv_nsec >= b.tv_nsec {
        let secs_wide: i128 = a.tv_sec as i128 - b.tv_sec as i128;
        Duration { secs: secs_wide as u64, nanos: a.tv_nsec - b.tv_nsec }
    } else {
        let secs_wide: i128 = a.tv_sec as i128 - b.tv_sec as i128 - 1;
        Duration { secs: secs_wide as u64, nanos: a.tv_nsec + NSEC_PER_SEC - b.tv_nsec }
    }
}

/// The clock a timestamp was read from.
#[derive(Clone, Copy, Debug, PartialEq, Eq, Structural)]
pub enum ClockId {
    /// System-wide wall-clock time: seconds and nanoseconds since the Unix
    /// epoch, adjustable from outside.
    Realtime,
    /// A steady clock that only moves forwards, anchored at an unspecified
    /// starting point.
    Monotonic,
}

/// A wall-clock point in time, as read from the realtime clock.
#[derive(Clone, Copy, Debug, PartialEq, Eq, PartialOrd, Ord, Hash, Structural)]
pub struct SystemTime {
    /// Seconds and nanoseconds since the Unix epoch.
    pub t: Timespec,
}

impl SystemTime {
    /// The epoch anchor itself.
    pub open spec fn wf(self) -> bool {
        self.t.wf()
    }

    /// Wrap a realtime-clock reading.
    pub fn from_timespec(t: Timespec) -> (s: SystemTime)
        ensures
            s.t == t,
    {
        SystemTime { t }
    }

    /// The span from `other` up to `self`: forwards as `Ok`, backwards as
    /// `Err`.
    pub fn sub_time(&self, other: &SystemTime) -> (r: Result<Duration, Duration>)
        requires
            self.wf(),
            other.wf(),
        ensures
            self.t.as_ns() >= other.t.as_ns() ==> (r matches Ok(d) && d.wf() && d.as_ns()
                == self.t.as_ns() - other.t.as_ns()),
            self.t.as_ns() < other.t.as_ns() ==> (r matches Err(d) && d.wf() && d.as_ns()
                == other.t.as_ns() - self.t.as_ns()),
    {
        self.t.sub_timespec(&other.t)
    }

    /// Move the point forwards; nothing when the result would not fit.
    pub fn checked_add_duration(&self, other: &Duration) -> (r: Option<SystemTime>)
        requires
            self.wf(),
            other.wf(),
        ensures
            r matches Some(s) ==> s.wf() && s.t.as_ns() == self.t.as_ns() + other.as_ns(),
            r is None <==> self.t.as_ns() + other.as_ns() > timespec_max_ns(),
    {
        match self.t.checked_add_duration(other) {
            Some(t) => Some(SystemTime { t }),
            None => None,
        }
    }

    /// Move the point backwards; nothing when the result would not fit.
    pub fn checked_sub_duration(&self, other: &Duration) -> (r: Option<SystemTime>)
        requires
            self.wf(),
            other.wf(),
        ensures
            r matches Some(s) ==> s.wf() && s.t.as_ns() == self.t.as_ns() - other.as_ns(),
            r is None <==> self.t.as_ns() - other.as_ns() < timespec_min_ns(),
    {
        match self.t.checked_sub_duration(other) {
            Some(t) => Some(SystemTime { t }),
            None => None,
        }
    }
}

/// A monotonic-clock point in time.
#[derive(Clone, Copy, Debug, PartialEq, Eq, PartialOrd, Ord, Hash, Structural)]
pub struct Instant {
    /// The monotonic reading.
    pub t: Timespec,
}

impl Instant {
    /// The reading is well formed.
    pub open spec fn wf(self) -> bool {
        self.t.wf()
    }

    /// Wrap a monotonic-clock reading.
    pub fn from_timespec(t: Timespec) -> (i: Instant)
        ensures
            i.t == t,
    {
        Instant { t }
    }

    /// The span since `other`, or nothing if `other` is later: a monotonic
    /// difference never goes backwards.
    pub fn checked_sub_instant(&self, other: &Instant) -> (r: Option<Duration>)
        requires
            self.wf(),
            other.wf(),
        ensures
            self.t.as_ns() >= other.t.as_ns() ==> (r matches Some(d) && d.wf() && d.as_ns()
                == self.t.as_ns() - other.t.as_ns()),
            self.t.as_ns() < other.t.as_ns() ==> r is None,
    {
        match self.t.sub_timespec(&other.t) {
            Ok(d) => Some(d),
            Err(_) => None,
        }
    }

    /// Move the instant forwards; nothing when the result would not fit.
    pub fn checked_add_duration(&self, other: &Duration) -> (r: Option<Instant>)
        requires
            self.wf(),
            other.wf(),
        ensures
            r matches Some(i) ==> i.wf() && i.t.as_ns() == self.t.as_ns() + other.as_ns(),
            r is None <==> self.t.as_ns() + other.as_ns() > timespec_max_ns(),
    {
        match self.t.checked_add_duration(other) {
            Some(t) => Some(Instant { t }),
            None => None,
        }
    }

    /// Move the instant backwards; nothing when the result would not fit.
    pub fn checked_sub_duration(&self, other: &Duration) -> (r: Option<Instant>)
        requires
            self.wf(),
            other.wf(),
        ensures
            r matches Some(i) ==> i.wf() && i.t.as_ns() == self.t.as_ns() - other.as_ns(),
            r is None <==> self.t.as_ns() - other.as_ns() < timespec_min_ns(),
    {
        match self.t.checked_sub_duration(other) {
            Some(t) => Some(Instant { t }),
            None => None,
        }
    }
}

} // verus!
