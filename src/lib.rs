//! Monotonic and wall-clock time values over a fixed-point timestamp.
//!
//! Arithmetic on the time values is checked or saturating and never wraps;
//! the clock itself is read and set by the caller, which hands the kernel's
//! reading to [`Instant::from`] or [`SystemTime::from`].
use core::time::Duration;
use vstd::prelude::*;

pub mod duration;
pub mod raw;
pub mod source;

pub use linux_syscalls::Errno;

use crate::duration::{duration_nanos, secs_of, subsec_nanos_of, NANOS_PER_SEC};
use crate::raw::{checked_shift, Timespec};

verus! {

/// The elapsed nanoseconds from `earlier` to `later`, or `None` where
/// `earlier` lies after `later`.
pub open spec fn checked_elapsed(later: Timespec, earlier: Timespec) -> Option<int> {
    if later.total_nanos() >= earlier.total_nanos() {
        Some(later.total_nanos() - earlier.total_nanos())
    } else {
        None
    }
}

/// The elapsed nanoseconds from `earlier` to `later`, zero where `earlier`
/// lies after `later`.
pub open spec fn saturating_elapsed(later: Timespec, earlier: Timespec) -> int {
    if later.total_nanos() >= earlier.total_nanos() {
        later.total_nanos() - earlier.total_nanos()
    } else {
        0
    }
}

/// The nanoseconds of an optional duration.
pub open spec fn option_nanos(r: Option<Duration>) -> Option<int> {
    match r {
        Some(d) => Some(duration_nanos(d)),
        None => None,
    }
}

/// The saturating elapsed time is zero where the earlier instant actually
/// lies later, and otherwise equals the checked elapsed time.
pub proof fn lemma_saturating_is_checked_or_zero(a: Instant, b: Instant)
    ensures
        a@.total_nanos() < b@.total_nanos() ==> saturating_elapsed(a@, b@) == 0
            && checked_elapsed(a@, b@) is None,
        a@.total_nanos() >= b@.total_nanos() ==> checked_elapsed(a@, b@) == Some(
            saturating_elapsed(a@, b@),
        ),
{
}

/// For a reading `second` that is not earlier than `first`, as the monotonic
/// clock guarantees for consecutive readings, the elapsed time is never
/// negative and the saturating and checked forms agree on the exact difference.
pub proof fn lemma_ordered_readings(first: Instant, second: Instant)
    requires
        second@.total_nanos() >= first@.total_nanos(),
    ensures
        saturating_elapsed(second@, first@) >= 0,
        saturating_elapsed(second@, first@) == second@.total_nanos() - first@.total_nanos(),
        checked_elapsed(second@, first@) == Some(saturating_elapsed(second@, first@)),
{
}

/// A measurement of a monotonically nondecreasing clock. Opaque: only
/// differences and comparisons between instants are meaningful.
#[derive(Clone, Copy, Debug, PartialEq, Eq, Structural, PartialOrd, Ord, Hash)]
pub struct Instant {
    t: Timespec,
}

impl View for Instant {
    type V = Timespec;

    closed spec fn view(&self) -> Timespec {
        self.t
    }
}

impl Instant {
    /// The duration from `earlier` to `self`, or zero where `earlier` is later.
    pub fn duration_since(&self, earlier: Instant) -> (r: Duration)
        ensures
            duration_nanos(r) == saturating_elapsed(self@, earlier@),
            subsec_nanos_of(r) < NANOS_PER_SEC,
    {
        self.saturating_duration_since(earlier)
    }

    /// The duration from `earlier` to `self`, or `None` where `earlier` is
    /// later.
    pub fn checked_duration_since(&self, earlier: Instant) -> (r: Option<Duration>)
        ensures
            option_nanos(r) == checked_elapsed(self@, earlier@),
            r matches Some(d) ==> subsec_nanos_of(d) < NANOS_PER_SEC,
    {
        match self.t.sub_timespec(&earlier.t) {
            Ok(d) => Some(d),
            Err(_) => None,
        }
    }

    /// The duration from `earlier` to `self`, or zero where `earlier` is later.
    pub fn saturating_duration_since(&self, earlier: Instant) -> (r: Duration)
        ensures
            duration_nanos(r) == saturating_elapsed(self@, earlier@),
            subsec_nanos_of(r) < NANOS_PER_SEC,
    {
        match self.checked_duration_since(earlier) {
            Some(d) => d,
            None => Duration::new(0, 0),
        }
    }

    /// `self + duration`, or `None` where a timestamp cannot hold it.
    pub fn checked_add(&self, duration: Duration) -> (r: Option<Instant>)
        ensures
            r is Some <==> checked_shift(self@, duration, true) is Some,
            r matches Some(i) ==> Some(i@) == checked_shift(self@, duration, true) && i@.is_normalized(),
    {
        match self.t.checked_add_duration(&duration) {
            Some(t) => Some(Instant { t }),
            None => None,
        }
    }

    /// `self - duration`, or `None` where a timestamp cannot hold it.
    pub fn checked_sub(&self, duration: Duration) -> (r: Option<Instant>)
        ensures
            r is Some <==> checked_shift(self@, duration, false) is Some,
            r matches Some(i) ==> Some(i@) == checked_shift(self@, duration, false) && i@.is_normalized(),
    {
        match self.t.checked_sub_duration(&duration) {
            Some(t) => Some(Instant { t }),
            None => None,
        }
    }
}

impl Instant {
    /// The instant `d` after `self` (before it, where `forward` is false),
    /// where a timestamp can hold it.
    pub closed spec fn spec_shift(self, d: Duration, forward: bool) -> Instant {
        Instant { t: checked_shift(self.t, d, forward).unwrap() }
    }
}

impl core::ops::Add<Duration> for Instant {
    type Output = Instant;

    /// `self + other`; the caller makes sure that a timestamp can hold it.
    fn add(self, other: Duration) -> (r: Instant) {
        let r = self.checked_add(other).expect("overflow when adding duration to instant");
        proof {
            assert(r == self.spec_shift(other, true));
        }
        r
    }
}

impl vstd::std_specs::ops::AddSpecImpl<Duration> for Instant {
    open spec fn obeys_add_spec() -> bool {
        true
    }

    open spec fn add_req(self, rhs: Duration) -> bool {
        checked_shift(self@, rhs, true) is Some
    }

    open spec fn add_spec(self, rhs: Duration) -> Instant {
        self.spec_shift(rhs, true)
    }
}

impl core::ops::Sub<Duration> for Instant {
    type Output = Instant;

    /// `self - other`; the caller makes sure that a timestamp can hold it.
    fn sub(self, other: Duration) -> (r: Instant) {
        let r = self.checked_sub(other).expect("overflow when subtracting duration from instant");
        proof {
            assert(r == self.spec_shift(other, false));
        }
        r
    }
}

impl vstd::std_specs::ops::SubSpecImpl<Duration> for Instant {
    open spec fn obeys_sub_spec() -> bool {
        true
    }

    open spec fn sub_req(self, rhs: Duration) -> bool {
        checked_shift(self@, rhs, false) is Some
    }

    open spec fn sub_spec(self, rhs: Duration) -> Instant {
        self.spec_shift(rhs, false)
    }
}

impl core::ops::Sub<Instant> for Instant {
    type Output = Duration;

    /// The duration from `other` to `self`, or zero where `other` is later.
    fn sub(self, other: Instant) -> (r: Duration)
        ensures
            duration_nanos(r) == saturating_elapsed(self@, other@),
            subsec_nanos_of(r) < NANOS_PER_SEC,
    {
        self.duration_since(other)
    }
}

impl vstd::std_specs::ops::SubSpecImpl<Instant> for Instant {
    // A duration is known only through its seconds and nanoseconds, so the
    // result is described by `duration_since` rather than by a value here.
    open spec fn obeys_sub_spec() -> bool {
        false
    }

    open spec fn sub_req(self, rhs: Instant) -> bool {
        true
    }

    open spec fn sub_spec(self, rhs: Instant) -> Duration {
        vstd::pervasive::arbitrary()
    }
}

impl From<Instant> for Timespec {
    fn from(value: Instant) -> (r: Timespec) {
        value.t
    }
}

impl vstd::std_specs::convert::FromSpecImpl<Instant> for Timespec {
    open spec fn obeys_from_spec() -> bool {
        true
    }

    open spec fn from_spec(value: Instant) -> Timespec {
        value@
    }
}

impl From<Timespec> for Instant {
    /// The instant at a reading of the monotonic clock.
    fn from(value: Timespec) -> (r: Instant) {
        Instant { t: value }
    }
}

impl vstd::std_specs::convert::FromSpecImpl<Timespec> for Instant {
    open spec fn obeys_from_spec() -> bool {
        true
    }

    open spec fn from_spec(value: Timespec) -> Instant {
        Instant::spec_from(value)
    }
}

impl Instant {
    /// Where the shift is representable, the result of `+` or `-` has the
    /// shifted timestamp.
    pub proof fn lemma_spec_shift(self, d: Duration, forward: bool)
        requires
            checked_shift(self@, d, forward) is Some,
        ensures
            self.spec_shift(d, forward)@ == checked_shift(self@, d, forward).unwrap(),
    {
    }

    /// The instant whose timestamp is `t`.
    pub closed spec fn spec_from(t: Timespec) -> Instant {
        Instant { t }
    }

    /// The timestamp of the instant built from `t` is `t`.
    pub proof fn lemma_spec_from(t: Timespec)
        ensures
            Instant::spec_from(t)@ == t,
    {
    }
}

/// A measurement of the system clock. Unlike [`Instant`] it is not
/// monotonic: a later reading may lie before an earlier one, so differences
/// between two readings may fail.
#[derive(Clone, Copy, Debug, PartialEq, Eq, Structural, PartialOrd, Ord, Hash)]
pub struct SystemTime {
    t: Timespec,
}

impl View for SystemTime {
    type V = Timespec;

    closed spec fn view(&self) -> Timespec {
        self.t
    }
}

/// The error of [`SystemTime::duration_since`]: how far the reference point
/// lies after the time it was measured from.
#[derive(Clone, Copy, Debug)]
pub struct SystemTimeError(Duration);

impl SystemTimeError {
    /// The duration by which the reference point lies ahead.
    pub closed spec fn spec_duration(self) -> Duration {
        self.0
    }

    /// The duration by which the reference point lies ahead.
    pub fn duration(&self) -> (r: Duration)
        ensures
            r == self.spec_duration(),
    {
        self.0
    }
}

impl SystemTime {
    /// The time `secs` seconds and `nsecs` nanoseconds after the Unix epoch.
    pub fn new(secs: i64, nsecs: u32) -> (r: SystemTime)
        requires
            nsecs < NANOS_PER_SEC,
        ensures
            r@.spec_secs() == secs,
            r@.spec_nsecs() == nsecs,
    {
        SystemTime { t: Timespec::new(secs, nsecs) }
    }

    /// 1970-01-01 00:00:00 UTC, the origin of the system clock.
    pub fn unix_epoch() -> (r: SystemTime)
        ensures
            r@.spec_secs() == 0,
            r@.spec_nsecs() == 0,
    {
        SystemTime { t: Timespec::zero() }
    }

    /// The duration from `earlier` to `self`, or an error holding the duration
    /// from `self` to `earlier` where `earlier` is later.
    pub fn duration_since(&self, earlier: SystemTime) -> (r: Result<Duration, SystemTimeError>)
        ensures
            r is Ok <==> self@.total_nanos() >= earlier@.total_nanos(),
            r matches Ok(d) ==> duration_nanos(d) == self@.total_nanos() - earlier@.total_nanos()
                && subsec_nanos_of(d) < NANOS_PER_SEC,
            r matches Err(e) ==> duration_nanos(e.spec_duration()) == earlier@.total_nanos()
                - self@.total_nanos() && subsec_nanos_of(e.spec_duration()) < NANOS_PER_SEC,
    {
        match self.t.sub_timespec(&earlier.t) {
            Ok(d) => Ok(d),
            Err(d) => Err(SystemTimeError(d)),
        }
    }

    /// `self + duration`, or `None` where a timestamp cannot hold it.
    pub fn checked_add(&self, duration: Duration) -> (r: Option<SystemTime>)
        ensures
            r is Some <==> checked_shift(self@, duration, true) is Some,
            r matches Some(i) ==> Some(i@) == checked_shift(self@, duration, true) && i@.is_normalized(),
    {
        match self.t.checked_add_duration(&duration) {
            Some(t) => Some(SystemTime { t }),
            None => None,
        }
    }

    /// `self - duration`, or `None` where a timestamp cannot hold it.
    pub fn checked_sub(&self, duration: Duration) -> (r: Option<SystemTime>)
        ensures
            r is Some <==> checked_shift(self@, duration, false) is Some,
            r matches Some(i) ==> Some(i@) == checked_shift(self@, duration, false) && i@.is_normalized(),
    {
        match self.t.checked_sub_duration(&duration) {
            Some(t) => Some(SystemTime { t }),
            None => None,
        }
    }

    /// The time `d` after `self` (before it, where `forward` is false),
    /// where a timestamp can hold it.
    pub closed spec fn spec_shift(self, d: Duration, forward: bool) -> SystemTime {
        SystemTime { t: checked_shift(self.t, d, forward).unwrap() }
    }

    /// Where the shift is representable, the result of `+` or `-` has the
    /// shifted timestamp.
    pub proof fn lemma_spec_shift(self, d: Duration, forward: bool)
        requires
            checked_shift(self@, d, forward) is Some,
        ensures
            self.spec_shift(d, forward)@ == checked_shift(self@, d, forward).unwrap(),
    {
    }

    /// The system time whose timestamp is `t`.
    pub closed spec fn spec_from(t: Timespec) -> SystemTime {
        SystemTime { t }
    }

    /// The timestamp of the system time built from `t` is `t`.
    pub proof fn lemma_spec_from(t: Timespec)
        ensures
            SystemTime::spec_from(t)@ == t,
    {
    }
}

impl core::ops::Add<Duration> for SystemTime {
    type Output = SystemTime;

    /// `self + dur`; the caller makes sure that a timestamp can hold it.
    fn add(self, dur: Duration) -> (r: SystemTime) {
        let r = self.checked_add(dur).expect("overflow when adding duration to instant");
        proof {
            assert(r == self.spec_shift(dur, true));
        }
        r
    }
}

impl vstd::std_specs::ops::AddSpecImpl<Duration> for SystemTime {
    open spec fn obeys_add_spec() -> bool {
        true
    }

    open spec fn add_req(self, rhs: Duration) -> bool {
        checked_shift(self@, rhs, true) is Some
    }

    open spec fn add_spec(self, rhs: Duration) -> SystemTime {
        self.spec_shift(rhs, true)
    }
}

impl core::ops::Sub<Duration> for SystemTime {
    type Output = SystemTime;

    /// `self - dur`; the caller makes sure that a timestamp can hold it.
    fn sub(self, dur: Duration) -> (r: SystemTime) {
        let r = self.checked_sub(dur).expect("overflow when subtracting duration from instant");
        proof {
            assert(r == self.spec_shift(dur, false));
        }
        r
    }
}

impl vstd::std_specs::ops::SubSpecImpl<Duration> for SystemTime {
    open spec fn obeys_sub_spec() -> bool {
        true
    }

    open spec fn sub_req(self, rhs: Duration) -> bool {
        checked_shift(self@, rhs, false) is Some
    }

    open spec fn sub_spec(self, rhs: Duration) -> SystemTime {
        self.spec_shift(rhs, false)
    }
}

impl From<SystemTime> for Timespec {
    fn from(value: SystemTime) -> (r: Timespec) {
        value.t
    }
}

impl vstd::std_specs::convert::FromSpecImpl<SystemTime> for Timespec {
    open spec fn obeys_from_spec() -> bool {
        true
    }

    open spec fn from_spec(value: SystemTime) -> Timespec {
        value@
    }
}

impl From<Timespec> for SystemTime {
    /// The system time at a reading of the realtime clock.
    fn from(value: Timespec) -> (r: SystemTime) {
        SystemTime { t: value }
    }
}

impl vstd::std_specs::convert::FromSpecImpl<Timespec> for SystemTime {
    open spec fn obeys_from_spec() -> bool {
        true
    }

    open spec fn from_spec(value: Timespec) -> SystemTime {
        SystemTime::spec_from(value)
    }
}

impl core::ops::AddAssign<Duration> for Instant {
    /// Moves `self` by `other` in place; the caller makes sure that a
    /// timestamp can hold the result.
    fn add_assign(&mut self, other: Duration)
        requires
            checked_shift(old(self)@, other, true) is Some,
        ensures
            *final(self) == old(self).spec_shift(other, true),
    {
        *self = *self + other;
    }
}

impl core::ops::SubAssign<Duration> for Instant {
    /// Moves `self` by `other` in place; the caller makes sure that a
    /// timestamp can hold the result.
    fn sub_assign(&mut self, other: Duration)
        requires
            checked_shift(old(self)@, other, false) is Some,
        ensures
            *final(self) == old(self).spec_shift(other, false),
    {
        *self = *self - other;
    }
}

impl core::ops::AddAssign<Duration> for SystemTime {
    /// Moves `self` by `other` in place; the caller makes sure that a
    /// timestamp can hold the result.
    fn add_assign(&mut self, other: Duration)
        requires
            checked_shift(old(self)@, other, true) is Some,
        ensures
            *final(self) == old(self).spec_shift(other, true),
    {
        *self = *self + other;
    }
}

impl core::ops::SubAssign<Duration> for SystemTime {
    /// Moves `self` by `other` in place; the caller makes sure that a
    /// timestamp can hold the result.
    fn sub_assign(&mut self, other: Duration)
        requires
            checked_shift(old(self)@, other, false) is Some,
        ensures
            *final(self) == old(self).spec_shift(other, false),
    {
        *self = *self - other;
    }
}

} // verus!
