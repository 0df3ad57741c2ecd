//! The fixed-point time value and its arithmetic.
use core::time::Duration;
use vstd::prelude::*;

use crate::duration::{duration_nanos, secs_of, subsec_nanos_of, NANOS_PER_SEC};

verus! {

/// The largest value of `i64`, as the unsigned seconds of a duration.
pub const I64_MAX: u64 = 9_223_372_036_854_775_807;

/// A clock of the kernel, by what it measures.
#[derive(Clone, Copy, Debug, PartialEq, Eq, Structural, PartialOrd, Ord, Hash)]
pub enum ClockId {
    /// A settable system-wide clock that measures real (wall-clock) time. It
    /// jumps when the system time is changed and follows NTP adjustments.
    Realtime,
    /// A nonsettable clock of monotonic time since an unspecified point in
    /// the past (on Linux, the boot). It never jumps, follows NTP's gradual
    /// adjustments, and does not count time that the system is suspended.
    Monotonic,
    /// CPU time consumed by all threads of this process.
    ProcessCputimeId,
    /// CPU time consumed by this thread.
    ThreadCputimeId,
    /// Like `Monotonic`, but raw hardware time free of NTP adjustments.
    MonotonicRaw,
    /// A faster, less precise `Realtime`.
    RealtimeCoarse,
    /// A faster, less precise `Monotonic`.
    MonotonicCoarse,
    /// Like `Monotonic`, but it also counts time that the system is suspended.
    Boottime,
    /// Like `Realtime`, but not settable.
    RealtimeAlarm,
    /// Like `Boottime`, for alarms.
    BoottimeAlarm,
    /// Wall-clock time in International Atomic Time, without leap seconds.
    InternationalAtomicTime,
}

impl ClockId {
    /// The kernel's number for the clock.
    pub open spec fn spec_id(self) -> i32 {
        match self {
            ClockId::Realtime => 0,
            ClockId::Monotonic => 1,
            ClockId::ProcessCputimeId => 2,
            ClockId::ThreadCputimeId => 3,
            ClockId::MonotonicRaw => 4,
            ClockId::RealtimeCoarse => 5,
            ClockId::MonotonicCoarse => 6,
            ClockId::Boottime => 7,
            ClockId::RealtimeAlarm => 8,
            ClockId::BoottimeAlarm => 9,
            ClockId::InternationalAtomicTime => 11,
        }
    }

    /// The kernel's number for the clock, as the clock calls take it.
    pub fn id(self) -> (r: i32)
        ensures
            r == self.spec_id(),
    {
        match self {
            ClockId::Realtime => 0,
            ClockId::Monotonic => 1,
            ClockId::ProcessCputimeId => 2,
            ClockId::ThreadCputimeId => 3,
            ClockId::MonotonicRaw => 4,
            ClockId::RealtimeCoarse => 5,
            ClockId::MonotonicCoarse => 6,
            ClockId::Boottime => 7,
            ClockId::RealtimeAlarm => 8,
            ClockId::BoottimeAlarm => 9,
            ClockId::InternationalAtomicTime => 11,
        }
    }
}

/// Each clock has a number of its own.
pub proof fn lemma_clock_ids_distinct(a: ClockId, b: ClockId)
    ensures
        a != b ==> a.spec_id() != b.spec_id(),
{
}

/// The clock that [`crate::Instant`] reads.
pub const INSTANT_CLOCKID: ClockId = ClockId::Monotonic;

/// The clock that [`crate::SystemTime`] reads and sets.
pub const SYSTEM_TIME_CLOCKID: ClockId = ClockId::Realtime;

/// Whether a count of nanoseconds falls on a second that an `i64` can hold.
pub open spec fn representable(n: int) -> bool {
    i64::MIN <= n / (NANOS_PER_SEC as int) <= i64::MAX
}

/// A point in time: whole seconds and the nanoseconds past them, always
/// under one second.
#[derive(Clone, Copy, Debug, PartialEq, Eq, Structural, PartialOrd, Ord, Hash)]
pub struct Timespec {
    tv_sec: i64,
    tv_nsec: u32,
}

impl Timespec {
    /// The whole seconds.
    pub closed spec fn spec_secs(self) -> i64 {
        self.tv_sec
    }

    /// The nanoseconds past the whole seconds.
    pub closed spec fn spec_nsecs(self) -> u32 {
        self.tv_nsec
    }

    /// The sub-second part is under one second.
    #[verifier::type_invariant]
    pub open spec fn is_normalized(self) -> bool {
        self.spec_nsecs() < NANOS_PER_SEC
    }

    /// The point in time as nanoseconds from the clock's origin.
    pub open spec fn total_nanos(self) -> int {
        self.spec_secs() * (NANOS_PER_SEC as int) + self.spec_nsecs()
    }

    /// Two normalized values with the same nanosecond count are the same value.
    pub proof fn lemma_total_nanos_injective(a: Timespec, b: Timespec)
        requires
            a.is_normalized(),
            b.is_normalized(),
            a.total_nanos() == b.total_nanos(),
        ensures
            a == b,
    {
        let n = NANOS_PER_SEC as int;
        let (sa, sb) = (a.tv_sec as int, b.tv_sec as int);
        assert(sa == sb) by (nonlinear_arith)
            requires
                sa * n + a.tv_nsec == sb * n + b.tv_nsec,
                0 <= a.tv_nsec < n,
                0 <= b.tv_nsec < n,
                n > 0,
        ;
    }

    /// Seconds and nanoseconds of a normalized value are the quotient and
    /// remainder of its nanosecond count.
    pub proof fn lemma_split(t: Timespec)
        requires
            t.is_normalized(),
        ensures
            t.total_nanos() / (NANOS_PER_SEC as int) == t.spec_secs(),
            t.total_nanos() % (NANOS_PER_SEC as int) == t.spec_nsecs(),
            representable(t.total_nanos()),
    {
        let n = NANOS_PER_SEC as int;
        let s = t.tv_sec as int;
        let r = t.tv_nsec as int;
        vstd::arithmetic::div_mod::lemma_fundamental_div_mod_converse(s * n + r, n, s, r);
    }

    /// Between normalized values, the order of nanosecond counts is the
    /// lexicographic order of (seconds, nanoseconds).
    pub proof fn lemma_order_is_lexicographic(a: Timespec, b: Timespec)
        requires
            a.is_normalized(),
            b.is_normalized(),
        ensures
            a.total_nanos() >= b.total_nanos() <==> (a.spec_secs() > b.spec_secs() || (
            a.spec_secs() == b.spec_secs() && a.spec_nsecs() >= b.spec_nsecs())),
    {
    }

    /// The normalized value that lies `n` nanoseconds from the origin.
    pub closed spec fn from_total_nanos(n: int) -> Timespec {
        Timespec {
            tv_sec: (n / (NANOS_PER_SEC as int)) as i64,
            tv_nsec: (n % (NANOS_PER_SEC as int)) as u32,
        }
    }

    /// A representable nanosecond count gives a normalized value with that count.
    pub proof fn lemma_from_total_nanos(n: int)
        requires
            representable(n),
        ensures
            Timespec::from_total_nanos(n).is_normalized(),
            Timespec::from_total_nanos(n).total_nanos() == n,
    {
        vstd::arithmetic::div_mod::lemma_fundamental_div_mod(n, NANOS_PER_SEC as int);
    }

    /// A normalized value is the value built from its own nanosecond count.
    pub proof fn lemma_from_own_total_nanos(t: Timespec)
        requires
            t.is_normalized(),
        ensures
            Timespec::from_total_nanos(t.total_nanos()) == t,
    {
        Timespec::lemma_split(t);
    }

    /// Builds a value from whole seconds and nanoseconds under one second.
    pub fn new(secs: i64, nsecs: u32) -> (r: Timespec)
        requires
            nsecs < NANOS_PER_SEC,
        ensures
            r.spec_secs() == secs,
            r.spec_nsecs() == nsecs,
    {
        Timespec { tv_sec: secs, tv_nsec: nsecs }
    }

    /// The origin of the clock: zero seconds, zero nanoseconds.
    pub fn zero() -> (r: Timespec)
        ensures
            r.spec_secs() == 0,
            r.spec_nsecs() == 0,
    {
        Timespec::new(0, 0)
    }
}


impl Timespec {
    /// The whole seconds.
    pub fn secs(&self) -> (r: i64)
        ensures
            r == self.spec_secs(),
    {
        self.tv_sec
    }

    /// Sets the whole seconds, keeping the nanoseconds.
    pub fn set_secs(&mut self, secs: i64)
        ensures
            final(self).spec_secs() == secs,
            final(self).spec_nsecs() == old(self).spec_nsecs(),
    {
        proof {
            use_type_invariant(&*self);
        }
        self.tv_sec = secs;
    }

    /// The nanoseconds past the whole seconds.
    pub fn nsecs(&self) -> (r: u32)
        ensures
            r == self.spec_nsecs(),
            r < NANOS_PER_SEC,
    {
        proof {
            use_type_invariant(self);
        }
        self.tv_nsec
    }

    /// Sets the nanoseconds past the whole seconds, keeping the seconds.
    pub fn set_nsecs(&mut self, nsecs: u32)
        requires
            nsecs < NANOS_PER_SEC,
        ensures
            final(self).spec_secs() == old(self).spec_secs(),
            final(self).spec_nsecs() == nsecs,
    {
        self.tv_nsec = nsecs;
    }

    /// The whole seconds.
    pub fn seconds(&self) -> (r: i64)
        ensures
            r == self.spec_secs(),
    {
        self.secs()
    }

    /// Sets the whole seconds, keeping the nanoseconds.
    pub fn set_seconds(&mut self, secs: i64)
        ensures
            final(self).spec_secs() == secs,
            final(self).spec_nsecs() == old(self).spec_nsecs(),
    {
        self.set_secs(secs)
    }

    /// The nanoseconds past the whole seconds.
    pub fn nanosecs(&self) -> (r: u32)
        ensures
            r == self.spec_nsecs(),
            r < NANOS_PER_SEC,
    {
        self.nsecs()
    }

    /// The nanoseconds past the whole seconds.
    pub fn nanoseconds(&self) -> (r: u32)
        ensures
            r == self.spec_nsecs(),
            r < NANOS_PER_SEC,
    {
        self.nsecs()
    }

    /// Sets the nanoseconds past the whole seconds, keeping the seconds.
    pub fn set_nanosecs(&mut self, nsecs: u32)
        requires
            nsecs < NANOS_PER_SEC,
        ensures
            final(self).spec_secs() == old(self).spec_secs(),
            final(self).spec_nsecs() == nsecs,
    {
        self.set_nsecs(nsecs)
    }

    /// Sets the nanoseconds past the whole seconds, keeping the seconds.
    pub fn set_nanoseconds(&mut self, nsecs: u32)
        requires
            nsecs < NANOS_PER_SEC,
        ensures
            final(self).spec_secs() == old(self).spec_secs(),
            final(self).spec_nsecs() == nsecs,
    {
        self.set_nsecs(nsecs)
    }
}

impl Default for Timespec {
    /// The origin of the clock.
    fn default() -> (r: Timespec)
        ensures
            r.spec_secs() == 0,
            r.spec_nsecs() == 0,
    {
        Timespec::zero()
    }
}

/// How far `a` lies from `b` in nanoseconds: `Ok` with the distance when `a`
/// is not earlier than `b`, `Err` with the distance when it is.
pub open spec fn signed_difference(a: Timespec, b: Timespec) -> Result<int, int> {
    if a.total_nanos() >= b.total_nanos() {
        Ok(a.total_nanos() - b.total_nanos())
    } else {
        Err(b.total_nanos() - a.total_nanos())
    }
}

/// The nanoseconds carried by either side of a directional result.
pub open spec fn result_nanos(r: Result<Duration, Duration>) -> Result<int, int> {
    match r {
        Ok(d) => Ok(duration_nanos(d)),
        Err(d) => Err(duration_nanos(d)),
    }
}

/// The duration between `earlier` and `later`, which must not lie before it.
fn difference_from(later: &Timespec, earlier: &Timespec) -> (d: Duration)
    requires
        later.total_nanos() >= earlier.total_nanos(),
    ensures
        duration_nanos(d) == later.total_nanos() - earlier.total_nanos(),
        subsec_nanos_of(d) < NANOS_PER_SEC,
{
    proof {
        use_type_invariant(later);
        use_type_invariant(earlier);
    }
    // The seconds differ by at most 2^64 - 1, which may not fit an `i64`.
    let whole: u64 = if later.tv_sec >= 0 && earlier.tv_sec < 0 {
        later.tv_sec as u64 + (-(earlier.tv_sec + 1)) as u64 + 1
    } else {
        (later.tv_sec - earlier.tv_sec) as u64
    };
    let (secs, nsecs) = if later.tv_nsec >= earlier.tv_nsec {
        (whole, later.tv_nsec - earlier.tv_nsec)
    } else {
        (whole - 1, later.tv_nsec + NANOS_PER_SEC - earlier.tv_nsec)
    };
    Duration::new(secs, nsecs)
}

impl Timespec {
    /// The directional difference `self - other`: `Ok` with the elapsed
    /// duration when `self` is not earlier than `other`, otherwise `Err` with
    /// the duration by which `other` lies ahead.
    pub fn sub_timespec(&self, other: &Timespec) -> (r: Result<Duration, Duration>)
        ensures
            result_nanos(r) == signed_difference(*self, *other),
            match r {
                Ok(d) => subsec_nanos_of(d) < NANOS_PER_SEC,
                Err(d) => subsec_nanos_of(d) < NANOS_PER_SEC,
            },
    {
        proof {
            use_type_invariant(self);
            use_type_invariant(other);
        }
        if self.tv_sec > other.tv_sec || (self.tv_sec == other.tv_sec && self.tv_nsec
            >= other.tv_nsec) {
            Ok(difference_from(self, other))
        } else {
            Err(difference_from(other, self))
        }
    }
}

/// The quotient of `q * 10^9 + r` by `10^9`, for a remainder `r` that may
/// lie one second outside `[0, 10^9)` in either direction.
proof fn lemma_quotient_with_carry(q: int, r: int)
    requires
        -(NANOS_PER_SEC as int) <= r < 2 * (NANOS_PER_SEC as int),
    ensures
        (q * (NANOS_PER_SEC as int) + r) / (NANOS_PER_SEC as int) == if r < 0 {
            q - 1
        } else if r >= NANOS_PER_SEC as int {
            q + 1
        } else {
            q
        },
{
    let n = NANOS_PER_SEC as int;
    if r < 0 {
        vstd::arithmetic::div_mod::lemma_fundamental_div_mod_converse(q * n + r, n, q - 1, r + n);
    } else if r >= n {
        vstd::arithmetic::div_mod::lemma_fundamental_div_mod_converse(q * n + r, n, q + 1, r - n);
    } else {
        vstd::arithmetic::div_mod::lemma_fundamental_div_mod_converse(q * n + r, n, q, r);
    }
}

/// The point `d` after `t` (or before it, where `forward` is false), or
/// `None` where the seconds of `d` exceed `i64::MAX` or the point falls on a
/// second outside `i64`.
pub open spec fn checked_shift(t: Timespec, d: Duration, forward: bool) -> Option<Timespec> {
    let n = if forward {
        t.total_nanos() + duration_nanos(d)
    } else {
        t.total_nanos() - duration_nanos(d)
    };
    if secs_of(d) <= I64_MAX && representable(n) {
        Some(Timespec::from_total_nanos(n))
    } else {
        None
    }
}

/// `a + b`, or `None` where `b` exceeds `i64::MAX` or the sum leaves `i64`.
fn checked_add_unsigned(a: i64, b: u64) -> (r: Option<i64>)
    ensures
        r == if b <= I64_MAX && a + b <= i64::MAX {
            Some((a + b) as i64)
        } else {
            None
        },
{
    if b > I64_MAX {
        return None;
    }
    a.checked_add(b as i64)
}

/// `a - b`, or `None` where `b` exceeds `i64::MAX` or the difference leaves `i64`.
fn checked_sub_unsigned(a: i64, b: u64) -> (r: Option<i64>)
    ensures
        r == if b <= I64_MAX && a - b >= i64::MIN {
            Some((a - b) as i64)
        } else {
            None
        },
{
    if b > I64_MAX {
        return None;
    }
    a.checked_sub(b as i64)
}

impl Timespec {
    /// `self + other`, or `None` where the seconds of `other` exceed
    /// `i64::MAX` or the sum falls on a second outside `i64`.
    pub fn checked_add_duration(&self, other: &Duration) -> (r: Option<Timespec>)
        ensures
            r == checked_shift(*self, *other, true),
            r matches Some(t) ==> t.is_normalized(),
    {
        proof {
            use_type_invariant(self);
        }
        let mut secs = checked_add_unsigned(self.tv_sec, other.as_secs())?;
        // Both parts are under one second, so their sum fits a `u32`.
        let mut nsecs = other.subsec_nanos() + self.tv_nsec;
        if nsecs >= NANOS_PER_SEC {
            nsecs -= NANOS_PER_SEC;
            secs = secs.checked_add(1)?;
        }
        let t = Timespec::new(secs, nsecs);
        proof {
            Timespec::lemma_from_own_total_nanos(t);
        }
        Some(t)
    }

    /// `self - other`, or `None` where the seconds of `other` exceed
    /// `i64::MAX` or the difference falls on a second outside `i64`.
    pub fn checked_sub_duration(&self, other: &Duration) -> (r: Option<Timespec>)
        ensures
            r == checked_shift(*self, *other, false),
            r matches Some(t) ==> t.is_normalized(),
    {
        proof {
            use_type_invariant(self);
        }
        let mut secs = checked_sub_unsigned(self.tv_sec, other.as_secs())?;
        // Both parts are under one second, so their difference fits an `i32`.
        let mut nsecs = self.tv_nsec as i32 - other.subsec_nanos() as i32;
        if nsecs < 0 {
            nsecs += NANOS_PER_SEC as i32;
            secs = secs.checked_sub(1)?;
        }
        let t = Timespec::new(secs, nsecs as u32);
        proof {
            Timespec::lemma_from_own_total_nanos(t);
        }
        Some(t)
    }
}

/// The distance carried by either side of a directional difference.
pub open spec fn magnitude(r: Result<int, int>) -> int {
    match r {
        Ok(x) => x,
        Err(x) => x,
    }
}

/// Subtraction is directional: between two distinct normalized timestamps
/// exactly one order of the operands takes the non-negative branch, and both
/// orders report the same distance.
pub proof fn lemma_difference_antisymmetric(a: Timespec, b: Timespec)
    requires
        a.is_normalized(),
        b.is_normalized(),
    ensures
        a != b ==> (signed_difference(a, b) is Ok != signed_difference(b, a) is Ok),
        magnitude(signed_difference(a, b)) == magnitude(signed_difference(b, a)),
        magnitude(signed_difference(a, b)) >= 0,
{
    if a != b && a.total_nanos() == b.total_nanos() {
        Timespec::lemma_total_nanos_injective(a, b);
    }
}

/// Adding a duration and then subtracting it again gives back the timestamp
/// whenever the addition succeeds.
pub proof fn lemma_add_then_sub(t: Timespec, d: Duration)
    requires
        t.is_normalized(),
        checked_shift(t, d, true) is Some,
    ensures
        checked_shift(checked_shift(t, d, true).unwrap(), d, false) == Some(t),
{
    let n = t.total_nanos() + duration_nanos(d);
    Timespec::lemma_from_total_nanos(n);
    Timespec::lemma_split(t);
    Timespec::lemma_from_own_total_nanos(t);
}

/// A shift fails where the duration's seconds exceed `i64::MAX`, or where the
/// seconds of the result would leave `i64`.
pub proof fn lemma_shift_out_of_range(t: Timespec, d: Duration)
    requires
        t.is_normalized(),
        subsec_nanos_of(d) < NANOS_PER_SEC,
    ensures
        secs_of(d) > I64_MAX ==> checked_shift(t, d, true) is None && checked_shift(t, d, false) is None,
        t.spec_secs() + secs_of(d) > i64::MAX ==> checked_shift(t, d, true) is None,
        t.spec_secs() - secs_of(d) < i64::MIN ==> checked_shift(t, d, false) is None,
{
    let n = NANOS_PER_SEC as int;
    let (s, r) = (t.spec_secs() as int, t.spec_nsecs() as int);
    let (ds, dr) = (secs_of(d) as int, subsec_nanos_of(d) as int);
    lemma_quotient_with_carry(s + ds, r + dr);
    lemma_quotient_with_carry(s - ds, r - dr);
    assert(t.total_nanos() + duration_nanos(d) == (s + ds) * n + (r + dr));
    assert(t.total_nanos() - duration_nanos(d) == (s - ds) * n + (r - dr));
}

} // verus!
