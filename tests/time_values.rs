use std::time::Duration;

use unix_clock::raw::{ClockId, Timespec, INSTANT_CLOCKID, SYSTEM_TIME_CLOCKID};
use unix_clock::{Instant, SystemTime};

fn ts(secs: i64, nsecs: u32) -> Timespec {
    Timespec::new(secs, nsecs)
}

fn instant(secs: i64, nsecs: u32) -> Instant {
    Instant::from(ts(secs, nsecs))
}

#[test]
fn sub_borrow_path() {
    let r = ts(5, 500_000_000).sub_timespec(&ts(3, 800_000_000));
    assert_eq!(r, Ok(Duration::new(1, 700_000_000)));
}

#[test]
fn sub_reverse_branch() {
    let r = ts(3, 800_000_000).sub_timespec(&ts(5, 500_000_000));
    assert_eq!(r, Err(Duration::new(1, 700_000_000)));
}

#[test]
fn sub_without_borrow() {
    let r = ts(5, 800_000_000).sub_timespec(&ts(3, 500_000_000));
    assert_eq!(r, Ok(Duration::new(2, 300_000_000)));
}

#[test]
fn sub_equal_values_is_zero_both_ways() {
    let a = ts(7, 123);
    assert_eq!(a.sub_timespec(&a), Ok(Duration::ZERO));
    assert_eq!(ts(0, 0).sub_timespec(&ts(0, 0)), Ok(Duration::ZERO));
}

#[test]
fn sub_across_the_whole_seconds_range() {
    let r = ts(i64::MAX, 999_999_999).sub_timespec(&ts(i64::MIN, 0));
    assert_eq!(r, Ok(Duration::new(u64::MAX, 999_999_999)));
    let r = ts(i64::MIN, 0).sub_timespec(&ts(i64::MAX, 999_999_999));
    assert_eq!(r, Err(Duration::new(u64::MAX, 999_999_999)));
    let r = ts(i64::MAX, 0).sub_timespec(&ts(i64::MIN, 1));
    assert_eq!(r, Ok(Duration::new(u64::MAX - 1, 999_999_999)));
}

#[test]
fn sub_negative_seconds() {
    let r = ts(-1, 200_000_000).sub_timespec(&ts(-3, 900_000_000));
    assert_eq!(r, Ok(Duration::new(1, 300_000_000)));
}

#[test]
fn sub_directions_agree() {
    let pairs = [
        (ts(5, 500_000_000), ts(3, 800_000_000)),
        (ts(-4, 0), ts(9, 1)),
        (ts(0, 1), ts(0, 0)),
        (ts(i64::MIN, 5), ts(i64::MAX, 4)),
    ];
    for (a, b) in pairs {
        let ab = a.sub_timespec(&b);
        let ba = b.sub_timespec(&a);
        assert_ne!(ab.is_ok(), ba.is_ok());
        let m1 = match ab {
            Ok(d) | Err(d) => d,
        };
        let m2 = match ba {
            Ok(d) | Err(d) => d,
        };
        assert_eq!(m1, m2);
    }
}

#[test]
fn add_then_sub_round_trip() {
    let cases = [
        (ts(0, 0), Duration::new(1, 999_999_999)),
        (ts(10, 999_999_999), Duration::new(3, 1)),
        (ts(-7, 5), Duration::new(0, 999_999_999)),
        (ts(i64::MAX - 2, 0), Duration::new(1, 999_999_999)),
        (ts(i64::MIN, 0), Duration::new(i64::MAX as u64, 0)),
    ];
    for (t, d) in cases {
        let u = t.checked_add_duration(&d).unwrap();
        assert_eq!(u.checked_sub_duration(&d), Some(t));
    }
}

#[test]
fn add_carries_into_seconds() {
    let r = ts(0, 999_999_999).checked_add_duration(&Duration::new(0, 999_999_999)).unwrap();
    assert_eq!(r.secs(), 1);
    assert_eq!(r.nsecs(), 999_999_998);
    let r = ts(2, 500_000_000).checked_add_duration(&Duration::new(1, 500_000_000)).unwrap();
    assert_eq!((r.secs(), r.nsecs()), (4, 0));
}

#[test]
fn sub_borrows_from_seconds() {
    let r = ts(2, 100).checked_sub_duration(&Duration::new(0, 200)).unwrap();
    assert_eq!((r.secs(), r.nsecs()), (1, 999_999_900));
    let r = ts(0, 0).checked_sub_duration(&Duration::new(1, 1)).unwrap();
    assert_eq!((r.secs(), r.nsecs()), (-2, 999_999_999));
}

#[test]
fn add_fails_outside_the_seconds_range() {
    assert_eq!(ts(0, 0).checked_add_duration(&Duration::new(u64::MAX, 0)), None);
    assert_eq!(ts(-5, 0).checked_add_duration(&Duration::new(i64::MAX as u64 + 1, 0)), None);
    assert_eq!(ts(1, 0).checked_add_duration(&Duration::new(i64::MAX as u64, 0)), None);
    assert_eq!(ts(i64::MAX, 500_000_000).checked_add_duration(&Duration::new(0, 600_000_000)), None);
    assert_eq!(
        ts(i64::MAX, 500_000_000).checked_add_duration(&Duration::new(0, 499_999_999)),
        Some(ts(i64::MAX, 999_999_999))
    );
}

#[test]
fn sub_fails_outside_the_seconds_range() {
    assert_eq!(ts(0, 0).checked_sub_duration(&Duration::new(u64::MAX, 0)), None);
    assert_eq!(ts(i64::MIN, 0).checked_sub_duration(&Duration::new(0, 1)), None);
    assert_eq!(ts(-1, 0).checked_sub_duration(&Duration::new(i64::MAX as u64, 1)), None);
    assert_eq!(
        ts(-1, 0).checked_sub_duration(&Duration::new(i64::MAX as u64, 0)),
        Some(ts(i64::MIN, 0))
    );
}

#[test]
fn results_stay_normalized() {
    let t = ts(3, 999_999_999);
    for n in [0u32, 1, 500_000_000, 999_999_999] {
        let d = Duration::new(0, n);
        assert!(t.checked_add_duration(&d).unwrap().nsecs() < 1_000_000_000);
        assert!(t.checked_sub_duration(&d).unwrap().nsecs() < 1_000_000_000);
    }
}

#[test]
fn accessors_and_setters() {
    let mut t = ts(4, 20);
    assert_eq!((t.secs(), t.seconds()), (4, 4));
    assert_eq!((t.nsecs(), t.nanosecs(), t.nanoseconds()), (20, 20, 20));
    t.set_secs(-9);
    t.set_nsecs(7);
    assert_eq!((t.secs(), t.nsecs()), (-9, 7));
    t.set_seconds(11);
    t.set_nanosecs(8);
    assert_eq!((t.seconds(), t.nanosecs()), (11, 8));
    t.set_nanoseconds(999_999_999);
    assert_eq!(t.nanoseconds(), 999_999_999);
    assert_eq!(Timespec::default(), Timespec::zero());
    assert_eq!((Timespec::zero().secs(), Timespec::zero().nsecs()), (0, 0));
}

#[test]
fn timespec_orders_by_seconds_then_nanoseconds() {
    assert!(ts(1, 999_999_999) < ts(2, 0));
    assert!(ts(-1, 5) < ts(-1, 6));
    assert_eq!(ts(3, 4), ts(3, 4));
}

#[test]
fn clock_ids() {
    assert_eq!(ClockId::Realtime.id(), 0);
    assert_eq!(ClockId::Monotonic.id(), 1);
    assert_eq!(ClockId::ProcessCputimeId.id(), 2);
    assert_eq!(ClockId::ThreadCputimeId.id(), 3);
    assert_eq!(ClockId::MonotonicRaw.id(), 4);
    assert_eq!(ClockId::RealtimeCoarse.id(), 5);
    assert_eq!(ClockId::MonotonicCoarse.id(), 6);
    assert_eq!(ClockId::Boottime.id(), 7);
    assert_eq!(ClockId::RealtimeAlarm.id(), 8);
    assert_eq!(ClockId::BoottimeAlarm.id(), 9);
    assert_eq!(ClockId::InternationalAtomicTime.id(), 11);
    assert_eq!(INSTANT_CLOCKID, ClockId::Monotonic);
    assert_eq!(SYSTEM_TIME_CLOCKID, ClockId::Realtime);
}

#[test]
fn instant_differences() {
    let early = instant(3, 800_000_000);
    let late = instant(5, 500_000_000);
    assert_eq!(late.duration_since(early), Duration::new(1, 700_000_000));
    assert_eq!(late.checked_duration_since(early), Some(Duration::new(1, 700_000_000)));
    assert_eq!(late.saturating_duration_since(early), Duration::new(1, 700_000_000));
    assert_eq!(late - early, Duration::new(1, 700_000_000));
}

#[test]
fn instant_saturates_when_misordered() {
    let early = instant(3, 800_000_000);
    let late = instant(5, 500_000_000);
    assert_eq!(early.checked_duration_since(late), None);
    assert_eq!(early.saturating_duration_since(late), Duration::ZERO);
    assert_eq!(early.duration_since(late), Duration::ZERO);
    assert_eq!(early - late, Duration::ZERO);
}

#[test]
fn saturating_matches_checked_or_zero() {
    let points = [instant(0, 0), instant(0, 1), instant(-3, 999_999_999), instant(8, 4)];
    for a in points {
        for b in points {
            let sat = a.saturating_duration_since(b);
            match a.checked_duration_since(b) {
                Some(d) => assert_eq!(sat, d),
                None => {
                    assert!(a < b);
                    assert_eq!(sat, Duration::ZERO);
                }
            }
        }
    }
}

#[test]
fn consecutive_readings_never_go_backwards() {
    let first = instant(100, 999_999_999);
    let second = instant(101, 0);
    assert!(second.duration_since(first) >= Duration::ZERO);
    assert_eq!(second.duration_since(first), Duration::new(0, 1));
    let same = instant(100, 999_999_999);
    assert!(same.duration_since(first) >= Duration::ZERO);
    assert_eq!(same.duration_since(first), Duration::ZERO);
}

#[test]
fn instant_shifts() {
    let i = instant(10, 0);
    let later = i.checked_add(Duration::new(2, 500)).unwrap();
    assert_eq!(later.duration_since(i), Duration::new(2, 500));
    assert_eq!(later.checked_sub(Duration::new(2, 500)), Some(i));
    assert_eq!(i + Duration::new(1, 0), instant(11, 0));
    assert_eq!(i - Duration::new(0, 1), instant(9, 999_999_999));
    assert_eq!(i.checked_add(Duration::new(u64::MAX, 0)), None);
    assert_eq!(instant(i64::MIN, 0).checked_sub(Duration::new(0, 1)), None);
    assert_eq!(Timespec::from(later), ts(12, 500));
}

#[test]
fn epoch_since_epoch_is_zero() {
    let epoch = SystemTime::unix_epoch();
    assert!(matches!(epoch.duration_since(epoch), Ok(d) if d == Duration::ZERO));
    assert_eq!(epoch, SystemTime::new(0, 0));
}

#[test]
fn system_time_reports_how_far_back() {
    let a = SystemTime::new(3, 800_000_000);
    let b = SystemTime::new(5, 500_000_000);
    assert_eq!(b.duration_since(a).unwrap(), Duration::new(1, 700_000_000));
    let err = a.duration_since(b).unwrap_err();
    assert_eq!(err.duration(), Duration::new(1, 700_000_000));
}

#[test]
fn system_time_shifts() {
    let epoch = SystemTime::unix_epoch();
    let t = epoch.checked_add(Duration::new(1_700_000_000, 5)).unwrap();
    assert_eq!(t, SystemTime::new(1_700_000_000, 5));
    assert_eq!(t.checked_sub(Duration::new(1_700_000_000, 5)), Some(epoch));
    assert_eq!(epoch + Duration::new(0, 7), SystemTime::new(0, 7));
    assert_eq!(epoch - Duration::new(0, 7), SystemTime::new(-1, 999_999_993));
    assert_eq!(epoch.checked_add(Duration::new(u64::MAX, 0)), None);
    assert_eq!(SystemTime::new(i64::MIN, 0).checked_sub(Duration::new(1, 0)), None);
    assert_eq!(Timespec::from(t), ts(1_700_000_000, 5));
    assert_eq!(SystemTime::from(ts(4, 4)), SystemTime::new(4, 4));
}

#[test]
fn shifts_in_place() {
    let mut i = instant(10, 999_999_999);
    i += Duration::new(0, 1);
    assert_eq!(i, instant(11, 0));
    i -= Duration::new(2, 1);
    assert_eq!(i, instant(8, 999_999_999));
    let mut t = SystemTime::new(0, 0);
    t += Duration::new(5, 5);
    assert_eq!(t, SystemTime::new(5, 5));
    t -= Duration::new(6, 0);
    assert_eq!(t, SystemTime::new(-1, 5));
}

#[test]
fn ordered_readings_agree() {
    let first = instant(7, 250);
    let second = instant(9, 100);
    let d = second.duration_since(first);
    assert!(d >= Duration::ZERO);
    assert_eq!(second.checked_duration_since(first), Some(d));
    assert_eq!(second - first, d);
}
