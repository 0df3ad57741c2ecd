//! What this library relies on about `core::time::Duration`.
use core::time::Duration;
use vstd::prelude::*;

verus! {

/// Nanoseconds in one second.
pub const NANOS_PER_SEC: u32 = 1_000_000_000;

/// The whole seconds of a duration, as `Duration::as_secs` reports them.
pub uninterp spec fn secs_of(d: Duration) -> u64;

/// The fractional part of a duration in nanoseconds, as `Duration::subsec_nanos` reports it.
pub uninterp spec fn subsec_nanos_of(d: Duration) -> u32;

/// The length of a duration in nanoseconds.
pub open spec fn duration_nanos(d: Duration) -> int {
    secs_of(d) * NANOS_PER_SEC + subsec_nanos_of(d)
}

/// Relies on `Duration::new`: nanoseconds past a billion carry into the seconds,
/// and it panics only when that carry overflows the seconds.
pub assume_specification[ Duration::new ](secs: u64, nanos: u32) -> (r: Duration)
    requires
        secs + nanos as int / NANOS_PER_SEC as int <= u64::MAX,
    ensures
        secs_of(r) == secs + nanos as int / NANOS_PER_SEC as int,
        subsec_nanos_of(r) == nanos as int % NANOS_PER_SEC as int,
;

/// Relies on `Duration::as_secs`: the whole seconds of the duration.
pub assume_specification[ Duration::as_secs ](d: &Duration) -> (r: u64)
    ensures
        r == secs_of(*d),
;

/// Relies on `Duration::subsec_nanos`: the fractional part, always under a billion.
pub assume_specification[ Duration::subsec_nanos ](d: &Duration) -> (r: u32)
    ensures
        r == subsec_nanos_of(*d),
        r < NANOS_PER_SEC,
;

} // verus!
