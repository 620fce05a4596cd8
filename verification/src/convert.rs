//! Conversions between the library's nanosecond timestamps and the plain
//! shapes the surrounding program exchanges with its collaborators: whole
//! milliseconds from the command line, and second/nanosecond pairs from the
//! database's timestamp values.
use vstd::prelude::*;

verus! {

use crate::engine::ts_in_range;

/// A caller-supplied accuracy in whole milliseconds, as nanoseconds.
pub fn millis_to_nanos(millis: i64) -> (n: i128)
    ensures
        n == millis as int * 1000000,
        ts_in_range(n as int),
{
    (millis as i128) * 1000000
}

/// A second/nanosecond pair, as a single nanosecond timestamp. This is the
/// shape in which the database reports instants: whole seconds since the
/// Unix epoch and a nanosecond fraction below one second.
pub fn timestamp_parts_to_nanos(seconds: i64, nanos: u32) -> (t: i128)
    requires
        nanos < 1000000000,
    ensures
        t == seconds as int * 1000000000 + nanos as int,
        ts_in_range(t as int),
{
    (seconds as i128) * 1000000000 + (nanos as i128)
}

/// A nanosecond timestamp, split back into whole seconds and a nonnegative
/// nanosecond fraction below one second (flooring, so instants before the
/// epoch keep a fraction in range).
pub fn nanos_to_parts(t: i128) -> (p: (i64, u32))
    requires
        -9000000000000000000000000000 <= t <= 9000000000000000000000000000,
    ensures
        p.0 as int * 1000000000 + p.1 as int == t,
        p.1 < 1000000000,
{
    if t >= 0 {
        let m: u128 = t as u128;
        let q: u128 = m / 1000000000;
        let r: u128 = m % 1000000000;
        (q as i64, r as u32)
    } else {
        let m: u128 = (-t) as u128;
        let q: u128 = m / 1000000000;
        let r: u128 = m % 1000000000;
        if r == 0 {
            (-(q as i64), 0)
        } else {
            (-(q as i64) - 1, (1000000000 - r) as u32)
        }
    }
}

} // verus!
