//! The system clock, and the timestamps that a reading of it stands for.

use vstd::prelude::*;

verus! {

/// How many values a 64-bit timestamp can take.
pub const TIMESTAMP_RANGE: u128 = 18446744073709551616;

/// Nanoseconds in a microsecond.
pub const NANOS_PER_MICRO: u128 = 1000;

/// Microseconds in a millisecond.
pub const MICROS_PER_MILLI: u64 = 1000;

/// Reads the system clock through `SystemTime::elapsed` on `UNIX_EPOCH`:
/// the nanoseconds that have passed since the epoch, or `None` where the
/// clock stands before it. Nothing is claimed of the value: it differs from
/// call to call.
#[verifier::external_body]
pub(crate) fn nanos_since_epoch() -> (reading: Option<u128>) {
    match std::time::UNIX_EPOCH.elapsed() {
        Ok(elapsed) => Some(elapsed.as_nanos()),
        Err(_) => None,
    }
}

/// The 64-bit nanosecond timestamp that a clock reading stands for: its low
/// 64 bits, and 0 for a clock that stands before the epoch.
pub open spec fn spec_timestamp_ns(reading: Option<u128>) -> u64 {
    match reading {
        Some(nanos) => (nanos % TIMESTAMP_RANGE) as u64,
        None => 0,
    }
}

/// The 64-bit microsecond timestamp that a clock reading stands for: the
/// whole microseconds in it, cut to their low 64 bits, and 0 for a clock that
/// stands before the epoch.
pub open spec fn spec_timestamp_us(reading: Option<u128>) -> u64 {
    match reading {
        Some(nanos) => ((nanos / NANOS_PER_MICRO) % TIMESTAMP_RANGE) as u64,
        None => 0,
    }
}

/// Turns a clock reading into a nanosecond timestamp.
pub fn timestamp_ns(reading: Option<u128>) -> (t: u64)
    ensures
        t == spec_timestamp_ns(reading),
{
    match reading {
        Some(nanos) => (nanos % TIMESTAMP_RANGE) as u64,
        None => 0,
    }
}

/// Turns a clock reading into a microsecond timestamp.
pub fn timestamp_us(reading: Option<u128>) -> (t: u64)
    ensures
        t == spec_timestamp_us(reading),
{
    match reading {
        Some(nanos) => ((nanos / NANOS_PER_MICRO) % TIMESTAMP_RANGE) as u64,
        None => 0,
    }
}

/// The millisecond timestamp that a clock reading stands for: the
/// microsecond timestamp divided by 1000, the remainder dropped.
pub open spec fn spec_timestamp_ms(reading: Option<u128>) -> u64 {
    spec_timestamp_us(reading) / MICROS_PER_MILLI
}

/// Turns a clock reading into a millisecond timestamp.
pub fn timestamp_ms(reading: Option<u128>) -> (t: u64)
    ensures
        t == spec_timestamp_ms(reading),
{
    timestamp_us(reading) / MICROS_PER_MILLI
}

/// Timestamps by the system clock.
pub struct TimeUtils;

impl TimeUtils {
    /// The current time as a 64-bit microsecond timestamp: the whole
    /// microseconds since the epoch, cut to their low 64 bits, and 0 where
    /// the clock stands before it.
    pub fn get_timestamp_us() -> (t: u64) {
        let reading = nanos_since_epoch();
        timestamp_us(reading)
    }

    /// The current time as a millisecond timestamp: the microsecond
    /// timestamp divided by 1000, the remainder dropped.
    pub fn get_timestamp_ms() -> (t: u64)
        ensures
            t <= u64::MAX / MICROS_PER_MILLI,
    {
        let reading = nanos_since_epoch();
        timestamp_ms(reading)
    }
}

} // verus!
