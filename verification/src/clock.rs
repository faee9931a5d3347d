//! The wall clock as a source of event timestamps.

use vstd::prelude::*;
use std::time::{Duration, SystemTime, UNIX_EPOCH};

verus! {

/// A reading of the system clock.
#[verifier::external_type_specification]
#[verifier::external_body]
pub struct ExSystemTime(SystemTime);

/// Calls `SystemTime::now`.  Trusted: nothing is claimed of the reading.
#[verifier::external_body]
fn system_now() -> (now: SystemTime) {
    SystemTime::now()
}

/// Calls `SystemTime::duration_since` with `UNIX_EPOCH`.  Trusted: nothing is
/// claimed of the answer; `None` stands for std's error, which says that the
/// reading lies before the epoch.
#[verifier::external_body]
fn since_unix_epoch(reading: &SystemTime) -> (elapsed: Option<Duration>) {
    match reading.duration_since(UNIX_EPOCH) {
        Ok(elapsed) => Some(elapsed),
        Err(_) => None,
    }
}

/// Calls `Duration::as_nanos`.  Trusted: nothing is claimed of the number.
#[verifier::external_body]
fn whole_nanos(elapsed: &Duration) -> (nanos: u128) {
    elapsed.as_nanos()
}

/// Keeps the low 64 bits of a nanosecond count.
pub fn timestamp_from_nanos(nanos: u128) -> (timestamp_ns: u64)
    ensures
        timestamp_ns == nanos % 0x1_0000_0000_0000_0000,
{
    let low: u128 = nanos & 0xffff_ffff_ffff_ffff;
    assert(low == nanos % 0x1_0000_0000_0000_0000) by (bit_vector)
        requires
            low == nanos & 0xffff_ffff_ffff_ffff,
    ;
    low as u64
}

/// The timestamp for a clock reading: the nanoseconds elapsed since the
/// epoch, reduced to 64 bits, or 0 where the reading lies before the epoch.
pub open spec fn timestamp_of(elapsed: Option<u128>) -> u64 {
    match elapsed {
        Some(nanos) => (nanos % 0x1_0000_0000_0000_0000) as u64,
        None => 0,
    }
}

/// Computes the timestamp for a clock reading, given the nanoseconds elapsed
/// since the epoch, or `None` where the reading lies before the epoch.
pub fn timestamp_from_elapsed(elapsed: Option<u128>) -> (timestamp_ns: u64)
    ensures
        timestamp_ns == timestamp_of(elapsed),
{
    match elapsed {
        Some(nanos) => timestamp_from_nanos(nanos),
        None => 0,
    }
}

/// Nanoseconds since the Unix epoch by the system clock, reduced to 64 bits;
/// 0 if the clock reads a time before the epoch.
pub fn current_time_ns() -> (timestamp_ns: u64) {
    let now = system_now();
    let elapsed: Option<u128> = match since_unix_epoch(&now) {
        Some(elapsed) => Some(whole_nanos(&elapsed)),
        None => None,
    };
    timestamp_from_elapsed(elapsed)
}

} // verus!
