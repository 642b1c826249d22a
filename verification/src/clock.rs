//! The wall clock.

use vstd::prelude::*;

verus! {

/// Microseconds in one second.
pub const MICROS_PER_SECOND: i64 = 1_000_000;

/// The whole seconds of a time given in microseconds since the Unix epoch,
/// rounded towards the past.
pub open spec fn seconds_of(micros: i64) -> int {
    micros as int / 1_000_000
}

/// Reads the clock with `chrono::Utc::now` and returns `timestamp_micros`
/// of it: microseconds since the Unix epoch. Nothing is claimed of the
/// value. Like `Utc::now`, it takes the system clock to stand at or after
/// 1970.
#[verifier::external_body]
pub(crate) fn utc_now_micros() -> (r: i64) {
    chrono::Utc::now().timestamp_micros()
}

/// The whole seconds of a time in microseconds, rounded towards the past as
/// a Unix timestamp is.
pub fn whole_seconds(micros: i64) -> (r: i64)
    ensures
        r == seconds_of(micros),
{
    let quotient = micros / MICROS_PER_SECOND;
    let rest = micros % MICROS_PER_SECOND;
    if rest < 0 {
        quotient - 1
    } else {
        quotient
    }
}

} // verus!
