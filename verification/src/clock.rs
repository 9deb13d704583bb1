//! The UTC clock, and RFC 3339 timestamps of instants before a reading of it.
use vstd::prelude::*;

use crate::text::opt_view;

verus! {

/// What `chrono` renders the UTC instant `secs` seconds and `nanos`
/// nanoseconds after the Unix epoch to: `DateTime::from_timestamp(secs, nanos)`
/// then `to_rfc3339`, or `None` where `from_timestamp` refuses the instant (out
/// of chrono's date range, or not a valid sub-second count). A function of its
/// arguments alone: the offset is always UTC.
pub uninterp spec fn rfc3339_at(secs: i64, nanos: u32) -> Option<Seq<char>>;

/// One reading of the UTC clock: whole seconds since the Unix epoch and the
/// nanoseconds within that second.
#[derive(Debug, Clone, Copy)]
pub struct ClockReading {
    pub secs: i64,
    pub nanos: u32,
}

/// A reading is an instant chrono represents.
pub open spec fn is_reading(now: ClockReading) -> bool {
    rfc3339_at(now.secs, now.nanos) is Some
}

/// `chrono::Utc::now()`, read back with `timestamp` and
/// `timestamp_subsec_nanos`. The reading depends on the clock; what holds of
/// every reading is that chrono represents it (`Utc::now` builds its result
/// with `DateTime::from_timestamp` of these same seconds and nanoseconds).
#[verifier::external_body]
pub(crate) fn read_clock() -> (r: ClockReading)
    ensures
        is_reading(r),
{
    let now = chrono::Utc::now();
    ClockReading { secs: now.timestamp(), nanos: now.timestamp_subsec_nanos() }
}

/// `chrono::DateTime::from_timestamp(secs, nanos)`, rendered with
/// `to_rfc3339`; `None` where `from_timestamp` gives none.
#[verifier::external_body]
fn rfc3339(secs: i64, nanos: u32) -> (r: Option<String>)
    ensures
        opt_view(r) == rfc3339_at(secs, nanos),
{
    match chrono::DateTime::from_timestamp(secs, nanos) {
        Some(t) => Some(t.to_rfc3339()),
        None => None,
    }
}

/// The whole-second count `seconds` before `now`, when it is an `i64`.
pub open spec fn seconds_before(now: ClockReading, seconds: int) -> Option<i64> {
    let t = now.secs - seconds;
    if i64::MIN <= t <= i64::MAX {
        Some(t as i64)
    } else {
        None
    }
}

/// The RFC 3339 timestamp of the instant `seconds` before `now`, keeping its
/// nanoseconds, when chrono represents that instant.
pub open spec fn rfc3339_before(now: ClockReading, seconds: int) -> Option<Seq<char>> {
    match seconds_before(now, seconds) {
        Some(t) => rfc3339_at(t, now.nanos),
        None => None,
    }
}

/// The RFC 3339 timestamp `seconds` before `now`, or `None` when that instant is
/// out of range.
pub fn timestamp_before(now: ClockReading, seconds: i128) -> (r: Option<String>)
    requires
        -0x1_0000_0000_0000_0000_0000_0000i128 <= seconds <= 0x1_0000_0000_0000_0000_0000_0000i128,
    ensures
        opt_view(r) == rfc3339_before(now, seconds as int),
{
    let t: i128 = (now.secs as i128) - seconds;
    if t < (i64::MIN as i128) || t > (i64::MAX as i128) {
        None
    } else {
        rfc3339(t as i64, now.nanos)
    }
}

} // verus!
