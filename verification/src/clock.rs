//! Instants in time, as the rest of the library sees them.

use vstd::prelude::*;

verus! {

/// Milliseconds since 1970-01-01T00:00:00Z, leap seconds not counted.
pub type Timestamp = i64;

/// The last millisecond of the year 262142, the latest instant that the
/// calendar behind the wall clock can represent.
pub const MAX_TIMESTAMP: Timestamp = 8_210_266_876_799_999;

/// Whether `t` is an instant the wall clock can report.
pub open spec fn is_clock_reading(t: Timestamp) -> bool {
    0 <= t <= MAX_TIMESTAMP
}

/// Reads the wall clock.
///
/// Trusted: calls `chrono::Utc::now()` and converts the result with
/// `DateTime::timestamp_millis`. `Utc::now` builds its value from the time
/// elapsed since the Unix epoch, so the reading is never negative, and a
/// `DateTime` cannot lie after the year 262142, which bounds it from above.
/// Nothing else is claimed: two readings may come out in any order.
/// `Utc::now` aborts when the system clock is set before 1970.
#[verifier::external_body]
pub(crate) fn utc_now_millis() -> (t: Timestamp)
    ensures
        is_clock_reading(t),
{
    chrono::Utc::now().timestamp_millis()
}

} // verus!
