//! Unix timestamps of the bot's digest periods, computed with chrono.

use chrono::{DateTime, TimeDelta, Utc};
use vstd::prelude::*;

verus! {

/// Seconds in a day.
pub const SECONDS_PER_DAY: i64 = 86_400;

/// The earliest Unix timestamp that chrono's `DateTime<Utc>` holds
/// (year -262143, January 1st, 00:00:00).
pub const MIN_TIMESTAMP: i64 = -8_334_601_228_800;

/// The latest whole-second Unix timestamp that chrono's `DateTime<Utc>` holds
/// (year 262142, December 31st, 23:59:59).
pub const MAX_TIMESTAMP: i64 = 8_210_266_876_799;

/// Whether a Unix timestamp lies in the range of chrono's `DateTime<Utc>`.
pub open spec fn in_datetime_range(t: int) -> bool {
    MIN_TIMESTAMP <= t <= MAX_TIMESTAMP
}

/// The timestamp `days` whole days before `timestamp`.
pub open spec fn days_before_spec(timestamp: int, days: int) -> int {
    timestamp - days * SECONDS_PER_DAY
}

/// What `days_before(timestamp, days)` returns: the timestamp `days` days
/// earlier where both instants lie in chrono's date range, else `None`.
pub open spec fn days_before_result(timestamp: int, days: int) -> Option<i64> {
    if in_datetime_range(timestamp) && in_datetime_range(days_before_spec(timestamp, days)) {
        Some(days_before_spec(timestamp, days) as i64)
    } else {
        None
    }
}

/// The system clock's time since the Unix epoch, from std's
/// `SystemTime::now().duration_since(UNIX_EPOCH)`, as whole seconds
/// (`Duration::as_secs`) and the nanoseconds past them
/// (`Duration::subsec_nanos`). `None` where the clock reads before the epoch.
/// Claimed: the nanoseconds are below one billion, as `subsec_nanos`
/// documents. Not claimed: which instant the clock reads.
#[verifier::external_body]
fn system_time_since_epoch() -> (r: Option<(u64, u32)>)
    ensures
        r matches Some((secs, nanos)) ==> nanos < 1_000_000_000,
{
    match std::time::SystemTime::now().duration_since(std::time::UNIX_EPOCH) {
        Ok(since) => Some((since.as_secs(), since.subsec_nanos())),
        Err(_) => None,
    }
}

/// chrono's `DateTime::<Utc>::from_timestamp(secs, nanos)`, read back with
/// `DateTime::timestamp`. Claimed: `Some(secs)` where `secs` lies in
/// `DateTime<Utc>`'s range, else `None` (for nanoseconds below one billion,
/// which name no leap second).
#[verifier::external_body]
fn datetime_timestamp(secs: i64, nanos: u32) -> (r: Option<i64>)
    requires
        nanos < 1_000_000_000,
    ensures
        r == (if in_datetime_range(secs as int) { Some(secs) } else { None }),
{
    match DateTime::<Utc>::from_timestamp(secs, nanos) {
        Some(at) => Some(at.timestamp()),
        None => None,
    }
}

/// chrono's `DateTime::checked_sub_signed`, applied to the instant `timestamp`
/// (`DateTime::<Utc>::from_timestamp(timestamp, 0)`) and the span
/// `TimeDelta::try_days(days)`, read back with `DateTime::timestamp`. Claimed:
/// the result is `timestamp - days * 86400` where both instants lie in
/// `DateTime<Utc>`'s range, else `None` (an instant out of range has no
/// `DateTime`; a span out of `TimeDelta`'s bounds, about 10^16 seconds, puts
/// the result far out of range).
#[verifier::external_body]
fn datetime_checked_minus_days(timestamp: i64, days: i64) -> (r: Option<i64>)
    ensures
        r == days_before_result(timestamp as int, days as int),
{
    let at = match DateTime::<Utc>::from_timestamp(timestamp, 0) {
        Some(at) => at,
        None => return None,
    };
    let span = match TimeDelta::try_days(days) {
        Some(span) => span,
        None => return None,
    };
    match at.checked_sub_signed(span) {
        Some(earlier) => Some(earlier.timestamp()),
        None => None,
    }
}

/// The timestamp `days` days before `timestamp`, or `None` where either
/// instant falls outside chrono's date range (where chrono's subtraction panics).
pub fn days_before(timestamp: i64, days: i64) -> (r: Option<i64>)
    ensures
        r == (if in_datetime_range(timestamp as int) && in_datetime_range(
            days_before_spec(timestamp as int, days as int),
        ) {
            Some(days_before_spec(timestamp as int, days as int) as i64)
        } else {
            None
        }),
{
    datetime_checked_minus_days(timestamp, days)
}

/// Why the clock could not be read as a chrono instant.
#[derive(Debug)]
pub enum ClockError {
    /// The system clock reads before 1970-01-01 00:00:00 UTC.
    BeforeUnixEpoch,
    /// The system clock reads past the latest instant chrono represents.
    OutOfRange,
}

/// The current time as a Unix timestamp, as chrono's `Utc::now()` reads it:
/// the clock's whole seconds since the epoch (cast to `i64`), which must lie
/// in chrono's date range. Whatever the clock says, a returned value lies in
/// that range.
pub fn now_timestamp() -> (r: Result<i64, ClockError>)
    ensures
        r matches Ok(t) ==> in_datetime_range(t as int),
{
    match system_time_since_epoch() {
        None => Err(ClockError::BeforeUnixEpoch),
        Some((secs, nanos)) => match datetime_timestamp(secs as i64, nanos) {
            Some(t) => Ok(t),
            None => Err(ClockError::OutOfRange),
        },
    }
}

/// The timestamp `days` days before now, or `None` where it falls outside
/// chrono's date range: what `days_before` gives for an instant that chrono
/// represents, the one the clock reads. So zero days before now is always
/// some timestamp; a returned value lies in that range and is `days` whole
/// days before an instant that also does. An error where the clock cannot be read.
pub fn now_minus_days(days: i64) -> (r: Result<Option<i64>, ClockError>)
    ensures
        r matches Ok(found) ==> exists|now: i64|
            in_datetime_range(now as int) && found == #[trigger] days_before_result(now as int, days as int),
        days == 0 ==> (r matches Ok(found) ==> found is Some),
        r matches Ok(Some(t)) ==> in_datetime_range(t as int) && in_datetime_range(
            t + days * SECONDS_PER_DAY,
        ),
{
    match now_timestamp() {
        Ok(now) => {
            let found = days_before(now, days);
            assert(found == days_before_result(now as int, days as int));
            Ok(found)
        },
        Err(e) => Err(e),
    }
}

} // verus!
