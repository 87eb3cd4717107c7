//! Date-times: formatting of naive date-times, the Europe/Berlin time zone and
//! the current instant, all through chrono.

use vstd::prelude::*;
use crate::model::is_naive_timestamp;

verus! {

/// What chrono writes for the naive date-time `ts` with the pattern
/// `%d.%m.%Y %H:%M` (day, month, year, hour and minute).
pub uninterp spec fn naive_datetime_text(ts: i64) -> Seq<char>;

/// Calls chrono's `NaiveDateTime::format("%d.%m.%Y %H:%M")` on the naive
/// date-time `ts`. The contract only ties the text to `ts` by a name: what
/// the pattern writes is left to chrono.
#[verifier::external_body]
pub(crate) fn format_naive_datetime(ts: i64) -> (s: String)
    requires
        is_naive_timestamp(ts),
    ensures
        s@ == naive_datetime_text(ts),
{
    chrono::DateTime::from_timestamp(ts, 0).unwrap().naive_utc().format("%d.%m.%Y %H:%M").to_string()
}

/// What chrono's `Display` writes for the naive date-time `ts`
/// (`%Y-%m-%d %H:%M:%S`).
pub uninterp spec fn naive_datetime_display(ts: i64) -> Seq<char>;

/// Calls chrono's `Display` of `NaiveDateTime` (`to_string`) on the naive
/// date-time `ts`; the text is named, not spelled out.
#[verifier::external_body]
pub(crate) fn display_naive_datetime(ts: i64) -> (s: String)
    requires
        is_naive_timestamp(ts),
    ensures
        s@ == naive_datetime_display(ts),
{
    chrono::DateTime::from_timestamp(ts, 0).unwrap().naive_utc().to_string()
}

/// The UTC instant (seconds since the epoch) at which the Berlin wall clock
/// shows the naive date-time `ts`, where that instant is unique; `None` where
/// the wall-clock time is skipped or repeated by a daylight saving change.
pub uninterp spec fn berlin_to_utc(ts: i64) -> Option<i64>;

/// Calls chrono's `NaiveDateTime::and_local_timezone(chrono_tz::Europe::Berlin)`
/// and keeps the single result, if there is one. The contract names the
/// result; the time zone rules themselves are chrono-tz's.
#[verifier::external_body]
pub(crate) fn berlin_local_to_utc(ts: i64) -> (r: Option<i64>)
    requires
        is_naive_timestamp(ts),
    ensures
        r == berlin_to_utc(ts),
{
    let naive = chrono::DateTime::from_timestamp(ts, 0).unwrap().naive_utc();
    match naive.and_local_timezone(chrono_tz::Europe::Berlin) {
        chrono::LocalResult::Single(t) => Some(t.timestamp()),
        chrono::LocalResult::Ambiguous(_, _) => None,
        chrono::LocalResult::None => None,
    }
}

/// An instant in UTC: whole seconds since the epoch and the nanoseconds
/// after them.
#[derive(Clone, Copy, Debug)]
pub struct UtcInstant {
    pub secs: i64,
    pub nanos: u32,
}

/// Calls chrono's `Utc::now()`. Nothing is promised of the result: it is the
/// clock's reading.
#[verifier::external_body]
pub(crate) fn utc_now() -> (t: UtcInstant) {
    let now = chrono::Utc::now();
    UtcInstant { secs: now.timestamp(), nanos: now.timestamp_subsec_nanos() }
}

/// `now` lies after the instant `secs` (a whole second).
pub open spec fn is_after(now: UtcInstant, secs: i64) -> bool {
    now.secs > secs || (now.secs == secs && now.nanos > 0)
}

/// Whether `now` lies after the instant `secs` (a whole second).
pub fn after(now: UtcInstant, secs: i64) -> (b: bool)
    ensures
        b == is_after(now, secs),
{
    now.secs > secs || (now.secs == secs && now.nanos > 0)
}

} // verus!
