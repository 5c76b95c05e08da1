//! Time: the current time, and dates some months ahead, both by `chrono`.
//! Points in time are microseconds since the Unix epoch, in UTC.
use vstd::prelude::*;

verus! {

/// The point in time `months` calendar months after `t`, as
/// `NaiveDateTime::checked_add_months` computes it (the day of the month
/// is clamped to the last day of the resulting month; the time of day is
/// kept), or none when `t` or the result lies outside chrono's range.
pub uninterp spec fn months_after(t: i64, months: u32) -> Option<i64>;

/// The start of year 262143 UTC: the first moment after the last one that
/// chrono can represent (its latest year is 262142).
pub open spec fn chrono_end_micros() -> int {
    8_210_266_876_800_000_000
}

/// The start of year 262142 UTC, chrono's latest year.
pub open spec fn chrono_last_year_micros() -> int {
    8_210_235_340_800_000_000
}

/// The start of year 262143 UTC in whole seconds.
pub open spec fn chrono_end_secs() -> int {
    8_210_266_876_800
}

/// The current time as nanoseconds since the Unix epoch.
pub open spec fn nanos_of(secs: i64, nanos: u32) -> int {
    secs * 1_000_000_000 + nanos
}

/// Reads the system clock through `chrono::Utc::now` and gives the time
/// as whole seconds since the Unix epoch (`timestamp`) and the
/// nanoseconds past that second (`timestamp_subsec_nanos`). Which time it
/// reads is not promised. In chrono's source, `now` fails (it does not
/// return) for a system time before the Unix epoch or outside chrono's
/// range, and builds the time from the system's seconds and its
/// nanoseconds below one second; so a time it returns lies between the
/// epoch and the end of chrono's range, and its nanoseconds are below a
/// second.
#[verifier::external_body]
pub(crate) fn utc_now() -> (r: (i64, u32))
    ensures
        0 <= r.0 < chrono_end_secs(),
        r.1 < 1_000_000_000,
{
    let now = chrono::Utc::now();
    (now.timestamp(), now.timestamp_subsec_nanos())
}

/// The current time in whole microseconds since the Unix epoch, the
/// nanoseconds below a microsecond dropped.
pub(crate) fn now_micros() -> (r: i64)
    ensures
        0 <= r < chrono_end_micros(),
{
    let (secs, nanos) = utc_now();
    assert(nanos / 1000 < 1_000_000) by (nonlinear_arith)
        requires
            nanos < 1_000_000_000,
    ;
    secs * 1_000_000 + (nanos / 1000) as i64
}

/// Calls `NaiveDateTime::checked_add_months` on the date and time `t`
/// (converted by `DateTime::from_timestamp_micros`, and back by
/// `timestamp_micros`). The result is named `months_after`. As chrono's
/// source shows, adding at least one month moves to a later month with
/// the same time of day, so the result then lies after `t`. It fails only
/// when the resulting year lies beyond chrono's range, so from a time
/// between the epoch and the start of chrono's latest year, adding at most
/// twelve months succeeds.
#[verifier::external_body]
pub(crate) fn add_months_micros(t: i64, months: u32) -> (r: Option<i64>)
    ensures
        r == months_after(t, months),
        r matches Some(later) ==> (months > 0 ==> later > t),
        (0 <= t < chrono_last_year_micros() && months <= 12) ==> r is Some,
{
    match chrono::DateTime::from_timestamp_micros(t) {
        Some(d) => match d.naive_utc().checked_add_months(chrono::Months::new(months)) {
            Some(n) => Some(n.and_utc().timestamp_micros()),
            None => None,
        },
        None => None,
    }
}

} // verus!
