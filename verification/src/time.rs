use chrono::Datelike;
use vstd::prelude::*;

verus! {

/// A calendar date of the proleptic Gregorian calendar, in UTC.
#[derive(Clone, Copy, Debug, PartialEq, Eq, Structural)]
pub struct UtcDate {
    pub year: i32,
    pub month: u32,
    pub day: u32,
}

/// A point in time to the second, together with the UTC date it falls on.
#[derive(Clone, Copy, Debug, PartialEq, Eq, Structural)]
pub struct UtcTimestamp {
    /// Seconds since 1970-01-01 00:00:00 UTC.
    pub secs: i64,
    /// The UTC calendar date of `secs`.
    pub date: UtcDate,
}

/// The first and the last year that the calendar in use can represent.
pub const MIN_YEAR: i32 = -262143;

pub const MAX_YEAR: i32 = 262142;

/// The date (year, month, day) of the proleptic Gregorian calendar that lies
/// `days` days after 1970-01-01; year 0 is the year before year 1.
pub open spec fn civil_from_days(days: int) -> (int, int, int) {
    // Days are counted from 0000-03-01, so that a leap day ends a year, and
    // taken apart into eras of 400 years, which all have 146097 days.
    let shifted = days + 719468;
    let era = shifted / 146097;
    let day_of_era = shifted - era * 146097;
    let year_of_era = (day_of_era - day_of_era / 1460 + day_of_era / 36524 - day_of_era / 146096)
        / 365;
    let day_of_year = day_of_era - (365 * year_of_era + year_of_era / 4 - year_of_era / 100);
    let shifted_month = (5 * day_of_year + 2) / 153;
    let day = day_of_year - (153 * shifted_month + 2) / 5 + 1;
    let month = if shifted_month < 10 {
        shifted_month + 3
    } else {
        shifted_month - 9
    };
    let year = year_of_era + era * 400 + if month <= 2 {
        1int
    } else {
        0int
    };
    (year, month, day)
}

/// The UTC calendar date (year, month, day) on which a number of seconds since
/// the Unix epoch falls, or `None` where the year lies outside the years that
/// the calendar in use can represent. This is what
/// `chrono::DateTime::from_timestamp(secs, 0)` followed by `date_naive()`
/// gives.
pub open spec fn utc_date_of(secs: int) -> Option<(int, int, int)> {
    let date = civil_from_days(secs / 86400);
    if MIN_YEAR <= date.0 <= MAX_YEAR {
        Some(date)
    } else {
        None
    }
}

impl UtcTimestamp {
    /// The date stored with the seconds is the date of those seconds.
    pub open spec fn wf(&self) -> bool {
        utc_date_of(self.secs as int) == Some(
            (self.date.year as int, self.date.month as int, self.date.day as int),
        )
    }
}

/// The timestamp for `secs`, by `chrono::DateTime::from_timestamp(secs, 0)`:
/// `None` exactly where chrono cannot represent the instant, which is where
/// its year lies outside chrono's range of years; else the seconds with the
/// year, month and day that chrono's `Datelike` reads off it, which are those
/// of the proleptic Gregorian calendar.
#[verifier::external_body]
pub(crate) fn timestamp_from_secs(secs: i64) -> (r: Option<UtcTimestamp>)
    ensures
        r is None <==> utc_date_of(secs as int) is None,
        r matches Some(t) ==> t.secs == secs && t.wf(),
{
    chrono::DateTime::from_timestamp(secs, 0).map(|t| UtcTimestamp {
        secs,
        date: UtcDate { year: t.year(), month: t.month(), day: t.day() },
    })
}

/// The current time. The clock is read with `std::time::SystemTime::now` and
/// `duration_since(UNIX_EPOCH)`, where a clock that stands before 1970 counts
/// as 1970; the date is that of `chrono::DateTime::from_timestamp`. The result
/// depends on the clock, so only its consistency is stated: the date is that
/// of the seconds.
#[verifier::external_body]
pub(crate) fn utc_now() -> (t: UtcTimestamp)
    ensures
        t.wf(),
{
    let since = std::time::SystemTime::now().duration_since(std::time::UNIX_EPOCH);
    let secs = since.map(|d| i64::try_from(d.as_secs()).unwrap_or(0)).unwrap_or(0);
    let now = chrono::DateTime::from_timestamp(secs, 0).unwrap_or(chrono::DateTime::UNIX_EPOCH);
    UtcTimestamp {
        secs: now.timestamp(),
        date: UtcDate { year: now.year(), month: now.month(), day: now.day() },
    }
}

} // verus!
