//! Wall-clock moments with a fixed UTC offset, and the chrono operations on them.

use chrono::{Datelike, FixedOffset, LocalResult, NaiveDate, NaiveTime, TimeDelta, TimeZone, Timelike};
use vstd::prelude::*;

use crate::calendar::{day_number, is_chrono_date, second_in_chrono_range, CivilDate};
use crate::text::{decimal, two_digits, zero_padded};

verus! {

/// A moment as read on a wall clock at a fixed offset from UTC: the local date,
/// the seconds and nanoseconds since local midnight, and the offset in seconds
/// (local time minus UTC).
#[derive(Clone, Copy, Debug, PartialEq, Eq, Structural)]
pub struct EventDate {
    pub year: i32,
    pub month: u32,
    pub day: u32,
    pub seconds: u32,
    pub nanos: u32,
    pub offset_seconds: i32,
}

impl EventDate {
    pub open spec fn date(self) -> CivilDate {
        CivilDate { year: self.year, month: self.month, day: self.day }
    }

    /// The local wall-clock second, counted from 0000-03-01 00:00:00.
    pub open spec fn local_second(self) -> int {
        day_number(self.year as int, self.month as int, self.day as int) * 86400
            + self.seconds
    }

    /// The same moment in UTC, counted from 0000-03-01 00:00:00.
    pub open spec fn utc_second(self) -> int {
        self.local_second() - self.offset_seconds
    }

    /// The moment is one that a chrono `DateTime<FixedOffset>` holds: an existing
    /// day in chrono's range, a time of day without leap second, an offset of
    /// less than a day, and a UTC reading inside chrono's range.
    pub open spec fn wf(self) -> bool {
        &&& is_chrono_date(self.year as int, self.month as int, self.day as int)
        &&& self.seconds < 86400
        &&& self.nanos < 1_000_000_000
        &&& -86400 < self.offset_seconds < 86400
        &&& second_in_chrono_range(self.utc_second())
    }

    /// Moving the moment by `days` whole days keeps it inside chrono's range.
    pub open spec fn room_for_days(self, days: int) -> bool {
        &&& second_in_chrono_range(self.local_second() + days * 86400)
        &&& second_in_chrono_range(self.utc_second() + days * 86400)
    }

    /// `self` is `earlier` moved by `days` whole days: same clock time and offset.
    pub open spec fn is_days_after(self, earlier: EventDate, days: int) -> bool {
        &&& is_chrono_date(self.year as int, self.month as int, self.day as int)
        &&& self.date().day_number() == earlier.date().day_number() + days
        &&& self.seconds == earlier.seconds
        &&& self.nanos == earlier.nanos
        &&& self.offset_seconds == earlier.offset_seconds
    }
}

/// Adds `days` whole days to a moment with chrono's `DateTime<FixedOffset> + TimeDelta`.
///
/// Trusted: chrono adds the days to the UTC reading and keeps the offset, so the
/// local clock time is unchanged and the local date moves by exactly `days` days
/// of the proleptic Gregorian calendar. The `requires` keeps both readings in
/// chrono's range, where the addition does not panic.
#[verifier::external_body]
pub(crate) fn chrono_add_days(moment: &EventDate, days: i64) -> (later: EventDate)
    requires
        moment.wf(),
        moment.room_for_days(days as int),
    ensures
        later.is_days_after(*moment, days as int),
{
    let offset = FixedOffset::east_opt(moment.offset_seconds).unwrap();
    let time = NaiveTime::from_num_seconds_from_midnight_opt(moment.seconds, moment.nanos).unwrap();
    let local = NaiveDate::from_ymd_opt(moment.year, moment.month, moment.day).unwrap().and_time(time);
    let start = offset.from_local_datetime(&local).unwrap();
    let next = start + TimeDelta::days(days);
    EventDate {
        year: next.year(),
        month: next.month(),
        day: next.day(),
        seconds: next.num_seconds_from_midnight(),
        nanos: next.nanosecond(),
        offset_seconds: next.offset().local_minus_utc(),
    }
}

/// Places a local date and clock time at a fixed offset with chrono's
/// `FixedOffset::from_local_datetime`, keeping only a `LocalResult::Single` answer.
///
/// Trusted: for a fixed offset chrono answers `Single` exactly when the UTC
/// reading (local time minus offset) lies in its range, and `None` otherwise;
/// the answer keeps the given local date, clock time and offset.
#[verifier::external_body]
pub(crate) fn chrono_fixed_from_local(
    date: CivilDate,
    seconds: u32,
    nanos: u32,
    offset_seconds: i32,
) -> (moment: Option<EventDate>)
    requires
        date.is_chrono_date(),
        seconds < 86400,
        nanos < 1_000_000_000,
        -86400 < offset_seconds < 86400,
    ensures
        moment is Some <==> second_in_chrono_range(
            date.day_number() * 86400 + seconds - offset_seconds,
        ),
        moment matches Some(m) ==> m == (EventDate {
            year: date.year,
            month: date.month,
            day: date.day,
            seconds,
            nanos,
            offset_seconds,
        }),
{
    let offset = FixedOffset::east_opt(offset_seconds).unwrap();
    let time = NaiveTime::from_num_seconds_from_midnight_opt(seconds, nanos).unwrap();
    let local = NaiveDate::from_ymd_opt(date.year, date.month, date.day).unwrap().and_time(time);
    match offset.from_local_datetime(&local) {
        LocalResult::Single(m) => Some(EventDate {
            year: m.year(),
            month: m.month(),
            day: m.day(),
            seconds: m.num_seconds_from_midnight(),
            nanos: m.nanosecond(),
            offset_seconds: m.offset().local_minus_utc(),
        }),
        _ => None,
    }
}

/// ISO weekday of a date (Monday = 1) with chrono's
/// `NaiveDate::weekday().number_from_monday()`.
///
/// Trusted: chrono follows the proleptic Gregorian calendar, in which
/// 0000-03-01 was a Wednesday and weekdays repeat every seven days.
#[verifier::external_body]
pub(crate) fn chrono_weekday(date: CivilDate) -> (weekday: u32)
    requires
        date.is_chrono_date(),
    ensures
        weekday == date.weekday(),
{
    NaiveDate::from_ymd_opt(date.year, date.month, date.day).unwrap().weekday().number_from_monday()
}

/// Builds a date with chrono's `NaiveDate::from_ymd_opt`.
///
/// Trusted: chrono's documentation says the answer is `None` exactly when the
/// day does not exist, the month or day is out of range, or the year is outside
/// chrono's range; otherwise it is the date asked for.
#[verifier::external_body]
pub(crate) fn chrono_date(year: i32, month: u32, day: u32) -> (date: Option<CivilDate>)
    ensures
        date is Some <==> is_chrono_date(year as int, month as int, day as int),
        date matches Some(d) ==> d == (CivilDate { year, month, day }),
{
    NaiveDate::from_ymd_opt(year, month, day).map(
        |d| CivilDate { year: d.year(), month: d.month(), day: d.day() },
    )
}

/// Whole days from `earlier` to `later` with chrono's `(later - earlier).num_days()`.
///
/// Trusted: the difference of two chrono dates is the exact number of calendar
/// days between them, negative when `later` comes first.
#[verifier::external_body]
pub(crate) fn chrono_days_between(later: CivilDate, earlier: CivilDate) -> (days: i64)
    requires
        later.is_chrono_date(),
        earlier.is_chrono_date(),
    ensures
        days == later.day_number() - earlier.day_number(),
{
    let later = NaiveDate::from_ymd_opt(later.year, later.month, later.day).unwrap();
    let earlier = NaiveDate::from_ymd_opt(earlier.year, earlier.month, earlier.day).unwrap();
    (later - earlier).num_days()
}

/// A date as `format!("{:04}-{:02}-{:02}", year, month, day)` writes it: the
/// year with at least four characters (a sign counting as one), then the month
/// and the day with two digits each.
pub open spec fn iso_date_text(date: CivilDate) -> Seq<char> {
    let year = if date.year >= 0 {
        zero_padded(decimal(date.year as nat), 4)
    } else {
        seq!['-'] + zero_padded(decimal((-date.year) as nat), 3)
    };
    year + seq!['-'] + two_digits(date.month as nat) + seq!['-'] + two_digits(date.day as nat)
}

/// What chrono's `NaiveDate::parse_from_str(text, "%Y-%m-%d")` reads from `text`.
pub uninterp spec fn parsed_iso_date(text: Seq<char>) -> Option<CivilDate>;

/// Reads a `YYYY-MM-DD` date with chrono's `NaiveDate::parse_from_str` and the
/// format `"%Y-%m-%d"`, keeping the date and dropping the parse error.
///
/// Trusted: the answer depends on the text alone, and a date chrono returns is
/// an existing day in its range. chrono reads `%Y` as an optional sign and then
/// (without a sign) up to four digits, and `%m` and `%d` as up to two digits, so
/// it reads back what `iso_date_text` writes for a day in its range with a year
/// of at most four digits. Which other texts chrono accepts is left unsaid.
#[verifier::external_body]
pub(crate) fn chrono_parse_iso_date(text: &str) -> (date: Option<CivilDate>)
    ensures
        date == parsed_iso_date(text@),
        date matches Some(d) ==> d.is_chrono_date(),
        forall|d: CivilDate|
            d.is_chrono_date() && d.year <= 9999 && text@ == #[trigger] iso_date_text(d) ==> date
                == Some(d),
{
    NaiveDate::parse_from_str(text, "%Y-%m-%d").ok().map(
        |d| CivilDate { year: d.year(), month: d.month(), day: d.day() },
    )
}

} // verus!
