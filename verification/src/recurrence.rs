//! When the next occurrence of a recurring event falls.

use vstd::prelude::*;

use crate::calendar::{
    day_number_of, is_chrono_civil_date, CHRONO_MAX_YEAR, CHRONO_MIN_YEAR,
    day_number, is_valid_date, weekday_of, days_in_month, is_chrono_date, month_length, second_in_chrono_range, trunc_div,
    trunc_rem, CivilDate, lemma_day_number_increasing,
};
use crate::datetime::{chrono_add_days, chrono_date, chrono_fixed_from_local, chrono_weekday, EventDate};
use crate::events::{EventRecurrence, Interval};

verus! {

/// The patterns that move an event by a number of whole days.
pub open spec fn is_day_pattern(pattern: EventRecurrence) -> bool {
    match pattern {
        EventRecurrence::Daily | EventRecurrence::Weekly | EventRecurrence::Biweekly
        | EventRecurrence::Weekdays | EventRecurrence::Weekends => true,
        _ => false,
    }
}

/// Days a day pattern moves the event: weekdays go to the next Monday..Friday,
/// weekends to the next Saturday or Sunday.
pub open spec fn day_step(moment: EventDate, pattern: EventRecurrence) -> int {
    let weekday = moment.date().weekday();
    match pattern {
        EventRecurrence::Daily => 1,
        EventRecurrence::Weekly => 7,
        EventRecurrence::Biweekly => 14,
        EventRecurrence::Weekdays => if weekday > 5 { 8 - weekday } else { 1 },
        EventRecurrence::Weekends => if weekday <= 5 { 6 - weekday } else { 1 },
        _ => 0,
    }
}

pub open spec fn min_int(a: int, b: int) -> int {
    if a <= b { a } else { b }
}

/// The (year, month, day) a calendar pattern asks for: the next month, the month
/// three months on, or the next year, with the day cut to the target month's
/// length.
///
/// The quarterly rule counts `year * 12 + month` with months starting at 1 and
/// divides with Rust's rounding toward zero; a negative
/// remainder reads as a `u32` far above 12.
pub open spec fn calendar_target(moment: EventDate, pattern: EventRecurrence) -> (int, int, int) {
    let y = moment.year as int;
    let m = moment.month as int;
    let d = moment.day as int;
    match pattern {
        EventRecurrence::Monthly => {
            let nm = if m == 12 { 1 } else { m + 1 };
            let ny = if nm == 1 { y + 1 } else { y };
            (ny, nm, min_int(d, month_length(ny, nm)))
        },
        EventRecurrence::Quaterly => {
            let total = y * 12 + m + 3;
            let ny = trunc_div(total, 12);
            let r = trunc_rem(total, 12);
            let nm = if r < 0 { r + 0x1_0000_0000 } else if r == 0 { 12 } else { r };
            (ny, nm, min_int(d, month_length(ny, nm)))
        },
        EventRecurrence::Yearly => (y + 1, m, min_int(d, month_length(y + 1, m))),
        _ => (y, m, d),
    }
}

/// The next occurrence for a calendar pattern: the target day at the same clock
/// time and offset, or `None` when chrono cannot represent it.
pub open spec fn calendar_next(moment: EventDate, pattern: EventRecurrence) -> Option<EventDate> {
    let (y, m, d) = calendar_target(moment, pattern);
    if is_chrono_date(y, m, d) && second_in_chrono_range(
        day_number(y, m, d) * 86400 + moment.seconds - moment.offset_seconds,
    ) {
        Some(
            EventDate {
                year: y as i32,
                month: m as u32,
                day: d as u32,
                seconds: moment.seconds,
                nanos: moment.nanos,
                offset_seconds: moment.offset_seconds,
            },
        )
    } else {
        None
    }
}

/// Computes when an event that last happened at `curr_date` happens next.
///
/// Day patterns add whole days (1, 7, 14, or up to the next weekday or weekend
/// day) and always answer. Monthly, quarterly and yearly patterns keep the clock
/// time and move to the target month, using its last day when the month is
/// shorter; they answer `None` when chrono cannot hold the target.
pub fn calculate_next_date(curr_date: EventDate, pattern: EventRecurrence) -> (next: Option<
    EventDate,
>)
    requires
        curr_date.wf(),
        is_day_pattern(pattern) ==> curr_date.room_for_days(day_step(curr_date, pattern)),
    ensures
        is_day_pattern(pattern) ==> (next matches Some(n) && n.is_days_after(
            curr_date,
            day_step(curr_date, pattern),
        )),
        !is_day_pattern(pattern) ==> next == calendar_next(curr_date, pattern),
        next matches Some(n) ==> n.wf(),
{
    match pattern {
        EventRecurrence::Daily => Some(chrono_add_days(&curr_date, 1)),
        EventRecurrence::Weekly => Some(chrono_add_days(&curr_date, 7)),
        EventRecurrence::Biweekly => Some(chrono_add_days(&curr_date, 14)),
        EventRecurrence::Weekdays => {
            let weekday = chrono_weekday(curr_date_day(&curr_date));
            let days_to_add = if weekday > 5 { 8 - weekday } else { 1 };
            Some(chrono_add_days(&curr_date, days_to_add as i64))
        },
        EventRecurrence::Weekends => {
            let weekday = chrono_weekday(curr_date_day(&curr_date));
            let days_to_add = if weekday <= 5 { 6 - weekday } else { 1 };
            Some(chrono_add_days(&curr_date, days_to_add as i64))
        },
        EventRecurrence::Monthly => {
            let next_month: u32 = if curr_date.month == 12 { 1 } else { curr_date.month + 1 };
            let year: i32 = if next_month == 1 { curr_date.year + 1 } else { curr_date.year };
            move_to_day(&curr_date, year, next_month)
        },
        EventRecurrence::Quaterly => {
            let months_to_add: i32 = 3;
            let total_months: i32 = curr_date.year * 12 + curr_date.month as i32;
            let next_total_months: i32 = total_months + months_to_add;
            let next_year: i32 = next_total_months / 12;
            let rem: i32 = next_total_months % 12;
            let next_month: u32 = rem_as_month(rem);
            let next_month: u32 = if next_month == 0 { 12 } else { next_month };
            move_to_day(&curr_date, next_year, next_month)
        },
        EventRecurrence::Yearly => {
            let next_year: i32 = curr_date.year + 1;
            move_to_day(&curr_date, next_year, curr_date.month)
        },
    }
}

/// Whether a moment is one chrono holds (`EventDate::wf`).
pub fn fits_chrono(moment: &EventDate) -> (fits: bool)
    ensures
        fits == moment.wf(),
{
    let date = curr_date_day(moment);
    if !is_chrono_civil_date(date) || moment.seconds >= 86400 || moment.nanos >= 1_000_000_000
        || moment.offset_seconds <= -86400 || moment.offset_seconds >= 86400 {
        return false;
    }
    let first: i64 = day_number_of(CivilDate { year: CHRONO_MIN_YEAR, month: 1, day: 1 }) * 86400;
    let last: i64 = day_number_of(CivilDate { year: CHRONO_MAX_YEAR, month: 12, day: 31 }) * 86400
        + 86399;
    let dn = day_number_of(date);
    assert(day_number(CHRONO_MIN_YEAR as int, 1, 1) <= dn <= day_number(CHRONO_MAX_YEAR as int, 12, 31) + 400) by {
        lemma_day_number_bounds(date);
    }
    let utc: i64 = dn * 86400 + moment.seconds as i64 - moment.offset_seconds as i64;
    first <= utc && utc <= last
}

/// Whether moving a moment chrono holds by `days` whole days keeps it in
/// chrono's range (`EventDate::room_for_days`).
pub fn has_room_for_days(moment: &EventDate, days: i64) -> (room: bool)
    requires
        moment.wf(),
        -100_000 <= days <= 100_000,
    ensures
        room == moment.room_for_days(days as int),
{
    let date = curr_date_day(moment);
    let first: i64 = day_number_of(CivilDate { year: CHRONO_MIN_YEAR, month: 1, day: 1 }) * 86400;
    let last: i64 = day_number_of(CivilDate { year: CHRONO_MAX_YEAR, month: 12, day: 31 }) * 86400
        + 86399;
    let dn = day_number_of(date);
    assert(day_number(CHRONO_MIN_YEAR as int, 1, 1) <= dn <= day_number(CHRONO_MAX_YEAR as int, 12, 31) + 400) by {
        lemma_day_number_bounds(date);
    }
    let local: i64 = dn * 86400 + moment.seconds as i64;
    let utc: i64 = local - moment.offset_seconds as i64;
    let moved_local = local + days * 86400;
    let moved_utc = utc + days * 86400;
    first <= moved_local && moved_local <= last && first <= moved_utc && moved_utc <= last
}

/// Whether `calculate_next_date` may be asked about `curr_date` and `pattern`:
/// the moment is one chrono holds and, for day patterns, moving it by the
/// pattern's step keeps it in chrono's range.
pub fn next_date_defined(curr_date: &EventDate, pattern: EventRecurrence) -> (defined: bool)
    ensures
        defined == (curr_date.wf() && (is_day_pattern(pattern) ==> curr_date.room_for_days(
            day_step(*curr_date, pattern),
        ))),
{
    if !fits_chrono(curr_date) {
        return false;
    }
    let date = curr_date_day(curr_date);
    let step: i64 = match pattern {
        EventRecurrence::Daily => 1,
        EventRecurrence::Weekly => 7,
        EventRecurrence::Biweekly => 14,
        EventRecurrence::Weekdays => {
            let weekday = chrono_weekday(date) as i64;
            if weekday > 5 { 8 - weekday } else { 1 }
        },
        EventRecurrence::Weekends => {
            let weekday = chrono_weekday(date) as i64;
            if weekday <= 5 { 6 - weekday } else { 1 }
        },
        _ => {
            return true;
        },
    };
    has_room_for_days(curr_date, step)
}

/// Day numbers of chrono's dates lie between those of its first and last day
/// (with some slack above).
proof fn lemma_day_number_bounds(date: CivilDate)
    requires
        date.is_chrono_date(),
    ensures
        day_number(CHRONO_MIN_YEAR as int, 1, 1) <= date.day_number() <= day_number(
            CHRONO_MAX_YEAR as int,
            12,
            31,
        ) + 400,
{
    let y = if date.month <= 2 { date.year - 1 } else { date.year as int };
    assert(CHRONO_MIN_YEAR - 1 <= y <= CHRONO_MAX_YEAR);
    vstd::arithmetic::div_mod::lemma_div_is_ordered(CHRONO_MIN_YEAR - 1, y, 4);
    vstd::arithmetic::div_mod::lemma_div_is_ordered(CHRONO_MIN_YEAR - 1, y, 100);
    vstd::arithmetic::div_mod::lemma_div_is_ordered(CHRONO_MIN_YEAR - 1, y, 400);
    vstd::arithmetic::div_mod::lemma_div_is_ordered(y, CHRONO_MAX_YEAR as int, 4);
    vstd::arithmetic::div_mod::lemma_div_is_ordered(y, CHRONO_MAX_YEAR as int, 100);
    vstd::arithmetic::div_mod::lemma_div_is_ordered(y, CHRONO_MAX_YEAR as int, 400);
}

/// The local date of a moment.
fn curr_date_day(moment: &EventDate) -> (date: CivilDate)
    ensures
        date == moment.date(),
{
    CivilDate { year: moment.year, month: moment.month, day: moment.day }
}

/// A remainder in `-11..=11` read as a `u32`, as `rem as u32` does.
fn rem_as_month(rem: i32) -> (month: u32)
    requires
        -12 < rem < 12,
    ensures
        month == (if rem < 0 { rem + 0x1_0000_0000 } else { rem as int }),
{
    if rem < 0 {
        (4294967295 - ((-1 - rem) as u32)) as u32
    } else {
        rem as u32
    }
}

/// The moment's clock time and offset on `year-month-day`, with the day cut to
/// the month's length; `None` when chrono cannot hold the result.
fn move_to_day(moment: &EventDate, year: i32, month: u32) -> (next: Option<EventDate>)
    requires
        moment.wf(),
    ensures
        next == ({
            let d = min_int(moment.day as int, month_length(year as int, month as int));
            if is_chrono_date(year as int, month as int, d) && second_in_chrono_range(
                day_number(year as int, month as int, d) * 86400 + moment.seconds
                    - moment.offset_seconds,
            ) {
                Some(
                    EventDate {
                        year,
                        month,
                        day: d as u32,
                        seconds: moment.seconds,
                        nanos: moment.nanos,
                        offset_seconds: moment.offset_seconds,
                    },
                )
            } else {
                None
            }
        }),
{
    let dim = days_in_month(year, month);
    let day: u32 = if moment.day < dim { moment.day } else { dim };
    let next_date = match chrono_date(year, month, day) {
        Some(d) => d,
        None => match chrono_date(year, month, 1) {
            Some(d) => d,
            None => return None,
        },
    };
    chrono_fixed_from_local(next_date, moment.seconds, moment.nanos, moment.offset_seconds)
}

/// Weekdays advance one by one and wrap after Sunday: `k` days after a day with
/// ISO weekday `w` comes weekday `(w - 1 + k) mod 7 + 1`.
pub proof fn lemma_weekday_after(day: int, k: int)
    requires
        k >= 0,
    ensures
        weekday_of(day + k) == (weekday_of(day) - 1 + k) % 7 + 1,
        1 <= weekday_of(day) <= 7,
{
    let a = day + 2;
    assert((a + k) % 7 == (a % 7 + k) % 7) by {
        vstd::arithmetic::div_mod::lemma_add_mod_noop(a, k, 7);
        vstd::arithmetic::div_mod::lemma_add_mod_noop(a % 7, k, 7);
    }
}

/// The weekdays rule moves an event forward to a Monday-to-Friday day and skips
/// no such day on the way, except from a Friday, which it moves to Saturday.
pub proof fn law_weekdays_lands_on_next_weekday(curr_date: EventDate)
    ensures
        day_step(curr_date, EventRecurrence::Weekdays) >= 1,
        curr_date.date().weekday() != 5 ==> 1 <= weekday_of(
            curr_date.date().day_number() + day_step(curr_date, EventRecurrence::Weekdays),
        ) <= 5,
        curr_date.date().weekday() == 5 ==> weekday_of(
            curr_date.date().day_number() + day_step(curr_date, EventRecurrence::Weekdays),
        ) == 6,
        forall|d: int|
            curr_date.date().day_number() < d < curr_date.date().day_number() + day_step(
                curr_date,
                EventRecurrence::Weekdays,
            ) ==> #[trigger] weekday_of(d) >= 6,
{
    let dn = curr_date.date().day_number();
    let step = day_step(curr_date, EventRecurrence::Weekdays);
    lemma_weekday_after(dn, step);
    assert forall|d: int| dn < d < dn + step implies #[trigger] weekday_of(d) >= 6 by {
        lemma_weekday_after(dn, d - dn);
    }
}

/// The weekends rule moves an event forward to a Saturday or Sunday and skips no
/// such day on the way, except from a Sunday, which it moves to Monday.
pub proof fn law_weekends_lands_on_next_weekend_day(curr_date: EventDate)
    ensures
        day_step(curr_date, EventRecurrence::Weekends) >= 1,
        curr_date.date().weekday() != 7 ==> 6 <= weekday_of(
            curr_date.date().day_number() + day_step(curr_date, EventRecurrence::Weekends),
        ) <= 7,
        curr_date.date().weekday() == 7 ==> weekday_of(
            curr_date.date().day_number() + day_step(curr_date, EventRecurrence::Weekends),
        ) == 1,
        forall|d: int|
            curr_date.date().day_number() < d < curr_date.date().day_number() + day_step(
                curr_date,
                EventRecurrence::Weekends,
            ) ==> #[trigger] weekday_of(d) <= 5,
{
    let dn = curr_date.date().day_number();
    let step = day_step(curr_date, EventRecurrence::Weekends);
    lemma_weekday_after(dn, step);
    assert forall|d: int| dn < d < dn + step implies #[trigger] weekday_of(d) <= 5 by {
        lemma_weekday_after(dn, d - dn);
    }
}

/// Weekly and biweekly occurrences fall on the same weekday as the last one.
pub proof fn law_weekly_keeps_weekday(curr_date: EventDate)
    ensures
        weekday_of(curr_date.date().day_number() + day_step(curr_date, EventRecurrence::Weekly))
            == curr_date.date().weekday(),
        weekday_of(
            curr_date.date().day_number() + day_step(curr_date, EventRecurrence::Biweekly),
        ) == curr_date.date().weekday(),
{
    let dn = curr_date.date().day_number();
    lemma_weekday_after(dn, 7);
    lemma_weekday_after(dn, 14);
}

/// Days a recurring event keeps repeating for.
pub open spec fn interval_days(interval: Interval) -> int {
    match interval {
        Interval::OneMonth => 30int,
        Interval::ThreeMonths => 90,
        Interval::SixMonths => 180,
        Interval::OneYear => 365,
        Interval::Indefinite => 36500,
    }
}

/// When a recurring event starting at `date` stops repeating: the given number
/// of days later (30, 90, 180, 365, or 100 years of 365 days); `None` when no
/// duration is given.
pub fn recurrence_end_date(date: EventDate, duration: Option<Interval>) -> (end: Option<EventDate>)
    requires
        date.wf(),
        duration matches Some(i) ==> date.room_for_days(interval_days(i)),
    ensures
        duration is None ==> end is None,
        duration matches Some(i) ==> (end matches Some(e) && e.is_days_after(date, interval_days(i))),
        end matches Some(e) ==> e.wf(),
{
    match duration {
        Some(Interval::OneMonth) => Some(chrono_add_days(&date, 30)),
        Some(Interval::ThreeMonths) => Some(chrono_add_days(&date, 90)),
        Some(Interval::SixMonths) => Some(chrono_add_days(&date, 180)),
        Some(Interval::OneYear) => Some(chrono_add_days(&date, 365)),
        Some(Interval::Indefinite) => Some(chrono_add_days(&date, 365 * 100)),
        None => None,
    }
}

/// Whether `recurrence_end_date` may be asked about `date` and `duration`:
/// the moment is one chrono holds and moving it by the duration keeps it in
/// chrono's range.
pub fn end_date_defined(date: &EventDate, duration: Option<Interval>) -> (defined: bool)
    ensures
        defined == (date.wf() && (duration matches Some(i) ==> date.room_for_days(
            interval_days(i),
        ))),
{
    if !fits_chrono(date) {
        return false;
    }
    let days: i64 = match duration {
        None => return true,
        Some(Interval::OneMonth) => 30,
        Some(Interval::ThreeMonths) => 90,
        Some(Interval::SixMonths) => 180,
        Some(Interval::OneYear) => 365,
        Some(Interval::Indefinite) => 36500,
    };
    has_room_for_days(date, days)
}

/// The monthly rule targets the following month (January after December) and
/// keeps the day of the month, using the month's last day when it is shorter;
/// the target always exists in the calendar.
pub proof fn law_monthly_targets_next_month(curr_date: EventDate)
    requires
        curr_date.wf(),
    ensures
        ({
            let (y, m, d) = calendar_target(curr_date, EventRecurrence::Monthly);
            &&& m == curr_date.month % 12 + 1
            &&& y == (if curr_date.month == 12 { curr_date.year + 1 } else { curr_date.year as int })
            &&& d == min_int(curr_date.day as int, month_length(y, m))
            &&& d <= curr_date.day
            &&& is_valid_date(y, m, d)
        }),
{
}

/// The yearly rule targets the same month of the next year and keeps the day,
/// using the month's last day when it is shorter (29 February becomes 28
/// February); the target always exists in the calendar.
pub proof fn law_yearly_targets_next_year(curr_date: EventDate)
    requires
        curr_date.wf(),
    ensures
        ({
            let (y, m, d) = calendar_target(curr_date, EventRecurrence::Yearly);
            &&& y == curr_date.year + 1
            &&& m == curr_date.month
            &&& d <= curr_date.day
            &&& (curr_date.day <= month_length(y, m) ==> d == curr_date.day)
            &&& is_valid_date(y, m, d)
        }),
{
}

/// The quarterly rule targets the month three months on, for years from 0 on,
/// except from September, which it sends to December of the following year;
/// the target always exists in the calendar.
pub proof fn law_quarterly_targets_three_months_on(curr_date: EventDate)
    requires
        curr_date.wf(),
        curr_date.year >= 0,
    ensures
        ({
            let (y, m, d) = calendar_target(curr_date, EventRecurrence::Quaterly);
            &&& curr_date.month <= 8 ==> y == curr_date.year && m == curr_date.month + 3
            &&& curr_date.month == 9 ==> y == curr_date.year + 1 && m == 12
            &&& curr_date.month >= 10 ==> y == curr_date.year + 1 && m == curr_date.month - 9
            &&& d <= curr_date.day
            &&& is_valid_date(y, m, d)
        }),
{
    let total = curr_date.year * 12 + curr_date.month + 3;
    assert(total / 12 == curr_date.year + (curr_date.month + 3) / 12 && total % 12 == (
    curr_date.month + 3) % 12) by {
        vstd::arithmetic::div_mod::lemma_fundamental_div_mod_converse(
            total,
            12,
            curr_date.year + (curr_date.month + 3) / 12,
            (curr_date.month + 3) % 12,
        );
    }
}

/// The day a calendar pattern targets comes after the current month: a later
/// year, or a later month of the same year, whenever that day exists.
proof fn lemma_calendar_target_is_later(moment: EventDate, pattern: EventRecurrence)
    requires
        moment.wf(),
        !is_day_pattern(pattern),
        is_valid_date(
            calendar_target(moment, pattern).0,
            calendar_target(moment, pattern).1,
            calendar_target(moment, pattern).2,
        ),
    ensures
        ({
            let (y, m, d) = calendar_target(moment, pattern);
            y > moment.year || (y == moment.year && m > moment.month)
        }),
{
    let year = moment.year as int;
    let month = moment.month as int;
    if pattern == EventRecurrence::Quaterly {
        let total = year * 12 + month + 3;
        let (y, m, d) = calendar_target(moment, pattern);
        if total >= 0 {
            vstd::arithmetic::div_mod::lemma_fundamental_div_mod(total, 12);
            assert(total == 12 * y + total % 12);
        } else {
            vstd::arithmetic::div_mod::lemma_fundamental_div_mod(-total, 12);
            assert(-total == 12 * ((-total) / 12) + (-total) % 12);
            assert((-total) % 12 == 0);
            assert(total == 12 * y);
        }
    }
}

/// A recurring event only moves forward: its next occurrence, for every
/// pattern, comes strictly later than the current one.
pub proof fn law_next_occurrence_is_later(curr_date: EventDate, pattern: EventRecurrence, next: EventDate)
    requires
        curr_date.wf(),
        is_day_pattern(pattern) ==> next.is_days_after(curr_date, day_step(curr_date, pattern)),
        !is_day_pattern(pattern) ==> calendar_next(curr_date, pattern) == Some(next),
    ensures
        next.utc_second() > curr_date.utc_second(),
{
    if is_day_pattern(pattern) {
        assert(day_step(curr_date, pattern) >= 1);
    } else {
        lemma_calendar_target_is_later(curr_date, pattern);
        lemma_day_number_increasing(
            curr_date.year as int,
            curr_date.month as int,
            curr_date.day as int,
            next.year as int,
            next.month as int,
            next.day as int,
        );
    }
}

} // verus!
