//! Proleptic Gregorian calendar facts used by the recurrence rules.

use vstd::prelude::*;

verus! {

/// Whether `year` is a leap year in the proleptic Gregorian calendar.
pub open spec fn is_leap_year(year: int) -> bool {
    year % 4 == 0 && (year % 100 != 0 || year % 400 == 0)
}

/// Number of days in `month` of `year`; months outside 1..=12 count as 30 days.
pub open spec fn month_length(year: int, month: int) -> int {
    if month == 1 || month == 3 || month == 5 || month == 7 || month == 8 || month == 10
        || month == 12 {
        31
    } else if month == 4 || month == 6 || month == 9 || month == 11 {
        30
    } else if month == 2 {
        if is_leap_year(year) {
            29
        } else {
            28
        }
    } else {
        30
    }
}

/// Number of days in the given month. Months outside `1..=12` yield 30.
#[verifier::spinoff_prover]
pub fn days_in_month(year: i32, month: u32) -> (days: u32)
    ensures
        days == month_length(year as int, month as int),
        28 <= days <= 31,
{
    match month {
        1 | 3 | 5 | 7 | 8 | 10 | 12 => 31,
        4 | 6 | 9 | 11 => 30,
        2 => {
            if year % 4 == 0 && (year % 100 != 0 || year % 400 == 0) {
                29
            } else {
                28
            }
        },
        _ => 30,
    }
}

/// Smallest year chrono's `NaiveDate` represents.
pub const CHRONO_MIN_YEAR: i32 = -262143;

/// Largest year chrono's `NaiveDate` represents.
pub const CHRONO_MAX_YEAR: i32 = 262142;

/// A day of the proleptic Gregorian calendar.
#[derive(Clone, Copy, Debug, PartialEq, Eq, Structural)]
pub struct CivilDate {
    pub year: i32,
    pub month: u32,
    pub day: u32,
}

/// `year-month-day` names an existing day of the calendar.
pub open spec fn is_valid_date(year: int, month: int, day: int) -> bool {
    1 <= month <= 12 && 1 <= day <= month_length(year, month)
}

/// The year lies in the range that chrono's dates cover.
pub open spec fn year_in_chrono_range(year: int) -> bool {
    CHRONO_MIN_YEAR <= year <= CHRONO_MAX_YEAR
}

/// A date chrono can represent: an existing day in chrono's year range.
pub open spec fn is_chrono_date(year: int, month: int, day: int) -> bool {
    is_valid_date(year, month, day) && year_in_chrono_range(year)
}

/// Number of days from 0000-03-01 to `year-month-day` (negative before it).
///
/// Years are counted from the 1st of March, so that the leap day closes a year.
pub open spec fn day_number(year: int, month: int, day: int) -> int {
    let y = if month <= 2 { year - 1 } else { year };
    let m = if month <= 2 { month + 9 } else { month - 3 };
    365 * y + y / 4 - y / 100 + y / 400 + (153 * m + 2) / 5 + day - 1
}

/// ISO weekday (Monday = 1, ..., Sunday = 7) of the day with the given number;
/// 0000-03-01 was a Wednesday.
pub open spec fn weekday_of(day_number: int) -> int {
    (day_number + 2) % 7 + 1
}

impl CivilDate {
    pub open spec fn is_chrono_date(self) -> bool {
        is_chrono_date(self.year as int, self.month as int, self.day as int)
    }

    pub open spec fn day_number(self) -> int {
        day_number(self.year as int, self.month as int, self.day as int)
    }

    pub open spec fn weekday(self) -> int {
        weekday_of(self.day_number())
    }
}

/// First second of chrono's date range, counted in seconds from 0000-03-01 00:00:00.
pub open spec fn first_chrono_second() -> int {
    day_number(CHRONO_MIN_YEAR as int, 1, 1) * 86400
}

/// Last second of chrono's date range, counted in seconds from 0000-03-01 00:00:00.
pub open spec fn last_chrono_second() -> int {
    day_number(CHRONO_MAX_YEAR as int, 12, 31) * 86400 + 86399
}

/// The second (counted from 0000-03-01 00:00:00) falls in chrono's date-time range.
pub open spec fn second_in_chrono_range(second: int) -> bool {
    first_chrono_second() <= second <= last_chrono_second()
}

/// `a / b` rounded down, for a positive `b`.
fn floor_div(a: i64, b: i64) -> (q: i64)
    requires
        b > 0,
        -0x1_0000_0000 <= a <= 0x1_0000_0000,
        b <= 0x1_0000,
    ensures
        q == a / b,
{
    if a >= 0 {
        a / b
    } else {
        let n = -a;
        let q = (n + b - 1) / b;
        proof {
            let nn: int = n + b - 1;
            let bb: int = b as int;
            let qq: int = nn / bb;
            let r: int = nn % bb;
            vstd::arithmetic::div_mod::lemma_fundamental_div_mod(nn, bb);
            assert(n + b - 1 == b * qq + r && 0 <= r < b);
            assert(a == bb * (-qq) + (bb - 1 - r)) by (nonlinear_arith)
                requires
                    nn == bb * qq + r,
                    nn == n + bb - 1,
                    a == -n,
            ;
            assert(0 <= b - 1 - r < b);
            vstd::arithmetic::div_mod::lemma_fundamental_div_mod_converse(a as int, b as int, -qq, b - 1 - r);
        }
        -q
    }
}

/// The day number of a date whose month is in `1..=12`.
pub fn day_number_of(date: CivilDate) -> (number: i64)
    requires
        1 <= date.month <= 12,
        date.day <= 31,
    ensures
        number == date.day_number(),
{
    let y: i64 = if date.month <= 2 { date.year as i64 - 1 } else { date.year as i64 };
    let m: i64 = if date.month <= 2 { date.month as i64 + 9 } else { date.month as i64 - 3 };
    365 * y + floor_div(y, 4) - floor_div(y, 100) + floor_div(y, 400) + (153 * m + 2) / 5
        + date.day as i64 - 1
}

/// Whether the date is one chrono can represent.
pub fn is_chrono_civil_date(date: CivilDate) -> (valid: bool)
    ensures
        valid == date.is_chrono_date(),
{
    date.year >= CHRONO_MIN_YEAR && date.year <= CHRONO_MAX_YEAR && date.month >= 1
        && date.month <= 12 && date.day >= 1 && date.day <= days_in_month(date.year, date.month)
}

/// Rust's integer division, which rounds toward zero.
pub open spec fn trunc_div(a: int, b: int) -> int
    recommends
        b > 0,
{
    if a >= 0 {
        a / b
    } else {
        -((-a) / b)
    }
}

/// Rust's integer remainder, which takes the sign of the dividend.
pub open spec fn trunc_rem(a: int, b: int) -> int
    recommends
        b > 0,
{
    if a >= 0 {
        a % b
    } else {
        -((-a) % b)
    }
}

/// Consecutive integers `y - 1` and `y` fall in different blocks of `k` exactly
/// when `k` divides `y`.
proof fn lemma_div_step(y: int, k: int)
    requires
        k > 0,
    ensures
        y / k - (y - 1) / k == (if y % k == 0 { 1int } else { 0int }),
{
    let q = y / k;
    let r = y % k;
    vstd::arithmetic::div_mod::lemma_fundamental_div_mod(y, k);
    if r == 0 {
        assert(k * (q - 1) == k * q - k) by (nonlinear_arith);
        vstd::arithmetic::div_mod::lemma_fundamental_div_mod_converse(y - 1, k, q - 1, k - 1);
    } else {
        vstd::arithmetic::div_mod::lemma_fundamental_div_mod_converse(y - 1, k, q, r - 1);
    }
}

/// `a` divides `y` when a multiple `a * b` of it does.
proof fn lemma_divides_through(y: int, a: int, b: int)
    requires
        a > 0,
        b > 0,
        y % (a * b) == 0,
    ensures
        y % a == 0,
{
    assert(a * b > 0) by (nonlinear_arith)
        requires
            a > 0,
            b > 0,
    ;
    vstd::arithmetic::div_mod::lemma_fundamental_div_mod(y, a * b);
    let q = y / (a * b);
    assert(y == a * (b * q)) by (nonlinear_arith)
        requires
            y == (a * b) * q + 0,
    ;
    vstd::arithmetic::div_mod::lemma_fundamental_div_mod_converse(y, a, b * q, 0);
}

/// The leap-day count `y / 4 - y / 100 + y / 400` grows by one from year
/// `y - 1` to year `y` exactly when `y` is a leap year.
proof fn lemma_leap_count_step(y: int)
    ensures
        (y / 4 - y / 100 + y / 400) - ((y - 1) / 4 - (y - 1) / 100 + (y - 1) / 400) == (if is_leap_year(
            y,
        ) {
            1int
        } else {
            0int
        }),
{
    lemma_div_step(y, 4);
    lemma_div_step(y, 100);
    lemma_div_step(y, 400);
    if y % 400 == 0 {
        lemma_divides_through(y, 100, 4);
    }
    if y % 100 == 0 {
        lemma_divides_through(y, 4, 25);
    }
}

/// The day after the last of a month is the first of the next month (the first
/// of January of the next year after December).
pub open spec fn next_month_start(year: int, month: int) -> int {
    if month == 12 {
        day_number(year + 1, 1, 1)
    } else {
        day_number(year, month + 1, 1)
    }
}

/// A month's first day plus its length is the first day of the next month.
proof fn lemma_month_length_steps(year: int, month: int)
    requires
        1 <= month <= 12,
    ensures
        day_number(year, month, 1) + month_length(year, month) == next_month_start(year, month),
{
    if month == 2 {
        lemma_leap_count_step(year);
    }
}

/// First days of later months of a year have larger day numbers.
proof fn lemma_month_starts_increase(year: int, m1: int, m2: int)
    requires
        1 <= m1 < m2 <= 12,
    ensures
        day_number(year, m1, 1) < day_number(year, m2, 1),
    decreases m2 - m1,
{
    lemma_month_length_steps(year, m1);
    if m1 + 1 < m2 {
        lemma_month_starts_increase(year, m1 + 1, m2);
    }
}

/// The first of January of a later year has a larger day number.
proof fn lemma_year_starts_increase(y1: int, y2: int)
    requires
        y1 < y2,
    ensures
        day_number(y1, 1, 1) < day_number(y2, 1, 1),
    decreases y2 - y1,
{
    lemma_month_length_steps(y1, 12);
    lemma_month_starts_increase(y1, 1, 12);
    if y1 + 1 < y2 {
        lemma_year_starts_increase(y1 + 1, y2);
    }
}

/// A valid day comes before the first day of the next month.
proof fn lemma_day_before_next_month(year: int, month: int, day: int)
    requires
        is_valid_date(year, month, day),
    ensures
        day_number(year, month, day) < next_month_start(year, month),
{
    lemma_month_length_steps(year, month);
}

/// Later days of the calendar have larger day numbers: day numbers follow the
/// order of (year, month, day).
pub proof fn lemma_day_number_increasing(y1: int, m1: int, d1: int, y2: int, m2: int, d2: int)
    requires
        is_valid_date(y1, m1, d1),
        is_valid_date(y2, m2, d2),
        y1 < y2 || (y1 == y2 && m1 < m2) || (y1 == y2 && m1 == m2 && d1 < d2),
    ensures
        day_number(y1, m1, d1) < day_number(y2, m2, d2),
{
    if y1 == y2 && m1 == m2 {
    } else {
        lemma_day_before_next_month(y1, m1, d1);
        if y1 == y2 {
            if m1 + 1 < m2 {
                lemma_month_starts_increase(y1, m1 + 1, m2);
            }
        } else {
            if m1 < 12 {
                if m1 + 1 < 12 {
                    lemma_month_starts_increase(y1, m1 + 1, 12);
                }
                lemma_month_length_steps(y1, 12);
            }
            if y1 + 1 < y2 {
                lemma_year_starts_increase(y1 + 1, y2);
            }
            if 1 < m2 {
                lemma_month_starts_increase(y2, 1, m2);
            }
        }
    }
}

} // verus!
