use merzah::calendar::days_in_month;
use merzah::datetime::EventDate;
use merzah::events::{EventRecurrence, Interval};
use merzah::recurrence::{
    calculate_next_date, end_date_defined, fits_chrono, has_room_for_days, next_date_defined,
    recurrence_end_date,
};

fn at(year: i32, month: u32, day: u32) -> EventDate {
    EventDate { year, month, day, seconds: 18 * 3600 + 30 * 60, nanos: 0, offset_seconds: 3 * 3600 }
}

fn ymd(date: Option<EventDate>) -> Option<(i32, u32, u32)> {
    date.map(|d| (d.year, d.month, d.day))
}

#[test]
fn days_in_month_follows_gregorian_leap_rules() {
    assert_eq!(days_in_month(2024, 2), 29);
    assert_eq!(days_in_month(2023, 2), 28);
    assert_eq!(days_in_month(1900, 2), 28);
    assert_eq!(days_in_month(2000, 2), 29);
    assert_eq!(days_in_month(2024, 4), 30);
    assert_eq!(days_in_month(2024, 12), 31);
    assert_eq!(days_in_month(2024, 13), 30);
    assert_eq!(days_in_month(-4, 2), 29);
}

#[test]
fn daily_weekly_biweekly_add_days() {
    assert_eq!(ymd(calculate_next_date(at(2024, 1, 31), EventRecurrence::Daily)), Some((2024, 2, 1)));
    assert_eq!(ymd(calculate_next_date(at(2023, 12, 31), EventRecurrence::Daily)), Some((2024, 1, 1)));
    assert_eq!(ymd(calculate_next_date(at(2024, 2, 26), EventRecurrence::Weekly)), Some((2024, 3, 4)));
    assert_eq!(ymd(calculate_next_date(at(2024, 12, 25), EventRecurrence::Biweekly)), Some((2025, 1, 8)));
}

#[test]
fn next_date_keeps_clock_time_and_offset() {
    let start = at(2024, 5, 10);
    for pattern in [
        EventRecurrence::Daily,
        EventRecurrence::Weekly,
        EventRecurrence::Biweekly,
        EventRecurrence::Weekdays,
        EventRecurrence::Weekends,
        EventRecurrence::Monthly,
        EventRecurrence::Quaterly,
        EventRecurrence::Yearly,
    ] {
        let next = calculate_next_date(start, pattern).unwrap();
        assert_eq!(next.seconds, start.seconds);
        assert_eq!(next.nanos, start.nanos);
        assert_eq!(next.offset_seconds, start.offset_seconds);
    }
}

#[test]
fn weekdays_move_to_next_working_day() {
    // 2024-03-04 is a Monday.
    assert_eq!(ymd(calculate_next_date(at(2024, 3, 4), EventRecurrence::Weekdays)), Some((2024, 3, 5)));
    assert_eq!(ymd(calculate_next_date(at(2024, 3, 7), EventRecurrence::Weekdays)), Some((2024, 3, 8)));
    // Saturday and Sunday move to Monday.
    assert_eq!(ymd(calculate_next_date(at(2024, 3, 9), EventRecurrence::Weekdays)), Some((2024, 3, 11)));
    assert_eq!(ymd(calculate_next_date(at(2024, 3, 10), EventRecurrence::Weekdays)), Some((2024, 3, 11)));
}

#[test]
fn weekdays_from_friday_moves_one_day() {
    // The rule adds a single day from Friday, landing on Saturday.
    assert_eq!(ymd(calculate_next_date(at(2024, 3, 8), EventRecurrence::Weekdays)), Some((2024, 3, 9)));
}

#[test]
fn weekends_move_to_next_weekend_day() {
    assert_eq!(ymd(calculate_next_date(at(2024, 3, 4), EventRecurrence::Weekends)), Some((2024, 3, 9)));
    assert_eq!(ymd(calculate_next_date(at(2024, 3, 8), EventRecurrence::Weekends)), Some((2024, 3, 9)));
    assert_eq!(ymd(calculate_next_date(at(2024, 3, 9), EventRecurrence::Weekends)), Some((2024, 3, 10)));
    // From Sunday the rule adds a single day, landing on Monday.
    assert_eq!(ymd(calculate_next_date(at(2024, 3, 10), EventRecurrence::Weekends)), Some((2024, 3, 11)));
}

#[test]
fn monthly_cuts_day_to_month_length() {
    assert_eq!(ymd(calculate_next_date(at(2024, 1, 31), EventRecurrence::Monthly)), Some((2024, 2, 29)));
    assert_eq!(ymd(calculate_next_date(at(2023, 1, 31), EventRecurrence::Monthly)), Some((2023, 2, 28)));
    assert_eq!(ymd(calculate_next_date(at(2024, 3, 31), EventRecurrence::Monthly)), Some((2024, 4, 30)));
    assert_eq!(ymd(calculate_next_date(at(2024, 12, 15), EventRecurrence::Monthly)), Some((2025, 1, 15)));
}

#[test]
fn quarterly_moves_three_months() {
    assert_eq!(ymd(calculate_next_date(at(2024, 1, 15), EventRecurrence::Quaterly)), Some((2024, 4, 15)));
    assert_eq!(ymd(calculate_next_date(at(2024, 11, 30), EventRecurrence::Quaterly)), Some((2025, 2, 28)));
    assert_eq!(ymd(calculate_next_date(at(2024, 10, 31), EventRecurrence::Quaterly)), Some((2025, 1, 31)));
    assert_eq!(ymd(calculate_next_date(at(2024, 5, 31), EventRecurrence::Quaterly)), Some((2024, 8, 31)));
}

#[test]
fn quarterly_from_september_lands_in_next_year() {
    // Counting months from 1 makes September roll into the following year.
    assert_eq!(ymd(calculate_next_date(at(2024, 9, 15), EventRecurrence::Quaterly)), Some((2025, 12, 15)));
}

#[test]
fn quarterly_before_year_zero_has_no_next_date() {
    assert_eq!(ymd(calculate_next_date(at(-2, 1, 10), EventRecurrence::Quaterly)), None);
}

#[test]
fn yearly_turns_leap_day_into_last_of_february() {
    assert_eq!(ymd(calculate_next_date(at(2024, 2, 29), EventRecurrence::Yearly)), Some((2025, 2, 28)));
    assert_eq!(ymd(calculate_next_date(at(2023, 7, 4), EventRecurrence::Yearly)), Some((2024, 7, 4)));
}

#[test]
fn yearly_past_chrono_range_has_no_next_date() {
    assert_eq!(ymd(calculate_next_date(at(262142, 6, 1), EventRecurrence::Yearly)), None);
}

#[test]
fn recurrence_end_date_adds_interval_days() {
    let start = at(2024, 1, 1);
    assert_eq!(ymd(recurrence_end_date(start, None)), None);
    assert_eq!(ymd(recurrence_end_date(start, Some(Interval::OneMonth))), Some((2024, 1, 31)));
    assert_eq!(ymd(recurrence_end_date(start, Some(Interval::ThreeMonths))), Some((2024, 3, 31)));
    assert_eq!(ymd(recurrence_end_date(start, Some(Interval::SixMonths))), Some((2024, 6, 29)));
    assert_eq!(ymd(recurrence_end_date(start, Some(Interval::OneYear))), Some((2024, 12, 31)));
    assert_eq!(ymd(recurrence_end_date(start, Some(Interval::Indefinite))), Some((2123, 12, 8)));
}

#[test]
fn next_date_defined_checks_the_moment_and_the_step() {
    assert!(next_date_defined(&at(2024, 3, 4), EventRecurrence::Daily));
    assert!(next_date_defined(&at(2024, 3, 4), EventRecurrence::Weekends));
    // Not a calendar day.
    assert!(!next_date_defined(&at(2023, 2, 29), EventRecurrence::Daily));
    assert!(!next_date_defined(&at(2024, 13, 1), EventRecurrence::Monthly));
    // Clock time past the end of the day.
    let mut late = at(2024, 3, 4);
    late.seconds = 86400;
    assert!(!next_date_defined(&late, EventRecurrence::Daily));
    // Offset of a whole day or more.
    let mut far = at(2024, 3, 4);
    far.offset_seconds = -86400;
    assert!(!next_date_defined(&far, EventRecurrence::Weekly));
    // The last day chrono holds: a day step leaves the range, a calendar pattern
    // is still defined (and answers None).
    let last = at(262142, 12, 31);
    assert!(!next_date_defined(&last, EventRecurrence::Daily));
    assert!(next_date_defined(&last, EventRecurrence::Monthly));
    assert_eq!(ymd(calculate_next_date(last, EventRecurrence::Monthly)), None);
}

#[test]
fn end_date_and_room_checks() {
    let start = at(2024, 1, 1);
    assert!(fits_chrono(&start));
    assert!(!fits_chrono(&at(2024, 2, 30)));
    assert!(has_room_for_days(&start, 36500));
    assert!(has_room_for_days(&start, -36500));
    assert!(end_date_defined(&start, Some(Interval::Indefinite)));
    assert!(end_date_defined(&start, None));
    let near_end = at(262142, 6, 1);
    assert!(fits_chrono(&near_end));
    assert!(has_room_for_days(&near_end, 180));
    assert!(!has_room_for_days(&near_end, 365));
    assert!(end_date_defined(&near_end, Some(Interval::SixMonths)));
    assert!(!end_date_defined(&near_end, Some(Interval::OneYear)));
    assert!(end_date_defined(&near_end, None));
    assert!(!end_date_defined(&at(2023, 2, 29), None));
}

#[test]
fn next_occurrence_is_always_later() {
    let patterns = [
        EventRecurrence::Daily,
        EventRecurrence::Weekly,
        EventRecurrence::Biweekly,
        EventRecurrence::Weekdays,
        EventRecurrence::Weekends,
        EventRecurrence::Monthly,
        EventRecurrence::Quaterly,
        EventRecurrence::Yearly,
    ];
    let starts = [at(2024, 1, 31), at(2024, 2, 29), at(2023, 9, 30), at(2024, 12, 31), at(-1, 10, 5), at(0, 3, 1)];
    for start in starts {
        for pattern in patterns {
            if let Some(next) = calculate_next_date(start, pattern) {
                assert!(
                    (next.year, next.month, next.day) > (start.year, start.month, start.day),
                    "{:?} from {:?} went to {:?}",
                    pattern,
                    (start.year, start.month, start.day),
                    (next.year, next.month, next.day)
                );
            }
        }
    }
}
