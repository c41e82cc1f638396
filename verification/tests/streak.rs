use merzah::calendar::CivilDate;
use merzah::streak::{
    activity_day_gap, bump_streak_state, iso_date_string, next_streak, streak_or_default, today_string,
    StreakUpdate, UserStreakOnClient,
};

fn streak(current: i32, longest: i32, last: Option<&str>) -> UserStreakOnClient {
    UserStreakOnClient {
        current_streak: current,
        longest_streak: longest,
        last_activity_date: last.map(|s| s.to_string()),
    }
}

fn updated(update: Option<StreakUpdate>) -> UserStreakOnClient {
    match update {
        Some(StreakUpdate::Updated(s)) => s,
        other => panic!("expected an update, got {:?}", other),
    }
}

#[test]
fn first_activity_creates_streak() {
    match bump_streak_state(&None, "2024-05-01") {
        Some(StreakUpdate::Created(s)) => {
            assert_eq!((s.current_streak, s.longest_streak), (1, 1));
            assert_eq!(s.last_activity_date.as_deref(), Some("2024-05-01"));
        }
        other => panic!("expected a new streak, got {:?}", other),
    }
}

#[test]
fn same_day_activity_changes_nothing() {
    let s = streak(4, 9, Some("2024-05-01"));
    assert!(matches!(bump_streak_state(&Some(s), "2024-05-01"), Some(StreakUpdate::Unchanged)));
}

#[test]
fn next_day_extends_streak() {
    let s = updated(bump_streak_state(&Some(streak(4, 9, Some("2024-05-01"))), "2024-05-02"));
    assert_eq!((s.current_streak, s.longest_streak), (5, 9));
    assert_eq!(s.last_activity_date.as_deref(), Some("2024-05-02"));
    let s = updated(bump_streak_state(&Some(streak(9, 9, Some("2024-02-28"))), "2024-02-29"));
    assert_eq!((s.current_streak, s.longest_streak), (10, 10));
}

#[test]
fn gap_restarts_streak() {
    let s = updated(bump_streak_state(&Some(streak(4, 9, Some("2024-05-01"))), "2024-05-03"));
    assert_eq!((s.current_streak, s.longest_streak), (1, 9));
    let s = updated(bump_streak_state(&Some(streak(4, 9, Some("2024-05-01"))), "2024-04-30"));
    assert_eq!(s.current_streak, 1);
}

#[test]
fn unreadable_last_date_restarts_streak() {
    let s = updated(bump_streak_state(&Some(streak(4, 9, Some("yesterday"))), "2024-05-02"));
    assert_eq!((s.current_streak, s.longest_streak), (1, 9));
    let s = updated(bump_streak_state(&Some(streak(4, 9, None)), "2024-05-02"));
    assert_eq!(s.current_streak, 1);
}

#[test]
fn same_day_counts_once() {
    let first = updated(bump_streak_state(&Some(streak(2, 3, Some("2024-05-01"))), "2024-05-02"));
    assert!(matches!(bump_streak_state(&Some(first), "2024-05-02"), Some(StreakUpdate::Unchanged)));
}

#[test]
fn overflowing_streak_is_refused() {
    let s = streak(i32::MAX, i32::MAX, Some("2024-05-01"));
    assert!(bump_streak_state(&Some(s), "2024-05-02").is_none());
}

#[test]
fn day_gap_counts_calendar_days() {
    assert_eq!(activity_day_gap(&Some("2023-12-31".to_string()), "2024-03-01"), Some(61));
    assert_eq!(activity_day_gap(&Some("2024-03-01".to_string()), "2024-02-28"), Some(-2));
    assert_eq!(activity_day_gap(&Some("2024-03-01".to_string()), "not a date"), Some(0));
    assert_eq!(activity_day_gap(&None, "2024-03-01"), None);
}

#[test]
fn next_streak_with_known_gap() {
    let s = streak(3, 3, Some("2024-05-01"));
    match next_streak(&s, Some(1), "2024-05-02") {
        StreakUpdate::Updated(n) => assert_eq!((n.current_streak, n.longest_streak), (4, 4)),
        other => panic!("expected an update, got {:?}", other),
    }
    assert!(matches!(next_streak(&s, Some(0), "2024-05-01"), StreakUpdate::Unchanged));
}

#[test]
fn iso_date_string_pads_fields() {
    assert_eq!(iso_date_string(CivilDate { year: 2024, month: 3, day: 7 }), "2024-03-07");
    assert_eq!(iso_date_string(CivilDate { year: 33, month: 11, day: 25 }), "0033-11-25");
    assert_eq!(iso_date_string(CivilDate { year: -5, month: 1, day: 1 }), "-005-01-01");
}

#[test]
fn today_string_is_iso_date() {
    let today = today_string();
    let expected = chrono::Utc::now().format("%Y-%m-%d").to_string();
    assert_eq!(today.len(), 10);
    assert_eq!(today.as_bytes()[4], b'-');
    assert_eq!(today.as_bytes()[7], b'-');
    assert!(today == expected || today < expected);
}

#[test]
fn learner_without_activity_sees_an_empty_streak() {
    let shown = streak_or_default(None);
    assert_eq!((shown.current_streak, shown.longest_streak, shown.last_activity_date), (0, 0, None));
    let stored = streak_or_default(Some(streak(3, 7, Some("2024-03-01"))));
    assert_eq!((stored.current_streak, stored.longest_streak), (3, 7));
    assert_eq!(stored.last_activity_date.as_deref(), Some("2024-03-01"));
}

#[test]
fn written_days_decide_the_streak() {
    let s = Some(streak(4, 9, Some("2024-02-29")));
    assert!(matches!(bump_streak_state(&s, "2024-02-29"), Some(StreakUpdate::Unchanged)));
    match bump_streak_state(&s, "2024-03-01") {
        Some(StreakUpdate::Updated(v)) => assert_eq!(v.current_streak, 5),
        other => panic!("unexpected {:?}", other),
    }
    match bump_streak_state(&s, "2024-03-03") {
        Some(StreakUpdate::Updated(v)) => assert_eq!(v.current_streak, 1),
        other => panic!("unexpected {:?}", other),
    }
}
