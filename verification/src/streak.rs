//! Daily learning streaks: how one day's activity moves a learner's streak.

use vstd::prelude::*;

use crate::calendar::CivilDate;
use crate::text::padded_decimal;
use chrono::{Datelike, Utc};
use crate::datetime::{chrono_days_between, chrono_parse_iso_date, iso_date_text, parsed_iso_date};

verus! {

/// A learner's streak as the client sees it; the last activity date is kept as
/// `YYYY-MM-DD` text.
#[derive(Clone, Debug)]
pub struct UserStreakOnClient {
    pub current_streak: i32,
    pub longest_streak: i32,
    pub last_activity_date: Option<String>,
}

/// A learner's place on the streak leaderboard.
#[derive(Clone, Debug)]
pub struct LeaderboardEntry {
    pub user_id: String,
    pub display_name: String,
    pub current_streak: i32,
    pub longest_streak: i32,
}

/// The mathematical content of a streak.
pub struct StreakView {
    pub current: i32,
    pub longest: i32,
    pub last_activity: Option<Seq<char>>,
}

impl View for UserStreakOnClient {
    type V = StreakView;

    open spec fn view(&self) -> StreakView {
        StreakView {
            current: self.current_streak,
            longest: self.longest_streak,
            last_activity: match self.last_activity_date {
                Some(d) => Some(d@),
                None => None,
            },
        }
    }
}

/// What a day's activity does to the stored streak.
#[derive(Clone, Debug)]
pub enum StreakUpdate {
    /// Activity was already counted today: the stored streak stays as it is.
    Unchanged,
    /// The stored streak is replaced by this one.
    Updated(UserStreakOnClient),
    /// The learner had no streak; this one is created.
    Created(UserStreakOnClient),
}

/// The mathematical content of a [`StreakUpdate`].
pub enum StreakChange {
    Unchanged,
    Updated(StreakView),
    Created(StreakView),
}

impl View for StreakUpdate {
    type V = StreakChange;

    open spec fn view(&self) -> StreakChange {
        match self {
            StreakUpdate::Unchanged => StreakChange::Unchanged,
            StreakUpdate::Updated(s) => StreakChange::Updated(s@),
            StreakUpdate::Created(s) => StreakChange::Created(s@),
        }
    }
}

/// Writes a date as `YYYY-MM-DD`.
pub fn iso_date_string(date: CivilDate) -> (text: String)
    ensures
        text@ == iso_date_text(date),
{
    let mut text = if date.year >= 0 {
        padded_decimal(date.year as u64, 4)
    } else {
        let mut t = "-".to_string();
        let magnitude: u64 = (0i64 - date.year as i64) as u64;
        t.append(padded_decimal(magnitude, 3).as_str());
        t
    };
    text.append("-");
    text.append(crate::prayer::pad2(date.month as u64).as_str());
    text.append("-");
    text.append(crate::prayer::pad2(date.day as u64).as_str());
    proof {
        reveal_strlit("-");
    }
    text
}

/// Today's date in UTC, with chrono's `Utc::now().date_naive()`.
///
/// Trusted for one fact only: chrono's dates are existing days in its range.
/// Which day it is depends on the clock and is left unsaid.
#[verifier::external_body]
fn chrono_utc_today() -> (today: CivilDate)
    ensures
        today.is_chrono_date(),
{
    let today = Utc::now().date_naive();
    CivilDate { year: today.year(), month: today.month(), day: today.day() }
}

/// Today's UTC date as `YYYY-MM-DD`.
pub fn today_string() -> (text: String)
    ensures
        exists|today: CivilDate| today.is_chrono_date() && text@ == iso_date_text(today),
{
    let today = chrono_utc_today();
    iso_date_string(today)
}

/// Days from the last recorded activity to today, both read as `YYYY-MM-DD`
/// dates; a today that does not parse counts as the last activity day. `None`
/// when there is no readable last activity date.
pub open spec fn activity_gap(last_activity: Option<Seq<char>>, today: Seq<char>) -> Option<int> {
    match last_activity {
        None => None,
        Some(last_text) => match parsed_iso_date(last_text) {
            None => None,
            Some(last) => {
                let today_date = match parsed_iso_date(today) {
                    Some(t) => t,
                    None => last,
                };
                Some(today_date.day_number() - last.day_number())
            },
        },
    }
}

/// The streak after activity on a day `gap` days after the last one: the same
/// day changes nothing, the next day extends the streak by one, any other gap
/// (or no known last day) starts over at one; the longest streak follows.
pub open spec fn streak_after_gap(streak: StreakView, gap: Option<int>, today: Seq<char>) -> StreakChange {
    if gap == Some(0int) {
        StreakChange::Unchanged
    } else {
        let current = if gap == Some(1int) { streak.current + 1 } else { 1 };
        StreakChange::Updated(
            StreakView {
                current: current as i32,
                longest: if current > streak.longest { current as i32 } else { streak.longest },
                last_activity: Some(today),
            },
        )
    }
}

/// The streak change a day's activity causes; a learner without a streak gets
/// a new one of length one.
pub open spec fn streak_change(existing: Option<StreakView>, today: Seq<char>) -> StreakChange {
    match existing {
        None => StreakChange::Created(
            StreakView { current: 1, longest: 1, last_activity: Some(today) },
        ),
        Some(streak) => streak_after_gap(streak, activity_gap(streak.last_activity, today), today),
    }
}

/// Extending the streak by one more day would overflow an `i32`.
pub open spec fn streak_would_overflow(existing: Option<StreakView>, today: Seq<char>) -> bool {
    match existing {
        None => false,
        Some(streak) => activity_gap(streak.last_activity, today) == Some(1int) && streak.current
            == i32::MAX,
    }
}

/// `text` is what `iso_date_text` writes for `day`, a day in chrono's range with
/// a year of at most four digits (the texts that chrono reads back).
pub open spec fn written_day(text: Seq<char>, day: CivilDate) -> bool {
    day.is_chrono_date() && day.year <= 9999 && text == iso_date_text(day)
}

/// Days from the last recorded activity to `today`, reading both dates with
/// chrono; `None` when there is no readable last activity date.
pub fn activity_day_gap(last_activity_date: &Option<String>, today: &str) -> (gap: Option<i64>)
    ensures
        gap matches Some(g) ==> activity_gap(
            match last_activity_date {
                Some(d) => Some(d@),
                None => None,
            },
            today@,
        ) == Some(g as int),
        gap is None ==> activity_gap(
            match last_activity_date {
                Some(d) => Some(d@),
                None => None,
            },
            today@,
        ) is None,
        last_activity_date matches Some(l) ==> forall|last: CivilDate, now: CivilDate|
            #[trigger] written_day(l@, last) && #[trigger] written_day(today@, now) ==> (
            gap matches Some(g) && g == now.day_number() - last.day_number()),
{
    let last_text = match last_activity_date {
        Some(d) => d,
        None => return None,
    };
    let parsed_last = chrono_parse_iso_date(last_text.as_str());
    let last: CivilDate = match parsed_last {
        Some(d) => d,
        None => return None,
    };
    let parsed_today = chrono_parse_iso_date(today);
    let today_date = match parsed_today {
        Some(t) => t,
        None => last,
    };
    Some(chrono_days_between(today_date, last))
}

/// The streak after activity on a day `gap` days after the last one (`None`
/// when the last day is unknown).
pub fn next_streak(streak: &UserStreakOnClient, gap: Option<i64>, today: &str) -> (update:
    StreakUpdate)
    requires
        gap == Some(1i64) ==> streak.current_streak < i32::MAX,
    ensures
        update@ == streak_after_gap(
            streak@,
            match gap {
                Some(g) => Some(g as int),
                None => None,
            },
            today@,
        ),
{
    let ghost gap_int = match gap {
        Some(g) => Some(g as int),
        None => None::<int>,
    };
    match gap {
        Some(0) => {
            return StreakUpdate::Unchanged;
        },
        _ => {},
    }
    let current: i32 = match gap {
        Some(1) => streak.current_streak + 1,
        _ => 1,
    };
    let longest: i32 = if current > streak.longest_streak {
        current
    } else {
        streak.longest_streak
    };
    let updated = UserStreakOnClient {
        current_streak: current,
        longest_streak: longest,
        last_activity_date: Some(today.to_string()),
    };
    assert(gap_int != Some(0int));
    assert(updated@ == match streak_after_gap(streak@, gap_int, today@) {
        StreakChange::Updated(v) => v,
        _ => updated@,
    });
    StreakUpdate::Updated(updated)
}

/// What today's activity (`today` as `YYYY-MM-DD`) does to a learner's stored
/// streak. `None` when extending the streak by a day would overflow an `i32`.
pub fn bump_streak_state(existing: &Option<UserStreakOnClient>, today: &str) -> (update: Option<
    StreakUpdate,
>)
    ensures
        update is None <==> streak_would_overflow(
            match existing {
                Some(s) => Some(s@),
                None => None,
            },
            today@,
        ),
        update matches Some(u) ==> u@ == streak_change(
            match existing {
                Some(s) => Some(s@),
                None => None,
            },
            today@,
        ),
        existing matches Some(s) ==> (s.last_activity_date matches Some(l) ==> forall|
            last: CivilDate,
            now: CivilDate,
        |
            #[trigger] written_day(l@, last) && #[trigger] written_day(today@, now) ==> {
                &&& now.day_number() == last.day_number() ==> (update matches Some(
                    StreakUpdate::Unchanged,
                ))
                &&& now.day_number() == last.day_number() + 1 && s.current_streak < i32::MAX
                    ==> (update matches Some(StreakUpdate::Updated(v)) && v.current_streak
                    == s.current_streak + 1)
                &&& now.day_number() != last.day_number() && now.day_number() != last.day_number()
                    + 1 ==> (update matches Some(StreakUpdate::Updated(v)) && v.current_streak == 1)
            }),
{
    match existing {
        None => {
            let created = UserStreakOnClient {
                current_streak: 1,
                longest_streak: 1,
                last_activity_date: Some(today.to_string()),
            };
            Some(StreakUpdate::Created(created))
        },
        Some(streak) => {
            let gap = activity_day_gap(&streak.last_activity_date, today);
            match gap {
                Some(1) => {
                    if streak.current_streak == i32::MAX {
                        return None;
                    }
                },
                _ => {},
            }
            let update = next_streak(streak, gap, today);
            Some(update)
        },
    }
}

/// After counted activity the longest streak is at least the current one and
/// never shrinks, and the last activity day is today; a streak is left alone
/// only when activity was already counted on the same day.
pub proof fn law_streak_update_keeps_longest(existing: Option<StreakView>, today: Seq<char>)
    requires
        !streak_would_overflow(existing, today),
    ensures
        match streak_change(existing, today) {
            StreakChange::Updated(v) => {
                &&& v.longest >= v.current
                &&& v.last_activity == Some(today)
                &&& (existing matches Some(s) && v.longest >= s.longest)
            },
            StreakChange::Created(v) => {
                &&& v.current == 1 && v.longest == 1
                &&& v.last_activity == Some(today)
                &&& existing is None
            },
            StreakChange::Unchanged => (existing matches Some(s) && activity_gap(
                s.last_activity,
                today,
            ) == Some(0int)),
        },
{
}

/// Activity recorded twice on the same day counts once: feeding the updated
/// streak back with the same day changes nothing, whenever that day is a
/// readable date.
pub proof fn law_same_day_counts_once(existing: Option<StreakView>, today: Seq<char>)
    requires
        !streak_would_overflow(existing, today),
    ensures
        parsed_iso_date(today) is Some ==> match streak_change(existing, today) {
            StreakChange::Updated(v) => streak_change(Some(v), today) == StreakChange::Unchanged,
            StreakChange::Created(v) => streak_change(Some(v), today) == StreakChange::Unchanged,
            StreakChange::Unchanged => true,
        },
{
}

/// Activity on the day after the last one extends the streak by one; a longer
/// gap, a day before the last one, or an unreadable last date starts the streak
/// over at one.
pub proof fn law_streak_extends_or_restarts(streak: StreakView, today: Seq<char>)
    requires
        !streak_would_overflow(Some(streak), today),
    ensures
        activity_gap(streak.last_activity, today) == Some(1int) ==> (streak_change(
            Some(streak),
            today,
        ) matches StreakChange::Updated(v) && v.current == streak.current + 1),
        activity_gap(streak.last_activity, today) != Some(0int) && activity_gap(
            streak.last_activity,
            today,
        ) != Some(1int) ==> (streak_change(Some(streak), today) matches StreakChange::Updated(v)
            && v.current == 1),
{
}

/// The streak shown to a learner: the stored one, or an empty streak for a
/// learner without activity yet.
pub fn streak_or_default(stored: Option<UserStreakOnClient>) -> (streak: UserStreakOnClient)
    ensures
        match stored {
            Some(s) => streak == s,
            None => streak.current_streak == 0 && streak.longest_streak == 0
                && streak.last_activity_date is None,
        },
{
    match stored {
        Some(s) => s,
        None => UserStreakOnClient { current_streak: 0, longest_streak: 0, last_activity_date: None },
    }
}

} // verus!
