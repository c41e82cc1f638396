//! Which achievements a learner's activity earns.

use vstd::prelude::*;

use crate::datetime::EventDate;
use crate::text::same_text;

verus! {

/// Theme of an achievement.
#[derive(Clone, Copy, Debug, PartialEq, Eq, Structural)]
pub enum AchievementCategory {
    Learning,
    Streak,
    Social,
    Milestone,
}

/// An achievement a learner can earn: what it is and the activity it asks for.
#[derive(Clone, Debug)]
pub struct Achievement {
    pub id: String,
    pub name: String,
    pub slug: String,
    pub description: String,
    pub icon: String,
    pub category: AchievementCategory,
    pub requirement_type: String,
    pub requirement_value: i32,
    pub points: i32,
}

/// An achievement as the client sees it, with when the learner earned it.
#[derive(Clone, Debug)]
pub struct AchievementOnClient {
    pub id: String,
    pub name: String,
    pub slug: String,
    pub description: String,
    pub icon: String,
    pub category: AchievementCategory,
    pub points: i32,
    pub earned_at: Option<EventDate>,
}

/// A course certificate as the client sees it.
#[derive(Clone, Debug)]
pub struct CertificateOnClient {
    pub id: String,
    pub course_id: String,
    pub certificate_number: String,
    pub issued_at: EventDate,
    pub pdf_url: Option<String>,
}

/// A learner's activity totals that achievements are measured against.
#[derive(Clone, Copy, Debug, PartialEq, Eq, Structural)]
pub struct ActivityCounts {
    pub completed_lessons: i64,
    pub completed_courses: i64,
    pub enrollment_count: i64,
    pub current_streak: i32,
}

/// Whether the activity meets a requirement. Known requirement types are
/// `lessons_completed`, `courses_completed`, `enrollments` and `streak_days`;
/// any other type is never met.
pub open spec fn requirement_met(requirement_type: Seq<char>, value: i32, counts: ActivityCounts) -> bool {
    if requirement_type == "lessons_completed"@ {
        counts.completed_lessons >= value
    } else if requirement_type == "courses_completed"@ {
        counts.completed_courses >= value
    } else if requirement_type == "enrollments"@ {
        counts.enrollment_count >= value
    } else if requirement_type == "streak_days"@ {
        counts.current_streak >= value
    } else {
        false
    }
}

/// Whether `id` is among `ids`.
pub open spec fn has_id(ids: Seq<Seq<char>>, id: Seq<char>) -> bool {
    exists|k: int| 0 <= k < ids.len() && #[trigger] ids[k] == id
}

/// The achievement is not yet earned and the activity meets its requirement.
pub open spec fn is_newly_earned(
    achievement: Achievement,
    earned: Seq<Seq<char>>,
    counts: ActivityCounts,
) -> bool {
    !has_id(earned, achievement.id@) && requirement_met(
        achievement.requirement_type@,
        achievement.requirement_value,
        counts,
    )
}

/// Positions, in order, of the newly earned achievements among the first `n`.
pub open spec fn newly_earned_positions(
    achievements: Seq<Achievement>,
    earned: Seq<Seq<char>>,
    counts: ActivityCounts,
    n: int,
) -> Seq<usize>
    decreases n,
{
    if n <= 0 {
        Seq::empty()
    } else {
        let before = newly_earned_positions(achievements, earned, counts, n - 1);
        if is_newly_earned(achievements[n - 1], earned, counts) {
            before.push((n - 1) as usize)
        } else {
            before
        }
    }
}

/// The texts of a list of strings.
pub open spec fn texts(ids: Seq<String>) -> Seq<Seq<char>> {
    ids.map_values(|s: String| s@)
}

/// The four requirement types are different texts.
proof fn lemma_requirement_kinds_differ()
    ensures
        "lessons_completed"@ != "courses_completed"@,
        "lessons_completed"@ != "enrollments"@,
        "lessons_completed"@ != "streak_days"@,
        "courses_completed"@ != "enrollments"@,
        "courses_completed"@ != "streak_days"@,
        "enrollments"@ != "streak_days"@,
{
    reveal_strlit("lessons_completed");
    reveal_strlit("courses_completed");
    reveal_strlit("enrollments");
    reveal_strlit("streak_days");
    assert("lessons_completed"@[0] != "courses_completed"@[0]);
    assert("lessons_completed"@[0] != "enrollments"@[0]);
    assert("lessons_completed"@[0] != "streak_days"@[0]);
    assert("courses_completed"@[0] != "enrollments"@[0]);
    assert("courses_completed"@[0] != "streak_days"@[0]);
    assert("enrollments"@[0] != "streak_days"@[0]);
}

/// Each requirement type measures its own count, whatever the others are: a
/// `lessons_completed`, `courses_completed`, `enrollments` or `streak_days`
/// requirement is met exactly when the completed lessons, completed courses,
/// enrollments or current streak days reach the requirement's value; any other
/// type is never met.
pub proof fn law_requirement_measures_its_count(value: i32, counts: ActivityCounts, other: Seq<char>)
    requires
        other != "lessons_completed"@,
        other != "courses_completed"@,
        other != "enrollments"@,
        other != "streak_days"@,
    ensures
        requirement_met("lessons_completed"@, value, counts) <==> counts.completed_lessons >= value,
        requirement_met("courses_completed"@, value, counts) <==> counts.completed_courses >= value,
        requirement_met("enrollments"@, value, counts) <==> counts.enrollment_count >= value,
        requirement_met("streak_days"@, value, counts) <==> counts.current_streak >= value,
        !requirement_met(other, value, counts),
{
    lemma_requirement_kinds_differ();
}

/// Whether the activity meets the requirement.
pub fn meets_requirement(requirement_type: &str, requirement_value: i32, counts: &ActivityCounts) -> (met:
    bool)
    ensures
        met == requirement_met(requirement_type@, requirement_value, *counts),
        requirement_type@ == "lessons_completed"@ ==> (met <==> counts.completed_lessons
            >= requirement_value),
        requirement_type@ == "courses_completed"@ ==> (met <==> counts.completed_courses
            >= requirement_value),
        requirement_type@ == "enrollments"@ ==> (met <==> counts.enrollment_count
            >= requirement_value),
        requirement_type@ == "streak_days"@ ==> (met <==> counts.current_streak >= requirement_value),
{
    proof {
        lemma_requirement_kinds_differ();
    }
    if same_text(requirement_type, "lessons_completed") {
        counts.completed_lessons >= requirement_value as i64
    } else if same_text(requirement_type, "courses_completed") {
        counts.completed_courses >= requirement_value as i64
    } else if same_text(requirement_type, "enrollments") {
        counts.enrollment_count >= requirement_value as i64
    } else if same_text(requirement_type, "streak_days") {
        counts.current_streak >= requirement_value
    } else {
        false
    }
}

/// Whether `id` is among `ids`.
pub fn contains_id(ids: &Vec<String>, id: &String) -> (found: bool)
    ensures
        found == has_id(texts(ids@), id@),
{
    let mut i: usize = 0;
    while i < ids.len()
        invariant
            i <= ids.len(),
            forall|k: int| 0 <= k < i ==> ids@[k]@ != id@,
        decreases ids.len() - i,
    {
        if ids[i] == *id {
            assert(texts(ids@)[i as int] == id@);
            return true;
        }
        i = i + 1;
    }
    assert forall|k: int| 0 <= k < texts(ids@).len() implies #[trigger] texts(ids@)[k] != id@ by {
        assert(ids@[k]@ != id@);
    }
    false
}

/// Positions, in order, of the achievements the activity newly earns: those not
/// yet in `earned` whose requirement the activity meets.
pub fn newly_earned(achievements: &Vec<Achievement>, earned: &Vec<String>, counts: &ActivityCounts) -> (positions:
    Vec<usize>)
    ensures
        positions@ == newly_earned_positions(
            achievements@,
            texts(earned@),
            *counts,
            achievements@.len() as int,
        ),
{
    let mut positions: Vec<usize> = Vec::new();
    let mut i: usize = 0;
    while i < achievements.len()
        invariant
            i <= achievements.len(),
            positions@ == newly_earned_positions(achievements@, texts(earned@), *counts, i as int),
        decreases achievements.len() - i,
    {
        let achievement = &achievements[i];
        if !contains_id(earned, &achievement.id) && meets_requirement(
            achievement.requirement_type.as_str(),
            achievement.requirement_value,
            counts,
        ) {
            positions.push(i);
        }
        i = i + 1;
    }
    positions
}

/// The ids of the achievements at the given positions.
pub open spec fn ids_at(achievements: Seq<Achievement>, positions: Seq<usize>) -> Seq<Seq<char>> {
    positions.map_values(|p: usize| achievements[p as int].id@)
}

/// The positions found are exactly the newly earned achievements among the first
/// `n`, each below `n`.
pub proof fn lemma_newly_earned_positions(
    achievements: Seq<Achievement>,
    earned: Seq<Seq<char>>,
    counts: ActivityCounts,
    n: int,
)
    requires
        0 <= n <= achievements.len(),
        achievements.len() <= usize::MAX,
    ensures
        forall|j: int|
            0 <= j < newly_earned_positions(achievements, earned, counts, n).len() ==> {
                let p = #[trigger] newly_earned_positions(achievements, earned, counts, n)[j];
                &&& p < n
                &&& is_newly_earned(achievements[p as int], earned, counts)
            },
        forall|k: int|
            0 <= k < n && is_newly_earned(#[trigger] achievements[k], earned, counts) ==> exists|
                j: int,
            |
                0 <= j < newly_earned_positions(achievements, earned, counts, n).len()
                    && newly_earned_positions(achievements, earned, counts, n)[j] == k,
        (forall|k: int|
            0 <= k < n ==> !is_newly_earned(#[trigger] achievements[k], earned, counts))
            ==> newly_earned_positions(achievements, earned, counts, n).len() == 0,
    decreases n,
{
    if n > 0 {
        lemma_newly_earned_positions(achievements, earned, counts, n - 1);
        let before = newly_earned_positions(achievements, earned, counts, n - 1);
        let now = newly_earned_positions(achievements, earned, counts, n);
        assert forall|k: int|
            0 <= k < n && is_newly_earned(#[trigger] achievements[k], earned, counts) implies exists|
                j: int,
            |
                0 <= j < now.len() && now[j] == k by {
            if k == n - 1 {
                assert(now[now.len() - 1] == k);
            } else {
                let j = choose|j: int| 0 <= j < before.len() && before[j] == k;
                assert(now[j] == before[j]);
            }
        }
    }
}

/// No achievement is awarded twice: once the newly earned ones are recorded as
/// earned, the same activity earns nothing more.
pub proof fn law_achievement_awarded_once(
    achievements: Seq<Achievement>,
    earned: Seq<Seq<char>>,
    counts: ActivityCounts,
)
    requires
        achievements.len() <= usize::MAX,
    ensures
        newly_earned_positions(
            achievements,
            earned + ids_at(
                achievements,
                newly_earned_positions(achievements, earned, counts, achievements.len() as int),
            ),
            counts,
            achievements.len() as int,
        ).len() == 0,
{
    let n = achievements.len() as int;
    let first = newly_earned_positions(achievements, earned, counts, n);
    let awarded = ids_at(achievements, first);
    let after = earned + awarded;
    lemma_newly_earned_positions(achievements, earned, counts, n);
    lemma_newly_earned_positions(achievements, after, counts, n);
    assert forall|k: int| 0 <= k < n implies !is_newly_earned(
        #[trigger] achievements[k],
        after,
        counts,
    ) by {
        if has_id(earned, achievements[k].id@) {
            let i = choose|i: int| 0 <= i < earned.len() && #[trigger] earned[i] == achievements[k].id@;
            assert(after[i] == achievements[k].id@);
        } else if is_newly_earned(achievements[k], earned, counts) {
            let j = choose|j: int| 0 <= j < first.len() && first[j] == k;
            assert(awarded[j] == achievements[k].id@);
            assert(after[earned.len() + j] == achievements[k].id@);
        }
    }
}

/// More activity never loses an award: with at least as many completed lessons,
/// completed courses, enrollments and streak days, every achievement earned
/// before is still earned.
pub proof fn law_more_activity_keeps_awards(
    achievements: Seq<Achievement>,
    earned: Seq<Seq<char>>,
    less: ActivityCounts,
    more: ActivityCounts,
    k: int,
)
    requires
        less.completed_lessons <= more.completed_lessons,
        less.completed_courses <= more.completed_courses,
        less.enrollment_count <= more.enrollment_count,
        less.current_streak <= more.current_streak,
        0 <= k < achievements.len(),
        achievements.len() <= usize::MAX,
        is_newly_earned(achievements[k], earned, less),
    ensures
        is_newly_earned(achievements[k], earned, more),
        newly_earned_positions(achievements, earned, more, achievements.len() as int).contains(
            k as usize,
        ),
{
    let n = achievements.len() as int;
    lemma_newly_earned_positions(achievements, earned, more, n);
    let found = newly_earned_positions(achievements, earned, more, n);
    let j = choose|j: int| 0 <= j < found.len() && found[j] == k;
    assert(found[j] == k as usize);
}

} // verus!
