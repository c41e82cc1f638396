use merzah::achievement::{
    meets_requirement, newly_earned, Achievement, AchievementCategory, ActivityCounts,
};

fn achievement(id: &str, kind: &str, value: i32) -> Achievement {
    Achievement {
        id: id.to_string(),
        name: id.to_string(),
        slug: id.to_string(),
        description: String::new(),
        icon: String::new(),
        category: AchievementCategory::Learning,
        requirement_type: kind.to_string(),
        requirement_value: value,
        points: 10,
    }
}

fn counts() -> ActivityCounts {
    ActivityCounts { completed_lessons: 12, completed_courses: 1, enrollment_count: 3, current_streak: 7 }
}

#[test]
fn requirements_compare_against_counts() {
    let c = counts();
    assert!(meets_requirement("lessons_completed", 12, &c));
    assert!(!meets_requirement("lessons_completed", 13, &c));
    assert!(meets_requirement("courses_completed", 1, &c));
    assert!(!meets_requirement("courses_completed", 2, &c));
    assert!(meets_requirement("enrollments", 3, &c));
    assert!(meets_requirement("streak_days", 7, &c));
    assert!(!meets_requirement("streak_days", 8, &c));
    assert!(!meets_requirement("quizzes_passed", 0, &c));
}

#[test]
fn newly_earned_skips_earned_and_unmet() {
    let all = vec![
        achievement("a:first", "lessons_completed", 1),
        achievement("a:ten", "lessons_completed", 10),
        achievement("a:fifty", "lessons_completed", 50),
        achievement("a:week", "streak_days", 7),
        achievement("a:odd", "mystery", 0),
    ];
    let earned = vec!["a:first".to_string()];
    assert_eq!(newly_earned(&all, &earned, &counts()), vec![1, 3]);
}

#[test]
fn achievements_are_awarded_once() {
    let all = vec![
        achievement("a:first", "lessons_completed", 1),
        achievement("a:course", "courses_completed", 1),
        achievement("a:many", "enrollments", 10),
    ];
    let mut earned: Vec<String> = Vec::new();
    let first = newly_earned(&all, &earned, &counts());
    assert_eq!(first, vec![0, 1]);
    for p in first {
        earned.push(all[p].id.clone());
    }
    assert!(newly_earned(&all, &earned, &counts()).is_empty());
}

#[test]
fn more_activity_keeps_awards() {
    let all = vec![achievement("a:week", "streak_days", 7), achievement("a:month", "streak_days", 30)];
    let less = counts();
    let more = ActivityCounts { current_streak: 30, ..less };
    assert_eq!(newly_earned(&all, &Vec::new(), &less), vec![0]);
    assert_eq!(newly_earned(&all, &Vec::new(), &more), vec![0, 1]);
}
