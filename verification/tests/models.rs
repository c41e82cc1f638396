use merzah::models::api_responses::ApiResponse;
use merzah::models::auth::{
    login_error, login_identifier, looks_like_mobile, registration_error_field, registration_errors,
    registration_identifier,
    FormField, RegistrationFormData,
};
use merzah::text::{decimal_string, padded_decimal, same_text, text_contains, text_starts_with};
use merzah::user::Identifier;
use merzah::filters::{FilterGroup, FilterOption};
use merzah::models::roadmap::{courses_to_enroll, framework_is_open, roadmap_is_open, RoadmapStatus};
use merzah::education::LessonContentType;
use merzah::models::import::{
    any_arg, catalogue_status, course_language, import_plan, link_is_required, lesson_settings,
    module_sort_order, ImportLesson, ImportModule, ImportPlan,
};

#[test]
fn api_response_data_and_error() {
    let ok: ApiResponse<u32> = ApiResponse::data(7);
    assert_eq!(ok.data, Some(7));
    assert!(ok.error.is_none());
    let failed: ApiResponse<u32> = ApiResponse::error("Not found".to_string());
    assert!(failed.data.is_none());
    assert_eq!(failed.error.as_deref(), Some("Not found"));
}

#[test]
fn registration_form_keeps_fields() {
    let form = RegistrationFormData::new(
        "Maryam".to_string(),
        Identifier::Email("m@x.org".to_string()),
        "password123".to_string(),
    );
    assert_eq!(form.name, "Maryam");
    assert!(matches!(form.identifier, Identifier::Email(ref e) if e == "m@x.org"));
    assert_eq!(form.password, "password123");
}

#[test]
fn text_helpers() {
    assert_eq!(decimal_string(0), "0");
    assert_eq!(decimal_string(86400), "86400");
    assert_eq!(padded_decimal(7, 4), "0007");
    assert_eq!(padded_decimal(12345, 3), "12345");
    assert!(same_text("abc", "abc"));
    assert!(!same_text("abc", "abd"));
    assert!(!same_text("abc", "ab"));
    assert!(text_contains("hello world", "o w"));
    assert!(text_contains("hello", ""));
    assert!(!text_contains("hello", "hello!"));
    assert!(!text_contains("hello", "lol"));
}

#[test]
fn import_plan_reads_flags() {
    let args = |list: &[&str]| list.iter().map(|s| s.to_string()).collect::<Vec<String>>();
    let all = import_plan(&args(&["import", "--all"]));
    assert_eq!(all, ImportPlan { tracks: true, courses: true, roadmaps: true, frameworks: true, show_usage: false });
    let some = import_plan(&args(&["import", "--courses", "--frameworks"]));
    assert_eq!(some, ImportPlan { tracks: false, courses: true, roadmaps: false, frameworks: true, show_usage: false });
    let none = import_plan(&args(&["import", "--verbose"]));
    assert_eq!(none, ImportPlan { tracks: false, courses: false, roadmaps: false, frameworks: false, show_usage: true });
    assert!(any_arg(&args(&["a", "--tracks"]), "--tracks"));
    assert!(!any_arg(&args(&["a", "--track"]), "--tracks"));
}

#[test]
fn import_defaults() {
    assert_eq!(course_language(&None), "en");
    assert_eq!(course_language(&Some("ar".to_string())), "ar");
    assert_eq!(catalogue_status(&None), "draft");
    assert_eq!(catalogue_status(&Some("published".to_string())), "published");
    assert!(link_is_required(None));
    assert!(!link_is_required(Some(false)));
    let lesson = ImportLesson {
        title: "Intro".to_string(),
        content_type: LessonContentType::Text,
        content: "Bismillah".to_string(),
        video_url: None,
        video_duration_seconds: None,
        audio_url: None,
        pdf_url: None,
        external_url: None,
        thumbnail_url: None,
        duration_minutes: None,
        sort_order: Some(3),
        is_preview: None,
    };
    assert_eq!(lesson_settings(&lesson), (5, 3, false));
    let module = ImportModule { title: "One".to_string(), description: None, sort_order: None, lessons: vec![lesson] };
    assert_eq!(module_sort_order(&module), 0);
}

#[test]
fn roadmap_and_framework_visibility() {
    assert!(roadmap_is_open(RoadmapStatus::Published, false));
    assert!(!roadmap_is_open(RoadmapStatus::Published, true));
    assert!(!roadmap_is_open(RoadmapStatus::Draft, false));
    assert!(!roadmap_is_open(RoadmapStatus::Archived, false));
    assert!(framework_is_open("published", false));
    assert!(!framework_is_open("published", true));
    assert!(!framework_is_open("Published", false));
    assert!(!framework_is_open("draft", false));
}

#[test]
fn starting_a_roadmap_enrolls_required_courses() {
    assert_eq!(courses_to_enroll(&vec![true, false, true, true]), vec![0, 2, 3]);
    assert_eq!(courses_to_enroll(&vec![false, false]), Vec::<usize>::new());
    assert_eq!(courses_to_enroll(&Vec::new()), Vec::<usize>::new());
}

#[test]
fn registration_reads_email_or_mobile() {
    assert!(matches!(registration_identifier("a@b.org".to_string()), Identifier::Email(ref e) if e == "a@b.org"));
    assert!(matches!(registration_identifier("+44 7700 900123".to_string()), Identifier::Mobile(ref m) if m == "+44 7700 900123"));
    assert!(matches!(registration_identifier("user".to_string()), Identifier::Mobile(_)));
}

#[test]
fn login_reads_mobile_or_email() {
    assert!(matches!(login_identifier("+1 (555) 010-99.1".to_string()), Identifier::Mobile(_)));
    assert!(matches!(login_identifier("0300\t1234567".to_string()), Identifier::Mobile(_)));
    assert!(matches!(login_identifier("".to_string()), Identifier::Mobile(_)));
    assert!(matches!(login_identifier("maryam@x.org".to_string()), Identifier::Email(ref e) if e == "maryam@x.org"));
    assert!(matches!(login_identifier("12a45".to_string()), Identifier::Email(_)));
    assert!(looks_like_mobile("+92 300 1234567"));
    assert!(!looks_like_mobile("٣٠٠"));
}

#[test]
fn form_errors_go_under_their_inputs() {
    assert_eq!(registration_error_field("name"), Some(FormField::Name));
    assert_eq!(registration_error_field("identifier.0"), Some(FormField::Identifier));
    assert_eq!(registration_error_field("password"), Some(FormField::Password));
    assert_eq!(registration_error_field("platform"), None);
    let shown = login_error("identifier.0", "not a valid email".to_string());
    assert_eq!(shown, Some((FormField::Identifier, "A valid email or mobile number is required".to_string())));
    assert_eq!(
        login_error("password", "length is lower than 8".to_string()),
        Some((FormField::Password, "length is lower than 8".to_string()))
    );
    assert_eq!(login_error("name", "x".to_string()), None);
    assert!(text_starts_with("identifier.0", "identifier"));
    assert!(!text_starts_with("id", "identifier"));
}

#[test]
fn registration_errors_one_per_line() {
    let entries = vec![
        ("name".to_string(), "length is lower than 2".to_string()),
        ("password".to_string(), "length is lower than 8".to_string()),
    ];
    assert_eq!(registration_errors(&entries), "name, length is lower than 2\npassword, length is lower than 8");
    assert_eq!(registration_errors(&vec![("identifier.0".to_string(), "not a valid email".to_string())]), "identifier.0, not a valid email");
    assert_eq!(registration_errors(&Vec::new()), "");
}

#[test]
fn filter_groups_keep_their_chips() {
    let group = FilterGroup::new(
        "Time:".to_string(),
        vec![FilterOption::new("Today".to_string(), false), FilterOption::new("This Week".to_string(), true)],
    );
    assert_eq!(group.label, "Time:");
    assert_eq!(group.options.len(), 2);
    assert_eq!(group.options[1].label, "This Week");
    assert!(group.options[1].is_active);
    assert!(!group.options[0].is_active);
}

#[test]
fn ascii_white_space_counts_in_mobile_numbers() {
    assert!(looks_like_mobile("0300\u{b}123\u{c}4567\r\n"));
    assert!(!looks_like_mobile("0300_1234567"));
    assert!(matches!(login_identifier("(555) 010 9999".to_string()), Identifier::Mobile(_)));
}

#[test]
fn unicode_white_space_counts_in_mobile_numbers() {
    assert!(looks_like_mobile("0300\u{a0}1234567"));
    assert!(looks_like_mobile("0300\u{3000}1234567\u{2028}"));
    assert!(!looks_like_mobile("0300\u{200b}1234567"));
}
