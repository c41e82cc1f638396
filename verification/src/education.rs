//! Learning tracks, courses, modules and lessons: the data the client sees and
//! the rules around ownership, navigation, progress and search.

use vstd::prelude::*;

use crate::text::{occurs_in, option_text, same_text, text_contains, trimmed};
use crate::user::User;

verus! {

// ===== TRACKS =====

#[derive(Clone, Copy, Debug, PartialEq, Eq, Structural)]
pub enum TrackSlug {
    FaithWorship,
    LifeSkills,
    CareerProfessional,
    FinanceWealth,
}

#[derive(Clone, Debug)]
pub struct TrackOnClient {
    pub id: String,
    pub name: String,
    pub slug: String,
    pub description: String,
    pub icon: Option<String>,
    pub image_url: Option<String>,
    pub course_count: usize,
}

// ===== COURSES =====

#[derive(Clone, Copy, Debug, PartialEq, Eq, Structural)]
pub enum CourseLevel {
    Beginner,
    Intermediate,
    Advanced,
}

#[derive(Clone, Copy, Debug, PartialEq, Eq, Structural)]
pub enum CourseStatus {
    Draft,
    Review,
    Published,
    Archived,
}

#[derive(Clone, Debug)]
pub struct CourseOnClient {
    pub id: String,
    pub title: String,
    pub slug: String,
    pub short_description: String,
    pub level: CourseLevel,
    pub thumbnail_url: Option<String>,
    pub duration_minutes: i32,
    pub lesson_count: i32,
    pub enrollment_count: i32,
    pub educator_name: String,
}

#[derive(Clone, Debug)]
pub struct EducatorInfo {
    pub id: String,
    pub display_name: String,
}

// ===== MODULES =====

#[derive(Clone, Debug)]
pub struct ModuleOnClient {
    pub id: String,
    pub title: String,
    pub description: Option<String>,
    pub sort_order: i32,
    pub lesson_count: i32,
}

#[derive(Clone, Debug)]
pub struct ModuleWithLessons {
    pub id: String,
    pub title: String,
    pub description: Option<String>,
    pub sort_order: i32,
    pub lessons: Vec<LessonOnClient>,
}

// ===== LESSONS =====

#[derive(Clone, Copy, Debug, PartialEq, Eq, Structural)]
pub enum LessonContentType {
    Text,
    Video,
    Audio,
    Pdf,
    ExternalLink,
    Mixed,
}

#[derive(Clone, Debug)]
pub struct LessonOnClient {
    pub id: String,
    pub title: String,
    pub content_type: LessonContentType,
    pub thumbnail_url: Option<String>,
    pub duration_minutes: i32,
    pub sort_order: i32,
    pub is_preview: bool,
    pub is_completed: bool,
}

#[derive(Clone, Debug)]
pub struct LessonDetail {
    pub id: String,
    pub title: String,
    pub content_type: LessonContentType,
    pub content: String,
    pub video_url: Option<String>,
    pub video_duration_seconds: Option<i32>,
    pub audio_url: Option<String>,
    pub pdf_url: Option<String>,
    pub external_url: Option<String>,
    pub thumbnail_url: Option<String>,
    pub duration_minutes: i32,
    pub module_id: String,
    pub module_title: String,
    pub course_id: String,
    pub course_title: String,
    pub is_completed: bool,
    pub next_lesson_id: Option<String>,
    pub prev_lesson_id: Option<String>,
}

// ===== CREATE/UPDATE DTOs =====

#[derive(Clone, Debug)]
pub struct CreateCourse {
    pub title: String,
    pub slug: String,
    pub description: String,
    pub short_description: String,
    pub track: String,
    pub level: CourseLevel,
    pub language: String,
    pub thumbnail_url: Option<String>,
}

#[derive(Clone, Debug)]
pub struct UpdateCourse {
    pub title: Option<String>,
    pub slug: Option<String>,
    pub description: Option<String>,
    pub short_description: Option<String>,
    pub track: Option<String>,
    pub level: Option<CourseLevel>,
    pub status: Option<CourseStatus>,
    pub language: Option<String>,
    pub thumbnail_url: Option<String>,
    pub duration_minutes: Option<i32>,
}

#[derive(Clone, Debug)]
pub struct CreateModule {
    pub title: String,
    pub course: String,
    pub description: Option<String>,
    pub sort_order: Option<i32>,
}

#[derive(Clone, Debug)]
pub struct UpdateModule {
    pub title: Option<String>,
    pub description: Option<String>,
    pub sort_order: Option<i32>,
}

#[derive(Clone, Debug)]
pub struct CreateLesson {
    pub title: String,
    pub module: String,
    pub content_type: LessonContentType,
    pub content: String,
    pub video_url: Option<String>,
    pub video_duration_seconds: Option<i32>,
    pub audio_url: Option<String>,
    pub pdf_url: Option<String>,
    pub external_url: Option<String>,
    pub thumbnail_url: Option<String>,
    pub duration_minutes: Option<i32>,
    pub sort_order: Option<i32>,
    pub is_preview: Option<bool>,
}

#[derive(Clone, Debug)]
pub struct UpdateLesson {
    pub title: Option<String>,
    pub content_type: Option<LessonContentType>,
    pub content: Option<String>,
    pub video_url: Option<String>,
    pub video_duration_seconds: Option<i32>,
    pub audio_url: Option<String>,
    pub pdf_url: Option<String>,
    pub external_url: Option<String>,
    pub thumbnail_url: Option<String>,
    pub duration_minutes: Option<i32>,
    pub sort_order: Option<i32>,
    pub is_preview: Option<bool>,
}

impl CreateModule {
    /// The position a new module is stored at: as given, or zero.
    pub fn stored_sort_order(&self) -> (order: i32)
        ensures
            order == (match self.sort_order {
                Some(o) => o,
                None => 0,
            }),
    {
        match self.sort_order {
            Some(o) => o,
            None => 0,
        }
    }
}

impl CreateLesson {
    /// Stored values of a new lesson's optional fields:
    /// `(duration_minutes, sort_order, is_preview)`, defaulting to five minutes,
    /// position zero and not a preview.
    pub fn stored_settings(&self) -> (settings: (i32, i32, bool))
        ensures
            settings.0 == (match self.duration_minutes {
                Some(d) => d,
                None => 5,
            }),
            settings.1 == (match self.sort_order {
                Some(o) => o,
                None => 0,
            }),
            settings.2 == (match self.is_preview {
                Some(p) => p,
                None => false,
            }),
    {
        let duration = match self.duration_minutes {
            Some(d) => d,
            None => 5,
        };
        let order = match self.sort_order {
            Some(o) => o,
            None => 0,
        };
        let preview = match self.is_preview {
            Some(p) => p,
            None => false,
        };
        (duration, order, preview)
    }
}

// ===== RULES =====

/// Why an education request was refused.
#[derive(Clone, Debug)]
pub enum EducationError {
    Unauthorized,
    NotFound,
    InvalidInput(String),
    DatabaseError(String),
}

/// Roles that may manage any course.
pub open spec fn manages_all_courses(role: Seq<char>) -> bool {
    role == "app_admin"@ || role == "education_supervisor"@
}

/// Roles that may author courses.
pub open spec fn may_author_courses(role: Seq<char>) -> bool {
    role == "educator"@ || role == "app_admin"@ || role == "education_supervisor"@
}

/// The user may author courses: educators, app admins and education supervisors.
pub fn is_educator_or_admin(user: &User) -> (allowed: Result<(), EducationError>)
    ensures
        allowed is Ok <==> may_author_courses(user.role@),
        allowed matches Err(e) ==> e is Unauthorized,
{
    let role = user.role.as_str();
    if same_text(role, "educator") || same_text(role, "app_admin") || same_text(
        role,
        "education_supervisor",
    ) {
        Ok(())
    } else {
        Err(EducationError::Unauthorized)
    }
}

/// The user may manage every course without owning it: app admins and
/// education supervisors.
pub fn manages_every_course(user: &User) -> (manages: bool)
    ensures
        manages == manages_all_courses(user.role@),
{
    let role = user.role.as_str();
    same_text(role, "app_admin") || same_text(role, "education_supervisor")
}

/// Who owns a course, and whether it was deleted.
#[derive(Clone, Debug)]
pub struct CourseOwnership {
    pub educator: String,
    pub deleted: bool,
}

/// The user may manage the course: app admins and education supervisors always
/// may; anyone else only for a course that exists, is not deleted, and is
/// theirs (`Unauthorized` when it is someone else's, `NotFound` otherwise).
pub fn is_course_owner(user: &User, course: &Option<CourseOwnership>) -> (allowed: Result<
    (),
    EducationError,
>)
    ensures
        manages_all_courses(user.role@) ==> allowed is Ok,
        !manages_all_courses(user.role@) ==> match course {
            Some(c) => if c.deleted {
                allowed matches Err(e) && e is NotFound
            } else if c.educator@ == user.id@ {
                allowed is Ok
            } else {
                allowed matches Err(e) && e is Unauthorized
            },
            None => allowed matches Err(e) && e is NotFound,
        },
{
    if manages_every_course(user) {
        return Ok(());
    }
    match course {
        Some(c) => {
            if c.deleted {
                Err(EducationError::NotFound)
            } else if c.educator == user.id {
                Ok(())
            } else {
                Err(EducationError::Unauthorized)
            }
        },
        None => Err(EducationError::NotFound),
    }
}

/// Position of the first entry equal to `id` at or after `from`, or the length.
pub open spec fn first_index_from(ids: Seq<Seq<char>>, id: Seq<char>, from: int) -> int
    decreases ids.len() - from,
{
    if from >= ids.len() {
        ids.len() as int
    } else if ids[from] == id {
        from
    } else {
        first_index_from(ids, id, from + 1)
    }
}

/// The texts of a list of strings.
pub open spec fn id_texts(ids: Seq<String>) -> Seq<Seq<char>> {
    ids.map_values(|s: String| s@)
}

/// The lesson before `id` in a module's ordered lessons (before its first
/// occurrence); `None` for the first lesson or one not among them.
pub open spec fn previous_lesson(ids: Seq<Seq<char>>, id: Seq<char>) -> Option<Seq<char>> {
    let at = first_index_from(ids, id, 0);
    if 0 < at < ids.len() {
        Some(ids[at - 1])
    } else {
        None
    }
}

/// The lesson after `id` in a module's ordered lessons (after its first
/// occurrence); `None` for the last lesson or one not among them.
pub open spec fn next_lesson(ids: Seq<Seq<char>>, id: Seq<char>) -> Option<Seq<char>> {
    let at = first_index_from(ids, id, 0);
    if at + 1 < ids.len() {
        Some(ids[at + 1])
    } else {
        None
    }
}

/// The first occurrence found from `from` lies between `from` and the length,
/// and holds `id` when it is not the length.
proof fn lemma_first_index_bounds(ids: Seq<Seq<char>>, id: Seq<char>, from: int)
    requires
        0 <= from <= ids.len(),
    ensures
        from <= first_index_from(ids, id, from) <= ids.len(),
        first_index_from(ids, id, from) < ids.len() ==> ids[first_index_from(ids, id, from)] == id,
    decreases ids.len() - from,
{
    if from < ids.len() && ids[from] != id {
        lemma_first_index_bounds(ids, id, from + 1);
    }
}

/// In a list without repeats, the first occurrence of the entry at `k` is `k`.
proof fn lemma_first_index_of_entry(ids: Seq<Seq<char>>, k: int, from: int)
    requires
        0 <= from <= k < ids.len(),
        forall|i: int, j: int| 0 <= i < j < ids.len() ==> ids[i] != ids[j],
    ensures
        first_index_from(ids, ids[k], from) == k,
    decreases k - from,
{
    if from < k {
        assert(ids[from] != ids[k]);
        lemma_first_index_of_entry(ids, k, from + 1);
    }
}

/// Lesson navigation retraces its steps: in a module whose lessons are all
/// different, going to the next lesson and then to the previous one comes back
/// to the lesson, and so does going back and then forward.
pub proof fn law_lesson_navigation_retraces(ids: Seq<Seq<char>>, id: Seq<char>)
    requires
        forall|i: int, j: int| 0 <= i < j < ids.len() ==> ids[i] != ids[j],
    ensures
        next_lesson(ids, id) matches Some(n) ==> previous_lesson(ids, n) == Some(id),
        previous_lesson(ids, id) matches Some(p) ==> next_lesson(ids, p) == Some(id),
{
    lemma_first_index_bounds(ids, id, 0);
    let at = first_index_from(ids, id, 0);
    if at + 1 < ids.len() {
        lemma_first_index_of_entry(ids, at + 1, 0);
    }
    if 0 < at < ids.len() {
        lemma_first_index_of_entry(ids, at - 1, 0);
    }
}

/// The lessons before and after `lesson_id` in a module's ordered lessons (its
/// first occurrence); both `None` when it is not among them.
pub fn lesson_neighbors(lesson_ids: &Vec<String>, lesson_id: &String) -> (neighbors: (
    Option<String>,
    Option<String>,
))
    ensures
        option_text(neighbors.0) == previous_lesson(id_texts(lesson_ids@), lesson_id@),
        option_text(neighbors.1) == next_lesson(id_texts(lesson_ids@), lesson_id@),
{
    let ghost ids = id_texts(lesson_ids@);
    let n = lesson_ids.len();
    let mut i: usize = 0;
    while i < n
        invariant
            n == lesson_ids@.len(),
            ids == id_texts(lesson_ids@),
            i <= n,
            first_index_from(ids, lesson_id@, i as int) == first_index_from(ids, lesson_id@, 0),
        decreases n - i,
    {
        if lesson_ids[i] == *lesson_id {
            let prev = if i > 0 {
                Some(lesson_ids[i - 1].clone())
            } else {
                None
            };
            let next = if i + 1 < n {
                Some(lesson_ids[i + 1].clone())
            } else {
                None
            };
            return (prev, next);
        }
        i = i + 1;
    }
    (None, None)
}

/// Whether `id` is among `ids`.
pub open spec fn contains_text(ids: Seq<Seq<char>>, id: Seq<char>) -> bool {
    exists|k: int| 0 <= k < ids.len() && #[trigger] ids[k] == id
}

/// How many of the first `n` completion records name a lesson of the course.
pub open spec fn completions_in(course_lessons: Seq<Seq<char>>, completed: Seq<Seq<char>>, n: int) -> nat
    decreases n,
{
    if n <= 0 {
        0
    } else {
        completions_in(course_lessons, completed, n - 1) + if contains_text(
            course_lessons,
            completed[n - 1],
        ) {
            1nat
        } else {
            0nat
        }
    }
}

fn contains_string(ids: &Vec<String>, id: &String) -> (found: bool)
    ensures
        found == contains_text(id_texts(ids@), id@),
{
    let mut i: usize = 0;
    while i < ids.len()
        invariant
            i <= ids.len(),
            forall|k: int| 0 <= k < i ==> ids@[k]@ != id@,
        decreases ids.len() - i,
    {
        if ids[i] == *id {
            assert(id_texts(ids@)[i as int] == id@);
            return true;
        }
        i = i + 1;
    }
    assert forall|k: int| 0 <= k < id_texts(ids@).len() implies #[trigger] id_texts(ids@)[k]
        != id@ by {
        assert(ids@[k]@ != id@);
    }
    false
}

/// The course lessons named by the first `n` completion records.
pub open spec fn completed_course_lessons(
    course_lessons: Seq<Seq<char>>,
    completed: Seq<Seq<char>>,
    n: int,
) -> Set<Seq<char>>
    decreases n,
{
    if n <= 0 {
        Set::empty()
    } else if contains_text(course_lessons, completed[n - 1]) {
        completed_course_lessons(course_lessons, completed, n - 1).insert(completed[n - 1])
    } else {
        completed_course_lessons(course_lessons, completed, n - 1)
    }
}

/// With no record repeated, the count of the first `n` records that name a
/// course lesson is the number of course lessons they name.
proof fn lemma_completions_are_distinct_lessons(
    course_lessons: Seq<Seq<char>>,
    completed: Seq<Seq<char>>,
    n: int,
)
    requires
        0 <= n <= completed.len(),
        forall|i: int, j: int| 0 <= i < j < completed.len() ==> completed[i] != completed[j],
    ensures
        completed_course_lessons(course_lessons, completed, n).finite(),
        completed_course_lessons(course_lessons, completed, n).len() == completions_in(
            course_lessons,
            completed,
            n,
        ),
        completed_course_lessons(course_lessons, completed, n).subset_of(course_lessons.to_set()),
        forall|x: Seq<char>|
            #[trigger] completed_course_lessons(course_lessons, completed, n).contains(x) ==> exists|
                i: int,
            |
                0 <= i < n && completed[i] == x,
    decreases n,
{
    if n > 0 {
        lemma_completions_are_distinct_lessons(course_lessons, completed, n - 1);
        let before = completed_course_lessons(course_lessons, completed, n - 1);
        let x = completed[n - 1];
        if before.contains(x) {
            let i = choose|i: int| 0 <= i < n - 1 && completed[i] == x;
            assert(completed[i] != completed[n - 1]);
        }
        if contains_text(course_lessons, x) {
            assert(course_lessons.contains(x));
        }
    }
}

/// A learner never completes more lessons of a course than it has: when no
/// lesson is recorded as completed twice, the completions counted for a course
/// are at most its number of lessons, so its progress never passes 100%.
pub proof fn law_completions_fit_the_course(course_lessons: Seq<Seq<char>>, completed: Seq<Seq<char>>)
    requires
        forall|i: int, j: int| 0 <= i < j < completed.len() ==> completed[i] != completed[j],
    ensures
        completions_in(course_lessons, completed, completed.len() as int) <= course_lessons.len(),
{
    broadcast use vstd::seq_lib::seq_to_set_is_finite;
    lemma_completions_are_distinct_lessons(course_lessons, completed, completed.len() as int);
    vstd::set_lib::lemma_len_subset(
        completed_course_lessons(course_lessons, completed, completed.len() as int),
        course_lessons.to_set(),
    );
    course_lessons.lemma_cardinality_of_set();
}

/// How many of the learner's completion records name a lesson of the course.
pub fn count_course_completions(course_lesson_ids: &Vec<String>, completed_ids: &Vec<String>) -> (count:
    usize)
    ensures
        count == completions_in(
            id_texts(course_lesson_ids@),
            id_texts(completed_ids@),
            completed_ids@.len() as int,
        ),
{
    let mut count: usize = 0;
    let mut i: usize = 0;
    while i < completed_ids.len()
        invariant
            i <= completed_ids.len(),
            count == completions_in(
                id_texts(course_lesson_ids@),
                id_texts(completed_ids@),
                i as int,
            ),
            count <= i,
        decreases completed_ids.len() - i,
    {
        if contains_string(course_lesson_ids, &completed_ids[i]) {
            count = count + 1;
        }
        i = i + 1;
    }
    count
}

/// Why completing a lesson was refused: the status to answer with and the
/// message.
pub open spec fn completion_refusal(
    lesson_deleted: Option<bool>,
    module_deleted: Option<bool>,
    enrolled: bool,
) -> Option<(u16, Seq<char>)> {
    if !(lesson_deleted == Some(false)) {
        Some((404u16, "Lesson not found"@))
    } else if !(module_deleted == Some(false)) {
        Some((404u16, "Module not found"@))
    } else if !enrolled {
        Some((403u16, "You are not enrolled in this course"@))
    } else {
        None
    }
}

/// Whether a learner may complete a lesson, checked in order: the lesson must
/// exist and not be deleted (`lesson_deleted` is `None` for a missing lesson),
/// then its module, then the learner must be enrolled in the module's course.
/// The first failing check decides the answer; later inputs are not looked at.
pub fn completion_access(lesson_deleted: Option<bool>, module_deleted: Option<bool>, enrolled: bool) -> (access:
    Result<(), (u16, String)>)
    ensures
        match completion_refusal(lesson_deleted, module_deleted, enrolled) {
            None => access is Ok,
            Some((status, message)) => access matches Err((s, m)) && s == status && m@ == message,
        },
{
    match lesson_deleted {
        Some(false) => {},
        _ => return Err((404, "Lesson not found".to_string())),
    }
    match module_deleted {
        Some(false) => {},
        _ => return Err((404, "Module not found".to_string())),
    }
    if !enrolled {
        return Err((403, "You are not enrolled in this course".to_string()));
    }
    Ok(())
}

/// The store writes that completing a lesson makes.
#[derive(Clone, Copy, Debug, PartialEq, Eq, Structural)]
pub struct CompletionWrites {
    /// Record the lesson as completed by the learner.
    pub record_completion: bool,
    /// Stamp the enrollment as finished.
    pub mark_course_finished: bool,
    /// Issue the course certificate.
    pub issue_certificate: bool,
}

/// The writes of one completion: the completion only when it is not yet
/// recorded, the finish time when the course is complete, and a certificate
/// only for a complete course that has none yet.
pub open spec fn planned_writes(already_completed: bool, course_complete: bool, has_certificate: bool) -> CompletionWrites {
    CompletionWrites {
        record_completion: !already_completed,
        mark_course_finished: course_complete,
        issue_certificate: course_complete && !has_certificate,
    }
}

/// Completing a lesson writes only what follows from it: the enrollment is
/// marked finished exactly when the course is complete after the completion,
/// whether or not the lesson was done before; a certificate only ever comes
/// with a finished course and never twice; and completing again a lesson
/// already done, in a course not yet complete, writes nothing at all.
pub proof fn law_completion_writes_follow_the_course(
    already_completed: bool,
    course_complete: bool,
    has_certificate: bool,
)
    ensures
        planned_writes(already_completed, course_complete, has_certificate).mark_course_finished
            == course_complete,
        planned_writes(already_completed, course_complete, has_certificate).issue_certificate
            ==> course_complete && !has_certificate,
        planned_writes(already_completed, course_complete, has_certificate).record_completion
            == !already_completed,
        already_completed && !course_complete ==> planned_writes(
            already_completed,
            course_complete,
            has_certificate,
        ) == (CompletionWrites {
            record_completion: false,
            mark_course_finished: false,
            issue_certificate: false,
        }),
{
}

/// What the store holds for one learner and one lesson of a course: how many
/// completion records of the lesson and how many certificates of the course.
pub struct CompletionRecords {
    pub completions: nat,
    pub certificates: nat,
}

/// The records after one more completion of the lesson, the course being
/// complete or not after it.
pub open spec fn complete_once(records: CompletionRecords, course_complete: bool) -> CompletionRecords {
    let writes = planned_writes(records.completions > 0, course_complete, records.certificates > 0);
    CompletionRecords {
        completions: records.completions + if writes.record_completion { 1nat } else { 0nat },
        certificates: records.certificates + if writes.issue_certificate { 1nat } else { 0nat },
    }
}

/// The records after a run of completions of the lesson, `complete[k]` telling
/// whether the course is complete after the `k`-th.
pub open spec fn complete_repeatedly(records: CompletionRecords, complete: Seq<bool>) -> CompletionRecords
    decreases complete.len(),
{
    if complete.len() == 0 {
        records
    } else {
        complete_repeatedly(complete_once(records, complete[0]), complete.drop_first())
    }
}

/// Completing a lesson again and again records it once: starting with at most
/// one completion record and one certificate, any run of one or more
/// completions leaves exactly one completion record and at most one
/// certificate, and a repeated completion records nothing new.
pub proof fn law_lesson_completed_once(records: CompletionRecords, complete: Seq<bool>)
    requires
        records.completions <= 1,
        records.certificates <= 1,
    ensures
        complete_repeatedly(records, complete).completions <= 1,
        complete_repeatedly(records, complete).certificates <= 1,
        complete.len() > 0 ==> complete_repeatedly(records, complete).completions == 1,
        records.completions == 1 ==> complete_once(records, true).completions == 1,
        records.completions == 1 && records.certificates == 1 ==> complete_once(records, true)
            == records,
    decreases complete.len(),
{
    if complete.len() > 0 {
        let next = complete_once(records, complete[0]);
        law_lesson_completed_once(next, complete.drop_first());
        if complete.len() > 1 {
            assert(next.completions == 1);
        }
    }
}

/// What completing a lesson writes: the completion only when it is not yet
/// recorded, the enrollment's finish time when the course is complete, and a
/// certificate only for a complete course that has none yet.
pub fn completion_writes(already_completed: bool, course_complete: bool, has_certificate: bool) -> (writes:
    CompletionWrites)
    ensures
        writes == planned_writes(already_completed, course_complete, has_certificate),
        writes.record_completion <==> !already_completed,
        writes.mark_course_finished <==> course_complete,
        writes.issue_certificate <==> course_complete && !has_certificate,
{
    CompletionWrites {
        record_completion: !already_completed,
        mark_course_finished: course_complete,
        issue_certificate: course_complete && !has_certificate,
    }
}

/// Whether a course can be enrolled in or shown: deleted courses and courses not
/// yet published are hidden.
#[derive(Clone, Copy, Debug, PartialEq, Eq, Structural)]
pub struct CourseAvailability {
    pub deleted: bool,
    pub status: CourseStatus,
}

/// Why an enrollment was refused.
#[derive(Clone, Copy, Debug, PartialEq, Eq, Structural)]
pub enum EnrollmentRefusal {
    /// The course does not exist, was deleted, or is not published.
    CourseNotFound,
    /// The learner is already enrolled.
    AlreadyEnrolled,
}

/// A learner may enroll in an existing, published, not deleted course they are
/// not yet enrolled in.
pub fn enrollment_check(course: Option<CourseAvailability>, already_enrolled: bool) -> (allowed:
    Result<(), EnrollmentRefusal>)
    ensures
        match course {
            None => allowed == Err::<(), EnrollmentRefusal>(EnrollmentRefusal::CourseNotFound),
            Some(c) => if c.deleted || c.status != CourseStatus::Published {
                allowed == Err::<(), EnrollmentRefusal>(EnrollmentRefusal::CourseNotFound)
            } else if already_enrolled {
                allowed == Err::<(), EnrollmentRefusal>(EnrollmentRefusal::AlreadyEnrolled)
            } else {
                allowed is Ok
            },
        },
{
    let c = match course {
        Some(c) => c,
        None => return Err(EnrollmentRefusal::CourseNotFound),
    };
    if c.deleted || c.status != CourseStatus::Published {
        return Err(EnrollmentRefusal::CourseNotFound);
    }
    if already_enrolled {
        return Err(EnrollmentRefusal::AlreadyEnrolled);
    }
    Ok(())
}

/// Why a course cannot be published yet.
#[derive(Clone, Copy, Debug, PartialEq, Eq, Structural)]
pub enum PublishBlocker {
    NoModules,
    NoLessons,
}

/// A course can be published once it has a module and a lesson.
pub fn publish_readiness(module_count: i64, lesson_count: i64) -> (ready: Result<(), PublishBlocker>)
    ensures
        module_count == 0 ==> ready == Err::<(), PublishBlocker>(PublishBlocker::NoModules),
        module_count != 0 && lesson_count == 0 ==> ready == Err::<(), PublishBlocker>(
            PublishBlocker::NoLessons,
        ),
        module_count != 0 && lesson_count != 0 ==> ready is Ok,
{
    if module_count == 0 {
        return Err(PublishBlocker::NoModules);
    }
    if lesson_count == 0 {
        return Err(PublishBlocker::NoLessons);
    }
    Ok(())
}

/// What std's `str::to_lowercase` makes of a text.
pub uninterp spec fn lowercased(text: Seq<char>) -> Seq<char>;

/// `text` with the ASCII capitals `A`..=`Z` turned into `a`..=`z`.
pub open spec fn ascii_lowercase(text: Seq<char>) -> Seq<char> {
    text.map_values(
        |c: char|
            if 'A' <= c <= 'Z' {
                ((c as u32) + 32) as char
            } else {
                c
            },
    )
}

/// Removes leading and trailing white space with std's `str::trim`.
///
/// Trusted: std's documentation defines white space here by the Unicode
/// `White_Space` property, the one `char::is_whitespace` tests, so the answer
/// is the text with its leading and trailing white space removed.
#[verifier::external_body]
fn trim_text(text: &str) -> (trimmed_text: String)
    ensures
        trimmed_text@ == trimmed(text@),
{
    text.trim().to_string()
}

/// Lowercases a text with std's `str::to_lowercase`.
///
/// Trusted: the answer depends on the text alone; for a text of ASCII
/// characters it is the text with `A`..=`Z` turned into `a`..=`z`, as Unicode's
/// lowercase mapping has it. Which lowercase forms other characters take is
/// left unsaid.
#[verifier::external_body]
fn lowercase_text(text: &str) -> (lower: String)
    ensures
        lower@ == lowercased(text@),
        (forall|i: int| 0 <= i < text@.len() ==> (#[trigger] text@[i] as u32) < 128) ==> lower@
            == ascii_lowercase(text@),
{
    text.to_lowercase()
}

/// The fields of a published course that a search looks at.
#[derive(Clone, Debug)]
pub struct SearchableCourse {
    pub title: String,
    pub description: String,
    pub short_description: String,
    pub slug: String,
    pub level: CourseLevel,
}

/// The lowercased title, description, short description and slug, separated by
/// single spaces.
pub open spec fn search_text(course: SearchableCourse) -> Seq<char> {
    lowercased(course.title@) + " "@ + lowercased(course.description@) + " "@ + lowercased(
        course.short_description@,
    ) + " "@ + lowercased(course.slug@)
}

/// The course's search text holds the keyword, and the course has the asked
/// level when one is asked.
pub open spec fn course_matches(course: SearchableCourse, keyword: Seq<char>, level: Option<
    CourseLevel,
>) -> bool {
    &&& occurs_in(search_text(course), keyword)
    &&& match level {
        Some(l) => l == course.level,
        None => true,
    }
}

/// Positions, in order, of the matching courses among the first `n`.
pub open spec fn matching_positions(
    courses: Seq<SearchableCourse>,
    keyword: Seq<char>,
    level: Option<CourseLevel>,
    n: int,
) -> Seq<usize>
    decreases n,
{
    if n <= 0 {
        Seq::empty()
    } else {
        let before = matching_positions(courses, keyword, level, n - 1);
        if course_matches(courses[n - 1], keyword, level) {
            before.push((n - 1) as usize)
        } else {
            before
        }
    }
}

/// Text found in a part is found in any text the part is joined into.
proof fn lemma_occurs_in_join(a: Seq<char>, b: Seq<char>, keyword: Seq<char>)
    ensures
        occurs_in(a, keyword) ==> occurs_in(a + b, keyword),
        occurs_in(b, keyword) ==> occurs_in(a + b, keyword),
{
    if occurs_in(a, keyword) {
        let i = choose|i: int|
            0 <= i <= a.len() - keyword.len() && #[trigger] a.subrange(i, i + keyword.len())
                == keyword;
        assert((a + b).subrange(i, i + keyword.len()) =~= a.subrange(i, i + keyword.len()));
    }
    if occurs_in(b, keyword) {
        let i = choose|i: int|
            0 <= i <= b.len() - keyword.len() && #[trigger] b.subrange(i, i + keyword.len())
                == keyword;
        assert((a + b).subrange(a.len() + i, a.len() + i + keyword.len()) =~= b.subrange(
            i,
            i + keyword.len(),
        ));
    }
}

/// A matching course among the first `n` is among the positions found.
proof fn lemma_match_is_found(
    courses: Seq<SearchableCourse>,
    keyword: Seq<char>,
    level: Option<CourseLevel>,
    i: int,
    n: int,
)
    requires
        0 <= i < n <= courses.len(),
        courses.len() <= usize::MAX,
        course_matches(courses[i], keyword, level),
    ensures
        matching_positions(courses, keyword, level, n).contains(i as usize),
    decreases n,
{
    let found = matching_positions(courses, keyword, level, n);
    if i == n - 1 {
        assert(found[found.len() - 1] == i as usize);
    } else {
        lemma_match_is_found(courses, keyword, level, i, n - 1);
        let before = matching_positions(courses, keyword, level, n - 1);
        let j = choose|j: int| 0 <= j < before.len() && before[j] == i as usize;
        assert(found[j] == i as usize);
    }
}

/// A search finds a course when the keyword occurs in its lowercased title,
/// description, short description or slug, and the course has the asked level
/// (any level when none is asked).
pub proof fn law_search_looks_at_every_field(
    courses: Seq<SearchableCourse>,
    keyword: Seq<char>,
    level: Option<CourseLevel>,
    i: int,
)
    requires
        0 <= i < courses.len() <= usize::MAX,
        occurs_in(lowercased(courses[i].title@), keyword) || occurs_in(
            lowercased(courses[i].description@),
            keyword,
        ) || occurs_in(lowercased(courses[i].short_description@), keyword) || occurs_in(
            lowercased(courses[i].slug@),
            keyword,
        ),
        level matches Some(l) ==> l == courses[i].level,
    ensures
        matching_positions(courses, keyword, level, courses.len() as int).contains(i as usize),
{
    let c = courses[i];
    let t = lowercased(c.title@);
    let d = lowercased(c.description@);
    let sd = lowercased(c.short_description@);
    let sl = lowercased(c.slug@);
    let sp = " "@;
    lemma_occurs_in_join(t, sp, keyword);
    lemma_occurs_in_join(t + sp, d, keyword);
    lemma_occurs_in_join(t + sp + d, sp, keyword);
    lemma_occurs_in_join(t + sp + d + sp, sd, keyword);
    lemma_occurs_in_join(t + sp + d + sp + sd, sp, keyword);
    lemma_occurs_in_join(t + sp + d + sp + sd + sp, sl, keyword);
    assert(search_text(c) == t + sp + d + sp + sd + sp + sl);
    lemma_match_is_found(courses, keyword, level, i, courses.len() as int);
}

/// The search keyword as courses are matched against it: trimmed, then lowercased.
pub open spec fn normalized_keyword(keyword: Seq<char>) -> Seq<char> {
    lowercased(trimmed(keyword))
}

/// The search text of a course.
fn course_search_text(course: &SearchableCourse) -> (text: String)
    ensures
        text@ == search_text(*course),
{
    let mut text = lowercase_text(course.title.as_str());
    text.append(" ");
    text.append(lowercase_text(course.description.as_str()).as_str());
    text.append(" ");
    text.append(lowercase_text(course.short_description.as_str()).as_str());
    text.append(" ");
    text.append(lowercase_text(course.slug.as_str()).as_str());
    text
}

/// Positions, in order, of the courses matching a search: the keyword is
/// trimmed and lowercased, an empty keyword matches nothing, and a course
/// matches when its lowercased title, description, short description or slug
/// text holds the keyword and it has the asked level, if any.
pub fn search_courses(courses: &Vec<SearchableCourse>, keyword: &str, level: Option<CourseLevel>) -> (positions:
    Vec<usize>)
    ensures
        normalized_keyword(keyword@).len() == 0 ==> positions@.len() == 0,
        normalized_keyword(keyword@).len() > 0 ==> positions@ == matching_positions(
            courses@,
            normalized_keyword(keyword@),
            level,
            courses@.len() as int,
        ),
{
    let trimmed_keyword = trim_text(keyword);
    let keyword = lowercase_text(trimmed_keyword.as_str());
    let mut positions: Vec<usize> = Vec::new();
    if keyword.as_str().is_empty() {
        return positions;
    }
    let mut i: usize = 0;
    while i < courses.len()
        invariant
            i <= courses.len(),
            positions@ == matching_positions(courses@, keyword@, level, i as int),
        decreases courses.len() - i,
    {
        let course = &courses[i];
        let text = course_search_text(course);
        let level_ok = match level {
            Some(l) => l == course.level,
            None => true,
        };
        if text_contains(text.as_str(), keyword.as_str()) && level_ok {
            positions.push(i);
        }
        i = i + 1;
    }
    positions
}

} // verus!
