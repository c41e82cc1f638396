//! Catalogue files the import tool reads.

use vstd::prelude::*;

use crate::education::{CourseLevel, LessonContentType};
use crate::models::roadmap::RoadmapDifficulty;
use crate::text::same_text;

verus! {

#[derive(Clone, Debug)]
pub struct ImportTrack {
    pub name: String,
    pub slug: String,
    pub description: String,
    pub icon: Option<String>,
    pub image_url: Option<String>,
    pub sort_order: i32,
}

#[derive(Clone, Debug)]
pub struct ImportLesson {
    pub title: String,
    pub content_type: LessonContentType,
    pub content: String,
    pub video_url: Option<String>,
    pub video_duration_seconds: Option<i32>,
    pub audio_url: Option<String>,
    pub pdf_url: Option<String>,
    pub external_url: Option<String>,
    pub thumbnail_url: Option<String>,
    pub duration_minutes: Option<i32>,
    pub sort_order: Option<i32>,
    pub is_preview: Option<bool>,
}

#[derive(Clone, Debug)]
pub struct ImportModule {
    pub title: String,
    pub description: Option<String>,
    pub sort_order: Option<i32>,
    pub lessons: Vec<ImportLesson>,
}

#[derive(Clone, Debug)]
pub struct ImportCourse {
    pub title: String,
    pub slug: String,
    pub description: String,
    pub short_description: String,
    pub track_slug: String,
    pub educator_id: String,
    pub level: CourseLevel,
    pub language: Option<String>,
    pub thumbnail_url: Option<String>,
    pub modules: Vec<ImportModule>,
}

#[derive(Clone, Debug)]
pub struct ImportRoadmapCourse {
    pub course_slug: String,
    pub sort_order: i32,
    pub is_required: Option<bool>,
    pub note: Option<String>,
}

#[derive(Clone, Debug)]
pub struct ImportRoadmap {
    pub title: String,
    pub slug: String,
    pub description: String,
    pub image_url: Option<String>,
    pub track_slug: Option<String>,
    pub difficulty: RoadmapDifficulty,
    pub estimated_weeks: i32,
    pub status: Option<String>,
    pub created_by: String,
    pub courses: Vec<ImportRoadmapCourse>,
}

#[derive(Clone, Debug)]
pub struct ImportMilestoneCourse {
    pub course_slug: String,
    pub is_required: Option<bool>,
}

#[derive(Clone, Debug)]
pub struct ImportMilestone {
    pub title: String,
    pub description: Option<String>,
    pub sort_order: i32,
    pub courses: Vec<ImportMilestoneCourse>,
}

#[derive(Clone, Debug)]
pub struct ImportFramework {
    pub title: String,
    pub slug: String,
    pub description: String,
    pub image_url: Option<String>,
    pub track_slug: Option<String>,
    pub status: Option<String>,
    pub created_by: String,
    pub milestones: Vec<ImportMilestone>,
}

/// `flag` is one of the arguments.
pub open spec fn has_arg(args: Seq<String>, flag: Seq<char>) -> bool {
    exists|i: int| 0 <= i < args.len() && #[trigger] args[i]@ == flag
}

/// Which parts of the catalogue one run of the import tool loads.
#[derive(Clone, Copy, Debug, PartialEq, Eq, Structural)]
pub struct ImportPlan {
    pub tracks: bool,
    pub courses: bool,
    pub roadmaps: bool,
    pub frameworks: bool,
    /// No part was asked for: the tool prints its usage line.
    pub show_usage: bool,
}

/// Whether `flag` is among `args`.
pub fn any_arg(args: &Vec<String>, flag: &str) -> (found: bool)
    ensures
        found == has_arg(args@, flag@),
{
    let mut i: usize = 0;
    while i < args.len()
        invariant
            i <= args.len(),
            forall|j: int| 0 <= j < i ==> #[trigger] args@[j]@ != flag@,
        decreases args.len() - i,
    {
        if same_text(args[i].as_str(), flag) {
            return true;
        }
        i = i + 1;
    }
    false
}

/// Reads the import tool's arguments: `--all` loads every part, `--tracks`,
/// `--courses`, `--roadmaps` and `--frameworks` one each; with none of the
/// four part flags and no `--all` the tool only prints its usage.
pub fn import_plan(args: &Vec<String>) -> (plan: ImportPlan)
    ensures
        plan.tracks == (has_arg(args@, "--all"@) || has_arg(args@, "--tracks"@)),
        plan.courses == (has_arg(args@, "--all"@) || has_arg(args@, "--courses"@)),
        plan.roadmaps == (has_arg(args@, "--all"@) || has_arg(args@, "--roadmaps"@)),
        plan.frameworks == (has_arg(args@, "--all"@) || has_arg(args@, "--frameworks"@)),
        plan.show_usage == !(has_arg(args@, "--all"@) || has_arg(args@, "--tracks"@)
            || has_arg(args@, "--courses"@) || has_arg(args@, "--roadmaps"@) || has_arg(
            args@,
            "--frameworks"@,
        )),
{
    let all = any_arg(args, "--all");
    let tracks = any_arg(args, "--tracks");
    let courses = any_arg(args, "--courses");
    let roadmaps = any_arg(args, "--roadmaps");
    let frameworks = any_arg(args, "--frameworks");
    ImportPlan {
        tracks: all || tracks,
        courses: all || courses,
        roadmaps: all || roadmaps,
        frameworks: all || frameworks,
        show_usage: !all && !tracks && !courses && !roadmaps && !frameworks,
    }
}

/// The language a course is stored with: its own, or English.
pub fn course_language(language: &Option<String>) -> (lang: String)
    ensures
        lang@ == (match language {
            Some(l) => l@,
            None => "en"@,
        }),
{
    match language {
        Some(l) => l.clone(),
        None => "en".to_string(),
    }
}

/// The status a roadmap or framework is stored with: its own, or a draft.
pub fn catalogue_status(status: &Option<String>) -> (stored: String)
    ensures
        stored@ == (match status {
            Some(s) => s@,
            None => "draft"@,
        }),
{
    match status {
        Some(s) => s.clone(),
        None => "draft".to_string(),
    }
}

/// Stored values of an imported lesson's optional fields:
/// `(duration_minutes, sort_order, is_preview)`, defaulting to five minutes,
/// position zero and not a preview.
pub fn lesson_settings(lesson: &ImportLesson) -> (settings: (i32, i32, bool))
    ensures
        settings.0 == (match lesson.duration_minutes {
            Some(d) => d,
            None => 5,
        }),
        settings.1 == (match lesson.sort_order {
            Some(o) => o,
            None => 0,
        }),
        settings.2 == (match lesson.is_preview {
            Some(p) => p,
            None => false,
        }),
{
    let duration = match lesson.duration_minutes {
        Some(d) => d,
        None => 5,
    };
    let order = match lesson.sort_order {
        Some(o) => o,
        None => 0,
    };
    let preview = match lesson.is_preview {
        Some(p) => p,
        None => false,
    };
    (duration, order, preview)
}

/// Stored position of an imported module: its own, or zero.
pub fn module_sort_order(module: &ImportModule) -> (order: i32)
    ensures
        order == (match module.sort_order {
            Some(o) => o,
            None => 0,
        }),
{
    match module.sort_order {
        Some(o) => o,
        None => 0,
    }
}

/// Whether a course linked to a roadmap or milestone is required: as given,
/// or required when not said.
pub fn link_is_required(is_required: Option<bool>) -> (required: bool)
    ensures
        required == (match is_required {
            Some(r) => r,
            None => true,
        }),
{
    match is_required {
        Some(r) => r,
        None => true,
    }
}

} // verus!
