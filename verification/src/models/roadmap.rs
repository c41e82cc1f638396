//! Learning roadmaps and frameworks as the client sees them.

use vstd::prelude::*;

use crate::text::same_text;

verus! {

#[derive(Clone, Copy, Debug, PartialEq, Eq, Structural)]
pub enum RoadmapDifficulty {
    Beginner,
    Intermediate,
    Advanced,
    All,
}

#[derive(Clone, Copy, Debug, PartialEq, Eq, Structural)]
pub enum RoadmapStatus {
    Draft,
    Published,
    Archived,
}

#[derive(Clone, Debug)]
pub struct RoadmapOnClient {
    pub id: String,
    pub title: String,
    pub slug: String,
    pub description: String,
    pub image_url: Option<String>,
    pub difficulty: RoadmapDifficulty,
    pub estimated_weeks: i32,
}

#[derive(Clone, Debug)]
pub struct RoadmapCourseOnClient {
    pub course_id: String,
    pub title: String,
    pub short_description: String,
    pub thumbnail_url: Option<String>,
    pub sort_order: i32,
    pub is_required: bool,
    pub note: Option<String>,
}

#[derive(Clone, Debug)]
pub struct RoadmapDetail {
    pub id: String,
    pub title: String,
    pub slug: String,
    pub description: String,
    pub image_url: Option<String>,
    pub difficulty: RoadmapDifficulty,
    pub estimated_weeks: i32,
    pub courses: Vec<RoadmapCourseOnClient>,
}

#[derive(Clone, Debug)]
pub struct MilestoneOnClient {
    pub id: String,
    pub title: String,
    pub description: Option<String>,
    pub sort_order: i32,
    pub courses: Vec<RoadmapCourseOnClient>,
}

#[derive(Clone, Debug)]
pub struct FrameworkOnClient {
    pub id: String,
    pub title: String,
    pub slug: String,
    pub description: String,
    pub image_url: Option<String>,
}

#[derive(Clone, Debug)]
pub struct FrameworkDetail {
    pub id: String,
    pub title: String,
    pub slug: String,
    pub description: String,
    pub image_url: Option<String>,
    pub milestones: Vec<MilestoneOnClient>,
}

/// A roadmap can be viewed and started once published, unless deleted.
pub fn roadmap_is_open(status: RoadmapStatus, deleted: bool) -> (open: bool)
    ensures
        open == (status == RoadmapStatus::Published && !deleted),
{
    match status {
        RoadmapStatus::Published => !deleted,
        _ => false,
    }
}

/// A framework can be viewed once its status reads `published`, unless deleted.
pub fn framework_is_open(status: &str, deleted: bool) -> (open: bool)
    ensures
        open == (status@ == "published"@ && !deleted),
{
    same_text(status, "published") && !deleted
}

/// Positions, in order, of the required courses among the first `n`.
pub open spec fn required_positions(required: Seq<bool>, n: int) -> Seq<usize>
    decreases n,
{
    if n <= 0 {
        Seq::empty()
    } else if required[n - 1] {
        required_positions(required, n - 1).push((n - 1) as usize)
    } else {
        required_positions(required, n - 1)
    }
}

/// Positions, in order, of the courses a learner is enrolled in when starting
/// a roadmap: the required ones.
pub fn courses_to_enroll(required: &Vec<bool>) -> (positions: Vec<usize>)
    ensures
        positions@ == required_positions(required@, required@.len() as int),
{
    let mut positions: Vec<usize> = Vec::new();
    let mut i: usize = 0;
    while i < required.len()
        invariant
            i <= required.len(),
            positions@ == required_positions(required@, i as int),
        decreases required.len() - i,
    {
        if required[i] {
            positions.push(i);
        }
        i = i + 1;
    }
    positions
}

} // verus!
