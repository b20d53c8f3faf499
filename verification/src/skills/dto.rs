//! Requests and replies that speak of skills.

use crate::utils::validation::{is_verdict, note, rule, shorter_than, verdict, Violation};
use vstd::prelude::*;

verus! {

/// The request to create a skill.
#[derive(Debug)]
pub struct CreateSkillDto {
    pub name: String,
}

impl CreateSkillDto {
    /// The rules that a request breaks: a skill needs a name.
    pub open spec fn violations(self) -> Seq<Violation> {
        rule(self.name@.len() < 1, Violation::NameRequired)
    }

    /// Checks the request against its rules.
    pub fn validate(&self) -> (r: Result<(), Vec<Violation>>)
        ensures
            is_verdict(r, self.violations()),
    {
        let mut report: Vec<Violation> = Vec::new();
        note(&mut report, shorter_than(self.name.as_str(), 1), Violation::NameRequired);
        assert(report@ =~= self.violations());
        verdict(report)
    }
}

/// The request to rename a skill. The identifier is carried as text.
#[derive(Debug)]
pub struct UpdateSkillDto {
    pub id: String,
    pub name: String,
}

impl UpdateSkillDto {
    /// The rules that a request breaks: a skill needs a name.
    pub open spec fn violations(self) -> Seq<Violation> {
        rule(self.name@.len() < 1, Violation::NameRequired)
    }

    /// Checks the request against its rules.
    pub fn validate(&self) -> (r: Result<(), Vec<Violation>>)
        ensures
            is_verdict(r, self.violations()),
    {
        let mut report: Vec<Violation> = Vec::new();
        note(&mut report, shorter_than(self.name.as_str(), 1), Violation::NameRequired);
        assert(report@ =~= self.violations());
        verdict(report)
    }
}

/// A skill as shown to a caller.
#[derive(Debug)]
pub struct SkillResponseDto {
    pub id: String,
    pub name: String,
}

/// The mathematical content of a [`SkillResponseDto`].
pub ghost struct SkillResponseDtoView {
    pub id: Seq<char>,
    pub name: Seq<char>,
}

impl View for SkillResponseDto {
    type V = SkillResponseDtoView;

    open spec fn view(&self) -> SkillResponseDtoView {
        SkillResponseDtoView { id: self.id@, name: self.name@ }
    }
}

/// The contents of a list of skills.
pub open spec fn skills_view(skills: Seq<SkillResponseDto>) -> Seq<SkillResponseDtoView> {
    skills.map_values(|s: SkillResponseDto| s@)
}

/// A page of skills as shown to a caller.
#[derive(Debug)]
pub struct SkillListResponseDto {
    pub status: String,
    pub skills: Vec<SkillResponseDto>,
    pub results: usize,
    pub has_next_page: bool,
}

impl SkillListResponseDto {
    /// The reply that lists the given skills: its status is `success`, and
    /// `results` counts the skills it holds.
    pub fn new(skills: Vec<SkillResponseDto>, has_next_page: bool) -> (r: SkillListResponseDto)
        ensures
            r.status@ == "success"@,
            r.skills == skills,
            r.results == skills@.len(),
            r.has_next_page == has_next_page,
    {
        let results = skills.len();
        SkillListResponseDto { status: "success".to_string(), skills, results, has_next_page }
    }
}

} // verus!
