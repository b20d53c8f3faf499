//! Requests that speak of jobs, and their rules. Identifiers are carried as
//! text.

use crate::jobs::model::JobType;
use crate::utils::validation::{is_verdict, note, rule, shorter_than, verdict, Violation};
use vstd::prelude::*;

verus! {

/// The rounds that the applicants of a job go through.
#[derive(Debug)]
pub struct CreateRoundDto {
    /// The identifiers of the stages, in their order.
    pub stages: Vec<String>,
    pub description: Option<String>,
}

impl CreateRoundDto {
    /// The rule that a request breaks: there must be a stage.
    pub open spec fn violations(self) -> Seq<Violation> {
        rule(self.stages@.len() < 1, Violation::StageRequired)
    }

    /// Checks the request against its rules.
    pub fn validate(&self) -> (r: Result<(), Vec<Violation>>)
        ensures
            is_verdict(r, self.violations()),
    {
        let mut report: Vec<Violation> = Vec::new();
        note(&mut report, self.stages.len() < 1, Violation::StageRequired);
        assert(report@ =~= self.violations());
        verdict(report)
    }
}

/// The request to create a job.
#[derive(Debug)]
pub struct CreateJobDto {
    pub title: String,
    pub description: String,
    pub company: String,
    pub location: String,
    pub salary_min: Option<i32>,
    pub salary_max: Option<i32>,
    pub job_type: JobType,
    pub rounds: i32,
    pub round_details: Option<CreateRoundDto>,
    pub skills_required: Option<String>,
    pub experience_min: Option<i32>,
    pub experience_max: Option<i32>,
    pub is_remote: Option<bool>,
    /// Days since the Unix epoch.
    pub application_deadline: Option<i32>,
    /// The identifiers of the skills that the job asks for.
    pub skills: Vec<String>,
}

impl CreateJobDto {
    /// The rules that a request breaks, in the order of its fields: title,
    /// description, company and location must not be empty.
    pub open spec fn violations(self) -> Seq<Violation> {
        rule(self.title@.len() < 1, Violation::TitleRequired) + rule(
            self.description@.len() < 1,
            Violation::DescriptionRequired,
        ) + rule(self.company@.len() < 1, Violation::CompanyRequired) + rule(
            self.location@.len() < 1,
            Violation::LocationRequired,
        )
    }

    /// Checks the request against its rules.
    pub fn validate(&self) -> (r: Result<(), Vec<Violation>>)
        ensures
            is_verdict(r, self.violations()),
    {
        let mut report: Vec<Violation> = Vec::new();
        note(&mut report, shorter_than(self.title.as_str(), 1), Violation::TitleRequired);
        note(&mut report, shorter_than(self.description.as_str(), 1), Violation::DescriptionRequired);
        note(&mut report, shorter_than(self.company.as_str(), 1), Violation::CompanyRequired);
        note(&mut report, shorter_than(self.location.as_str(), 1), Violation::LocationRequired);
        assert(report@ =~= self.violations());
        verdict(report)
    }
}

} // verus!
