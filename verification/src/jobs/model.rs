//! How a job is carried out.

use crate::text::same_text;
use vstd::prelude::*;

verus! {

/// Where the work of a job is done.
#[derive(Debug, Clone, Copy, PartialEq, Eq, Structural)]
pub enum JobType {
    Remote,
    OnSite,
    Hybrid,
}

impl JobType {
    /// The type's name as text.
    pub open spec fn name(self) -> Seq<char> {
        match self {
            JobType::Remote => "Remote"@,
            JobType::OnSite => "OnSite"@,
            JobType::Hybrid => "Hybrid"@,
        }
    }

    /// The type that a name stands for.
    pub open spec fn named(name: Seq<char>) -> Option<JobType> {
        if name == "Remote"@ {
            Some(JobType::Remote)
        } else if name == "OnSite"@ {
            Some(JobType::OnSite)
        } else if name == "Hybrid"@ {
            Some(JobType::Hybrid)
        } else {
            None
        }
    }

    /// Reads a type from its name, letter for letter.
    pub fn from_name(name: &str) -> (r: Option<JobType>)
        ensures
            r == Self::named(name@),
    {
        if same_text(name, "Remote") {
            Some(JobType::Remote)
        } else if same_text(name, "OnSite") {
            Some(JobType::OnSite)
        } else if same_text(name, "Hybrid") {
            Some(JobType::Hybrid)
        } else {
            None
        }
    }

    pub fn to_str(&self) -> (r: &'static str)
        ensures
            r@ == self.name(),
    {
        match self {
            JobType::Remote => "Remote",
            JobType::OnSite => "OnSite",
            JobType::Hybrid => "Hybrid",
        }
    }
}

} // verus!
