//! Records and endpoint builders for the milestone endpoints.

use vstd::prelude::*;
use vstd::string::*;

use crate::encoding::{dec_str, u64_to_dec, with_pair, QueryString};
use super::{spec_direction_str, spec_state_str, Direction, State};

verus! {

/// What a milestone listing is sorted by.
#[derive(Clone, Copy, Debug, PartialEq, Eq, Structural)]
pub enum Sort {
    Completeness,
    DueOn,
}

/// The token `to_str` renders a milestone sort choice as.
pub open spec fn spec_milestone_sort_str(s: Sort) -> Seq<char> {
    match s {
        Sort::Completeness => "completeness"@,
        Sort::DueOn => "due_on"@,
    }
}

impl Sort {
    /// The token the API expects for this sort choice.
    pub fn to_str(self) -> (r: String)
        ensures
            r@ == spec_milestone_sort_str(self),
    {
        match self {
            Sort::Completeness => String::from_str("completeness"),
            Sort::DueOn => String::from_str("due_on"),
        }
    }
}

/// Input for creating or updating a milestone.
#[derive(Clone, Debug, PartialEq)]
pub struct MilestoneParam {
    /// Title of the milestone.
    pub title: String,
    /// State of the milestone.
    pub state: Option<String>,
    /// Description of the milestone.
    pub description: String,
    /// Due date, a timestamp in ISO 8601 (`YYYY-MM-DDTHH:MM:SSZ`) format.
    pub due_on: String,
}

/// The query of a milestone listing.
pub open spec fn spec_milestones_query(
    state: Option<State>,
    sort: Option<Sort>,
    direction: Option<Direction>,
) -> Seq<char> {
    let q0 = Seq::<char>::empty();
    let q1 = match state {
        Some(s) => with_pair(q0, "state"@, spec_state_str(s)),
        None => q0,
    };
    let q2 = match sort {
        Some(s) => with_pair(q1, "sort"@, spec_milestone_sort_str(s)),
        None => q1,
    };
    match direction {
        Some(d) => with_pair(q2, "direction"@, spec_direction_str(d)),
        None => q2,
    }
}

/// The endpoint that lists one repository's milestones.
pub fn repo_milestones_path(
    owner: &str,
    repo: &str,
    state: Option<State>,
    sort: Option<Sort>,
    direction: Option<Direction>,
) -> (r: String)
    ensures
        r@ == "/repos/"@ + owner@ + "/"@ + repo@ + "/milestones?"@ + spec_milestones_query(
            state,
            sort,
            direction,
        ),
{
    let mut q = QueryString::new();
    if let Some(s) = state {
        q.add("state", s.to_str().as_str());
    }
    if let Some(s) = sort {
        q.add("sort", s.to_str().as_str());
    }
    if let Some(d) = direction {
        q.add("direction", d.to_str().as_str());
    }
    String::from_str("/repos/").concat(owner).concat("/").concat(repo).concat(
        "/milestones?",
    ).concat(q.into_string().as_str())
}

/// The endpoint that lists or creates one repository's milestones.
pub fn repo_milestones_base_path(owner: &str, repo: &str) -> (r: String)
    ensures
        r@ == "/repos/"@ + owner@ + "/"@ + repo@ + "/milestones"@,
{
    String::from_str("/repos/").concat(owner).concat("/").concat(repo).concat("/milestones")
}

/// The endpoint of one milestone.
pub fn repo_milestones_number_path(owner: &str, repo: &str, number: u64) -> (r: String)
    ensures
        r@ == "/repos/"@ + owner@ + "/"@ + repo@ + "/milestones/"@ + dec_str(number as nat),
{
    String::from_str("/repos/").concat(owner).concat("/").concat(repo).concat(
        "/milestones/",
    ).concat(u64_to_dec(number).as_str())
}

} // verus!
