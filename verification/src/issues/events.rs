//! Records and endpoint builders for the issue event endpoints.

use vstd::prelude::*;
use vstd::string::*;

use crate::encoding::{dec_str, u64_to_dec};

verus! {

/// One event of one issue.
#[derive(Clone, Debug, PartialEq)]
pub struct IssueEvent {
    pub id: u64,
    pub url: String,
    pub actor: crate::common::User,
    pub event: String,
    pub commit_id: String,
    pub commit_url: String,
    pub created_at: String,
}

/// One issue event of a repository, with the issue it belongs to.
#[derive(Clone, Debug, PartialEq)]
pub struct IssueEventRepo {
    pub id: u64,
    pub url: String,
    pub actor: crate::common::User,
    pub event: String,
    pub commit_id: String,
    pub commit_url: String,
    pub created_at: String,
    pub issue: super::Issue,
}

/// The endpoint that lists one issue's events.
pub fn repo_issues_number_events_path(owner: &str, repo: &str, number: u64) -> (r: String)
    ensures
        r@ == "/repos/"@ + owner@ + "/"@ + repo@ + "/issues/"@ + dec_str(number as nat)
            + "/events"@,
{
    String::from_str("/repos/").concat(owner).concat("/").concat(repo).concat("/issues/").concat(
        u64_to_dec(number).as_str(),
    ).concat("/events")
}

/// The endpoint that lists a repository's issue events.
pub fn repo_issues_events_path(owner: &str, repo: &str) -> (r: String)
    ensures
        r@ == "/repos/"@ + owner@ + "/"@ + repo@ + "/issues/events"@,
{
    String::from_str("/repos/").concat(owner).concat("/").concat(repo).concat("/issues/events")
}

} // verus!
