//! Endpoint builders for the assignee endpoints.

use vstd::prelude::*;
use vstd::string::*;

use crate::encoding::{dec_str, u64_to_dec};

verus! {

/// The endpoint that lists a repository's available assignees.
pub fn repo_assignees_path(owner: &str, repo: &str) -> (r: String)
    ensures
        r@ == "/repos/"@ + owner@ + "/"@ + repo@ + "/assignees"@,
{
    String::from_str("/repos/").concat(owner).concat("/").concat(repo).concat("/assignees")
}

/// The endpoint that checks one assignee of a repository.
pub fn repo_assignees_assignee_path(owner: &str, repo: &str, assignee: &str) -> (r: String)
    ensures
        r@ == "/repos/"@ + owner@ + "/"@ + repo@ + "/assignees/"@ + assignee@,
{
    String::from_str("/repos/").concat(owner).concat("/").concat(repo).concat(
        "/assignees/",
    ).concat(assignee)
}

/// The endpoint of one issue's assignees.
pub fn repo_issues_number_assignees_path(owner: &str, repo: &str, number: u64) -> (r: String)
    ensures
        r@ == "/repos/"@ + owner@ + "/"@ + repo@ + "/issues/"@ + dec_str(number as nat)
            + "/assignees"@,
{
    String::from_str("/repos/").concat(owner).concat("/").concat(repo).concat("/issues/").concat(
        u64_to_dec(number).as_str(),
    ).concat("/assignees")
}

} // verus!
