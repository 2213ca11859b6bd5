//! Endpoint builders for the issue comments endpoints.

use vstd::prelude::*;
use vstd::string::*;

use crate::encoding::{dec_str, u64_to_dec};

verus! {

/// The endpoint of one issue's comments.
pub fn repo_issues_number_comments_path(owner: &str, repo: &str, number: u64) -> (r: String)
    ensures
        r@ == "/repos/"@ + owner@ + "/"@ + repo@ + "/issues/"@ + dec_str(number as nat)
            + "/comments"@,
{
    String::from_str("/repos/").concat(owner).concat("/").concat(repo).concat("/issues/").concat(
        u64_to_dec(number).as_str(),
    ).concat("/comments")
}

/// The endpoint that lists a repository's issue comments.
pub fn repo_issues_comments_path(owner: &str, repo: &str) -> (r: String)
    ensures
        r@ == "/repos/"@ + owner@ + "/"@ + repo@ + "/issues/comments"@,
{
    String::from_str("/repos/").concat(owner).concat("/").concat(repo).concat("/issues/comments")
}

/// The endpoint of one issue comment.
pub fn repo_issues_comments_id_path(owner: &str, repo: &str, id: u64) -> (r: String)
    ensures
        r@ == "/repos/"@ + owner@ + "/"@ + repo@ + "/issues/comments/"@ + dec_str(id as nat),
{
    String::from_str("/repos/").concat(owner).concat("/").concat(repo).concat(
        "/issues/comments/",
    ).concat(u64_to_dec(id).as_str())
}

} // verus!
