//! Records and endpoint builders for the git commit endpoints.

use vstd::prelude::*;
use vstd::string::*;

use super::repo_git_path;

verus! {

/// The response of the commit endpoints.
#[derive(Clone, Debug, PartialEq)]
pub struct Commit {
    pub sha: String,
    pub url: String,
    pub author: CommitUser,
    pub committer: CommitUser,
    pub message: String,
    pub tree: CommitParent,
    pub parents: Vec<CommitParent>,
}

/// An author or committer of a commit.
#[derive(Clone, Debug, PartialEq)]
pub struct CommitUser {
    pub date: String,
    pub name: String,
    pub email: String,
}

/// A parent or tree reference of a commit.
#[derive(Clone, Debug, PartialEq)]
pub struct CommitParent {
    pub url: String,
    pub sha: String,
}

/// Input for creating a commit.
#[derive(Clone, Debug, PartialEq)]
pub struct CommitParam {
    pub message: String,
    pub tree: String,
    pub parents: Vec<String>,
    pub author: Option<CommitUser>,
    pub committer: Option<CommitUser>,
}

/// The endpoint of one commit.
pub fn repo_commits_sha_path(owner: &str, repo: &str, sha: &str) -> (r: String)
    ensures
        r@ == "/repos/"@ + owner@ + "/"@ + repo@ + "/git"@ + "/commits/"@ + sha@,
{
    repo_git_path(owner, repo).concat("/commits/").concat(sha)
}

/// The endpoint that creates a commit.
pub fn repo_commits_path(owner: &str, repo: &str) -> (r: String)
    ensures
        r@ == "/repos/"@ + owner@ + "/"@ + repo@ + "/git"@ + "/commits"@,
{
    repo_git_path(owner, repo).concat("/commits")
}

} // verus!
