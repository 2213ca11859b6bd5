//! Records and endpoint builders for the git tree endpoints.

use vstd::prelude::*;
use vstd::string::*;

use super::repo_git_path;

verus! {

/// The response of the tree endpoints.
#[derive(Clone, Debug, PartialEq)]
pub struct Tree {
    pub sha: String,
    pub url: String,
    pub tree: Vec<TreeElem>,
    pub truncated: bool,
}

/// One entry of a tree.
#[derive(Clone, Debug, PartialEq)]
pub struct TreeElem {
    pub path: String,
    pub mode: String,
    pub tree_type: String,
    pub size: Option<u64>,
    pub sha: String,
    pub url: Option<String>,
    pub content: Option<String>,
}

/// Input for creating a tree.
#[derive(Clone, Debug, PartialEq)]
pub struct TreeParam {
    pub base_tree: String,
    pub tree: Vec<TreeElem>,
}

/// The endpoint of one tree.
pub fn repo_trees_sha_path(owner: &str, repo: &str, sha: &str) -> (r: String)
    ensures
        r@ == "/repos/"@ + owner@ + "/"@ + repo@ + "/git"@ + "/trees/"@ + sha@,
{
    repo_git_path(owner, repo).concat("/trees/").concat(sha)
}

/// The endpoint of one tree, listed recursively.
pub fn repo_trees_sha_recursive_path(owner: &str, repo: &str, sha: &str) -> (r: String)
    ensures
        r@ == "/repos/"@ + owner@ + "/"@ + repo@ + "/git"@ + "/trees/"@ + sha@ + "?recursive=1"@,
{
    repo_git_path(owner, repo).concat("/trees/").concat(sha).concat("?recursive=1")
}

/// The endpoint that creates a tree.
pub fn repo_trees_path(owner: &str, repo: &str) -> (r: String)
    ensures
        r@ == "/repos/"@ + owner@ + "/"@ + repo@ + "/git"@ + "/trees"@,
{
    repo_git_path(owner, repo).concat("/trees")
}

} // verus!
