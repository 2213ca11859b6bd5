//! The git data resource group: blobs, commits, references, tags and trees.

use vstd::prelude::*;
use vstd::string::*;

pub mod blobs;
pub mod commits;
pub mod references;
pub mod tags;
pub mod trees;

verus! {

/// The common prefix of the git data endpoints of one repository.
pub fn repo_git_path(owner: &str, repo: &str) -> (r: String)
    ensures
        r@ == "/repos/"@ + owner@ + "/"@ + repo@ + "/git"@,
{
    String::from_str("/repos/").concat(owner).concat("/").concat(repo).concat("/git")
}

} // verus!
