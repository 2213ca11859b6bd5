//! Records and endpoint builders for the git reference endpoints.

use vstd::prelude::*;
use vstd::string::*;

use super::repo_git_path;

verus! {

/// The response of the reference endpoints.
#[derive(Clone, Debug, PartialEq)]
pub struct Reference {
    pub _ref: String,
    pub url: String,
    pub object: Object,
}

/// The object a reference points at.
#[derive(Clone, Debug, PartialEq)]
pub struct Object {
    pub object_type: String,
    pub sha: String,
    pub url: String,
}

/// The endpoint of one reference.
pub fn repo_refs_ref_path(owner: &str, repo: &str, _ref: &str) -> (r: String)
    ensures
        r@ == "/repos/"@ + owner@ + "/"@ + repo@ + "/git"@ + "/refs/"@ + _ref@,
{
    repo_git_path(owner, repo).concat("/refs/").concat(_ref)
}

/// The endpoint that lists or creates references.
pub fn repo_refs_path(owner: &str, repo: &str) -> (r: String)
    ensures
        r@ == "/repos/"@ + owner@ + "/"@ + repo@ + "/git"@ + "/refs"@,
{
    repo_git_path(owner, repo).concat("/refs")
}

} // verus!
