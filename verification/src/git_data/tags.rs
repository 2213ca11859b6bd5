//! Records and endpoint builders for the git tag endpoints.

use vstd::prelude::*;
use vstd::string::*;

use super::repo_git_path;

verus! {

/// The response of the tag endpoints.
#[derive(Clone, Debug, PartialEq)]
pub struct Tag {
    pub tag: String,
    pub sha: String,
    pub url: String,
    pub message: String,
    pub tagger: Tagger,
    pub object: TagObject,
}

/// The author of a tag.
#[derive(Clone, Debug, PartialEq)]
pub struct Tagger {
    pub name: String,
    pub email: String,
    pub date: String,
}

/// The object a tag points at.
#[derive(Clone, Debug, PartialEq)]
pub struct TagObject {
    pub object_type: String,
    pub sha: String,
    pub url: String,
}

/// Input for creating a tag.
#[derive(Clone, Debug, PartialEq)]
pub struct TagParam {
    pub tag: String,
    pub message: String,
    pub object: String,
    pub tag_type: String,
    pub tagger: Tagger,
}

/// The endpoint of one tag.
pub fn repo_tags_sha_path(owner: &str, repo: &str, sha: &str) -> (r: String)
    ensures
        r@ == "/repos/"@ + owner@ + "/"@ + repo@ + "/git"@ + "/tags/"@ + sha@,
{
    repo_git_path(owner, repo).concat("/tags/").concat(sha)
}

/// The endpoint that creates a tag.
pub fn repo_tags_path(owner: &str, repo: &str) -> (r: String)
    ensures
        r@ == "/repos/"@ + owner@ + "/"@ + repo@ + "/git"@ + "/tags"@,
{
    repo_git_path(owner, repo).concat("/tags")
}

} // verus!
