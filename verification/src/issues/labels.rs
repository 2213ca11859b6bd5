//! Records and endpoint builders for the label endpoints.

use vstd::prelude::*;
use vstd::string::*;

use crate::encoding::{dec_str, u64_to_dec};

verus! {

/// A label, as the label endpoints return it.
#[derive(Clone, Debug, PartialEq)]
pub struct Label {
    pub id: u64,
    pub url: String,
    pub name: String,
    pub color: String,
    pub default: bool,
}

/// The endpoint that lists or creates a repository's labels.
pub fn repo_labels_path(owner: &str, repo: &str) -> (r: String)
    ensures
        r@ == "/repos/"@ + owner@ + "/"@ + repo@ + "/labels"@,
{
    String::from_str("/repos/").concat(owner).concat("/").concat(repo).concat("/labels")
}

/// The endpoint of one label.
pub fn repo_labels_name_path(owner: &str, repo: &str, name: &str) -> (r: String)
    ensures
        r@ == "/repos/"@ + owner@ + "/"@ + repo@ + "/labels/"@ + name@,
{
    String::from_str("/repos/").concat(owner).concat("/").concat(repo).concat("/labels/").concat(
        name,
    )
}

/// The endpoint of one issue's labels.
pub fn repo_issues_number_labels_path(owner: &str, repo: &str, number: u64) -> (r: String)
    ensures
        r@ == "/repos/"@ + owner@ + "/"@ + repo@ + "/issues/"@ + dec_str(number as nat)
            + "/labels"@,
{
    String::from_str("/repos/").concat(owner).concat("/").concat(repo).concat("/issues/").concat(
        u64_to_dec(number).as_str(),
    ).concat("/labels")
}

/// The endpoint of one label on one issue.
pub fn repo_issues_number_labels_name_path(owner: &str, repo: &str, number: u64, name: &str) -> (r:
    String)
    ensures
        r@ == "/repos/"@ + owner@ + "/"@ + repo@ + "/issues/"@ + dec_str(number as nat) + "/labels"@
            + "/"@ + name@,
{
    repo_issues_number_labels_path(owner, repo, number).concat("/").concat(name)
}

/// The endpoint that lists one milestone's labels.
pub fn repo_milestones_number_labels_path(owner: &str, repo: &str, number: u64) -> (r: String)
    ensures
        r@ == "/repos/"@ + owner@ + "/"@ + repo@ + "/milestones/"@ + dec_str(number as nat)
            + "/labels"@,
{
    String::from_str("/repos/").concat(owner).concat("/").concat(repo).concat(
        "/milestones/",
    ).concat(u64_to_dec(number).as_str()).concat("/labels")
}

} // verus!
