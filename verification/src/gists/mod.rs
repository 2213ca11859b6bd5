//! Records and endpoint builders for the gists endpoints.

use std::collections::BTreeMap;

use vstd::prelude::*;
use vstd::string::*;

use crate::encoding::{dec_str, u64_to_dec, with_pair, QueryString};

pub mod comments;

verus! {

/// The response of most gist endpoints.
#[derive(Clone, Debug, PartialEq)]
pub struct Gist {
    pub url: String,
    pub forks_url: String,
    pub commits_url: String,
    pub id: String,
    pub description: String,
    pub public: bool,
    pub owner: crate::common::User,
    pub files: BTreeMap<String, File>,
    pub truncated: bool,
    pub comments: u64,
    pub comments_url: String,
    pub html_url: String,
    pub git_pull_url: String,
    pub git_push_url: String,
    pub created_at: String,
    pub updated_at: String,
    pub forks: Option<Vec<Fork>>,
    pub history: Option<Vec<Commit>>,
}

/// One file of a gist.
#[derive(Clone, Debug, PartialEq)]
pub struct File {
    pub size: u64,
    pub raw_url: String,
    pub file_type: String,
    pub truncated: bool,
    pub language: String,
}

/// One fork of a gist.
#[derive(Clone, Debug, PartialEq)]
pub struct Fork {
    pub user: crate::common::User,
    pub url: String,
    pub id: String,
    pub created_at: String,
    pub updated_at: String,
}

/// One revision of a gist.
#[derive(Clone, Debug, PartialEq)]
pub struct Commit {
    pub url: String,
    pub version: String,
    pub user: crate::common::User,
    pub change_status: ChangeStatus,
    pub committed_at: String,
}

/// The change counts of one gist revision.
#[derive(Clone, Debug, PartialEq)]
pub struct ChangeStatus {
    pub deletions: u64,
    pub additions: u64,
    pub total: u64,
}

/// Input for creating or editing a gist.
#[derive(Clone, Debug, PartialEq)]
pub struct GistParam {
    pub description: String,
    pub public: bool,
    pub files: BTreeMap<String, Option<FileContents>>,
}

/// One file of a gist creation or edit.
#[derive(Clone, Debug, PartialEq)]
pub struct FileContents {
    pub filename: Option<String>,
    pub content: String,
}

/// The `since` query of a gist listing.
pub open spec fn spec_since_query(since: String) -> Seq<char> {
    with_pair(Seq::<char>::empty(), "since"@, since@)
}

fn since_query(since: &str) -> (r: QueryString)
    ensures
        r.query() == with_pair(Seq::<char>::empty(), "since"@, since@),
{
    let mut q = QueryString::new();
    q.add("since", since);
    q
}

/// The endpoint that lists a user's gists updated at or after `since`.
pub fn users_username_gists_path(username: &str, since: &str) -> (r: String)
    ensures
        r@ == "/users/"@ + username@ + "/gists?"@ + with_pair(
            Seq::<char>::empty(),
            "since"@,
            since@,
        ),
{
    let q = since_query(since);
    String::from_str("/users/").concat(username).concat("/gists?").concat(q.into_string().as_str())
}

/// The endpoint that lists the caller's gists updated at or after `since`.
pub fn gists_path(since: &str) -> (r: String)
    ensures
        r@ == "/gists?"@ + with_pair(Seq::<char>::empty(), "since"@, since@),
{
    let q = since_query(since);
    String::from_str("/gists?").concat(q.into_string().as_str())
}

/// The endpoint that lists all public gists updated at or after `since`.
pub fn gists_public_path(since: &str) -> (r: String)
    ensures
        r@ == "/gists/public?"@ + with_pair(Seq::<char>::empty(), "since"@, since@),
{
    let q = since_query(since);
    String::from_str("/gists/public?").concat(q.into_string().as_str())
}

/// The endpoint that lists the caller's starred gists updated at or after
/// `since`.
pub fn gists_starred_path(since: &str) -> (r: String)
    ensures
        r@ == "/gists/starred?"@ + with_pair(Seq::<char>::empty(), "since"@, since@),
{
    let q = since_query(since);
    String::from_str("/gists/starred?").concat(q.into_string().as_str())
}

/// The endpoint of one gist.
pub fn gists_id_path(id: u64) -> (r: String)
    ensures
        r@ == "/gists/"@ + dec_str(id as nat),
{
    String::from_str("/gists/").concat(u64_to_dec(id).as_str())
}

/// The endpoint of one revision of a gist.
pub fn gists_id_sha_path(id: u64, sha: &str) -> (r: String)
    ensures
        r@ == "/gists/"@ + dec_str(id as nat) + "/"@ + sha@,
{
    String::from_str("/gists/").concat(u64_to_dec(id).as_str()).concat("/").concat(sha)
}

/// The endpoint that lists one gist's revisions.
pub fn gists_id_commits_path(id: u64) -> (r: String)
    ensures
        r@ == "/gists/"@ + dec_str(id as nat) + "/commits"@,
{
    String::from_str("/gists/").concat(u64_to_dec(id).as_str()).concat("/commits")
}

/// The endpoint of one gist's star.
pub fn gists_id_star_path(id: u64) -> (r: String)
    ensures
        r@ == "/gists/"@ + dec_str(id as nat) + "/star"@,
{
    String::from_str("/gists/").concat(u64_to_dec(id).as_str()).concat("/star")
}

/// The endpoint of one gist's forks.
pub fn gists_id_forks_path(id: u64) -> (r: String)
    ensures
        r@ == "/gists/"@ + dec_str(id as nat) + "/forks"@,
{
    String::from_str("/gists/").concat(u64_to_dec(id).as_str()).concat("/forks")
}

} // verus!
