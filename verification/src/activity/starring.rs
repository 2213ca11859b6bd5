//! Records and endpoint builders for the starring endpoints.

use vstd::prelude::*;
use vstd::string::*;

use crate::client::{spec_default_entries, spec_default_lookup, Client};
use crate::encoding::{with_pair, QueryString};
use crate::headers::{remove_name, Headers};

verus! {

/// One stargazer with the time of the star, returned by the timestamp
/// variant of the stargazer listing.
#[derive(Clone, Debug, PartialEq)]
pub struct ListStarTimeStamp {
    pub starred_at: String,
    pub user: crate::common::User,
}

/// One starred repository with the time of the star, returned by the
/// timestamp variants of the starred listings.
#[derive(Clone, Debug, PartialEq)]
pub struct ListRepoStarTimeStamp {
    pub starred_at: String,
    pub repo: crate::common::Repository,
}

/// What a starred listing is sorted by.
#[derive(Clone, Copy, Debug, PartialEq, Eq, Structural)]
pub enum Sort {
    Created,
    Updated,
}

/// The direction a starred listing is sorted in.
#[derive(Clone, Copy, Debug, PartialEq, Eq, Structural)]
pub enum Direction {
    Ascending,
    Descending,
}

/// The query token for a sort choice.
pub open spec fn spec_sort_str(s: Sort) -> Seq<char> {
    match s {
        Sort::Created => "created"@,
        Sort::Updated => "updated"@,
    }
}

/// The query token for a direction choice.
pub open spec fn spec_direction_str(d: Direction) -> Seq<char> {
    match d {
        Direction::Ascending => "asc"@,
        Direction::Descending => "desc"@,
    }
}

/// The query of a starred listing.
pub open spec fn spec_starred_query(sort: Option<Sort>, direction: Option<Direction>) -> Seq<
    char,
> {
    let q0 = Seq::<char>::empty();
    let q1 = match sort {
        Some(s) => with_pair(q0, "sort"@, spec_sort_str(s)),
        None => q0,
    };
    match direction {
        Some(d) => with_pair(q1, "direction"@, spec_direction_str(d)),
        None => q1,
    }
}

fn starred_query(sort: Option<Sort>, direction: Option<Direction>) -> (r: QueryString)
    ensures
        r.query() == spec_starred_query(sort, direction),
{
    let mut q = QueryString::new();
    if let Some(s) = sort {
        let token: &str = match s {
            Sort::Created => "created",
            Sort::Updated => "updated",
        };
        q.add("sort", token);
    }
    if let Some(d) = direction {
        let token: &str = match d {
            Direction::Ascending => "asc",
            Direction::Descending => "desc",
        };
        q.add("direction", token);
    }
    q
}

/// The endpoint that lists a repository's stargazers.
pub fn repo_stargazers_path(owner: &str, repo: &str) -> (r: String)
    ensures
        r@ == "/repos/"@ + owner@ + "/"@ + repo@ + "/stargazers"@,
{
    String::from_str("/repos/").concat(owner).concat("/").concat(repo).concat("/stargazers")
}

/// The endpoint that lists what a user has starred.
pub fn users_username_starred_path(username: &str, sort: Option<Sort>, direction: Option<
    Direction,
>) -> (r: String)
    ensures
        r@ == "/users/"@ + username@ + "/starred?"@ + spec_starred_query(sort, direction),
{
    let q = starred_query(sort, direction);
    String::from_str("/users/").concat(username).concat("/starred?").concat(
        q.into_string().as_str(),
    )
}

/// The endpoint that lists what the authenticated user has starred.
pub fn user_starred_path(sort: Option<Sort>, direction: Option<Direction>) -> (r: String)
    ensures
        r@ == "/user/starred?"@ + spec_starred_query(sort, direction),
{
    let q = starred_query(sort, direction);
    String::from_str("/user/starred?").concat(q.into_string().as_str())
}

/// The endpoint of one starred repository of the authenticated user.
pub fn user_starred_repo_path(owner: &str, repo: &str) -> (r: String)
    ensures
        r@ == "/user/starred/"@ + owner@ + "/"@ + repo@,
{
    String::from_str("/user/starred/").concat(owner).concat("/").concat(repo)
}

/// The default headers with the `Accept` value the star-timestamp media type
/// asks for.
pub fn star_accept_headers(client: &Client) -> (r: Headers)
    ensures
        r.entries() == remove_name(spec_default_entries(client.user_agent@), "Accept"@).push(
            ("Accept"@, "application/vnd.github.v3.star+json"@),
        ),
        forall|n: Seq<char>| #[trigger]
            r.lookup(n) == (if n == "Accept"@ {
                Some("application/vnd.github.v3.star+json"@)
            } else {
                spec_default_lookup(client.user_agent@, n)
            }),
{
    let mut headers = client.get_default_headers();
    headers.set("Accept", String::from_str("application/vnd.github.v3.star+json"));
    headers
}

/// The default headers with a zero `Content-Length`, sent by the bodyless
/// star request.
pub fn content_length_zero_headers(client: &Client) -> (r: Headers)
    ensures
        r.entries() == remove_name(spec_default_entries(client.user_agent@), "Content-Length"@)
            .push(("Content-Length"@, "0"@)),
        forall|n: Seq<char>| #[trigger]
            r.lookup(n) == (if n == "Content-Length"@ {
                Some("0"@)
            } else {
                spec_default_lookup(client.user_agent@, n)
            }),
{
    let mut headers = client.get_default_headers();
    headers.set("Content-Length", String::from_str("0"));
    headers
}

} // verus!
