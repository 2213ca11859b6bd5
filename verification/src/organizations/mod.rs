//! Records and endpoint builders for the organizations endpoints.

use vstd::prelude::*;
use vstd::string::*;

use crate::encoding::{dec_str, u64_to_dec, with_pair, QueryString};

pub mod members;

verus! {

/// The response of the organization endpoints.
#[derive(Clone, Debug, PartialEq)]
pub struct Organization {
    pub login: String,
    pub id: u64,
    pub url: String,
    pub repos_url: String,
    pub events_url: String,
    pub hooks_url: Option<String>,
    pub issues_url: Option<String>,
    pub members_url: String,
    pub public_members_url: String,
    pub avatar_url: String,
    pub description: Option<String>,
    pub name: Option<String>,
    pub company: Option<String>,
    pub blog: Option<String>,
    pub location: Option<String>,
    pub email: Option<String>,
    pub public_repos: Option<u64>,
    pub public_gists: Option<u64>,
    pub followers: Option<u64>,
    pub following: Option<u64>,
    pub html_url: Option<String>,
    pub created_at: Option<String>,
    pub org_type: Option<String>,
    pub total_private_repos: Option<u64>,
    pub owned_private_repos: Option<u64>,
    pub private_gists: Option<u64>,
    pub disk_usage: Option<u64>,
    pub collaborators: Option<u64>,
    pub billing_email: Option<String>,
    pub plan: Option<Plan>,
}

/// The plan block of an organization.
#[derive(Clone, Debug, PartialEq)]
pub struct Plan {
    pub name: String,
    pub space: u64,
    pub private_repos: u64,
}

/// Input for editing an organization.
#[derive(Clone, Debug, PartialEq)]
pub struct OrganizationEditParam {
    /// Billing email address.
    pub billing_email: String,
    /// Company name.
    pub company: String,
    /// Publicly visible email address.
    pub email: String,
    /// Location of the organization.
    pub location: String,
    /// Shorthand name of the company.
    pub name: String,
    /// Description of the company.
    pub description: String,
}

/// The endpoint that lists all organizations after the one last seen.
pub fn organizations_path(since: u64) -> (r: String)
    ensures
        r@ == "/organizations?"@ + with_pair(Seq::<char>::empty(), "since"@, dec_str(since as nat)),
{
    let mut q = QueryString::new();
    q.add("since", u64_to_dec(since).as_str());
    String::from_str("/organizations?").concat(q.into_string().as_str())
}

/// The endpoint of one organization.
pub fn orgs_org_path(org: &str) -> (r: String)
    ensures
        r@ == "/orgs/"@ + org@,
{
    String::from_str("/orgs/").concat(org)
}

/// The endpoint that lists a user's organizations.
pub fn users_username_orgs_path(username: &str) -> (r: String)
    ensures
        r@ == "/users/"@ + username@ + "/orgs"@,
{
    String::from_str("/users/").concat(username).concat("/orgs")
}

} // verus!
