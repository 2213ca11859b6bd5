//! Records, parameter enumerations and endpoint builders for the
//! organization members endpoints.

use vstd::prelude::*;
use vstd::string::*;

use crate::encoding::{with_pair, QueryString};

verus! {

/// Which members a listing returns.
#[derive(Clone, Copy, Debug, PartialEq, Eq, Structural)]
pub enum Filter {
    /// Members without two-factor authentication enabled; available to
    /// organization owners.
    TwoFADisabled,
    /// Every member the authenticated user can see.
    All,
}

/// The token `to_str` renders a member filter as.
pub open spec fn spec_members_filter_str(f: Filter) -> Seq<char> {
    match f {
        Filter::TwoFADisabled => "2fa_disabled"@,
        Filter::All => "all"@,
    }
}

impl Filter {
    /// The token the API expects for this filter.
    pub fn to_str(&self) -> (r: String)
        ensures
            r@ == spec_members_filter_str(*self),
    {
        match self {
            Filter::TwoFADisabled => String::from_str("2fa_disabled"),
            Filter::All => String::from_str("all"),
        }
    }
}

/// Which members a listing returns, by role.
#[derive(Clone, Copy, Debug, PartialEq, Eq, Structural)]
pub enum RoleMemberList {
    /// Every member, regardless of role.
    All,
    /// Organization owners.
    Admin,
    /// Non-owner members.
    Member,
}

/// The token `to_str` renders a member-list role as.
pub open spec fn spec_role_member_list_str(r: RoleMemberList) -> Seq<char> {
    match r {
        RoleMemberList::All => "all"@,
        RoleMemberList::Admin => "admin"@,
        RoleMemberList::Member => "member"@,
    }
}

impl RoleMemberList {
    /// The token the API expects for this role.
    pub fn to_str(&self) -> (r: String)
        ensures
            r@ == spec_role_member_list_str(*self),
    {
        match self {
            RoleMemberList::All => String::from_str("all"),
            RoleMemberList::Admin => String::from_str("admin"),
            RoleMemberList::Member => String::from_str("member"),
        }
    }
}

/// The role a membership update assigns.
#[derive(Clone, Copy, Debug, PartialEq, Eq, Structural)]
pub enum RoleUpdateMembership {
    /// Organization owner.
    Admin,
    /// Non-owner member.
    Member,
}

/// The token `to_str` renders a membership-update role as.
pub open spec fn spec_role_update_membership_str(r: RoleUpdateMembership) -> Seq<char> {
    match r {
        RoleUpdateMembership::Admin => "admin"@,
        RoleUpdateMembership::Member => "member"@,
    }
}

impl RoleUpdateMembership {
    /// The token the API expects for this role.
    pub fn to_str(&self) -> (r: String)
        ensures
            r@ == spec_role_update_membership_str(*self),
    {
        match self {
            RoleUpdateMembership::Admin => String::from_str("admin"),
            RoleUpdateMembership::Member => String::from_str("member"),
        }
    }
}

/// The state of the memberships a listing returns.
#[derive(Clone, Copy, Debug, PartialEq, Eq, Structural)]
pub enum State {
    /// The membership is active.
    Active,
    /// The membership is pending approval.
    Pending,
}

/// The token `to_str` renders a membership state as.
pub open spec fn spec_membership_state_str(s: State) -> Seq<char> {
    match s {
        State::Active => "active"@,
        State::Pending => "pending"@,
    }
}

impl State {
    /// The token the API expects for this state.
    pub fn to_str(&self) -> (r: String)
        ensures
            r@ == spec_membership_state_str(*self),
    {
        match self {
            State::Active => String::from_str("active"),
            State::Pending => String::from_str("pending"),
        }
    }
}

/// The response of the membership endpoints.
#[derive(Clone, Debug, PartialEq)]
pub struct OrgMembership {
    pub url: String,
    pub state: String,
    pub role: String,
    pub organization_url: String,
    pub organization: super::Organization,
    pub user: crate::common::User,
}

/// The query of a member listing.
pub open spec fn spec_members_query(filter: Option<Filter>, role: Option<RoleMemberList>) -> Seq<
    char,
> {
    let q0 = Seq::<char>::empty();
    let q1 = match filter {
        Some(f) => with_pair(q0, "filter"@, spec_members_filter_str(f)),
        None => q0,
    };
    match role {
        Some(r) => with_pair(q1, "role"@, spec_role_member_list_str(r)),
        None => q1,
    }
}

/// The endpoint that lists an organization's members.
pub fn orgs_org_members_path(org: &str, filter: Option<Filter>, role: Option<RoleMemberList>) -> (r:
    String)
    ensures
        r@ == "/orgs/"@ + org@ + "/members?"@ + spec_members_query(filter, role),
{
    let mut q = QueryString::new();
    if let Some(f) = filter {
        q.add("filter", f.to_str().as_str());
    }
    if let Some(ro) = role {
        q.add("role", ro.to_str().as_str());
    }
    String::from_str("/orgs/").concat(org).concat("/members?").concat(q.into_string().as_str())
}

/// The endpoint of one member of an organization.
pub fn orgs_org_members_username_path(org: &str, username: &str) -> (r: String)
    ensures
        r@ == "/orgs/"@ + org@ + "/members/"@ + username@,
{
    String::from_str("/orgs/").concat(org).concat("/members/").concat(username)
}

/// The endpoint that lists an organization's public members.
pub fn orgs_org_public_members_path(org: &str) -> (r: String)
    ensures
        r@ == "/orgs/"@ + org@ + "/public_members"@,
{
    String::from_str("/orgs/").concat(org).concat("/public_members")
}

/// The endpoint of one public member of an organization.
pub fn orgs_org_public_members_username_path(org: &str, username: &str) -> (r: String)
    ensures
        r@ == "/orgs/"@ + org@ + "/public_members/"@ + username@,
{
    String::from_str("/orgs/").concat(org).concat("/public_members/").concat(username)
}

/// The endpoint of one organization membership.
pub fn orgs_org_memberships_username_path(org: &str, username: &str) -> (r: String)
    ensures
        r@ == "/orgs/"@ + org@ + "/memberships/"@ + username@,
{
    String::from_str("/orgs/").concat(org).concat("/memberships/").concat(username)
}

/// The endpoint that adds or updates an organization membership with an
/// optional role.
pub fn orgs_org_memberships_username_set_path(
    org: &str,
    username: &str,
    role: Option<RoleUpdateMembership>,
) -> (r: String)
    ensures
        r@ == "/orgs/"@ + org@ + "/memberships/"@ + username@ + "?"@ + (match role {
            Some(ro) => with_pair(Seq::<char>::empty(), "role"@, spec_role_update_membership_str(ro)),
            None => Seq::<char>::empty(),
        }),
{
    let mut q = QueryString::new();
    if let Some(ro) = role {
        q.add("role", ro.to_str().as_str());
    }
    String::from_str("/orgs/").concat(org).concat("/memberships/").concat(username).concat(
        "?",
    ).concat(q.into_string().as_str())
}

/// The endpoint that lists the authenticated user's memberships.
pub fn user_memberships_orgs_path(state: Option<State>) -> (r: String)
    ensures
        r@ == "/user/memberships/orgs?"@ + (match state {
            Some(s) => with_pair(Seq::<char>::empty(), "state"@, spec_membership_state_str(s)),
            None => Seq::<char>::empty(),
        }),
{
    let mut q = QueryString::new();
    if let Some(s) = state {
        q.add("state", s.to_str().as_str());
    }
    String::from_str("/user/memberships/orgs?").concat(q.into_string().as_str())
}

/// The endpoint of the authenticated user's membership in one organization.
pub fn user_memberships_orgs_org_path(org: &str) -> (r: String)
    ensures
        r@ == "/user/memberships/orgs/"@ + org@,
{
    String::from_str("/user/memberships/orgs/").concat(org)
}

} // verus!
