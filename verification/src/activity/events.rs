//! Records for the event endpoints.
//!
//! The payload of an event is a free-form JSON object that differs per event
//! type, so it is carried as `serde_json::Value` entries, opaque to the
//! contracts.

use std::collections::BTreeMap;

use vstd::prelude::*;
use vstd::string::*;

verus! {

/// serde_json's JSON value, carried through opaquely as an event's payload.
#[verifier::external_type_specification]
#[verifier::external_body]
pub struct ExValue(serde_json::Value);

/// The response of most event endpoints.
pub struct Event {
    pub event_type: String,
    pub public: bool,
    pub payload: BTreeMap<String, serde_json::Value>,
    pub repo: crate::common::Repository,
    pub actor: crate::common::User,
    pub org: Option<Organization>,
    pub created_at: String,
    pub id: u64,
}

/// The organization sub-record of an event.
#[derive(Clone, Debug, PartialEq)]
pub struct Organization {
    pub id: u64,
    pub login: String,
    pub gravatar_id: String,
    pub avatar_url: String,
    pub url: String,
}

/// The endpoint that lists public events.
pub fn events_path() -> (r: String)
    ensures
        r@ == "/events"@,
{
    String::from_str("/events")
}

/// The endpoint that lists one repository's events.
pub fn repo_events_path(owner: &str, repo: &str) -> (r: String)
    ensures
        r@ == "/repos/"@ + owner@ + "/"@ + repo@ + "/events"@,
{
    String::from_str("/repos/").concat(owner).concat("/").concat(repo).concat("/events")
}

/// The endpoint that lists the public events of a network of repositories.
pub fn networks_owner_repo_events_path(owner: &str, repo: &str) -> (r: String)
    ensures
        r@ == "/networks/"@ + owner@ + "/"@ + repo@ + "/events"@,
{
    String::from_str("/networks/").concat(owner).concat("/").concat(repo).concat("/events")
}

/// The endpoint that lists an organization's public events.
pub fn orgs_org_events_path(org: &str) -> (r: String)
    ensures
        r@ == "/orgs/"@ + org@ + "/events"@,
{
    String::from_str("/orgs/").concat(org).concat("/events")
}

/// The endpoint that lists the events a user has received.
pub fn users_username_received_events_path(username: &str) -> (r: String)
    ensures
        r@ == "/users/"@ + username@ + "/received_events"@,
{
    String::from_str("/users/").concat(username).concat("/received_events")
}

/// The endpoint that lists the public events a user has received.
pub fn users_username_received_events_public_path(username: &str) -> (r: String)
    ensures
        r@ == "/users/"@ + username@ + "/received_events"@ + "/public"@,
{
    users_username_received_events_path(username).concat("/public")
}

/// The endpoint that lists the events a user performed.
pub fn users_username_events_path(username: &str) -> (r: String)
    ensures
        r@ == "/users/"@ + username@ + "/events"@,
{
    String::from_str("/users/").concat(username).concat("/events")
}

/// The endpoint that lists the public events a user performed.
pub fn users_username_events_public_path(username: &str) -> (r: String)
    ensures
        r@ == "/users/"@ + username@ + "/events"@ + "/public"@,
{
    users_username_events_path(username).concat("/public")
}

/// The endpoint that lists a user's events in one organization.
pub fn users_username_events_orgs_org_path(username: &str, org: &str) -> (r: String)
    ensures
        r@ == "/users/"@ + username@ + "/events"@ + "/orgs/"@ + org@,
{
    users_username_events_path(username).concat("/orgs/").concat(org)
}

} // verus!
