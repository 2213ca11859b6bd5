//! Records for the feeds endpoint.

use vstd::prelude::*;

verus! {

/// The response of the feeds endpoint.
#[derive(Clone, Debug, PartialEq)]
pub struct Feeds {
    pub timeline_url: String,
    pub user_url: String,
    pub current_user_public_ur: Option<String>,
    pub current_user_url: Option<String>,
    pub current_user_actor_url: Option<String>,
    pub current_user_organization_url: Option<String>,
    pub current_user_organization_urls: Option<Vec<String>>,
    pub links: Links,
}

/// The `_links` block of the feeds response.
#[derive(Clone, Debug, PartialEq)]
pub struct Links {
    pub timeline: FeedsElem,
    pub user: FeedsElem,
    pub current_user_public: Option<FeedsElem>,
    pub current_user: Option<FeedsElem>,
    pub current_user_actor: Option<FeedsElem>,
    pub current_user_organization: Option<FeedsElem>,
    pub current_user_organizations: Option<FeedsElem>,
}

/// One feed link: its URL and media type.
#[derive(Clone, Debug, PartialEq)]
pub struct FeedsElem {
    pub href: String,
    pub mime_type: String,
}

} // verus!
