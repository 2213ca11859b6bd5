//! Records shared across the activity endpoints.

use vstd::prelude::*;

verus! {

/// A subscription, as the notifications and watching endpoints return it.
#[derive(Clone, Debug, PartialEq)]
pub struct Subscription {
    pub subscribed: bool,
    pub ignored: bool,
    pub reason: Option<String>,
    pub created_at: String,
    pub url: String,
    /// URL of the notification thread, set by the notifications endpoints.
    pub thread_url: Option<String>,
    /// URL of the repository, set by the watching endpoints.
    pub repository_url: Option<String>,
}

} // verus!
