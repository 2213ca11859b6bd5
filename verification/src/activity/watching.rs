//! Endpoint builders for the watching endpoints.

use vstd::prelude::*;
use vstd::string::*;

use crate::encoding::{bool_str, bool_to_str, with_pair, QueryString};

verus! {

/// The endpoint that lists a repository's watchers.
pub fn repo_subscribers_path(owner: &str, repo: &str) -> (r: String)
    ensures
        r@ == "/repos/"@ + owner@ + "/"@ + repo@ + "/subscribers"@,
{
    String::from_str("/repos/").concat(owner).concat("/").concat(repo).concat("/subscribers")
}

/// The endpoint of one repository's subscription.
pub fn repo_subscription_path(owner: &str, repo: &str) -> (r: String)
    ensures
        r@ == "/repos/"@ + owner@ + "/"@ + repo@ + "/subscription"@,
{
    String::from_str("/repos/").concat(owner).concat("/").concat(repo).concat("/subscription")
}

/// The endpoint that sets one repository's subscription.
pub fn repo_subscription_set_path(owner: &str, repo: &str, subscribed: bool, ignored: bool) -> (r:
    String)
    ensures
        r@ == "/repos/"@ + owner@ + "/"@ + repo@ + "/subscription?"@ + with_pair(
            with_pair(Seq::<char>::empty(), "subscribed"@, bool_str(subscribed)),
            "ignored"@,
            bool_str(ignored),
        ),
{
    let mut q = QueryString::new();
    q.add("subscribed", bool_to_str(subscribed));
    q.add("ignored", bool_to_str(ignored));
    String::from_str("/repos/").concat(owner).concat("/").concat(repo).concat(
        "/subscription?",
    ).concat(q.into_string().as_str())
}

} // verus!
