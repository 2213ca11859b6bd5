//! Records and endpoint builders for the notifications endpoints.

use vstd::prelude::*;
use vstd::string::*;

use crate::encoding::{bool_str, bool_to_str, with_pair, QueryString};

verus! {

/// The response of most notifications endpoints.
#[derive(Clone, Debug, PartialEq)]
pub struct Notification {
    pub id: String,
    pub repository: crate::common::Repository,
    pub subject: Subject,
    pub reason: Option<String>,
    pub unread: bool,
    pub updated_at: String,
    pub last_read_at: Option<String>,
    pub url: String,
}

/// The subject sub-record of a notification.
#[derive(Clone, Debug, PartialEq)]
pub struct Subject {
    pub title: String,
    pub url: String,
    pub latest_comment_url: String,
    pub subject_type: String,
}

/// The query of a notifications listing.
pub open spec fn spec_notifications_query(
    all: Option<bool>,
    participating: Option<bool>,
    since: Option<String>,
    before: Option<String>,
) -> Seq<char> {
    let q0 = Seq::<char>::empty();
    let q1 = match all {
        Some(b) => with_pair(q0, "all"@, bool_str(b)),
        None => q0,
    };
    let q2 = match participating {
        Some(b) => with_pair(q1, "participating"@, bool_str(b)),
        None => q1,
    };
    let q3 = match since {
        Some(s) => with_pair(q2, "since"@, s@),
        None => q2,
    };
    match before {
        Some(s) => with_pair(q3, "before"@, s@),
        None => q3,
    }
}

fn notifications_query(
    all: Option<bool>,
    participating: Option<bool>,
    since: &Option<String>,
    before: &Option<String>,
) -> (r: QueryString)
    ensures
        r.query() == spec_notifications_query(all, participating, *since, *before),
{
    let mut q = QueryString::new();
    if let Some(b) = all {
        q.add("all", bool_to_str(b));
    }
    if let Some(b) = participating {
        q.add("participating", bool_to_str(b));
    }
    if let Some(s) = since {
        q.add("since", s.as_str());
    }
    if let Some(s) = before {
        q.add("before", s.as_str());
    }
    q
}

/// The endpoint that lists the caller's notifications.
pub fn notifications_path(
    all: Option<bool>,
    participating: Option<bool>,
    since: Option<String>,
    before: Option<String>,
) -> (r: String)
    ensures
        r@ == "/notifications?"@ + spec_notifications_query(all, participating, since, before),
{
    let q = notifications_query(all, participating, &since, &before);
    String::from_str("/notifications?").concat(q.into_string().as_str())
}

/// The endpoint that lists the notifications of one repository.
pub fn repo_notifications_path(
    owner: &str,
    repo: &str,
    all: Option<bool>,
    participating: Option<bool>,
    since: Option<String>,
    before: Option<String>,
) -> (r: String)
    ensures
        r@ == "/repos/"@ + owner@ + "/"@ + repo@ + "/notifications?"@ + spec_notifications_query(
            all,
            participating,
            since,
            before,
        ),
{
    let q = notifications_query(all, participating, &since, &before);
    String::from_str("/repos/").concat(owner).concat("/").concat(repo).concat(
        "/notifications?",
    ).concat(q.into_string().as_str())
}

/// The endpoint that marks notifications as read up to a point in time.
pub fn notifications_mark_path(last_read_at: &str) -> (r: String)
    ensures
        r@ == "/notifications?"@ + with_pair(Seq::<char>::empty(), "last_read_at"@, last_read_at@),
{
    let mut q = QueryString::new();
    q.add("last_read_at", last_read_at);
    String::from_str("/notifications?").concat(q.into_string().as_str())
}

/// The endpoint that marks one repository's notifications as read up to a
/// point in time.
pub fn repo_notifications_mark_path(owner: &str, repo: &str, last_read_at: &str) -> (r: String)
    ensures
        r@ == "/repos/"@ + owner@ + "/"@ + repo@ + "/notifications?"@ + with_pair(
            Seq::<char>::empty(),
            "last_read_at"@,
            last_read_at@,
        ),
{
    let mut q = QueryString::new();
    q.add("last_read_at", last_read_at);
    String::from_str("/repos/").concat(owner).concat("/").concat(repo).concat(
        "/notifications?",
    ).concat(q.into_string().as_str())
}

/// The endpoint of one notification thread.
pub fn notifications_thread_path(id: &str) -> (r: String)
    ensures
        r@ == "/notifications/threads/"@ + id@,
{
    String::from_str("/notifications/threads/").concat(id)
}

/// The endpoint of one notification thread's subscription.
pub fn notifications_thread_subscription_path(id: &str) -> (r: String)
    ensures
        r@ == "/notifications/threads/"@ + id@ + "/subscription"@,
{
    String::from_str("/notifications/threads/").concat(id).concat("/subscription")
}

/// The endpoint that sets one notification thread's subscription.
pub fn notifications_thread_subscription_set_path(id: &str, subscribed: bool, ignored: bool) -> (r:
    String)
    ensures
        r@ == "/notifications/threads/"@ + id@ + "/subscription?"@ + with_pair(
            with_pair(Seq::<char>::empty(), "subscribed"@, bool_str(subscribed)),
            "ignored"@,
            bool_str(ignored),
        ),
{
    let mut q = QueryString::new();
    q.add("subscribed", bool_to_str(subscribed));
    q.add("ignored", bool_to_str(ignored));
    String::from_str("/notifications/threads/").concat(id).concat("/subscription?").concat(
        q.into_string().as_str(),
    )
}

} // verus!
