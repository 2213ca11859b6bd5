use rustyhub::activity::events::{
    events_path, networks_owner_repo_events_path, orgs_org_events_path, repo_events_path,
    users_username_events_orgs_org_path, users_username_events_path,
    users_username_events_public_path, users_username_received_events_path,
    users_username_received_events_public_path,
};
use rustyhub::activity::notifications::{notifications_mark_path, notifications_path, notifications_thread_subscription_set_path};
use rustyhub::activity::starring::{star_accept_headers, user_starred_path, users_username_starred_path};
use rustyhub::activity::starring::Direction as StarDirection;
use rustyhub::activity::starring::Sort as StarSort;
use rustyhub::activity::watching::repo_subscription_set_path;
use rustyhub::auth::Auth;
use rustyhub::client::Client;
use rustyhub::git_data::blobs::BlobEncoding;
use rustyhub::gists::{gists_id_commits_path, gists_id_sha_path, gists_id_star_path, gists_path, users_username_gists_path};
use rustyhub::issues::{issues_path, repo_issues_number_lock_path, repo_issues_path};
use rustyhub::issues::{Assignee, Direction, Filter, MilestoneParam, Sort, State};
use rustyhub::issues::milestones::repo_milestones_path;
use rustyhub::issues::milestones::Sort as MilestoneSort;
use rustyhub::organizations::members::{orgs_org_members_path, user_memberships_orgs_path};
use rustyhub::organizations::members::Filter as MembersFilter;
use rustyhub::organizations::members::RoleMemberList;
use rustyhub::organizations::members::RoleUpdateMembership;
use rustyhub::organizations::members::State as MembershipState;
use rustyhub::organizations::organizations_path;

#[test]
fn issue_enum_tokens_are_exact() {
    assert_eq!(Filter::All.to_str(), "all");
    assert_eq!(Filter::Assigned.to_str(), "assigned");
    assert_eq!(Filter::Created.to_str(), "created");
    assert_eq!(Filter::Mentioned.to_str(), "mentioned");
    assert_eq!(Filter::Subscribed.to_str(), "subscribed");
    assert_eq!(State::Open.to_str(), "open");
    assert_eq!(State::Closed.to_str(), "closed");
    assert_eq!(State::All.to_str(), "all");
    assert_eq!(Sort::Created.to_str(), "created");
    assert_eq!(Sort::Updated.to_str(), "updated");
    assert_eq!(Sort::Comments.to_str(), "comments");
    assert_eq!(Direction::Ascending.to_str(), "asc");
    assert_eq!(Direction::Descending.to_str(), "desc");
}

#[test]
fn milestone_and_assignee_tokens_are_exact() {
    assert_eq!(MilestoneParam::Integer(17).to_str(), "17");
    assert_eq!(MilestoneParam::String("*".to_string()).to_str(), "*");
    assert_eq!(MilestoneParam::NoMilestone.to_str(), "none");
    assert_eq!(Assignee::User("octocat".to_string()).to_str(), "octocat");
    assert_eq!(Assignee::Unassigned.to_str(), "none");
    assert_eq!(MilestoneSort::Completeness.to_str(), "completeness");
    assert_eq!(MilestoneSort::DueOn.to_str(), "due_on");
    assert_eq!(BlobEncoding::Base64.to_str(), "base64");
    assert_eq!(BlobEncoding::UTF8.to_str(), "utf-8");
}

#[test]
fn members_enum_tokens_are_exact() {
    assert_eq!(MembersFilter::TwoFADisabled.to_str(), "2fa_disabled");
    assert_eq!(MembersFilter::All.to_str(), "all");
    assert_eq!(RoleMemberList::All.to_str(), "all");
    assert_eq!(RoleMemberList::Admin.to_str(), "admin");
    assert_eq!(RoleMemberList::Member.to_str(), "member");
    assert_eq!(RoleUpdateMembership::Admin.to_str(), "admin");
    assert_eq!(RoleUpdateMembership::Member.to_str(), "member");
    assert_eq!(MembershipState::Active.to_str(), "active");
    assert_eq!(MembershipState::Pending.to_str(), "pending");
}

#[test]
fn notifications_paths_hold_chosen_parameters() {
    assert_eq!(
        notifications_path(Some(true), None, Some("2016-07-01T00:00:00Z".to_string()), None),
        "/notifications?all=true&since=2016-07-01T00%3A00%3A00Z"
    );
    assert_eq!(notifications_path(None, None, None, None), "/notifications?");
    assert_eq!(
        notifications_mark_path("2016-07-01T00:00:00Z"),
        "/notifications?last_read_at=2016-07-01T00%3A00%3A00Z"
    );
    assert_eq!(
        notifications_thread_subscription_set_path("42", true, false),
        "/notifications/threads/42/subscription?subscribed=true&ignored=false"
    );
}

#[test]
fn starred_paths_hold_sort_and_direction() {
    assert_eq!(
        users_username_starred_path("octocat", Some(StarSort::Updated), Some(StarDirection::Descending)),
        "/users/octocat/starred?sort=updated&direction=desc"
    );
    assert_eq!(user_starred_path(None, None), "/user/starred?");
}

#[test]
fn star_media_headers_override_accept_only() {
    let client = Client::new("my-agent", Auth::NoAuth);
    let headers = star_accept_headers(&client);
    assert_eq!(headers.get("Accept").unwrap().as_str(), "application/vnd.github.v3.star+json");
    assert_eq!(headers.get("User-Agent").unwrap().as_str(), "my-agent");
}

#[test]
fn subscription_path_holds_both_flags() {
    assert_eq!(
        repo_subscription_set_path("octocat", "hello", true, true),
        "/repos/octocat/hello/subscription?subscribed=true&ignored=true"
    );
}

#[test]
fn gists_paths_render_ids_in_decimal() {
    assert_eq!(gists_path("2016-07-01T00:00:00Z"), "/gists?since=2016-07-01T00%3A00%3A00Z");
    assert_eq!(users_username_gists_path("octocat", "now"), "/users/octocat/gists?since=now");
    assert_eq!(gists_id_star_path(0), "/gists/0/star");
    assert_eq!(gists_id_star_path(9012841), "/gists/9012841/star");
    assert_eq!(gists_id_star_path(u64::MAX), "/gists/18446744073709551615/star");
}

#[test]
fn issues_path_joins_labels_with_leading_comma() {
    let labels = vec!["bug".to_string(), "ui".to_string()];
    assert_eq!(
        issues_path(Some(Filter::All), Some(State::Open), &labels, None, None, "t".to_string()),
        "/issues?filter=all&state=open&labels=%2Cbug%2Cui&since=t"
    );
    let no_labels: Vec<String> = Vec::new();
    assert_eq!(
        issues_path(None, None, &no_labels, Some(Sort::Comments), Some(Direction::Ascending), "t".to_string()),
        "/issues?sort=comments&direction=asc&since=t"
    );
}

#[test]
fn repo_issues_path_holds_all_required_parameters() {
    let no_labels: Vec<String> = Vec::new();
    assert_eq!(
        repo_issues_path(
            "octocat",
            "hello",
            MilestoneParam::NoMilestone,
            None,
            Assignee::User("*".to_string()),
            "hubot".to_string(),
            None,
            &no_labels,
            None,
            None,
            "t".to_string(),
        ),
        "/repos/octocat/hello/issues?milestone=none&assignee=*&creator=hubot&since=t"
    );
    assert_eq!(repo_issues_number_lock_path("octocat", "hello", 7), "/repos/octocat/hello/issues/7/lock");
}

#[test]
fn event_paths_are_exact() {
    assert_eq!(events_path(), "/events");
    assert_eq!(repo_events_path("octocat", "hello"), "/repos/octocat/hello/events");
    assert_eq!(networks_owner_repo_events_path("octocat", "hello"), "/networks/octocat/hello/events");
    assert_eq!(orgs_org_events_path("corp"), "/orgs/corp/events");
    assert_eq!(users_username_received_events_path("octocat"), "/users/octocat/received_events");
    assert_eq!(
        users_username_received_events_public_path("octocat"),
        "/users/octocat/received_events/public"
    );
    assert_eq!(users_username_events_path("octocat"), "/users/octocat/events");
    assert_eq!(users_username_events_public_path("octocat"), "/users/octocat/events/public");
    assert_eq!(
        users_username_events_orgs_org_path("octocat", "corp"),
        "/users/octocat/events/orgs/corp"
    );
}

#[test]
fn gist_revision_paths_are_exact() {
    assert_eq!(gists_id_sha_path(42, "abc123"), "/gists/42/abc123");
    assert_eq!(gists_id_commits_path(42), "/gists/42/commits");
}

#[test]
fn milestones_path_holds_chosen_parameters() {
    assert_eq!(
        repo_milestones_path("octocat", "hello", Some(State::Open), Some(MilestoneSort::DueOn), None),
        "/repos/octocat/hello/milestones?state=open&sort=due_on"
    );
}

#[test]
fn organizations_paths_hold_parameters() {
    assert_eq!(organizations_path(1234), "/organizations?since=1234");
    assert_eq!(
        orgs_org_members_path("corp", Some(MembersFilter::TwoFADisabled), Some(RoleMemberList::Admin)),
        "/orgs/corp/members?filter=2fa_disabled&role=admin"
    );
    assert_eq!(
        user_memberships_orgs_path(Some(MembershipState::Pending)),
        "/user/memberships/orgs?state=pending"
    );
}
