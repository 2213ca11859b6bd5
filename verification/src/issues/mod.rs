//! Records, parameter enumerations and endpoint builders for the issues
//! endpoints.

use vstd::prelude::*;
use vstd::string::*;

use crate::encoding::{dec_str, u64_to_dec, with_pair, QueryString};

pub mod assignees;
pub mod comments;
pub mod events;
pub mod labels;
pub mod milestones;

verus! {

/// The response of the issue endpoints, and a sub-record of issue events.
#[derive(Clone, Debug, PartialEq)]
pub struct Issue {
    pub id: u64,
    pub url: String,
    pub repository_url: String,
    pub labels_url: String,
    pub comments_url: String,
    pub events_url: String,
    pub html_url: String,
    pub number: u64,
    pub state: String,
    pub title: String,
    pub body: String,
    pub user: crate::common::User,
    pub labels: Vec<Label>,
    pub assignee: crate::common::User,
    pub milestone: Milestone,
    pub locked: bool,
    pub comments: u64,
    pub pull_request: Option<PullRequest>,
    pub closed_at: Option<String>,
    pub created_at: String,
    pub updated_at: String,
    pub repository: Option<crate::common::Repository>,
    pub closed_by: Option<crate::common::User>,
    pub assignees: Option<Vec<crate::common::User>>,
}

/// Input for creating an issue.
#[derive(Clone, Debug, PartialEq)]
pub struct IssueCreate {
    pub title: String,
    pub body: String,
    pub assignees: Vec<crate::common::User>,
    pub milestone: Option<u64>,
    pub labels: Vec<String>,
}

/// Input for editing an issue.
#[derive(Clone, Debug, PartialEq)]
pub struct IssueEdit {
    pub title: String,
    pub body: String,
    pub assignees: Vec<crate::common::User>,
    pub state: StateEdit,
    pub milestone: Option<u64>,
    pub labels: Vec<String>,
}

/// A label of an issue.
#[derive(Clone, Debug, PartialEq)]
pub struct Label {
    pub id: u64,
    pub url: String,
    pub name: String,
    pub color: String,
    pub default: bool,
}

/// A milestone of an issue.
#[derive(Clone, Debug, PartialEq)]
pub struct Milestone {
    pub url: String,
    pub html_url: String,
    pub labels_url: String,
    pub id: u64,
    pub number: String,
    pub state: String,
    pub title: String,
    pub description: String,
    pub creator: crate::common::User,
    pub open_issues: u64,
    pub closed_issues: u64,
    pub created_at: String,
    pub updated_at: String,
    pub closed_at: String,
    pub due_on: String,
}

/// The pull request block of an issue.
#[derive(Clone, Debug, PartialEq)]
pub struct PullRequest {
    pub url: String,
    pub html_url: String,
    pub diff_url: String,
    pub patch_url: String,
}

/// The state an issue edit asks for.
#[derive(Clone, Copy, Debug, PartialEq, Eq, Structural)]
pub enum StateEdit {
    Open,
    Closed,
}

/// Which kind of issues a listing returns.
#[derive(Clone, Copy, Debug, PartialEq, Eq, Structural)]
pub enum Filter {
    /// Issues assigned to the authenticated user.
    Assigned,
    /// Issues created by the authenticated user.
    Created,
    /// Issues mentioning the authenticated user.
    Mentioned,
    /// Issues the authenticated user is subscribed to.
    Subscribed,
    /// Every issue the authenticated user can see.
    All,
}

/// The token `to_str` renders a filter as.
pub open spec fn spec_filter_str(f: Filter) -> Seq<char> {
    match f {
        Filter::All => "all"@,
        Filter::Assigned => "assigned"@,
        Filter::Created => "created"@,
        Filter::Mentioned => "mentioned"@,
        Filter::Subscribed => "subscribed"@,
    }
}

impl Filter {
    /// The token the API expects for this filter.
    pub fn to_str(self) -> (r: String)
        ensures
            r@ == spec_filter_str(self),
    {
        match self {
            Filter::All => String::from_str("all"),
            Filter::Assigned => String::from_str("assigned"),
            Filter::Created => String::from_str("created"),
            Filter::Mentioned => String::from_str("mentioned"),
            Filter::Subscribed => String::from_str("subscribed"),
        }
    }
}

/// The state of the issues a listing returns.
#[derive(Clone, Copy, Debug, PartialEq, Eq, Structural)]
pub enum State {
    Open,
    Closed,
    All,
}

/// The token `to_str` renders a state as.
pub open spec fn spec_state_str(s: State) -> Seq<char> {
    match s {
        State::All => "all"@,
        State::Closed => "closed"@,
        State::Open => "open"@,
    }
}

impl State {
    /// The token the API expects for this state.
    pub fn to_str(self) -> (r: String)
        ensures
            r@ == spec_state_str(self),
    {
        match self {
            State::All => String::from_str("all"),
            State::Closed => String::from_str("closed"),
            State::Open => String::from_str("open"),
        }
    }
}

/// What an issue listing is sorted by.
#[derive(Clone, Copy, Debug, PartialEq, Eq, Structural)]
pub enum Sort {
    Created,
    Updated,
    Comments,
}

/// The token `to_str` renders a sort choice as.
pub open spec fn spec_sort_str(s: Sort) -> Seq<char> {
    match s {
        Sort::Comments => "comments"@,
        Sort::Created => "created"@,
        Sort::Updated => "updated"@,
    }
}

impl Sort {
    /// The token the API expects for this sort choice.
    pub fn to_str(self) -> (r: String)
        ensures
            r@ == spec_sort_str(self),
    {
        match self {
            Sort::Comments => String::from_str("comments"),
            Sort::Created => String::from_str("created"),
            Sort::Updated => String::from_str("updated"),
        }
    }
}

/// The direction an issue listing is sorted in.
#[derive(Clone, Copy, Debug, PartialEq, Eq, Structural)]
pub enum Direction {
    Ascending,
    Descending,
}

/// The token `to_str` renders a direction as.
pub open spec fn spec_direction_str(d: Direction) -> Seq<char> {
    match d {
        Direction::Ascending => "asc"@,
        Direction::Descending => "desc"@,
    }
}

impl Direction {
    /// The token the API expects for this direction.
    pub fn to_str(self) -> (r: String)
        ensures
            r@ == spec_direction_str(self),
    {
        match self {
            Direction::Ascending => String::from_str("asc"),
            Direction::Descending => String::from_str("desc"),
        }
    }
}

/// Which issues a repository listing returns, by milestone.
#[derive(Clone, Debug, PartialEq)]
pub enum MilestoneParam {
    /// The value of a milestone's number field.
    Integer(u64),
    /// A milestone's name; `*` matches issues with any milestone.
    String(String),
    /// Issues without a milestone.
    NoMilestone,
}

/// The token `to_str` renders a milestone parameter as.
pub open spec fn spec_milestone_param_str(m: MilestoneParam) -> Seq<char> {
    match m {
        MilestoneParam::Integer(n) => dec_str(n as nat),
        MilestoneParam::String(s) => s@,
        MilestoneParam::NoMilestone => "none"@,
    }
}

impl MilestoneParam {
    /// The token the API expects for this milestone parameter.
    pub fn to_str(self) -> (r: String)
        ensures
            r@ == spec_milestone_param_str(self),
    {
        match self {
            MilestoneParam::Integer(n) => u64_to_dec(n),
            MilestoneParam::String(s) => s,
            MilestoneParam::NoMilestone => String::from_str("none"),
        }
    }
}

/// Which issues a repository listing returns, by assignee.
#[derive(Clone, Debug, PartialEq)]
pub enum Assignee {
    /// A user's name; `*` matches issues assigned to any user.
    User(String),
    /// Issues without an assignee.
    Unassigned,
}

/// The token `to_str` renders an assignee parameter as.
pub open spec fn spec_assignee_str(a: Assignee) -> Seq<char> {
    match a {
        Assignee::User(s) => s@,
        Assignee::Unassigned => "none"@,
    }
}

impl Assignee {
    /// The token the API expects for this assignee parameter.
    pub fn to_str(self) -> (r: String)
        ensures
            r@ == spec_assignee_str(self),
    {
        match self {
            Assignee::User(s) => s,
            Assignee::Unassigned => String::from_str("none"),
        }
    }
}

/// The `labels` query value: the given labels, each preceded by a comma.
pub open spec fn spec_labels_param(labels: Seq<String>) -> Seq<char>
    decreases labels.len(),
{
    if labels.len() == 0 {
        Seq::empty()
    } else {
        spec_labels_param(labels.drop_last()) + ","@ + labels.last()@
    }
}

fn labels_param(labels: &Vec<String>) -> (r: String)
    ensures
        r@ == spec_labels_param(labels@),
{
    let mut s = String::new();
    let n = labels.len();
    let mut i: usize = 0;
    proof {
        assert(labels@.take(0) =~= Seq::<String>::empty());
    }
    while i < n
        invariant
            n == labels@.len(),
            i <= n,
            s@ == spec_labels_param(labels@.take(i as int)),
        decreases n - i,
    {
        proof {
            assert(labels@.take(i + 1).drop_last() =~= labels@.take(i as int));
            assert(labels@.take(i + 1).last() == labels@[i as int]);
        }
        s = s.concat(",").concat(labels[i].as_str());
        i = i + 1;
    }
    proof {
        assert(labels@.take(n as int) =~= labels@);
    }
    s
}

/// The query of an issue listing.
pub open spec fn spec_issues_query(
    filter: Option<Filter>,
    state: Option<State>,
    labels: Seq<String>,
    sort: Option<Sort>,
    direction: Option<Direction>,
    since: String,
) -> Seq<char> {
    let q0 = Seq::<char>::empty();
    let q1 = match filter {
        Some(f) => with_pair(q0, "filter"@, spec_filter_str(f)),
        None => q0,
    };
    let q2 = match state {
        Some(s) => with_pair(q1, "state"@, spec_state_str(s)),
        None => q1,
    };
    let q3 = if labels.len() > 0 {
        with_pair(q2, "labels"@, spec_labels_param(labels))
    } else {
        q2
    };
    let q4 = match sort {
        Some(s) => with_pair(q3, "sort"@, spec_sort_str(s)),
        None => q3,
    };
    let q5 = match direction {
        Some(d) => with_pair(q4, "direction"@, spec_direction_str(d)),
        None => q4,
    };
    with_pair(q5, "since"@, since@)
}

fn issues_query(
    filter: Option<Filter>,
    state: Option<State>,
    labels: &Vec<String>,
    sort: Option<Sort>,
    direction: Option<Direction>,
    since: &String,
) -> (r: QueryString)
    ensures
        r.query() == spec_issues_query(filter, state, labels@, sort, direction, *since),
{
    let mut q = QueryString::new();
    if let Some(f) = filter {
        q.add("filter", f.to_str().as_str());
    }
    if let Some(s) = state {
        q.add("state", s.to_str().as_str());
    }
    if labels.len() > 0 {
        q.add("labels", labels_param(labels).as_str());
    }
    if let Some(s) = sort {
        q.add("sort", s.to_str().as_str());
    }
    if let Some(d) = direction {
        q.add("direction", d.to_str().as_str());
    }
    q.add("since", since.as_str());
    q
}

/// The endpoint that lists the authenticated user's issues across
/// repositories.
pub fn issues_path(
    filter: Option<Filter>,
    state: Option<State>,
    labels: &Vec<String>,
    sort: Option<Sort>,
    direction: Option<Direction>,
    since: String,
) -> (r: String)
    ensures
        r@ == "/issues?"@ + spec_issues_query(filter, state, labels@, sort, direction, since),
{
    let q = issues_query(filter, state, labels, sort, direction, &since);
    String::from_str("/issues?").concat(q.into_string().as_str())
}

/// The endpoint that lists the issues assigned to the authenticated user.
pub fn user_issues_path(
    filter: Option<Filter>,
    state: Option<State>,
    labels: &Vec<String>,
    sort: Option<Sort>,
    direction: Option<Direction>,
    since: String,
) -> (r: String)
    ensures
        r@ == "/user/issues?"@ + spec_issues_query(filter, state, labels@, sort, direction, since),
{
    let q = issues_query(filter, state, labels, sort, direction, &since);
    String::from_str("/user/issues?").concat(q.into_string().as_str())
}

/// The endpoint that lists an organization's issues assigned to the
/// authenticated user.
pub fn orgs_org_issues_path(
    org: &str,
    filter: Option<Filter>,
    state: Option<State>,
    labels: &Vec<String>,
    sort: Option<Sort>,
    direction: Option<Direction>,
    since: String,
) -> (r: String)
    ensures
        r@ == "/orgs/"@ + org@ + "/issues?"@ + spec_issues_query(
            filter,
            state,
            labels@,
            sort,
            direction,
            since,
        ),
{
    let q = issues_query(filter, state, labels, sort, direction, &since);
    String::from_str("/orgs/").concat(org).concat("/issues?").concat(q.into_string().as_str())
}

/// The query of a repository issue listing.
pub open spec fn spec_repo_issues_query(
    milestone: MilestoneParam,
    state: Option<State>,
    assignee: Assignee,
    creator: String,
    mentioned: Option<String>,
    labels: Seq<String>,
    sort: Option<Sort>,
    direction: Option<Direction>,
    since: String,
) -> Seq<char> {
    let q1 = with_pair(Seq::<char>::empty(), "milestone"@, spec_milestone_param_str(milestone));
    let q2 = match state {
        Some(s) => with_pair(q1, "state"@, spec_state_str(s)),
        None => q1,
    };
    let q3 = with_pair(q2, "assignee"@, spec_assignee_str(assignee));
    let q4 = with_pair(q3, "creator"@, creator@);
    let q5 = match mentioned {
        Some(m) => with_pair(q4, "mentioned"@, m@),
        None => q4,
    };
    let q6 = if labels.len() > 0 {
        with_pair(q5, "labels"@, spec_labels_param(labels))
    } else {
        q5
    };
    let q7 = match sort {
        Some(s) => with_pair(q6, "sort"@, spec_sort_str(s)),
        None => q6,
    };
    let q8 = match direction {
        Some(d) => with_pair(q7, "direction"@, spec_direction_str(d)),
        None => q7,
    };
    with_pair(q8, "since"@, since@)
}

/// The endpoint that lists one repository's issues.
pub fn repo_issues_path(
    owner: &str,
    repo: &str,
    milestone: MilestoneParam,
    state: Option<State>,
    assignee: Assignee,
    creator: String,
    mentioned: Option<String>,
    labels: &Vec<String>,
    sort: Option<Sort>,
    direction: Option<Direction>,
    since: String,
) -> (r: String)
    ensures
        r@ == "/repos/"@ + owner@ + "/"@ + repo@ + "/issues?"@ + spec_repo_issues_query(
            milestone,
            state,
            assignee,
            creator,
            mentioned,
            labels@,
            sort,
            direction,
            since,
        ),
{
    let mut q = QueryString::new();
    q.add("milestone", milestone.to_str().as_str());
    if let Some(s) = state {
        q.add("state", s.to_str().as_str());
    }
    q.add("assignee", assignee.to_str().as_str());
    q.add("creator", creator.as_str());
    if let Some(m) = &mentioned {
        q.add("mentioned", m.as_str());
    }
    if labels.len() > 0 {
        q.add("labels", labels_param(labels).as_str());
    }
    if let Some(s) = sort {
        q.add("sort", s.to_str().as_str());
    }
    if let Some(d) = direction {
        q.add("direction", d.to_str().as_str());
    }
    q.add("since", since.as_str());
    String::from_str("/repos/").concat(owner).concat("/").concat(repo).concat("/issues?").concat(
        q.into_string().as_str(),
    )
}

/// The endpoint that lists or creates one repository's issues.
pub fn repo_issues_base_path(owner: &str, repo: &str) -> (r: String)
    ensures
        r@ == "/repos/"@ + owner@ + "/"@ + repo@ + "/issues"@,
{
    String::from_str("/repos/").concat(owner).concat("/").concat(repo).concat("/issues")
}

/// The endpoint of one issue.
pub fn repo_issues_number_path(owner: &str, repo: &str, number: u64) -> (r: String)
    ensures
        r@ == "/repos/"@ + owner@ + "/"@ + repo@ + "/issues/"@ + dec_str(number as nat),
{
    String::from_str("/repos/").concat(owner).concat("/").concat(repo).concat("/issues/").concat(
        u64_to_dec(number).as_str(),
    )
}

/// The endpoint of one issue's lock.
pub fn repo_issues_number_lock_path(owner: &str, repo: &str, number: u64) -> (r: String)
    ensures
        r@ == "/repos/"@ + owner@ + "/"@ + repo@ + "/issues/"@ + dec_str(number as nat) + "/lock"@,
{
    repo_issues_number_path(owner, repo, number).concat("/lock")
}

} // verus!
