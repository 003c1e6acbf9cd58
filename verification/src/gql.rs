//! The data the terminal client exchanges with the GraphQL backend: the
//! records it fetches, the connection wrappers, and the variables of every
//! query and mutation it issues.

use vstd::prelude::*;

use crate::text::owned;

verus! {

#[derive(Clone, Debug, PartialEq)]
pub struct Todo {
    pub id: i32,
    pub title: String,
    pub description: Option<String>,
    pub status: String,
    pub blocked_reason: Option<String>,
    pub sort_key: i32,
    pub created_at: String,
    pub started_at: Option<String>,
    pub closed_at: Option<String>,
    pub tag: TagConnection,
}

#[derive(Clone, Debug, PartialEq)]
pub struct Tag {
    pub slug: String,
    pub name: String,
}

#[derive(Clone, Debug, PartialEq)]
pub struct TagConnection {
    pub nodes: Vec<Tag>,
}

#[derive(Clone, Debug, PartialEq)]
pub struct PlanRow {
    pub id: i32,
    pub position: i32,
    pub carried_over: bool,
    pub removed_at: Option<String>,
    pub todo: Option<Todo>,
}

#[derive(Clone, Debug, PartialEq)]
pub struct PullRequest {
    pub id: i32,
    pub owner: String,
    pub repo: String,
    pub number: i32,
    pub title: String,
    pub url: String,
    pub author: Option<String>,
    pub state: String,
    pub review_requested: bool,
    pub authored_by_me: bool,
    pub changes_requested: bool,
    pub copilot_comments: bool,
    pub merge_conflicts: bool,
    pub approved: bool,
    pub actions_failing: bool,
    pub dismissed_at: Option<String>,
    pub remote_updated_at: Option<String>,
}

#[derive(Clone, Debug, PartialEq)]
pub struct LinearIssue {
    pub id: i32,
    pub identifier: String,
    pub title: String,
    pub url: String,
    pub state_name: String,
    pub state_type: String,
    pub priority: Option<i64>,
    pub team_key: Option<String>,
    pub assignee_name: Option<String>,
    pub assigned_to_me: bool,
    pub dismissed_at: Option<String>,
}

#[derive(Clone, Debug, PartialEq)]
pub struct SyncState {
    pub source: String,
    pub cursor: Option<String>,
    pub last_synced_at: Option<String>,
    pub last_status: String,
    pub last_error: Option<String>,
}

#[derive(Clone, Debug, PartialEq)]
pub struct TodoEvent {
    pub id: i32,
    pub kind: String,
    pub field: Option<String>,
    pub old_value: Option<String>,
    pub new_value: Option<String>,
    pub actor: String,
    pub occurred_at: String,
}

/// A pull request linked to a todo, with the link's relation.
#[derive(Clone, Debug, PartialEq)]
pub struct TodoPullRequest {
    pub pull_request_id: i32,
    pub relation: String,
    pub pull_request: Option<PullRequest>,
}

/// A Linear issue linked to a todo.
#[derive(Clone, Debug, PartialEq)]
pub struct TodoLinearIssue {
    pub linear_issue_id: i32,
    pub linear_issue: Option<LinearIssue>,
}

// ---- Connection wrappers ----

#[derive(Clone, Debug, PartialEq)]
pub struct TodoConnection {
    pub nodes: Vec<Todo>,
}

#[derive(Clone, Debug, PartialEq)]
pub struct TodoDayPlanConnection {
    pub nodes: Vec<PlanRow>,
}

#[derive(Clone, Debug, PartialEq)]
pub struct PullRequestConnection {
    pub nodes: Vec<PullRequest>,
}

#[derive(Clone, Debug, PartialEq)]
pub struct LinearIssueConnection {
    pub nodes: Vec<LinearIssue>,
}

#[derive(Clone, Debug, PartialEq)]
pub struct SyncStateConnection {
    pub nodes: Vec<SyncState>,
}

#[derive(Clone, Debug, PartialEq)]
pub struct TodoEventConnection {
    pub nodes: Vec<TodoEvent>,
}

/// Everything the client fetches in one round trip.
#[derive(Clone, Debug, PartialEq)]
pub struct FetchAll {
    pub todo: Vec<Todo>,
    pub plan: Vec<PlanRow>,
    pub pulls: Vec<PullRequest>,
    pub linears: Vec<LinearIssue>,
    pub sync: Vec<SyncState>,
}

// ---- Query inputs ----

#[derive(Clone, Copy, Debug, PartialEq, Eq)]
pub enum OrderByEnum {
    Asc,
    Desc,
}

#[derive(Clone, Debug, PartialEq)]
pub struct TextFilterInput {
    pub eq: Option<String>,
}

#[derive(Clone, Debug, PartialEq)]
pub struct IntegerFilterInput {
    pub eq: Option<i64>,
}

#[derive(Clone, Debug, PartialEq)]
pub struct TodoFilterInput {
    pub id: Option<IntegerFilterInput>,
}

#[derive(Clone, Debug, PartialEq)]
pub struct TodoDayPlanFilterInput {
    pub plan_date: Option<TextFilterInput>,
}

#[derive(Clone, Debug, PartialEq)]
pub struct TodoDayPlanOrderInput {
    pub position: Option<OrderByEnum>,
}

#[derive(Clone, Debug, PartialEq)]
pub struct PullRequestFilterInput {
    pub id: Option<IntegerFilterInput>,
}

#[derive(Clone, Debug, PartialEq)]
pub struct LinearIssueFilterInput {
    pub id: Option<IntegerFilterInput>,
}

#[derive(Clone, Debug, PartialEq)]
pub struct TodoEventFilterInput {
    pub todo_id: Option<IntegerFilterInput>,
}

#[derive(Clone, Debug, PartialEq)]
pub struct TodoEventOrderInput {
    pub occurred_at: Option<OrderByEnum>,
}

#[derive(Clone, Copy, Debug, PartialEq, Eq)]
pub enum TodoStatusEnum {
    Todo,
    Started,
    Blocked,
    Done,
    Cancelled,
}

/// How a pull request relates to the todo it is linked to.
#[derive(Clone, Copy, Debug, PartialEq, Eq, Structural)]
pub enum LinkRelation {
    Implements,
    Reviews,
    References,
}

/// The value the backend takes for a relation.
pub open spec fn relation_text(r: LinkRelation) -> Seq<char> {
    match r {
        LinkRelation::Implements => "implements"@,
        LinkRelation::Reviews => "reviews"@,
        LinkRelation::References => "references"@,
    }
}

impl LinkRelation {
    /// The value the backend takes for the relation.
    pub fn text(self) -> (r: &'static str)
        ensures
            r@ == relation_text(self),
    {
        match self {
            LinkRelation::Implements => "implements",
            LinkRelation::Reviews => "reviews",
            LinkRelation::References => "references",
        }
    }
}

#[derive(Clone, Debug, PartialEq)]
pub struct FetchAllVars {
    pub filters: Option<TodoFilterInput>,
    pub plan_filters: Option<TodoDayPlanFilterInput>,
    pub plan_order: Option<TodoDayPlanOrderInput>,
    pub pr_filters: Option<PullRequestFilterInput>,
    pub linear_filters: Option<LinearIssueFilterInput>,
}

impl Default for FetchAllVars {
    /// No filters; plan rows ordered by ascending position.
    fn default() -> (r: Self)
        ensures
            r.filters is None,
            r.plan_filters is None,
            r.plan_order == Some(TodoDayPlanOrderInput { position: Some(OrderByEnum::Asc) }),
            r.pr_filters is None,
            r.linear_filters is None,
    {
        FetchAllVars {
            filters: None,
            plan_filters: None,
            plan_order: Some(TodoDayPlanOrderInput { position: Some(OrderByEnum::Asc) }),
            pr_filters: None,
            linear_filters: None,
        }
    }
}

impl FetchAllVars {
    /// The variables of a full fetch for the plan of `date`: the default
    /// ordering, with plan rows restricted to that date.
    pub fn for_date(date: &str) -> (r: Self)
        ensures
            r.filters is None,
            r.plan_filters matches Some(f) && f.plan_date matches Some(t) && t.eq matches Some(d)
                && d@ == date@,
            r.plan_order == Some(TodoDayPlanOrderInput { position: Some(OrderByEnum::Asc) }),
            r.pr_filters is None,
            r.linear_filters is None,
    {
        let mut vars = FetchAllVars::default();
        vars.plan_filters = Some(
            TodoDayPlanFilterInput { plan_date: Some(TextFilterInput { eq: Some(owned(date)) }) },
        );
        vars
    }
}

#[derive(Clone, Debug, PartialEq)]
pub struct DailyReviewQuery {
    pub daily_review: DailyReview,
}

#[derive(Clone, Debug, PartialEq)]
pub struct DailyReviewVars {
    pub date: String,
}

#[derive(Clone, Debug, PartialEq)]
pub struct DailyReview {
    pub date: String,
    pub planned: Vec<Todo>,
    pub touched: Vec<Todo>,
    pub completed: Vec<Todo>,
    pub carried_over: Vec<Todo>,
}

// ---- Mutations ----

#[derive(Clone, Debug, PartialEq)]
pub struct CreateTodoMut {
    pub create_todo: Todo,
}

#[derive(Clone, Debug, PartialEq)]
pub struct CreateTodoVars {
    pub title: String,
    pub desc: Option<String>,
}

#[derive(Clone, Debug, PartialEq)]
pub struct UpdateTodoMut {
    pub update_todo: Todo,
}

#[derive(Clone, Debug, PartialEq)]
pub struct UpdateTodoVars {
    pub id: i64,
    pub title: Option<String>,
    pub desc: Option<String>,
}

#[derive(Clone, Debug, PartialEq)]
pub struct SetStatusMut {
    pub set_todo_status: Todo,
}

#[derive(Clone, Debug, PartialEq)]
pub struct SetStatusVars {
    pub id: i64,
    pub status: TodoStatusEnum,
    pub blocked: Option<String>,
}

/// The status a text names: `started`, `blocked`, `done` and `cancelled`
/// name themselves; anything else is `todo`.
pub open spec fn status_enum_of(status: Seq<char>) -> TodoStatusEnum {
    if status == "started"@ {
        TodoStatusEnum::Started
    } else if status == "blocked"@ {
        TodoStatusEnum::Blocked
    } else if status == "done"@ {
        TodoStatusEnum::Done
    } else if status == "cancelled"@ {
        TodoStatusEnum::Cancelled
    } else {
        TodoStatusEnum::Todo
    }
}

/// The enum value sent for a status text.
pub fn status_enum(status: &str) -> (r: TodoStatusEnum)
    ensures
        r == status_enum_of(status@),
{
    if crate::text::same_text(status, "started") {
        TodoStatusEnum::Started
    } else if crate::text::same_text(status, "blocked") {
        TodoStatusEnum::Blocked
    } else if crate::text::same_text(status, "done") {
        TodoStatusEnum::Done
    } else if crate::text::same_text(status, "cancelled") {
        TodoStatusEnum::Cancelled
    } else {
        TodoStatusEnum::Todo
    }
}

impl SetStatusVars {
    /// The variables of a status change.
    pub fn new(id: i64, status: &str, blocked: Option<&str>) -> (r: Self)
        ensures
            r.id == id,
            r.status == status_enum_of(status@),
            blocked is None ==> r.blocked is None,
            blocked matches Some(b) ==> (r.blocked matches Some(rb) && rb@ == b@),
    {
        let blocked = match blocked {
            Some(b) => Some(owned(b)),
            None => None,
        };
        SetStatusVars { id, status: status_enum(status), blocked }
    }
}

#[derive(Clone, Debug, PartialEq)]
pub struct PlanTodayMut {
    pub plan_for_today: TodoDayPlanModel,
}

#[derive(Clone, Debug, PartialEq)]
pub struct TodoDayPlanModel {
    pub id: i64,
}

#[derive(Clone, Debug, PartialEq)]
pub struct PlanTodayVars {
    pub todo_id: i64,
}

#[derive(Clone, Debug, PartialEq)]
pub struct UnplanMut {
    pub unplan_for_today: bool,
}

#[derive(Clone, Debug, PartialEq)]
pub struct UnplanVars {
    pub todo_id: i64,
}

#[derive(Clone, Debug, PartialEq)]
pub struct ReorderMut {
    pub reorder_day_plan: Vec<TodoDayPlanModel>,
}

#[derive(Clone, Debug, PartialEq)]
pub struct ReorderVars {
    pub date: String,
    pub todo_ids: Vec<i64>,
}

#[derive(Clone, Debug, PartialEq)]
pub struct CarryOverMut {
    pub carry_over_unfinished: Vec<TodoDayPlanModel>,
}

#[derive(Clone, Debug, PartialEq)]
pub struct CarryOverVars {
    pub from: String,
    pub to: String,
}

#[derive(Clone, Debug, PartialEq)]
pub struct AddTagMut {
    pub add_tag: Todo,
}

#[derive(Clone, Debug, PartialEq)]
pub struct TagVars {
    pub todo_id: i64,
    pub slug: String,
}

#[derive(Clone, Debug, PartialEq)]
pub struct RemoveTagMut {
    pub remove_tag: Todo,
}

#[derive(Clone, Debug, PartialEq)]
pub struct TodoFromPrMut {
    pub todo_from_pull_request: Todo,
}

#[derive(Clone, Debug, PartialEq)]
pub struct TodoFromPrVars {
    pub pr_id: i64,
    pub plan_today: bool,
}

#[derive(Clone, Debug, PartialEq)]
pub struct DismissPrMut {
    pub dismiss_pull_request: PullRequest,
}

#[derive(Clone, Debug, PartialEq)]
pub struct DismissPrVars {
    pub id: i64,
}

#[derive(Clone, Debug, PartialEq)]
pub struct TodoFromLinearMut {
    pub todo_from_linear_issue: Todo,
}

#[derive(Clone, Debug, PartialEq)]
pub struct TodoFromLinearVars {
    pub issue_id: i64,
    pub plan_today: bool,
}

#[derive(Clone, Debug, PartialEq)]
pub struct SyncGithubMut {
    pub sync_github: SyncState,
}

#[derive(Clone, Debug, PartialEq)]
pub struct SyncLinearMut {
    pub sync_linear: SyncState,
}

#[derive(Clone, Debug, PartialEq)]
pub struct TodoEventsQuery {
    pub todo_event: TodoEventConnection,
}

#[derive(Clone, Debug, PartialEq)]
pub struct TodoEventsVars {
    pub filters: Option<TodoEventFilterInput>,
    pub order: Option<TodoEventOrderInput>,
}

impl TodoEventsVars {
    /// The events of one todo, oldest first.
    pub fn new(todo_id: i64) -> (r: Self)
        ensures
            r.filters == Some(
                TodoEventFilterInput { todo_id: Some(IntegerFilterInput { eq: Some(todo_id) }) },
            ),
            r.order == Some(TodoEventOrderInput { occurred_at: Some(OrderByEnum::Asc) }),
    {
        TodoEventsVars {
            filters: Some(
                TodoEventFilterInput { todo_id: Some(IntegerFilterInput { eq: Some(todo_id) }) },
            ),
            order: Some(TodoEventOrderInput { occurred_at: Some(OrderByEnum::Asc) }),
        }
    }
}

} // verus!
