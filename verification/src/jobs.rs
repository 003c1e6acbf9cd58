//! Running a queued action against the backend. An action becomes a job:
//! the job names the backend calls to make one after another, and for each
//! reply says what the client is told (toasts, a refresh, fetched data, the
//! progress of a sync). Making the calls is left to the event loop.

use vstd::prelude::*;
use vstd::view::View as _;

use crate::app::{Action, App, ToastKind};
use crate::dates::{day_label, day_string};
use crate::gql::{DailyReview, FetchAll, LinkRelation, TodoEvent, TodoLinearIssue, TodoPullRequest};
use crate::msg::AppMsg;
use crate::text::{chars_of, owned, push_str, string_of};

verus! {

/// A backend call.
#[derive(Clone, Debug, PartialEq)]
pub enum Call {
    FetchAll { date: String },
    DailyReview { date: String },
    TodoEvents { id: i32 },
    TodoPullRequests { id: i32 },
    TodoLinearIssues { id: i32 },
    CreateTodo { title: String },
    UpdateTodo { id: i32, title: Option<String>, desc: Option<String> },
    SetStatus { id: i32, status: String, blocked: Option<String> },
    PlanToday { todo_id: i32 },
    Unplan { todo_id: i32 },
    Reorder { date: String, ids: Vec<i32> },
    CarryOver { from: String, to: String },
    AddTag { todo_id: i32, slug: String },
    RemoveTag { todo_id: i32, slug: String },
    LinkPr { todo_id: i32, pr_id: i32, relation: LinkRelation },
    UnlinkPr { todo_id: i32, pr_id: i32 },
    LinkLinear { todo_id: i32, issue_id: i32 },
    UnlinkLinear { todo_id: i32, issue_id: i32 },
    TodoFromPr { pr_id: i32, plan_today: bool },
    DismissPr { id: i32 },
    TodoFromLinear { issue_id: i32, plan_today: bool },
    SyncGithub,
    SyncLinear,
}

/// A call as values.
pub enum CallView {
    FetchAll { date: Seq<char> },
    DailyReview { date: Seq<char> },
    TodoEvents { id: i32 },
    TodoPullRequests { id: i32 },
    TodoLinearIssues { id: i32 },
    CreateTodo { title: Seq<char> },
    UpdateTodo { id: i32, title: Option<Seq<char>>, desc: Option<Seq<char>> },
    SetStatus { id: i32, status: Seq<char>, blocked: Option<Seq<char>> },
    PlanToday { todo_id: i32 },
    Unplan { todo_id: i32 },
    Reorder { date: Seq<char>, ids: Seq<i32> },
    CarryOver { from: Seq<char>, to: Seq<char> },
    AddTag { todo_id: i32, slug: Seq<char> },
    RemoveTag { todo_id: i32, slug: Seq<char> },
    LinkPr { todo_id: i32, pr_id: i32, relation: LinkRelation },
    UnlinkPr { todo_id: i32, pr_id: i32 },
    LinkLinear { todo_id: i32, issue_id: i32 },
    UnlinkLinear { todo_id: i32, issue_id: i32 },
    TodoFromPr { pr_id: i32, plan_today: bool },
    DismissPr { id: i32 },
    TodoFromLinear { issue_id: i32, plan_today: bool },
    SyncGithub,
    SyncLinear,
}

impl Call {
    pub open spec fn view(&self) -> CallView {
        match self {
            Call::FetchAll { date } => CallView::FetchAll { date: date@ },
            Call::DailyReview { date } => CallView::DailyReview { date: date@ },
            Call::TodoEvents { id } => CallView::TodoEvents { id: *id },
            Call::TodoPullRequests { id } => CallView::TodoPullRequests { id: *id },
            Call::TodoLinearIssues { id } => CallView::TodoLinearIssues { id: *id },
            Call::CreateTodo { title } => CallView::CreateTodo { title: title@ },
            Call::UpdateTodo { id, title, desc } => CallView::UpdateTodo {
                id: *id,
                title: crate::app::opt_view(*title),
                desc: crate::app::opt_view(*desc),
            },
            Call::SetStatus { id, status, blocked } => CallView::SetStatus {
                id: *id,
                status: status@,
                blocked: crate::app::opt_view(*blocked),
            },
            Call::PlanToday { todo_id } => CallView::PlanToday { todo_id: *todo_id },
            Call::Unplan { todo_id } => CallView::Unplan { todo_id: *todo_id },
            Call::Reorder { date, ids } => CallView::Reorder { date: date@, ids: ids@ },
            Call::CarryOver { from, to } => CallView::CarryOver { from: from@, to: to@ },
            Call::AddTag { todo_id, slug } => CallView::AddTag { todo_id: *todo_id, slug: slug@ },
            Call::RemoveTag { todo_id, slug } => CallView::RemoveTag { todo_id: *todo_id, slug: slug@ },
            Call::LinkPr { todo_id, pr_id, relation } => CallView::LinkPr {
                todo_id: *todo_id,
                pr_id: *pr_id,
                relation: *relation,
            },
            Call::UnlinkPr { todo_id, pr_id } => CallView::UnlinkPr { todo_id: *todo_id, pr_id: *pr_id },
            Call::LinkLinear { todo_id, issue_id } => CallView::LinkLinear {
                todo_id: *todo_id,
                issue_id: *issue_id,
            },
            Call::UnlinkLinear { todo_id, issue_id } => CallView::UnlinkLinear {
                todo_id: *todo_id,
                issue_id: *issue_id,
            },
            Call::TodoFromPr { pr_id, plan_today } => CallView::TodoFromPr {
                pr_id: *pr_id,
                plan_today: *plan_today,
            },
            Call::DismissPr { id } => CallView::DismissPr { id: *id },
            Call::TodoFromLinear { issue_id, plan_today } => CallView::TodoFromLinear {
                issue_id: *issue_id,
                plan_today: *plan_today,
            },
            Call::SyncGithub => CallView::SyncGithub,
            Call::SyncLinear => CallView::SyncLinear,
        }
    }
}

/// What a call gave back.
#[derive(Clone, Debug, PartialEq)]
pub enum Reply {
    /// Succeeded with nothing the client reads.
    Done,
    /// A todo was created (or returned) with this id.
    Created { id: i32 },
    All(FetchAll),
    Review(DailyReview),
    Events(Vec<TodoEvent>),
    PullRequests(Vec<TodoPullRequest>),
    LinearIssues(Vec<TodoLinearIssue>),
    /// Failed, with the error's text.
    Failed(String),
}

/// A message as values.
pub enum MsgView {
    FetchAll { generation: u64, data: FetchAll },
    DailyReview { generation: u64, review: DailyReview },
    DetailData {
        generation: u64,
        id: i32,
        events: Seq<TodoEvent>,
        prs: Seq<TodoPullRequest>,
        linears: Seq<TodoLinearIssue>,
    },
    Toast(ToastKind, Seq<char>),
    Refresh,
    SyncStarted { source: Seq<char> },
    SyncDone { source: Seq<char>, success: bool },
}

/// A message's value.
pub open spec fn msg_view(m: AppMsg) -> MsgView {
    match m {
        AppMsg::FetchAll { generation, data } => MsgView::FetchAll { generation, data },
        AppMsg::DailyReview { generation, review } => MsgView::DailyReview { generation, review },
        AppMsg::DetailData { generation, id, events, prs, linears } => MsgView::DetailData {
            generation,
            id,
            events: events@,
            prs: prs@,
            linears: linears@,
        },
        AppMsg::Toast(kind, text) => MsgView::Toast(kind, text@),
        AppMsg::Refresh => MsgView::Refresh,
        AppMsg::SyncStarted { source } => MsgView::SyncStarted { source: source@ },
        AppMsg::SyncDone { source, success } => MsgView::SyncDone { source: source@, success },
    }
}

/// The values of a list of messages.
pub open spec fn msgs_view(v: Seq<AppMsg>) -> Seq<MsgView> {
    v.map_values(|m: AppMsg| msg_view(m))
}

/// A queued action being run: the action, the generation and day it was
/// started for, how many calls were answered, the todo a creation made, the
/// detail gathered so far, the first failure met, and whether it is over.
pub struct Job {
    pub action: Action,
    pub generation: u64,
    pub day: String,
    pub step: usize,
    pub created: Option<i32>,
    pub events: Vec<TodoEvent>,
    pub prs: Vec<TodoPullRequest>,
    pub failure: Option<String>,
    pub finished: bool,
}

/// The success toast of an action answered by one call, if it has one.
pub open spec fn success_text(a: Action) -> Option<Seq<char>> {
    match a {
        Action::UpdateTodo { .. } => Some("saved"@),
        Action::SetStatus { .. } => Some("status set"@),
        Action::PlanToday { .. } => Some("planned for today"@),
        Action::Unplan { .. } => Some("unplanned"@),
        Action::CarryOver { .. } => Some("carried over"@),
        Action::AddTag { .. } => Some("tag added"@),
        Action::RemoveTag { .. } => Some("tag removed"@),
        Action::LinkPr { .. } => Some("pr linked"@),
        Action::UnlinkPr { .. } => Some("pr detached"@),
        Action::LinkLinear { .. } => Some("issue linked"@),
        Action::UnlinkLinear { .. } => Some("issue detached"@),
        Action::TodoFromPr { .. } => Some("converted to todo"@),
        Action::DismissPr { .. } => Some("dismissed"@),
        Action::TodoFromLinear { .. } => Some("converted to todo"@),
        _ => None,
    }
}

/// Actions whose failure is not reported.
pub open spec fn quiet_failure(a: Action) -> bool {
    match a {
        Action::Unplan { .. } | Action::UnlinkPr { .. } | Action::UnlinkLinear { .. }
        | Action::DismissPr { .. } | Action::Reorder { .. } => true,
        _ => false,
    }
}

/// How many calls follow the creation of the add form's todo: setting the
/// description when there is one, linking each pending pull request, and
/// planning it when asked.
pub open spec fn follow_ups(desc: Seq<char>, prs: Seq<i32>, plan: bool) -> nat {
    (if desc.len() > 0 { 1nat } else { 0nat }) + prs.len() + (if plan { 1nat } else { 0nat })
}

/// The `k`-th call after creating the add form's todo `id`.
pub open spec fn follow_up_call(id: i32, desc: Seq<char>, prs: Seq<i32>, plan: bool, k: int) -> Option<CallView> {
    let d: int = if desc.len() > 0 { 1 } else { 0 };
    if k < 0 {
        None
    } else if k < d {
        Some(CallView::UpdateTodo { id, title: None, desc: Some(desc) })
    } else if k - d < prs.len() {
        Some(CallView::LinkPr { todo_id: id, pr_id: prs[k - d], relation: LinkRelation::References })
    } else if k - d == prs.len() && plan {
        Some(CallView::PlanToday { todo_id: id })
    } else {
        None
    }
}

/// The call a job makes next, or none when it is over.
pub open spec fn next_call_spec(j: Job) -> Option<CallView> {
    if j.finished {
        None
    } else {
        match j.action {
            Action::Refresh => if j.step == 0 {
                Some(CallView::FetchAll { date: j.day@ })
            } else {
                None
            },
            Action::CreateTodo { title, plan_today } => if j.step == 0 {
                Some(CallView::CreateTodo { title: title@ })
            } else if j.step == 1 && plan_today && j.created is Some {
                Some(CallView::PlanToday { todo_id: j.created->0 })
            } else {
                None
            },
            Action::SidebarAddCreate { title, desc, pending_prs, plan_after } => if j.step == 0 {
                Some(CallView::CreateTodo { title: title@ })
            } else {
                match j.created {
                    Some(id) => follow_up_call(id, desc@, pending_prs@, plan_after, j.step - 1),
                    None => None,
                }
            },
            Action::FetchDetail { id } => if j.step == 0 {
                Some(CallView::TodoEvents { id })
            } else if j.step == 1 {
                Some(CallView::TodoPullRequests { id })
            } else if j.step == 2 {
                Some(CallView::TodoLinearIssues { id })
            } else {
                None
            },
            Action::SyncAll => if j.step == 0 {
                Some(CallView::SyncLinear)
            } else if j.step == 1 {
                Some(CallView::SyncGithub)
            } else {
                None
            },
            _ => if j.step == 0 {
                one_call(j.action)
            } else {
                None
            },
        }
    }
}

/// The single call of an action answered by one call.
pub open spec fn one_call(a: Action) -> Option<CallView> {
    match a {
        Action::UpdateTodo { id, title, desc } => Some(
            CallView::UpdateTodo { id, title: crate::app::opt_view(title), desc: crate::app::opt_view(desc) },
        ),
        Action::SetStatus { id, status, blocked } => Some(
            CallView::SetStatus { id, status: status@, blocked: crate::app::opt_view(blocked) },
        ),
        Action::PlanToday { todo_id } => Some(CallView::PlanToday { todo_id }),
        Action::Unplan { todo_id } => Some(CallView::Unplan { todo_id }),
        Action::Reorder { date, ids } => Some(CallView::Reorder { date: date@, ids: ids@ }),
        Action::CarryOver { from, to } => Some(CallView::CarryOver { from: from@, to: to@ }),
        Action::AddTag { todo_id, slug } => Some(CallView::AddTag { todo_id, slug: slug@ }),
        Action::RemoveTag { todo_id, slug } => Some(CallView::RemoveTag { todo_id, slug: slug@ }),
        Action::LinkPr { todo_id, pr_id } => Some(CallView::LinkPr { todo_id, pr_id, relation: LinkRelation::References }),
        Action::UnlinkPr { todo_id, pr_id } => Some(CallView::UnlinkPr { todo_id, pr_id }),
        Action::LinkLinear { todo_id, issue_id } => Some(CallView::LinkLinear { todo_id, issue_id }),
        Action::UnlinkLinear { todo_id, issue_id } => Some(CallView::UnlinkLinear { todo_id, issue_id }),
        Action::TodoFromPr { pr_id, plan_today } => Some(CallView::TodoFromPr { pr_id, plan_today }),
        Action::DismissPr { id } => Some(CallView::DismissPr { id }),
        Action::TodoFromLinear { issue_id, plan_today } => Some(CallView::TodoFromLinear { issue_id, plan_today }),
        Action::SyncGithub => Some(CallView::SyncGithub),
        Action::SyncLinear => Some(CallView::SyncLinear),
        Action::FetchReview { date } => Some(CallView::DailyReview { date: date@ }),
        _ => None,
    }
}

/// The messages sent when a job starts: a sync reports that it started.
pub open spec fn start_msgs(a: Action) -> Seq<MsgView> {
    match a {
        Action::SyncGithub => seq![MsgView::SyncStarted { source: "github"@ }],
        Action::SyncLinear => seq![MsgView::SyncStarted { source: "linear"@ }],
        Action::SyncAll => seq![
            MsgView::SyncStarted { source: "linear"@ },
            MsgView::SyncStarted { source: "github"@ },
        ],
        _ => Seq::empty(),
    }
}

/// The error toast of a failed reply, if it failed.
pub open spec fn error_toast(r: Reply) -> Seq<MsgView> {
    match r {
        Reply::Failed(e) => seq![MsgView::Toast(ToastKind::Error, e@)],
        _ => Seq::empty(),
    }
}

/// The end of a sync: whether it succeeded, and the error toast.
pub open spec fn sync_done(source: Seq<char>, r: Reply) -> Seq<MsgView> {
    seq![MsgView::SyncDone { source, success: !(r is Failed) }] + error_toast(r)
}

/// A creation's report: the success toast and a refresh.
pub open spec fn created_msgs() -> Seq<MsgView> {
    seq![MsgView::Toast(ToastKind::Success, "todo created"@), MsgView::Refresh]
}

/// The messages for the reply to a job's next call.
pub open spec fn reply_msgs(j: Job, r: Reply) -> Seq<MsgView> {
    match j.action {
        Action::Refresh => match r {
            Reply::All(d) => seq![MsgView::FetchAll { generation: j.generation, data: d }],
            _ => error_toast(r),
        },
        Action::CreateTodo { plan_today, .. } => if j.step == 0 {
            match r {
                Reply::Failed(e) => seq![MsgView::Toast(ToastKind::Error, e@)],
                Reply::Created { .. } => if plan_today {
                    Seq::empty()
                } else {
                    created_msgs()
                },
                _ => created_msgs(),
            }
        } else {
            match r {
                Reply::Failed(e) => seq![MsgView::Toast(ToastKind::Error, "plan failed: "@ + e@)]
                    + created_msgs(),
                _ => created_msgs(),
            }
        },
        Action::SidebarAddCreate { desc, pending_prs, plan_after, .. } => match r {
            Reply::Failed(e) => if j.step == 0 {
                seq![MsgView::Toast(ToastKind::Error, e@)]
            } else if j.step >= follow_ups(desc@, pending_prs@, plan_after) {
                created_msgs()
            } else {
                Seq::empty()
            },
            Reply::Created { .. } => if j.step == 0 && follow_ups(desc@, pending_prs@, plan_after) > 0 {
                Seq::empty()
            } else if j.step >= follow_ups(desc@, pending_prs@, plan_after) {
                created_msgs()
            } else {
                Seq::empty()
            },
            _ => if j.step >= follow_ups(desc@, pending_prs@, plan_after) || j.step == 0 {
                created_msgs()
            } else {
                Seq::empty()
            },
        },
        Action::FetchDetail { id } => if j.step < 2 {
            Seq::empty()
        } else {
            match (j.failure, r) {
                (Some(e), _) => seq![MsgView::Toast(ToastKind::Error, e@)],
                (None, Reply::Failed(e)) => seq![MsgView::Toast(ToastKind::Error, e@)],
                (None, Reply::LinearIssues(l)) => seq![
                    MsgView::DetailData {
                        generation: j.generation,
                        id,
                        events: j.events@,
                        prs: j.prs@,
                        linears: l@,
                    },
                ],
                _ => seq![
                    MsgView::DetailData {
                        generation: j.generation,
                        id,
                        events: j.events@,
                        prs: j.prs@,
                        linears: Seq::empty(),
                    },
                ],
            }
        },
        Action::FetchReview { .. } => match r {
            Reply::Review(rv) => seq![MsgView::DailyReview { generation: j.generation, review: rv }],
            _ => error_toast(r),
        },
        Action::SyncGithub => sync_done("github"@, r),
        Action::SyncLinear => sync_done("linear"@, r),
        Action::SyncAll => if j.step == 0 {
            sync_done("linear"@, r)
        } else {
            sync_done("github"@, r)
        },
        Action::Reorder { .. } => match r {
            Reply::Failed(_) => Seq::empty(),
            _ => seq![MsgView::Refresh],
        },
        Action::OpenUrl { .. } => Seq::empty(),
        _ => match r {
            Reply::Failed(e) => if quiet_failure(j.action) {
                Seq::empty()
            } else {
                seq![MsgView::Toast(ToastKind::Error, e@)]
            },
            _ => seq![MsgView::Toast(ToastKind::Success, success_text(j.action)->0), MsgView::Refresh],
        },
    }
}

/// Whether a job is over after the reply to its next call.
pub open spec fn ends_after(j: Job, r: Reply) -> bool {
    match j.action {
        Action::CreateTodo { plan_today, .. } => j.step >= 1 || r is Failed || !plan_today
            || !(r is Created),
        Action::SidebarAddCreate { desc, pending_prs, plan_after, .. } => if j.step == 0 {
            !(r is Created) || follow_ups(desc@, pending_prs@, plan_after) == 0
        } else {
            j.step >= follow_ups(desc@, pending_prs@, plan_after)
        },
        Action::FetchDetail { .. } => j.step >= 2,
        Action::SyncAll => j.step >= 1,
        _ => true,
    }
}

/// The job after the reply to its next call: one more call answered, the
/// created todo kept, the detail gathered (and handed over in the last
/// message), the first failure of a detail fetch kept, and whether it is
/// over.
pub open spec fn after_reply(j: Job, r: Reply) -> (nat, Option<i32>, Seq<TodoEvent>, Seq<TodoPullRequest>, Option<Seq<char>>, bool) {
    let created = match r {
        Reply::Created { id } => if j.step == 0 && (j.action is CreateTodo || j.action is SidebarAddCreate) {
            Some(id)
        } else {
            j.created
        },
        _ => j.created,
    };
    let detail = j.action is FetchDetail;
    let events = if detail && j.step >= 2 {
        Seq::empty()
    } else {
        match r {
            Reply::Events(v) => if detail && j.step == 0 { v@ } else { j.events@ },
            _ => j.events@,
        }
    };
    let prs = if detail && j.step >= 2 {
        Seq::empty()
    } else {
        match r {
            Reply::PullRequests(v) => if detail && j.step == 1 { v@ } else { j.prs@ },
            _ => j.prs@,
        }
    };
    let failure = match (j.failure, r) {
        (None, Reply::Failed(e)) => if detail && j.step < 2 { Some(e@) } else { None },
        _ => crate::app::opt_view(j.failure),
    };
    ((j.step + 1) as nat, created, events, prs, failure, ends_after(j, r))
}

/// The state of a job as values, in the order of [`after_reply`].
pub open spec fn job_state(j: Job) -> (nat, Option<i32>, Seq<TodoEvent>, Seq<TodoPullRequest>, Option<Seq<char>>, bool) {
    (j.step as nat, j.created, j.events@, j.prs@, crate::app::opt_view(j.failure), j.finished)
}

/// Starts running an action queued in the client state: the job and the
/// messages to send at once.
pub fn start_job(app: &App, action: Action) -> (r: (Job, Vec<AppMsg>))
    ensures
        r.0.action == action,
        r.0.generation == app.generation,
        r.0.day@ == day_label(app.logical_date as int),
        job_state(r.0) == (0nat, None::<i32>, Seq::<TodoEvent>::empty(), Seq::<TodoPullRequest>::empty(), None::<Seq<char>>, false),
        msgs_view(r.1@) == start_msgs(action),
{
    let mut msgs: Vec<AppMsg> = Vec::new();
    match &action {
        Action::SyncGithub => {
            msgs.push(AppMsg::SyncStarted { source: owned("github") });
        },
        Action::SyncLinear => {
            msgs.push(AppMsg::SyncStarted { source: owned("linear") });
        },
        Action::SyncAll => {
            msgs.push(AppMsg::SyncStarted { source: owned("linear") });
            msgs.push(AppMsg::SyncStarted { source: owned("github") });
        },
        _ => {},
    }
    assert(msgs_view(msgs@) =~= start_msgs(action));
    let job = Job {
        action,
        generation: app.generation,
        day: day_string(app.logical_date),
        step: 0,
        created: None,
        events: Vec::new(),
        prs: Vec::new(),
        failure: None,
        finished: false,
    };
    assert(job_state(job) =~= (0nat, None::<i32>, Seq::<TodoEvent>::empty(), Seq::<TodoPullRequest>::empty(), None::<Seq<char>>, false));
    (job, msgs)
}

fn opt_clone(o: &Option<String>) -> (r: Option<String>)
    ensures
        crate::app::opt_view(r) == crate::app::opt_view(*o),
{
    match o {
        Some(s) => Some(owned(s.as_str())),
        None => None,
    }
}

fn copy_ids(v: &Vec<i32>) -> (r: Vec<i32>)
    ensures
        r@ == v@,
{
    let mut out: Vec<i32> = Vec::new();
    let mut i: usize = 0;
    while i < v.len()
        invariant
            i <= v.len(),
            out@ == v@.take(i as int),
        decreases v.len() - i,
    {
        out.push(v[i]);
        assert(v@.take(i + 1) =~= v@.take(i as int).push(v@[i as int]));
        i += 1;
    }
    assert(v@.take(v.len() as int) =~= v@);
    out
}

fn single_call(a: &Action) -> (r: Option<Call>)
    ensures
        match r {
            Some(c) => one_call(*a) == Some(c.view()),
            None => one_call(*a) is None,
        },
{
    match a {
        Action::UpdateTodo { id, title, desc } => Some(
            Call::UpdateTodo { id: *id, title: opt_clone(title), desc: opt_clone(desc) },
        ),
        Action::SetStatus { id, status, blocked } => Some(
            Call::SetStatus { id: *id, status: owned(status.as_str()), blocked: opt_clone(blocked) },
        ),
        Action::PlanToday { todo_id } => Some(Call::PlanToday { todo_id: *todo_id }),
        Action::Unplan { todo_id } => Some(Call::Unplan { todo_id: *todo_id }),
        Action::Reorder { date, ids } => Some(Call::Reorder { date: owned(date.as_str()), ids: copy_ids(ids) }),
        Action::CarryOver { from, to } => Some(Call::CarryOver { from: owned(from.as_str()), to: owned(to.as_str()) }),
        Action::AddTag { todo_id, slug } => Some(Call::AddTag { todo_id: *todo_id, slug: owned(slug.as_str()) }),
        Action::RemoveTag { todo_id, slug } => Some(Call::RemoveTag { todo_id: *todo_id, slug: owned(slug.as_str()) }),
        Action::LinkPr { todo_id, pr_id } => Some(
            Call::LinkPr { todo_id: *todo_id, pr_id: *pr_id, relation: LinkRelation::References },
        ),
        Action::UnlinkPr { todo_id, pr_id } => Some(Call::UnlinkPr { todo_id: *todo_id, pr_id: *pr_id }),
        Action::LinkLinear { todo_id, issue_id } => Some(Call::LinkLinear { todo_id: *todo_id, issue_id: *issue_id }),
        Action::UnlinkLinear { todo_id, issue_id } => Some(Call::UnlinkLinear { todo_id: *todo_id, issue_id: *issue_id }),
        Action::TodoFromPr { pr_id, plan_today } => Some(Call::TodoFromPr { pr_id: *pr_id, plan_today: *plan_today }),
        Action::DismissPr { id } => Some(Call::DismissPr { id: *id }),
        Action::TodoFromLinear { issue_id, plan_today } => Some(Call::TodoFromLinear { issue_id: *issue_id, plan_today: *plan_today }),
        Action::SyncGithub => Some(Call::SyncGithub),
        Action::SyncLinear => Some(Call::SyncLinear),
        Action::FetchReview { date } => Some(Call::DailyReview { date: owned(date.as_str()) }),
        _ => None,
    }
}

/// The call a job makes next, or none when it is over.
pub fn next_call(j: &Job) -> (r: Option<Call>)
    ensures
        match r {
            Some(c) => next_call_spec(*j) == Some(c.view()),
            None => next_call_spec(*j) is None,
        },
{
    if j.finished {
        return None;
    }
    match &j.action {
        Action::Refresh => if j.step == 0 {
            Some(Call::FetchAll { date: owned(j.day.as_str()) })
        } else {
            None
        },
        Action::CreateTodo { title, plan_today } => if j.step == 0 {
            Some(Call::CreateTodo { title: owned(title.as_str()) })
        } else if j.step == 1 && *plan_today {
            match j.created {
                Some(id) => Some(Call::PlanToday { todo_id: id }),
                None => None,
            }
        } else {
            None
        },
        Action::SidebarAddCreate { title, desc, pending_prs, plan_after } => {
            if j.step == 0 {
                return Some(Call::CreateTodo { title: owned(title.as_str()) });
            }
            let id = match j.created {
                Some(id) => id,
                None => {
                    return None;
                },
            };
            let k = j.step - 1;
            let d: usize = if chars_of(desc.as_str()).len() > 0 {
                1
            } else {
                0
            };
            if k < d {
                Some(Call::UpdateTodo { id, title: None, desc: Some(owned(desc.as_str())) })
            } else if k - d < pending_prs.len() {
                Some(Call::LinkPr { todo_id: id, pr_id: pending_prs[k - d], relation: LinkRelation::References })
            } else if k - d == pending_prs.len() && *plan_after {
                Some(Call::PlanToday { todo_id: id })
            } else {
                None
            }
        },
        Action::FetchDetail { id } => if j.step == 0 {
            Some(Call::TodoEvents { id: *id })
        } else if j.step == 1 {
            Some(Call::TodoPullRequests { id: *id })
        } else if j.step == 2 {
            Some(Call::TodoLinearIssues { id: *id })
        } else {
            None
        },
        Action::SyncAll => if j.step == 0 {
            Some(Call::SyncLinear)
        } else if j.step == 1 {
            Some(Call::SyncGithub)
        } else {
            None
        },
        _ => if j.step == 0 {
            single_call(&j.action)
        } else {
            None
        },
    }
}

fn toast(kind: ToastKind, text: &str) -> (m: AppMsg)
    ensures
        msg_view(m) == MsgView::Toast(kind, text@),
{
    AppMsg::Toast(kind, owned(text))
}

fn push_created(msgs: &mut Vec<AppMsg>)
    ensures
        msgs_view(final(msgs)@) == msgs_view(old(msgs)@) + created_msgs(),
{
    msgs.push(toast(ToastKind::Success, "todo created"));
    msgs.push(AppMsg::Refresh);
    assert(msgs_view(msgs@) =~= msgs_view(old(msgs)@) + created_msgs());
}

fn push_error(msgs: &mut Vec<AppMsg>, r: &Reply)
    ensures
        msgs_view(final(msgs)@) == msgs_view(old(msgs)@) + error_toast(*r),
{
    match r {
        Reply::Failed(e) => {
            msgs.push(toast(ToastKind::Error, e.as_str()));
        },
        _ => {},
    }
    assert(msgs_view(msgs@) =~= msgs_view(old(msgs)@) + error_toast(*r));
}

fn push_sync_done(msgs: &mut Vec<AppMsg>, source: &str, r: &Reply)
    ensures
        msgs_view(final(msgs)@) == msgs_view(old(msgs)@) + sync_done(source@, *r),
{
    let success = match r {
        Reply::Failed(_) => false,
        _ => true,
    };
    msgs.push(AppMsg::SyncDone { source: owned(source), success });
    push_error(msgs, r);
    assert(msgs_view(msgs@) =~= msgs_view(old(msgs)@) + sync_done(source@, *r));
}

fn success_str(a: &Action) -> (r: &'static str)
    requires
        success_text(*a) is Some,
    ensures
        r@ == success_text(*a)->0,
{
    match a {
        Action::UpdateTodo { .. } => "saved",
        Action::SetStatus { .. } => "status set",
        Action::PlanToday { .. } => "planned for today",
        Action::Unplan { .. } => "unplanned",
        Action::CarryOver { .. } => "carried over",
        Action::AddTag { .. } => "tag added",
        Action::RemoveTag { .. } => "tag removed",
        Action::LinkPr { .. } => "pr linked",
        Action::UnlinkPr { .. } => "pr detached",
        Action::LinkLinear { .. } => "issue linked",
        Action::UnlinkLinear { .. } => "issue detached",
        Action::TodoFromPr { .. } => "converted to todo",
        Action::DismissPr { .. } => "dismissed",
        Action::TodoFromLinear { .. } => "converted to todo",
        _ => "",
    }
}

fn follow_up_count(desc: &String, prs: &Vec<i32>, plan: bool) -> (r: usize)
    requires
        prs@.len() + 2 < usize::MAX,
    ensures
        r == follow_ups(desc@, prs@, plan),
{
    let d: usize = if chars_of(desc.as_str()).len() > 0 {
        1
    } else {
        0
    };
    let p: usize = if plan {
        1
    } else {
        0
    };
    d + prs.len() + p
}

fn ends(j: &Job, r: &Reply) -> (b: bool)
    requires
        match j.action {
            Action::SidebarAddCreate { pending_prs, .. } => pending_prs@.len() + 2 < usize::MAX,
            _ => true,
        },
    ensures
        b == ends_after(*j, *r),
{
    match &j.action {
        Action::CreateTodo { plan_today, .. } => {
            let created = match r {
                Reply::Created { .. } => true,
                _ => false,
            };
            j.step >= 1 || !*plan_today || !created
        },
        Action::SidebarAddCreate { desc, pending_prs, plan_after, .. } => {
            let f = follow_up_count(desc, pending_prs, *plan_after);
            if j.step == 0 {
                let created = match r {
                    Reply::Created { .. } => true,
                    _ => false,
                };
                !created || f == 0
            } else {
                j.step >= f
            }
        },
        Action::FetchDetail { .. } => j.step >= 2,
        Action::SyncAll => j.step >= 1,
        _ => true,
    }
}

/// Takes the reply to a job's next call: the messages to send, and the job
/// moved on.
pub fn take_reply(j: &mut Job, r: Reply) -> (m: Vec<AppMsg>)
    requires
        old(j).step < usize::MAX,
        match old(j).action {
            Action::SidebarAddCreate { pending_prs, .. } => pending_prs@.len() + 2 < usize::MAX,
            _ => true,
        },
    ensures
        msgs_view(m@) == reply_msgs(*old(j), r),
        job_state(*final(j)) == after_reply(*old(j), r),
        final(j).action == old(j).action,
        final(j).generation == old(j).generation,
        final(j).day == old(j).day,
{
    let ghost j0 = *j;
    let ghost want = reply_msgs(*j, r);
    let done = ends(j, &r);
    let step = j.step;
    let mut action = Action::Refresh;
    std::mem::swap(&mut action, &mut j.action);
    let mut msgs: Vec<AppMsg> = Vec::new();
    assert(msgs_view(msgs@) =~= Seq::<MsgView>::empty());
    let detail = match &action {
        Action::FetchDetail { .. } => true,
        _ => false,
    };
    let starts = match &action {
        Action::CreateTodo { .. } | Action::SidebarAddCreate { .. } => true,
        _ => false,
    };
    match &r {
        Reply::Created { id } => {
            if step == 0 && starts {
                j.created = Some(*id);
            }
        },
        Reply::Failed(e) => {
            if detail && step < 2 && j.failure.is_none() {
                j.failure = Some(owned(e.as_str()));
            }
        },
        _ => {},
    }
    let mut events: Vec<TodoEvent> = Vec::new();
    let mut prs: Vec<TodoPullRequest> = Vec::new();
    if detail && step >= 2 {
        std::mem::swap(&mut events, &mut j.events);
        std::mem::swap(&mut prs, &mut j.prs);
    }
    match &action {
        Action::Refresh => match r {
            Reply::All(d) => {
                msgs.push(AppMsg::FetchAll { generation: j.generation, data: d });
                assert(msgs_view(msgs@) =~= want);
            },
            other => {
                push_error(&mut msgs, &other);
                assert(msgs_view(msgs@) =~= want);
            },
        },
        Action::CreateTodo { plan_today, .. } => {
            if step == 0 {
                match &r {
                    Reply::Failed(e) => {
                        msgs.push(toast(ToastKind::Error, e.as_str()));
                    },
                    Reply::Created { .. } => {
                        if !*plan_today {
                            push_created(&mut msgs);
                        }
                    },
                    _ => push_created(&mut msgs),
                }
            } else {
                match &r {
                    Reply::Failed(e) => {
                        let mut t: Vec<char> = Vec::new();
                        push_str(&mut t, "plan failed: ");
                        push_str(&mut t, e.as_str());
                        let text = string_of(t.as_slice());
                        msgs.push(toast(ToastKind::Error, text.as_str()));
                        push_created(&mut msgs);
                    },
                    _ => push_created(&mut msgs),
                }
            }
            assert(msgs_view(msgs@) =~= want);
        },
        Action::SidebarAddCreate { desc, pending_prs, plan_after, .. } => {
            let f = follow_up_count(desc, pending_prs, *plan_after);
            match &r {
                Reply::Failed(e) => {
                    if step == 0 {
                        msgs.push(toast(ToastKind::Error, e.as_str()));
                    } else if step >= f {
                        push_created(&mut msgs);
                    }
                },
                Reply::Created { .. } => {
                    if step == 0 && f > 0 {
                    } else if step >= f {
                        push_created(&mut msgs);
                    }
                },
                _ => {
                    if step >= f || step == 0 {
                        push_created(&mut msgs);
                    }
                },
            }
            assert(msgs_view(msgs@) =~= want);
        },
        Action::FetchDetail { id } => {
            if step < 2 {
                match r {
                    Reply::Events(v) => {
                        if step == 0 {
                            j.events = v;
                        }
                    },
                    Reply::PullRequests(v) => {
                        if step == 1 {
                            j.prs = v;
                        }
                    },
                    _ => {},
                }
            } else {
                match &j.failure {
                    Some(e) => {
                        msgs.push(toast(ToastKind::Error, e.as_str()));
                    },
                    None => match r {
                        Reply::Failed(e) => {
                            msgs.push(toast(ToastKind::Error, e.as_str()));
                        },
                        Reply::LinearIssues(l) => {
                            msgs.push(AppMsg::DetailData { generation: j.generation, id: *id, events, prs, linears: l });
                        },
                        _ => {
                            msgs.push(AppMsg::DetailData { generation: j.generation, id: *id, events, prs, linears: Vec::new() });
                        },
                    },
                }
            }
            assert(msgs_view(msgs@) =~= want);
        },
        Action::FetchReview { .. } => match r {
            Reply::Review(rv) => {
                msgs.push(AppMsg::DailyReview { generation: j.generation, review: rv });
            },
            other => push_error(&mut msgs, &other),
        },
        Action::SyncGithub => {
            push_sync_done(&mut msgs, "github", &r);
            assert(msgs_view(msgs@) =~= want);
        },
        Action::SyncLinear => {
            push_sync_done(&mut msgs, "linear", &r);
            assert(msgs_view(msgs@) =~= want);
        },
        Action::SyncAll => {
            if step == 0 {
                push_sync_done(&mut msgs, "linear", &r);
            } else {
                push_sync_done(&mut msgs, "github", &r);
            }
        },
        Action::Reorder { .. } => match &r {
            Reply::Failed(_) => {},
            _ => {
                msgs.push(AppMsg::Refresh);
            },
        },
        Action::OpenUrl { .. } => {},
        _ => match &r {
            Reply::Failed(e) => {
                let quiet = match &action {
                    Action::Unplan { .. } | Action::UnlinkPr { .. } | Action::UnlinkLinear { .. }
                    | Action::DismissPr { .. } | Action::Reorder { .. } => true,
                    _ => false,
                };
                if !quiet {
                    msgs.push(toast(ToastKind::Error, e.as_str()));
                }
            },
            _ => {
                let ghost a = action;
                assert(success_text(a) is Some);
                msgs.push(toast(ToastKind::Success, success_str(&action)));
                msgs.push(AppMsg::Refresh);
                assert(msgs_view(msgs@) =~= want);
            },
        },
    }
    std::mem::swap(&mut action, &mut j.action);
    j.step = step + 1;
    j.finished = done;
    proof {
        assert(msgs_view(msgs@) =~= reply_msgs(j0, r));
        assert(job_state(*j) =~= after_reply(j0, r));
    }
    msgs
}

/// The most calls the job of an action makes: two for a creation that may
/// plan, one plus the follow-ups for the add form, three for a detail fetch,
/// two for a sync of both sources, one otherwise.
pub open spec fn call_bound(a: Action) -> nat {
    match a {
        Action::CreateTodo { .. } => 2,
        Action::SidebarAddCreate { desc, pending_prs, plan_after, .. } => 1 + follow_ups(desc@, pending_prs@, plan_after),
        Action::FetchDetail { .. } => 3,
        Action::SyncAll => 2,
        _ => 1,
    }
}

/// Every job ends: it asks for a call only while fewer calls than its
/// action's bound were answered, and each answered call moves it one step
/// on, so a job makes at most `call_bound` calls.
pub proof fn lemma_job_calls_bounded(j: Job, r: Reply)
    ensures
        next_call_spec(j) is Some ==> j.step < call_bound(j.action),
        after_reply(j, r).0 == j.step + 1,
        j.step + 1 >= call_bound(j.action) ==> after_reply(j, r).5,
{
}

/// A job's first call carries its action's own values: a carry-over goes
/// from the action's `from` day to its `to` day, a link names the action's
/// todo and pull request or issue, a status change sends the action's
/// status and reason, and so on for every action.
pub proof fn lemma_first_call_carries_action(j: Job)
    requires
        !j.finished,
        j.step == 0,
    ensures
        match j.action {
            Action::Refresh => next_call_spec(j) == Some(CallView::FetchAll { date: j.day@ }),
            Action::CreateTodo { title, .. } => next_call_spec(j) == Some(CallView::CreateTodo { title: title@ }),
            Action::SidebarAddCreate { title, .. } => next_call_spec(j) == Some(
                CallView::CreateTodo { title: title@ },
            ),
            Action::UpdateTodo { id, title, desc } => next_call_spec(j) == Some(
                CallView::UpdateTodo { id, title: crate::app::opt_view(title), desc: crate::app::opt_view(desc) },
            ),
            Action::SetStatus { id, status, blocked } => next_call_spec(j) == Some(
                CallView::SetStatus { id, status: status@, blocked: crate::app::opt_view(blocked) },
            ),
            Action::PlanToday { todo_id } => next_call_spec(j) == Some(CallView::PlanToday { todo_id }),
            Action::Unplan { todo_id } => next_call_spec(j) == Some(CallView::Unplan { todo_id }),
            Action::Reorder { date, ids } => next_call_spec(j) == Some(CallView::Reorder { date: date@, ids: ids@ }),
            Action::CarryOver { from, to } => next_call_spec(j) == Some(CallView::CarryOver { from: from@, to: to@ }),
            Action::AddTag { todo_id, slug } => next_call_spec(j) == Some(CallView::AddTag { todo_id, slug: slug@ }),
            Action::RemoveTag { todo_id, slug } => next_call_spec(j) == Some(
                CallView::RemoveTag { todo_id, slug: slug@ },
            ),
            Action::LinkPr { todo_id, pr_id } => next_call_spec(j) == Some(
                CallView::LinkPr { todo_id, pr_id, relation: LinkRelation::References },
            ),
            Action::UnlinkPr { todo_id, pr_id } => next_call_spec(j) == Some(CallView::UnlinkPr { todo_id, pr_id }),
            Action::LinkLinear { todo_id, issue_id } => next_call_spec(j) == Some(
                CallView::LinkLinear { todo_id, issue_id },
            ),
            Action::UnlinkLinear { todo_id, issue_id } => next_call_spec(j) == Some(
                CallView::UnlinkLinear { todo_id, issue_id },
            ),
            Action::TodoFromPr { pr_id, plan_today } => next_call_spec(j) == Some(
                CallView::TodoFromPr { pr_id, plan_today },
            ),
            Action::DismissPr { id } => next_call_spec(j) == Some(CallView::DismissPr { id }),
            Action::TodoFromLinear { issue_id, plan_today } => next_call_spec(j) == Some(
                CallView::TodoFromLinear { issue_id, plan_today },
            ),
            Action::SyncGithub => next_call_spec(j) == Some(CallView::SyncGithub),
            Action::SyncLinear => next_call_spec(j) == Some(CallView::SyncLinear),
            Action::SyncAll => next_call_spec(j) == Some(CallView::SyncLinear),
            Action::FetchDetail { id } => next_call_spec(j) == Some(CallView::TodoEvents { id }),
            Action::FetchReview { date } => next_call_spec(j) == Some(CallView::DailyReview { date: date@ }),
            Action::OpenUrl { .. } => next_call_spec(j) is None,
        },
{
}

/// The calls after a job's first: a creation that plans today plans the
/// created todo; the add form's creation then sets the typed description
/// (when there is one), links each pending pull request in turn and plans
/// the todo when asked, all on the created todo; a detail fetch asks for the
/// events, then the pull requests, then the Linear issues of its todo; a
/// full sync syncs Linear, then GitHub.
pub proof fn lemma_later_calls(j: Job, id: i32)
    requires
        !j.finished,
        j.created == Some(id),
    ensures
        j.action is CreateTodo && j.step == 1 ==> next_call_spec(j) == (if j.action->CreateTodo_plan_today {
            Some(CallView::PlanToday { todo_id: id })
        } else {
            None
        }),
        j.action is SidebarAddCreate && j.step == 1 && j.action->SidebarAddCreate_desc@.len() > 0
            ==> next_call_spec(j) == Some(
            CallView::UpdateTodo { id, title: None, desc: Some(j.action->SidebarAddCreate_desc@) },
        ),
        j.action is SidebarAddCreate && ({
            let m = j.step - 1 - (if j.action->SidebarAddCreate_desc@.len() > 0 { 1int } else { 0 });
            0 <= m < j.action->SidebarAddCreate_pending_prs@.len()
        }) ==> next_call_spec(j) == Some(CallView::LinkPr {
            todo_id: id,
            pr_id: j.action->SidebarAddCreate_pending_prs@[j.step - 1 - (if j.action->SidebarAddCreate_desc@.len()
                > 0 { 1int } else { 0 })],
            relation: LinkRelation::References,
        }),
        j.action is SidebarAddCreate && j.step == 1 + (if j.action->SidebarAddCreate_desc@.len() > 0 {
            1int
        } else {
            0
        }) + j.action->SidebarAddCreate_pending_prs@.len() ==> next_call_spec(j) == (
        if j.action->SidebarAddCreate_plan_after {
            Some(CallView::PlanToday { todo_id: id })
        } else {
            None
        }),
        j.action is FetchDetail && j.step == 1 ==> next_call_spec(j) == Some(
            CallView::TodoPullRequests { id: j.action->FetchDetail_id },
        ),
        j.action is FetchDetail && j.step == 2 ==> next_call_spec(j) == Some(
            CallView::TodoLinearIssues { id: j.action->FetchDetail_id },
        ),
        j.action is SyncAll && j.step == 1 ==> next_call_spec(j) == Some(CallView::SyncGithub),
        j.step >= call_bound(j.action) ==> next_call_spec(j) is None,
{
}

/// The toast a successful single change shows.
pub open spec fn done_toast(text: Seq<char>) -> Seq<MsgView> {
    seq![MsgView::Toast(ToastKind::Success, text), MsgView::Refresh]
}

/// What the reply to a single change reports: on success a toast naming
/// what was done (the edit saved, the status set, the todo planned, the
/// unfinished todos carried over, the tag added, the link made, ...) and a
/// refresh; on failure the error's text as an error toast, except for the
/// changes whose failure goes unreported (unplanning, detaching, dismissing,
/// reordering).
pub proof fn lemma_single_change_replies(j: Job, r: Reply)
    requires
        !(r is Failed),
    ensures
        j.action is UpdateTodo ==> reply_msgs(j, r) == done_toast("saved"@),
        j.action is SetStatus ==> reply_msgs(j, r) == done_toast("status set"@),
        j.action is PlanToday ==> reply_msgs(j, r) == done_toast("planned for today"@),
        j.action is Unplan ==> reply_msgs(j, r) == done_toast("unplanned"@),
        j.action is CarryOver ==> reply_msgs(j, r) == done_toast("carried over"@),
        j.action is AddTag ==> reply_msgs(j, r) == done_toast("tag added"@),
        j.action is RemoveTag ==> reply_msgs(j, r) == done_toast("tag removed"@),
        j.action is LinkPr ==> reply_msgs(j, r) == done_toast("pr linked"@),
        j.action is UnlinkPr ==> reply_msgs(j, r) == done_toast("pr detached"@),
        j.action is LinkLinear ==> reply_msgs(j, r) == done_toast("issue linked"@),
        j.action is UnlinkLinear ==> reply_msgs(j, r) == done_toast("issue detached"@),
        j.action is TodoFromPr ==> reply_msgs(j, r) == done_toast("converted to todo"@),
        j.action is TodoFromLinear ==> reply_msgs(j, r) == done_toast("converted to todo"@),
        j.action is DismissPr ==> reply_msgs(j, r) == done_toast("dismissed"@),
        j.action is Reorder ==> reply_msgs(j, r) == seq![MsgView::Refresh],
{
}

/// A failed single change shows its error's text, unless it is one whose
/// failure goes unreported.
pub proof fn lemma_single_change_failures(j: Job, e: String)
    ensures
        (j.action is UpdateTodo || j.action is SetStatus || j.action is PlanToday || j.action is CarryOver
            || j.action is AddTag || j.action is RemoveTag || j.action is LinkPr || j.action is LinkLinear
            || j.action is TodoFromPr || j.action is TodoFromLinear) ==> reply_msgs(j, Reply::Failed(e)) == seq![
            MsgView::Toast(ToastKind::Error, e@),
        ],
        (j.action is Unplan || j.action is UnlinkPr || j.action is UnlinkLinear || j.action is DismissPr
            || j.action is Reorder) ==> reply_msgs(j, Reply::Failed(e)) == Seq::<MsgView>::empty(),
{
}

} // verus!
