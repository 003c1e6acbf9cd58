//! Application state of the terminal client: the active view, the
//! interaction mode, the cursor, and the cached data fetched from the
//! backend, with the row lists every view is drawn from.
//!
//! The client is a thin cache: key handling decides what changes locally and
//! which backend operations to run; the operations themselves are queued as
//! [`Action`]s for the event loop to perform.

use vstd::prelude::*;
use vstd::view::View as _;

use crate::dates::{day_in_range, day_label, day_string, local_today};
use crate::gql::{DailyReview, LinearIssue, PlanRow, PullRequest, SyncState, Tag, Todo, TodoEvent,
    TodoLinearIssue, TodoPullRequest};
use crate::text::{
    chars_of, contains_chars, contains_seq, lowercase, owned, same_text, to_lowercase_chars,
};

verus! {

broadcast use vstd::seq_lib::group_seq_properties;

/// The five top-level views.
#[derive(Clone, Copy, PartialEq, Eq, Debug, Structural)]
pub enum View {
    Today,
    Backlog,
    Inbox,
    Review,
    Sync,
}

/// The views in tab order.
pub const ALL_VIEWS: [View; 5] = [View::Today, View::Backlog, View::Inbox, View::Review, View::Sync];

impl View {
    /// The views in tab order.
    pub const ALL: [View; 5] = [View::Today, View::Backlog, View::Inbox, View::Review, View::Sync];

    /// The position of a view in tab order.
    pub open spec fn index(self) -> nat {
        match self {
            View::Today => 0,
            View::Backlog => 1,
            View::Inbox => 2,
            View::Review => 3,
            View::Sync => 4,
        }
    }

    /// The view at a tab position (taken modulo 5).
    pub open spec fn at(i: nat) -> View {
        let j = i % 5;
        if j == 0 {
            View::Today
        } else if j == 1 {
            View::Backlog
        } else if j == 2 {
            View::Inbox
        } else if j == 3 {
            View::Review
        } else {
            View::Sync
        }
    }

    /// The tab label of a view.
    pub open spec fn label_spec(self) -> Seq<char> {
        match self {
            View::Today => "Today"@,
            View::Backlog => "Backlog"@,
            View::Inbox => "Inbox"@,
            View::Review => "Review"@,
            View::Sync => "Sync"@,
        }
    }

    pub fn label(self) -> (r: &'static str)
        ensures
            r@ == self.label_spec(),
    {
        match self {
            View::Today => "Today",
            View::Backlog => "Backlog",
            View::Inbox => "Inbox",
            View::Review => "Review",
            View::Sync => "Sync",
        }
    }

    /// The next view in tab order, wrapping around.
    pub fn next(self) -> (r: View)
        ensures
            r == View::at(self.index() + 1),
    {
        match self {
            View::Today => View::Backlog,
            View::Backlog => View::Inbox,
            View::Inbox => View::Review,
            View::Review => View::Sync,
            View::Sync => View::Today,
        }
    }

    /// The previous view in tab order, wrapping around.
    pub fn prev(self) -> (r: View)
        ensures
            r == View::at(self.index() + 4),
    {
        match self {
            View::Today => View::Sync,
            View::Backlog => View::Today,
            View::Inbox => View::Backlog,
            View::Review => View::Inbox,
            View::Sync => View::Review,
        }
    }
}

/// Moving to the next view and back (or back and forth) returns to the
/// same view, and five steps in one direction cycle through every view.
pub proof fn lemma_view_cycle(v: View)
    ensures
        View::at(View::at(v.index() + 1).index() + 4) == v,
        View::at(View::at(v.index() + 4).index() + 1) == v,
        View::at(v.index() + 5) == v,
{
}

/// Which field is focused in the sidebar edit and add forms.
#[derive(Clone, Copy, Debug, PartialEq, Eq, Structural)]
pub enum SidebarField {
    Title,
    Description,
    Links,
    Tags,
}

impl SidebarField {
    /// Tab order: Title → Description → Links → Tags → Title.
    pub open spec fn next_spec(self) -> SidebarField {
        match self {
            SidebarField::Title => SidebarField::Description,
            SidebarField::Description => SidebarField::Links,
            SidebarField::Links => SidebarField::Tags,
            SidebarField::Tags => SidebarField::Title,
        }
    }

    /// Reverse tab order.
    pub open spec fn prev_spec(self) -> SidebarField {
        match self {
            SidebarField::Title => SidebarField::Tags,
            SidebarField::Description => SidebarField::Title,
            SidebarField::Links => SidebarField::Description,
            SidebarField::Tags => SidebarField::Links,
        }
    }

    pub fn next(self) -> (r: SidebarField)
        ensures
            r == self.next_spec(),
    {
        match self {
            SidebarField::Title => SidebarField::Description,
            SidebarField::Description => SidebarField::Links,
            SidebarField::Links => SidebarField::Tags,
            SidebarField::Tags => SidebarField::Title,
        }
    }

    pub fn prev(self) -> (r: SidebarField)
        ensures
            r == self.prev_spec(),
    {
        match self {
            SidebarField::Title => SidebarField::Tags,
            SidebarField::Description => SidebarField::Title,
            SidebarField::Links => SidebarField::Description,
            SidebarField::Tags => SidebarField::Links,
        }
    }
}

/// Field navigation forward then back (or back then forward) lands on the
/// same field.
pub proof fn lemma_field_cycle(f: SidebarField)
    ensures
        f.next_spec().prev_spec() == f,
        f.prev_spec().next_spec() == f,
        f.next_spec().next_spec().next_spec().next_spec() == f,
{
}

/// Which type of link the sidebar form is browsing.
#[derive(Clone, Copy, Debug, PartialEq, Eq, Structural)]
pub enum LinkKind {
    Pr,
    Linear,
}

impl LinkKind {
    pub open spec fn other_spec(self) -> LinkKind {
        match self {
            LinkKind::Pr => LinkKind::Linear,
            LinkKind::Linear => LinkKind::Pr,
        }
    }

    /// The other kind of link.
    pub fn other(self) -> (r: LinkKind)
        ensures
            r == self.other_spec(),
    {
        match self {
            LinkKind::Pr => LinkKind::Linear,
            LinkKind::Linear => LinkKind::Pr,
        }
    }
}

/// Destructive actions that require confirmation.
#[derive(Clone, Debug, PartialEq)]
pub enum ConfirmAction {
    CarryOver { from: String, to: String },
    Unplan { id: i32 },
    Cancel { id: i32 },
    DismissPr { id: i32 },
}

#[allow(inconsistent_fields)]
/// Interaction mode. The client is modal: most of the time it is
/// navigating; the other modes capture input. Every text input keeps its
/// caret as a byte offset into its text.
///
/// `StatusSelect` drives a popup: `selection` is the highlight among the
/// five statuses; `reason` is `Some` only while the blocked-reason prompt
/// is active.
#[derive(Clone, Debug, PartialEq)]
pub enum Mode {
    Navigate,
    InlineCreate { input: String, caret: usize },
    InlineEdit { id: i32, input: String, caret: usize },
    Search { input: String, caret: usize },
    Filter { input: String, caret: usize },
    Reorder { source_id: i32 },
    Confirm { action: ConfirmAction },
    Help { filter: String },
    StatusSelect { id: i32, selection: usize, reason: Option<String> },
    LinkTodo { pr_id: Option<i32>, linear_issue_id: Option<i32>, selection: usize },
    Command { input: String, selection: usize, caret: usize },
    SidebarEdit {
        id: i32,
        field: SidebarField,
        input_active: bool,
        title_input: String,
        title_caret: usize,
        desc_input: String,
        desc_caret: usize,
        desc_scroll: usize,
        tag_input: String,
        tag_caret: usize,
        link_kind: LinkKind,
        link_selection: usize,
        attaching: bool,
        link_search: String,
        scroll: usize,
    },
    SidebarAdd {
        field: SidebarField,
        input_active: bool,
        title_input: String,
        title_caret: usize,
        desc_input: String,
        desc_caret: usize,
        desc_scroll: usize,
        tag_input: String,
        tag_caret: usize,
        link_kind: LinkKind,
        link_selection: usize,
        attaching: bool,
        link_search: String,
        scroll: usize,
        pending_link_pr: Vec<i32>,
    },
}

/// A transient toast: success fades after 2.5 s, errors are sticky.
#[derive(Clone, Debug, PartialEq)]
pub struct Toast {
    pub kind: ToastKind,
    pub message: String,
    /// Remaining display time in milliseconds; `None` means sticky.
    pub ttl: Option<u64>,
}

#[derive(Clone, Copy, Debug, PartialEq, Eq, Structural)]
pub enum ToastKind {
    Success,
    Error,
}

/// Flattened data fetched from the backend.
#[derive(Clone, Debug, PartialEq)]
pub struct AppData {
    pub todos: Vec<Todo>,
    pub plan: Vec<PlanRow>,
    pub pulls: Vec<PullRequest>,
    pub linears: Vec<LinearIssue>,
    pub sync: Vec<SyncState>,
}

impl Default for AppData {
    fn default() -> (r: Self)
        ensures
            r.todos@.len() == 0,
            r.plan@.len() == 0,
            r.pulls@.len() == 0,
            r.linears@.len() == 0,
            r.sync@.len() == 0,
    {
        AppData {
            todos: Vec::new(),
            plan: Vec::new(),
            pulls: Vec::new(),
            linears: Vec::new(),
            sync: Vec::new(),
        }
    }
}

impl AppData {
    /// Convert from the `FetchAll` query result.
    pub fn from_fetch_all(f: crate::gql::FetchAll) -> (r: Self)
        ensures
            r.todos == f.todo,
            r.plan == f.plan,
            r.pulls == f.pulls,
            r.linears == f.linears,
            r.sync == f.sync,
    {
        AppData { todos: f.todo, plan: f.plan, pulls: f.pulls, linears: f.linears, sync: f.sync }
    }
}

/// Lazily loaded data for the detail sidebar.
#[derive(Clone, Debug, PartialEq)]
pub struct DetailData {
    pub tags: Vec<Tag>,
    pub events: Vec<TodoEvent>,
    pub prs: Vec<TodoPullRequest>,
    pub linears: Vec<TodoLinearIssue>,
}

/// A backend operation decided by key handling, for the event loop to run.
#[allow(inconsistent_fields)]
#[derive(Clone, Debug, PartialEq)]
pub enum Action {
    /// Refetch everything for the logical date.
    Refresh,
    CreateTodo { title: String, plan_today: bool },
    UpdateTodo { id: i32, title: Option<String>, desc: Option<String> },
    SetStatus { id: i32, status: String, blocked: Option<String> },
    PlanToday { todo_id: i32 },
    Unplan { todo_id: i32 },
    Reorder { date: String, ids: Vec<i32> },
    CarryOver { from: String, to: String },
    AddTag { todo_id: i32, slug: String },
    RemoveTag { todo_id: i32, slug: String },
    LinkPr { todo_id: i32, pr_id: i32 },
    UnlinkPr { todo_id: i32, pr_id: i32 },
    LinkLinear { todo_id: i32, issue_id: i32 },
    UnlinkLinear { todo_id: i32, issue_id: i32 },
    TodoFromPr { pr_id: i32, plan_today: bool },
    DismissPr { id: i32 },
    TodoFromLinear { issue_id: i32, plan_today: bool },
    SyncGithub,
    SyncLinear,
    /// Sync Linear, then GitHub.
    SyncAll,
    FetchDetail { id: i32 },
    FetchReview { date: String },
    /// Create a todo from the add form: set its description when non-empty,
    /// link the pending pull requests, and plan it when asked.
    SidebarAddCreate { title: String, desc: String, pending_prs: Vec<i32>, plan_after: bool },
    OpenUrl { url: String },
}

/// An [`Action`] as values.
pub enum ActionView {
    Refresh,
    CreateTodo { title: Seq<char>, plan_today: bool },
    UpdateTodo { id: i32, title: Option<Seq<char>>, desc: Option<Seq<char>> },
    SetStatus { id: i32, status: Seq<char>, blocked: Option<Seq<char>> },
    PlanToday { todo_id: i32 },
    Unplan { todo_id: i32 },
    Reorder { date: Seq<char>, ids: Seq<i32> },
    CarryOver { from: Seq<char>, to: Seq<char> },
    AddTag { todo_id: i32, slug: Seq<char> },
    RemoveTag { todo_id: i32, slug: Seq<char> },
    LinkPr { todo_id: i32, pr_id: i32 },
    UnlinkPr { todo_id: i32, pr_id: i32 },
    LinkLinear { todo_id: i32, issue_id: i32 },
    UnlinkLinear { todo_id: i32, issue_id: i32 },
    TodoFromPr { pr_id: i32, plan_today: bool },
    DismissPr { id: i32 },
    TodoFromLinear { issue_id: i32, plan_today: bool },
    SyncGithub,
    SyncLinear,
    SyncAll,
    FetchDetail { id: i32 },
    FetchReview { date: Seq<char> },
    SidebarAddCreate { title: Seq<char>, desc: Seq<char>, pending_prs: Seq<i32>, plan_after: bool },
    OpenUrl { url: Seq<char> },
}

/// An optional text as a value.
pub open spec fn opt_view(o: Option<String>) -> Option<Seq<char>> {
    match o {
        Some(s) => Some(s@),
        None => None,
    }
}

impl Action {
    pub open spec fn view(&self) -> ActionView {
        match self {
            Action::Refresh => ActionView::Refresh,
            Action::CreateTodo { title, plan_today } => ActionView::CreateTodo {
                title: title@,
                plan_today: *plan_today,
            },
            Action::UpdateTodo { id, title, desc } => ActionView::UpdateTodo {
                id: *id,
                title: opt_view(*title),
                desc: opt_view(*desc),
            },
            Action::SetStatus { id, status, blocked } => ActionView::SetStatus {
                id: *id,
                status: status@,
                blocked: opt_view(*blocked),
            },
            Action::PlanToday { todo_id } => ActionView::PlanToday { todo_id: *todo_id },
            Action::Unplan { todo_id } => ActionView::Unplan { todo_id: *todo_id },
            Action::Reorder { date, ids } => ActionView::Reorder { date: date@, ids: ids@ },
            Action::CarryOver { from, to } => ActionView::CarryOver { from: from@, to: to@ },
            Action::AddTag { todo_id, slug } => ActionView::AddTag {
                todo_id: *todo_id,
                slug: slug@,
            },
            Action::RemoveTag { todo_id, slug } => ActionView::RemoveTag {
                todo_id: *todo_id,
                slug: slug@,
            },
            Action::LinkPr { todo_id, pr_id } => ActionView::LinkPr {
                todo_id: *todo_id,
                pr_id: *pr_id,
            },
            Action::UnlinkPr { todo_id, pr_id } => ActionView::UnlinkPr {
                todo_id: *todo_id,
                pr_id: *pr_id,
            },
            Action::LinkLinear { todo_id, issue_id } => ActionView::LinkLinear {
                todo_id: *todo_id,
                issue_id: *issue_id,
            },
            Action::UnlinkLinear { todo_id, issue_id } => ActionView::UnlinkLinear {
                todo_id: *todo_id,
                issue_id: *issue_id,
            },
            Action::TodoFromPr { pr_id, plan_today } => ActionView::TodoFromPr {
                pr_id: *pr_id,
                plan_today: *plan_today,
            },
            Action::DismissPr { id } => ActionView::DismissPr { id: *id },
            Action::TodoFromLinear { issue_id, plan_today } => ActionView::TodoFromLinear {
                issue_id: *issue_id,
                plan_today: *plan_today,
            },
            Action::SyncGithub => ActionView::SyncGithub,
            Action::SyncLinear => ActionView::SyncLinear,
            Action::SyncAll => ActionView::SyncAll,
            Action::FetchDetail { id } => ActionView::FetchDetail { id: *id },
            Action::FetchReview { date } => ActionView::FetchReview { date: date@ },
            Action::SidebarAddCreate { title, desc, pending_prs, plan_after } =>
                ActionView::SidebarAddCreate {
                title: title@,
                desc: desc@,
                pending_prs: pending_prs@,
                plan_after: *plan_after,
            },
            Action::OpenUrl { url } => ActionView::OpenUrl { url: url@ },
        }
    }
}

/// `new` is `old` with one action queued, seen as `a`.
pub open spec fn queued(old: Seq<Action>, new: Seq<Action>, a: ActionView) -> bool {
    new.len() == old.len() + 1 && new.drop_last() == old && new.last()@ == a
}

/// A toast of `kind` showing `msg`: success fades after 2.5 s, errors are
/// sticky.
pub open spec fn toast_is(t: Option<Toast>, kind: ToastKind, msg: Seq<char>) -> bool {
    match t {
        Some(t) => t.kind == kind && t.message@ == msg && t.ttl == (if kind == ToastKind::Success {
            Some(2500u64)
        } else {
            None
        }),
        None => false,
    }
}

/// Global state of the client, owned by the event loop and changed by key
/// handlers. Dates are day numbers from the common era.
pub struct App {
    pub view: View,
    pub mode: Mode,
    pub data: AppData,
    pub review: Option<DailyReview>,
    pub review_date: i32,
    pub logical_date: i32,
    pub day_start_hour: i32,
    pub cursor: usize,
    pub marked: Vec<i32>,
    pub toast: Option<Toast>,
    pub spinner: u8,
    pub show_dismissed: bool,
    pub show_done: bool,
    pub show_closed: bool,
    pub detail: Option<DetailData>,
    pub help_scroll: usize,
    pub detail_loaded_id: Option<i32>,
    pub content_width: u16,
    /// The committed list filter.
    pub filter: String,
    pub quit_requested: bool,
    /// Sources with a sync in flight.
    pub syncing: Vec<String>,
    pub generation: u64,
    /// Backend operations decided but not yet handed to the event loop.
    pub pending: Vec<Action>,
}

impl App {
    /// A fresh client state for the logical day `today`: the Today view in
    /// navigate mode, no data, reviewing the day before.
    pub fn new(today: i32) -> (r: Self)
        requires
            today > i32::MIN,
        ensures
            r.view == View::Today,
            r.mode == Mode::Navigate,
            r.data.todos@.len() == 0,
            r.data.plan@.len() == 0,
            r.data.pulls@.len() == 0,
            r.data.linears@.len() == 0,
            r.data.sync@.len() == 0,
            r.review is None,
            r.review_date == today - 1,
            r.logical_date == today,
            r.day_start_hour == 4,
            r.cursor == 0,
            r.marked@.len() == 0,
            r.toast is None,
            r.spinner == 0,
            !r.show_dismissed,
            !r.show_done,
            !r.show_closed,
            r.detail is None,
            r.help_scroll == 0,
            r.detail_loaded_id is None,
            r.content_width == 0,
            r.filter@.len() == 0,
            !r.quit_requested,
            r.syncing@.len() == 0,
            r.generation == 0,
            r.pending@.len() == 0,
    {
        App {
            view: View::Today,
            mode: Mode::Navigate,
            data: AppData::default(),
            review: None,
            review_date: today - 1,
            logical_date: today,
            day_start_hour: 4,
            cursor: 0,
            marked: Vec::new(),
            toast: None,
            spinner: 0,
            show_dismissed: false,
            show_done: false,
            show_closed: false,
            detail: None,
            help_scroll: 0,
            detail_loaded_id: None,
            content_width: 0,
            filter: empty_string(),
            quit_requested: false,
            syncing: Vec::new(),
            generation: 0,
            pending: Vec::new(),
        }
    }
}

impl Default for App {
    /// A fresh client state for the local calendar day (see [`App::new`]).
    fn default() -> (r: Self)
        ensures
            day_in_range(r.logical_date as int),
            r.view == View::Today,
            r.mode == Mode::Navigate,
            r.data.todos@.len() == 0,
            r.data.plan@.len() == 0,
            r.data.pulls@.len() == 0,
            r.data.linears@.len() == 0,
            r.data.sync@.len() == 0,
            r.review is None,
            r.review_date == r.logical_date - 1,
            r.day_start_hour == 4,
            r.cursor == 0,
            r.marked@.len() == 0,
            r.toast is None,
            r.spinner == 0,
            !r.show_dismissed,
            !r.show_done,
            !r.show_closed,
            r.detail is None,
            r.help_scroll == 0,
            r.detail_loaded_id is None,
            r.content_width == 0,
            r.filter@.len() == 0,
            !r.quit_requested,
            r.syncing@.len() == 0,
            r.generation == 0,
            r.pending@.len() == 0,
    {
        let today = local_today();
        App::new(today)
    }
}

// ---- Statuses ----

/// The five todo statuses in the fixed display order used by the grouped
/// list and the status popup: started, blocked, todo, done, cancelled.
pub const STATUS_ORDER: [&'static str; 5] = ["started", "blocked", "todo", "done", "cancelled"];

/// The status at a position of the display order.
pub open spec fn status_at(i: nat) -> Seq<char> {
    if i == 0 {
        "started"@
    } else if i == 1 {
        "blocked"@
    } else if i == 2 {
        "todo"@
    } else if i == 3 {
        "done"@
    } else {
        "cancelled"@
    }
}

/// The position of a status text in the display order, if it is one.
pub open spec fn status_position(s: Seq<char>) -> Option<nat> {
    if s == "started"@ {
        Some(0)
    } else if s == "blocked"@ {
        Some(1)
    } else if s == "todo"@ {
        Some(2)
    } else if s == "done"@ {
        Some(3)
    } else if s == "cancelled"@ {
        Some(4)
    } else {
        None
    }
}

/// The display rank of a status: its position, with unknown statuses first.
pub open spec fn status_rank(s: Seq<char>) -> nat {
    match status_position(s) {
        Some(i) => i,
        None => 0,
    }
}

/// Index of a status string in [`STATUS_ORDER`], or `None` if unknown.
pub fn status_index(status: &str) -> (r: Option<usize>)
    ensures
        r == (match status_position(status@) {
            Some(i) => Some(i as usize),
            None => None,
        }),
{
    if same_text(status, "started") {
        Some(0)
    } else if same_text(status, "blocked") {
        Some(1)
    } else if same_text(status, "todo") {
        Some(2)
    } else if same_text(status, "done") {
        Some(3)
    } else if same_text(status, "cancelled") {
        Some(4)
    } else {
        None
    }
}

/// The status string at position `n`, or `None` if out of range.
pub fn status_by_index(n: usize) -> (r: Option<&'static str>)
    ensures
        n < 5 ==> (r matches Some(s) && s@ == status_at(n as nat)),
        n >= 5 ==> r is None,
{
    if n == 0 {
        Some("started")
    } else if n == 1 {
        Some("blocked")
    } else if n == 2 {
        Some("todo")
    } else if n == 3 {
        Some("done")
    } else if n == 4 {
        Some("cancelled")
    } else {
        None
    }
}

/// The position and the status text name each other.
pub proof fn lemma_status_roundtrip(i: nat)
    requires
        i < 5,
    ensures
        status_position(status_at(i)) == Some(i),
{
    reveal_strlit("started");
    reveal_strlit("blocked");
    reveal_strlit("todo");
    reveal_strlit("done");
    reveal_strlit("cancelled");
    assert("started"@[0] == 's');
    assert("blocked"@[0] == 'b');
    assert("todo"@[0] == 't');
    assert("done"@[0] == 'd');
    assert("cancelled"@[0] == 'c');
    assert("blocked"@ != "started"@);
    assert("todo"@ != "started"@);
    assert("todo"@ != "blocked"@);
    assert("done"@ != "started"@);
    assert("done"@ != "blocked"@);
    assert("done"@ != "todo"@);
    assert("cancelled"@ != "started"@);
    assert("cancelled"@ != "blocked"@);
    assert("cancelled"@ != "todo"@);
    assert("cancelled"@ != "done"@);
}

/// Moves a popup selection one step in `direction`, wrapping within the
/// five statuses.
pub open spec fn next_status_spec(selection: int, direction: int) -> int {
    (selection + direction) % 5
}

/// The selection as the popup computes with it: as an `i32`.
pub open spec fn selection_i32(selection: usize) -> int {
    (selection as i32) as int
}

/// Pure selection movement: wraps `selection` within the 5-element list.
/// The step is taken in `i32`, which must not overflow.
pub fn next_status(selection: usize, direction: i32) -> (r: usize)
    requires
        i32::MIN <= selection_i32(selection) + direction <= i32::MAX,
    ensures
        r == next_status_spec(selection_i32(selection), direction as int),
        r < 5,
{
    let s: i32 = selection as i32;
    let n: i64 = s as i64 + direction as i64;
    let m = n % 5;
    let r = if m < 0 { m + 5 } else { m };
    r as usize
}

/// One step forward and one back (either way round) restore a selection.
pub proof fn lemma_next_status_inverse(s: int)
    requires
        0 <= s < 5,
    ensures
        next_status_spec(next_status_spec(s, 1), -1) == s,
        next_status_spec(next_status_spec(s, -1), 1) == s,
{
}

/// True for the statuses a todo is still being worked on in.
pub open spec fn is_active_status(s: Seq<char>) -> bool {
    s == "todo"@ || s == "started"@ || s == "blocked"@
}

// ---- Row lists ----

/// A todo created from the Today view is planned for today; from any other
/// view it stays unplanned.
pub open spec fn should_plan_after_create_spec(view: View) -> bool {
    view == View::Today
}

/// Whether a todo created from `view` is planned for today.
pub fn should_plan_after_create(view: View) -> (r: bool)
    ensures
        r == should_plan_after_create_spec(view),
{
    view == View::Today
}

/// The todos behind a vector of references.
pub open spec fn todo_refs(v: Seq<&Todo>) -> Seq<Todo> {
    v.map_values(|t: &Todo| *t)
}

/// The predicate "has status rank `k`".
pub open spec fn has_rank(k: nat) -> spec_fn(Todo) -> bool {
    |t: Todo| status_rank(t.status@) == k
}

/// The rows of rank `k`, in their order.
pub open spec fn rank_group(rows: Seq<Todo>, k: nat) -> Seq<Todo> {
    rows.filter(has_rank(k))
}

/// Display (status-grouped) order: rows sorted by status rank, stable within
/// a rank so source order is kept inside a group.
pub open spec fn display_order(rows: Seq<Todo>) -> Seq<Todo> {
    rank_group(rows, 0) + rank_group(rows, 1) + rank_group(rows, 2) + rank_group(rows, 3)
        + rank_group(rows, 4)
}

/// The todos on the active plan: rows not removed that carry a todo, in
/// plan order.
pub open spec fn active_plan(plan: Seq<PlanRow>) -> Seq<Todo> {
    plan.filter_map(|p: PlanRow| if p.removed_at is None { p.todo } else { None })
}

/// True when the todo `id` is on the active plan.
pub open spec fn on_active_plan(plan: Seq<PlanRow>, id: i32) -> bool {
    exists|i: int| 0 <= i < active_plan(plan).len() && #[trigger] active_plan(plan)[i].id == id
}

/// The todos not on the active plan, in fetch order.
pub open spec fn backlog_rows(todos: Seq<Todo>, plan: Seq<PlanRow>) -> Seq<Todo> {
    todos.filter(|t: Todo| !on_active_plan(plan, t.id))
}

fn rank_of(t: &Todo) -> (r: usize)
    ensures
        r == status_rank(t.status@),
{
    match status_index(t.status.as_str()) {
        Some(i) => i,
        None => 0,
    }
}

fn push_rank_group<'a>(out: &mut Vec<&'a Todo>, rows: &Vec<&'a Todo>, k: usize)
    ensures
        todo_refs(final(out)@) == todo_refs(old(out)@) + rank_group(todo_refs(rows@), k as nat),
{
    let ghost start = todo_refs(out@);
    let mut i: usize = 0;
    while i < rows.len()
        invariant
            i <= rows.len(),
            todo_refs(out@) == start + rank_group(todo_refs(rows@).take(i as int), k as nat),
        decreases rows.len() - i,
    {
        let ghost pred = has_rank(k as nat);
        proof {
            assert(todo_refs(rows@).take(i + 1) =~= todo_refs(rows@).take(i as int).push(
                *rows@[i as int],
            ));
            todo_refs(rows@).take(i as int).lemma_filter_push(*rows@[i as int], pred);
        }
        let ghost before = out@;
        if rank_of(rows[i]) == k {
            out.push(rows[i]);
            assert(todo_refs(out@) =~= todo_refs(before).push(*rows@[i as int]));
            assert(pred(*rows@[i as int]));
            assert(todo_refs(out@) =~= start + rank_group(todo_refs(rows@).take(i + 1), k as nat));
        } else {
            assert(todo_refs(out@) =~= start + rank_group(todo_refs(rows@).take(i + 1), k as nat));
        }
        i += 1;
    }
    assert(todo_refs(rows@).take(i as int) =~= todo_refs(rows@));
}

/// Rows in display (status-grouped) order.
pub fn in_display_order<'a>(rows: &Vec<&'a Todo>) -> (r: Vec<&'a Todo>)
    ensures
        todo_refs(r@) == display_order(todo_refs(rows@)),
{
    let mut out: Vec<&'a Todo> = Vec::new();
    assert(todo_refs(out@) =~= Seq::<Todo>::empty());
    push_rank_group(&mut out, rows, 0);
    push_rank_group(&mut out, rows, 1);
    push_rank_group(&mut out, rows, 2);
    push_rank_group(&mut out, rows, 3);
    push_rank_group(&mut out, rows, 4);
    assert(todo_refs(out@) =~= display_order(todo_refs(rows@)));
    out
}

/// The pull requests behind a vector of references.
pub open spec fn pr_refs(v: Seq<&PullRequest>) -> Seq<PullRequest> {
    v.map_values(|p: &PullRequest| *p)
}

/// The Linear issues behind a vector of references.
pub open spec fn linear_refs(v: Seq<&LinearIssue>) -> Seq<LinearIssue> {
    v.map_values(|l: &LinearIssue| *l)
}

/// The plan rows behind a vector of references.
pub open spec fn plan_refs(v: Seq<&PlanRow>) -> Seq<PlanRow> {
    v.map_values(|p: &PlanRow| *p)
}

impl App {
    /// Todos on today's plan (active, not removed), in display order.
    pub fn today_plan(&self) -> (r: Vec<&Todo>)
        ensures
            todo_refs(r@) == display_order(active_plan(self.data.plan@)),
    {
        let mut rows: Vec<&Todo> = Vec::new();
        let mut i: usize = 0;
        let ghost f = |p: PlanRow| if p.removed_at is None { p.todo } else { None };
        while i < self.data.plan.len()
            invariant
                i <= self.data.plan.len(),
                f == (|p: PlanRow| if p.removed_at is None { p.todo } else { None }),
                todo_refs(rows@) == self.data.plan@.take(i as int).filter_map(f),
            decreases self.data.plan.len() - i,
        {
            proof {
                self.data.plan@.lemma_filter_map_take_succ(f, i as int);
            }
            let p = &self.data.plan[i];
            if p.removed_at.is_none() {
                match &p.todo {
                    Some(t) => {
                        rows.push(t);
                    },
                    None => {},
                }
            }
            assert(todo_refs(rows@) =~= self.data.plan@.take(i + 1).filter_map(f));
            i += 1;
        }
        assert(self.data.plan@.take(i as int) =~= self.data.plan@);
        in_display_order(&rows)
    }

    /// Unplanned rows (removed from today's plan): what was intended today.
    pub fn today_unplanned(&self) -> (r: Vec<&PlanRow>)
        ensures
            plan_refs(r@) == self.data.plan@.filter(|p: PlanRow| p.removed_at is Some),
    {
        let ghost pred = |p: PlanRow| p.removed_at is Some;
        let mut out: Vec<&PlanRow> = Vec::new();
        let mut i: usize = 0;
        while i < self.data.plan.len()
            invariant
                i <= self.data.plan.len(),
                pred == (|p: PlanRow| p.removed_at is Some),
                plan_refs(out@) == self.data.plan@.take(i as int).filter(pred),
            decreases self.data.plan.len() - i,
        {
            proof {
                assert(self.data.plan@.take(i + 1) =~= self.data.plan@.take(i as int).push(
                    self.data.plan@[i as int],
                ));
                self.data.plan@.take(i as int).lemma_filter_push(self.data.plan@[i as int], pred);
            }
            if self.data.plan[i].removed_at.is_some() {
                out.push(&self.data.plan[i]);
            }
            assert(plan_refs(out@) =~= self.data.plan@.take(i + 1).filter(pred));
            i += 1;
        }
        assert(self.data.plan@.take(i as int) =~= self.data.plan@);
        out
    }

    pub(crate) fn active_plan_ids(&self) -> (r: Vec<i32>)
        ensures
            r@ == active_plan(self.data.plan@).map_values(|t: Todo| t.id),
    {
        let plan = self.today_plan_in_order();
        let mut ids: Vec<i32> = Vec::new();
        let mut i: usize = 0;
        while i < plan.len()
            invariant
                i <= plan.len(),
                todo_refs(plan@) == active_plan(self.data.plan@),
                ids@ == todo_refs(plan@).take(i as int).map_values(|t: Todo| t.id),
            decreases plan.len() - i,
        {
            ids.push(plan[i].id);
            assert(todo_refs(plan@).take(i + 1).map_values(|t: Todo| t.id) =~= todo_refs(
                plan@,
            ).take(i as int).map_values(|t: Todo| t.id).push(plan@[i as int].id));
            i += 1;
        }
        assert(todo_refs(plan@).take(i as int) =~= todo_refs(plan@));
        ids
    }

    /// The todos on the active plan, in plan order.
    pub fn today_plan_in_order(&self) -> (r: Vec<&Todo>)
        ensures
            todo_refs(r@) == active_plan(self.data.plan@),
    {
        let mut rows: Vec<&Todo> = Vec::new();
        let mut i: usize = 0;
        let ghost f = |p: PlanRow| if p.removed_at is None { p.todo } else { None };
        while i < self.data.plan.len()
            invariant
                i <= self.data.plan.len(),
                f == (|p: PlanRow| if p.removed_at is None { p.todo } else { None }),
                todo_refs(rows@) == self.data.plan@.take(i as int).filter_map(f),
            decreases self.data.plan.len() - i,
        {
            proof {
                self.data.plan@.lemma_filter_map_take_succ(f, i as int);
            }
            let p = &self.data.plan[i];
            if p.removed_at.is_none() {
                match &p.todo {
                    Some(t) => {
                        rows.push(t);
                    },
                    None => {},
                }
            }
            assert(todo_refs(rows@) =~= self.data.plan@.take(i + 1).filter_map(f));
            i += 1;
        }
        assert(self.data.plan@.take(i as int) =~= self.data.plan@);
        rows
    }

    /// All todos not on today's plan, in display order.
    pub fn backlog(&self) -> (r: Vec<&Todo>)
        ensures
            todo_refs(r@) == display_order(backlog_rows(self.data.todos@, self.data.plan@)),
    {
        let ids = self.active_plan_ids();
        let ghost pred = |t: Todo| !on_active_plan(self.data.plan@, t.id);
        let mut rows: Vec<&Todo> = Vec::new();
        let mut i: usize = 0;
        while i < self.data.todos.len()
            invariant
                i <= self.data.todos.len(),
                ids@ == active_plan(self.data.plan@).map_values(|t: Todo| t.id),
                pred == (|t: Todo| !on_active_plan(self.data.plan@, t.id)),
                todo_refs(rows@) == self.data.todos@.take(i as int).filter(pred),
            decreases self.data.todos.len() - i,
        {
            proof {
                assert(self.data.todos@.take(i + 1) =~= self.data.todos@.take(i as int).push(
                    self.data.todos@[i as int],
                ));
                self.data.todos@.take(i as int).lemma_filter_push(self.data.todos@[i as int], pred);
            }
            let id = self.data.todos[i].id;
            let planned = contains_id(&ids, id);
            proof {
                let ap = active_plan(self.data.plan@);
                if planned {
                    let j = choose|j: int| 0 <= j < ids@.len() && ids@[j] == id;
                    assert(ap[j].id == id);
                } else {
                    assert forall|j: int| 0 <= j < ap.len() implies #[trigger] ap[j].id != id by {
                        assert(ids@[j] == ap[j].id);
                    }
                }
            }
            if !planned {
                rows.push(&self.data.todos[i]);
            }
            assert(todo_refs(rows@) =~= self.data.todos@.take(i + 1).filter(pred));
            i += 1;
        }
        assert(self.data.todos@.take(i as int) =~= self.data.todos@);
        in_display_order(&rows)
    }

    /// Pull requests shown in the inbox: all of them when dismissed ones are
    /// shown, else the non-dismissed ones.
    pub fn inbox_prs(&self) -> (r: Vec<&PullRequest>)
        ensures
            pr_refs(r@) == self.data.pulls@.filter(
                |p: PullRequest| self.show_dismissed || p.dismissed_at is None,
            ),
    {
        let ghost pred = |p: PullRequest| self.show_dismissed || p.dismissed_at is None;
        let mut out: Vec<&PullRequest> = Vec::new();
        let mut i: usize = 0;
        while i < self.data.pulls.len()
            invariant
                i <= self.data.pulls.len(),
                pred == (|p: PullRequest| self.show_dismissed || p.dismissed_at is None),
                pr_refs(out@) == self.data.pulls@.take(i as int).filter(pred),
            decreases self.data.pulls.len() - i,
        {
            proof {
                assert(self.data.pulls@.take(i + 1) =~= self.data.pulls@.take(i as int).push(
                    self.data.pulls@[i as int],
                ));
                self.data.pulls@.take(i as int).lemma_filter_push(self.data.pulls@[i as int], pred);
            }
            if self.show_dismissed || self.data.pulls[i].dismissed_at.is_none() {
                out.push(&self.data.pulls[i]);
            }
            assert(pr_refs(out@) =~= self.data.pulls@.take(i + 1).filter(pred));
            i += 1;
        }
        assert(self.data.pulls@.take(i as int) =~= self.data.pulls@);
        out
    }

    /// Linear issues shown in the inbox: all of them when dismissed ones are
    /// shown, else the non-dismissed ones.
    pub fn inbox_linears(&self) -> (r: Vec<&LinearIssue>)
        ensures
            linear_refs(r@) == self.data.linears@.filter(
                |l: LinearIssue| self.show_dismissed || l.dismissed_at is None,
            ),
    {
        let ghost pred = |l: LinearIssue| self.show_dismissed || l.dismissed_at is None;
        let mut out: Vec<&LinearIssue> = Vec::new();
        let mut i: usize = 0;
        while i < self.data.linears.len()
            invariant
                i <= self.data.linears.len(),
                pred == (|l: LinearIssue| self.show_dismissed || l.dismissed_at is None),
                linear_refs(out@) == self.data.linears@.take(i as int).filter(pred),
            decreases self.data.linears.len() - i,
        {
            proof {
                assert(self.data.linears@.take(i + 1) =~= self.data.linears@.take(i as int).push(
                    self.data.linears@[i as int],
                ));
                self.data.linears@.take(i as int).lemma_filter_push(
                    self.data.linears@[i as int],
                    pred,
                );
            }
            if self.show_dismissed || self.data.linears[i].dismissed_at.is_none() {
                out.push(&self.data.linears[i]);
            }
            assert(linear_refs(out@) =~= self.data.linears@.take(i + 1).filter(pred));
            i += 1;
        }
        assert(self.data.linears@.take(i as int) =~= self.data.linears@);
        out
    }

    /// The first sync state of a source.
    pub fn sync_by_source(&self, source: &str) -> (r: Option<&SyncState>)
        ensures
            r is None <==> forall|i: int|
                0 <= i < self.data.sync@.len() ==> #[trigger] self.data.sync@[i].source@ != source@,
            r matches Some(s) ==> exists|i: int|
                0 <= i < self.data.sync@.len() && *s == self.data.sync@[i] && (forall|j: int|
                    0 <= j < i ==> #[trigger] self.data.sync@[j].source@ != source@)
                    && self.data.sync@[i].source@ == source@,
    {
        let mut i: usize = 0;
        while i < self.data.sync.len()
            invariant
                i <= self.data.sync.len(),
                forall|j: int| 0 <= j < i ==> #[trigger] self.data.sync@[j].source@ != source@,
            decreases self.data.sync.len() - i,
        {
            if same_text(self.data.sync[i].source.as_str(), source) {
                return Some(&self.data.sync[i]);
            }
            i += 1;
        }
        None
    }
}

/// The toast after one tick of the spinner (about 100 ms): a fading toast
/// loses 100 ms and goes when nothing is left; a sticky one stays.
pub open spec fn toast_after_tick(t: Option<Toast>) -> Option<Toast> {
    match t {
        Some(toast) => match toast.ttl {
            Some(ms) => if ms <= 100 {
                None
            } else {
                Some(Toast { ttl: Some((ms - 100) as u64), ..toast })
            },
            None => Some(toast),
        },
        None => None,
    }
}

/// The toast after `n` ticks.
pub open spec fn toast_after_ticks(t: Option<Toast>, n: nat) -> Option<Toast>
    decreases n,
{
    if n == 0 {
        t
    } else {
        toast_after_ticks(toast_after_tick(t), (n - 1) as nat)
    }
}

proof fn lemma_toast_fades(t: Toast, ms: u64, n: nat)
    requires
        t.ttl == Some(ms),
        n * 100 < ms,
    ensures
        toast_after_ticks(Some(t), n) == Some(Toast { ttl: Some((ms - n * 100) as u64), ..t }),
    decreases n,
{
    if n > 0 {
        let t1 = Toast { ttl: Some((ms - 100) as u64), ..t };
        assert(toast_after_tick(Some(t)) == Some(t1));
        assert((n - 1) * 100 < ms - 100) by (nonlinear_arith)
            requires
                n * 100 < ms,
                n > 0,
        ;
        lemma_toast_fades(t1, (ms - 100) as u64, (n - 1) as nat);
        assert((ms - 100) - (n - 1) * 100 == ms - n * 100) by (nonlinear_arith);
    } else {
        assert(Toast { ttl: Some((ms - n * 100) as u64), ..t } == t);
    }
}

proof fn lemma_toast_gone(t: Toast, ms: u64)
    requires
        t.ttl == Some(ms),
        ms > 0,
    ensures
        toast_after_ticks(Some(t), ((ms + 99) / 100) as nat) is None,
    decreases ms,
{
    if ms <= 100 {
        assert((ms + 99) / 100 == 1);
        assert(toast_after_ticks(None, 0) is None);
    } else {
        let t1 = Toast { ttl: Some((ms - 100) as u64), ..t };
        assert(toast_after_tick(Some(t)) == Some(t1));
        lemma_toast_gone(t1, (ms - 100) as u64);
        assert(((ms - 100) + 99) / 100 == (ms + 99) / 100 - 1);
    }
}

proof fn lemma_toast_sticky(t: Toast, n: nat)
    requires
        t.ttl is None,
    ensures
        toast_after_ticks(Some(t), n) == Some(t),
    decreases n,
{
    if n > 0 {
        lemma_toast_sticky(t, (n - 1) as nat);
    }
}

/// A fading toast with `ms` milliseconds left is still shown, with
/// `ms - 100 n` left, after `n` ticks while `100 n < ms`, and is gone after
/// `ceil(ms / 100)` ticks; a sticky toast is never taken down by ticks.
pub proof fn lemma_toast_expiry(t: Toast, n: nat)
    ensures
        t.ttl matches Some(ms) ==> (n * 100 < ms ==> toast_after_ticks(Some(t), n) == Some(
            Toast { ttl: Some((ms - n * 100) as u64), ..t },
        )),
        t.ttl matches Some(ms) ==> (ms > 0 ==> toast_after_ticks(Some(t), ((ms + 99) / 100) as nat)
            is None),
        t.ttl is None ==> toast_after_ticks(Some(t), n) == Some(t),
{
    match t.ttl {
        Some(ms) => {
            if n * 100 < ms {
                lemma_toast_fades(t, ms, n);
            }
            if ms > 0 {
                lemma_toast_gone(t, ms);
            }
        },
        None => {
            lemma_toast_sticky(t, n);
        },
    }
}

/// The position of the first row in an active status (todo, started,
/// blocked), or 0 when there is none.
pub open spec fn first_active(rows: Seq<Todo>) -> int {
    if exists|i: int| 0 <= i < rows.len() && is_active_status(#[trigger] rows[i].status@) {
        choose|i: int|
            0 <= i < rows.len() && is_active_status(#[trigger] rows[i].status@) && forall|j: int|
                0 <= j < i ==> !is_active_status(#[trigger] rows[j].status@)
    } else {
        0
    }
}

fn active_status(s: &str) -> (r: bool)
    ensures
        r == is_active_status(s@),
{
    same_text(s, "todo") || same_text(s, "started") || same_text(s, "blocked")
}

fn first_active_row(rows: &Vec<&Todo>) -> (r: usize)
    ensures
        r == first_active(todo_refs(rows@)),
{
    let ghost t = todo_refs(rows@);
    let mut i: usize = 0;
    while i < rows.len()
        invariant
            i <= rows.len(),
            t == todo_refs(rows@),
            forall|j: int| 0 <= j < i ==> !is_active_status(#[trigger] t[j].status@),
        decreases rows.len() - i,
    {
        if active_status(rows[i].status.as_str()) {
            assert(is_active_status(t[i as int].status@));
            let ghost w = choose|k: int|
                0 <= k < t.len() && is_active_status(#[trigger] t[k].status@) && forall|j: int|
                    0 <= j < k ==> !is_active_status(#[trigger] t[j].status@);
            proof {
                assert(0 <= i && i < t.len() && is_active_status(t[i as int].status@) && forall|j: int|
                    0 <= j < i ==> !is_active_status(#[trigger] t[j].status@));
                if w < i {
                    assert(!is_active_status(t[w].status@));
                } else if w > i {
                    assert(!is_active_status(t[i as int].status@));
                }
            }
            return i;
        }
        i += 1;
    }
    0
}

impl App {
    /// Queues a backend operation for the event loop.
    pub fn queue(&mut self, a: Action)
        ensures
            final(self).pending@ == old(self).pending@.push(a),
            queued(old(self).pending@, final(self).pending@, a@),
            *final(self) == (App { pending: final(self).pending, ..*old(self) }),
    {
        let ghost before = self.pending@;
        self.pending.push(a);
        assert(self.pending@.drop_last() =~= before);
    }

    /// Shows a toast: a success toast fades after 2.5 s, an error stays.
    pub fn set_toast(&mut self, kind: ToastKind, msg: &str)
        ensures
            toast_is(final(self).toast, kind, msg@),
            *final(self) == (App { toast: final(self).toast, ..*old(self) }),
    {
        let ttl = match kind {
            ToastKind::Success => Some(2500u64),
            ToastKind::Error => None,
        };
        self.toast = Some(Toast { kind, message: owned(msg), ttl });
    }

    /// Shows a sticky error toast.
    pub fn set_error(&mut self, msg: &str)
        ensures
            toast_is(final(self).toast, ToastKind::Error, msg@),
            *final(self) == (App { toast: final(self).toast, ..*old(self) }),
    {
        self.set_toast(ToastKind::Error, msg);
    }

    /// One tick of the ~100 ms timer: advances the spinner (wrapping) and
    /// ages a fading toast.
    pub fn tick_spinner(&mut self)
        ensures
            final(self).spinner == (old(self).spinner + 1) % 256,
            final(self).toast == toast_after_tick(old(self).toast),
            *final(self) == (App {
                spinner: final(self).spinner,
                toast: final(self).toast,
                ..*old(self)
            }),
    {
        self.spinner = self.spinner.wrapping_add(1);
        let t = self.toast.take();
        self.toast = match t {
            Some(toast) => match toast.ttl {
                Some(ms) => {
                    if ms <= 100 {
                        None
                    } else {
                        Some(Toast { ttl: Some(ms - 100), ..toast })
                    }
                },
                None => Some(toast),
            },
            None => None,
        };
    }

    /// The rows of the current list view (Today or Backlog), in display
    /// order.
    pub open spec fn list_rows(self) -> Seq<Todo> {
        match self.view {
            View::Today => display_order(active_plan(self.data.plan@)),
            View::Backlog => display_order(backlog_rows(self.data.todos@, self.data.plan@)),
            _ => Seq::empty(),
        }
    }

    /// Points a still-unset cursor (0) at the first active row of the Today
    /// or Backlog list, or 0 when every row is finished. A cursor already
    /// moved, and the other views, are left alone.
    pub fn clamp_cursor_to_active(&mut self)
        ensures
            final(self).cursor == (if old(self).cursor == 0 && (old(self).view == View::Today
                || old(self).view == View::Backlog) {
                first_active(old(self).list_rows())
            } else {
                old(self).cursor as int
            }),
            *final(self) == (App { cursor: final(self).cursor, ..*old(self) }),
    {
        if self.cursor != 0 {
            return;
        }
        let c = match self.view {
            View::Today => first_active_row(&self.today_plan()),
            View::Backlog => first_active_row(&self.backlog()),
            _ => {
                return;
            },
        };
        self.cursor = c;
    }
}

/// An optional text as a value.
pub open spec fn opt_str(o: Option<&str>) -> Option<Seq<char>> {
    match o {
        Some(s) => Some(s@),
        None => None,
    }
}

fn opt_owned(o: Option<&str>) -> (r: Option<String>)
    ensures
        opt_view(r) == opt_str(o),
{
    match o {
        Some(s) => Some(owned(s)),
        None => None,
    }
}

/// An owned copy of a list of ids.
pub fn copy_ids(v: &[i32]) -> (r: Vec<i32>)
    ensures
        r@ == v@,
{
    let mut out: Vec<i32> = Vec::new();
    let mut i: usize = 0;
    while i < v.len()
        invariant
            i <= v.len(),
            out@ == v@.take(i as int),
        decreases v.len() - i,
    {
        out.push(v[i]);
        assert(v@.take(i + 1) =~= v@.take(i as int).push(v@[i as int]));
        i += 1;
    }
    assert(v@.take(i as int) =~= v@);
    out
}

/// Backend operations, queued for the event loop.
impl App {
    /// Refetches everything for the logical date.
    pub fn spawn_refresh(&mut self)
        ensures
            queued(old(self).pending@, final(self).pending@, ActionView::Refresh),
            *final(self) == (App { pending: final(self).pending, ..*old(self) }),
    {
        self.queue(Action::Refresh);
    }

    /// Creates a todo, planning it for today when asked.
    pub fn spawn_create_todo(&mut self, title: &str, plan_today: bool)
        ensures
            queued(old(self).pending@, final(self).pending@, ActionView::CreateTodo { title: title@, plan_today }),
            *final(self) == (App { pending: final(self).pending, ..*old(self) }),
    {
        self.queue(Action::CreateTodo { title: owned(title), plan_today });
    }

    /// Saves a todo's title and/or description.
    pub fn spawn_update_todo(&mut self, id: i32, title: Option<&str>, desc: Option<&str>)
        ensures
            queued(old(self).pending@, final(self).pending@, ActionView::UpdateTodo { id, title: opt_str(title), desc: opt_str(desc) }),
            *final(self) == (App { pending: final(self).pending, ..*old(self) }),
    {
        self.queue(Action::UpdateTodo { id, title: opt_owned(title), desc: opt_owned(desc) });
    }

    /// Sets a todo's status (with the reason when blocked).
    pub fn spawn_set_status(&mut self, id: i32, status: &str, blocked: Option<&str>)
        ensures
            queued(old(self).pending@, final(self).pending@, ActionView::SetStatus { id, status: status@, blocked: opt_str(blocked) }),
            *final(self) == (App { pending: final(self).pending, ..*old(self) }),
    {
        self.queue(Action::SetStatus { id, status: owned(status), blocked: opt_owned(blocked) });
    }

    /// Plans a todo for today.
    pub fn spawn_plan_today(&mut self, todo_id: i32)
        ensures
            queued(old(self).pending@, final(self).pending@, ActionView::PlanToday { todo_id }),
            *final(self) == (App { pending: final(self).pending, ..*old(self) }),
    {
        self.queue(Action::PlanToday { todo_id });
    }

    /// Removes a todo from today's plan.
    pub fn spawn_unplan(&mut self, todo_id: i32)
        ensures
            queued(old(self).pending@, final(self).pending@, ActionView::Unplan { todo_id }),
            *final(self) == (App { pending: final(self).pending, ..*old(self) }),
    {
        self.queue(Action::Unplan { todo_id });
    }

    /// Carries the unfinished plan of one day over to another.
    pub fn spawn_carry_over(&mut self, from: &str, to: &str)
        ensures
            queued(old(self).pending@, final(self).pending@, ActionView::CarryOver { from: from@, to: to@ }),
            *final(self) == (App { pending: final(self).pending, ..*old(self) }),
    {
        self.queue(Action::CarryOver { from: owned(from), to: owned(to) });
    }

    /// Adds a tag to a todo.
    pub fn spawn_add_tag(&mut self, todo_id: i32, slug: &str)
        ensures
            queued(old(self).pending@, final(self).pending@, ActionView::AddTag { todo_id, slug: slug@ }),
            *final(self) == (App { pending: final(self).pending, ..*old(self) }),
    {
        self.queue(Action::AddTag { todo_id, slug: owned(slug) });
    }

    /// Removes a tag from a todo.
    pub fn spawn_remove_tag(&mut self, todo_id: i32, slug: &str)
        ensures
            queued(old(self).pending@, final(self).pending@, ActionView::RemoveTag { todo_id, slug: slug@ }),
            *final(self) == (App { pending: final(self).pending, ..*old(self) }),
    {
        self.queue(Action::RemoveTag { todo_id, slug: owned(slug) });
    }

    /// Links a pull request to a todo.
    pub fn spawn_link_pr(&mut self, todo_id: i32, pr_id: i32)
        ensures
            queued(old(self).pending@, final(self).pending@, ActionView::LinkPr { todo_id, pr_id }),
            *final(self) == (App { pending: final(self).pending, ..*old(self) }),
    {
        self.queue(Action::LinkPr { todo_id, pr_id });
    }

    /// Detaches a pull request from a todo.
    pub fn spawn_unlink_pr(&mut self, todo_id: i32, pr_id: i32)
        ensures
            queued(old(self).pending@, final(self).pending@, ActionView::UnlinkPr { todo_id, pr_id }),
            *final(self) == (App { pending: final(self).pending, ..*old(self) }),
    {
        self.queue(Action::UnlinkPr { todo_id, pr_id });
    }

    /// Links a Linear issue to a todo.
    pub fn spawn_link_linear(&mut self, todo_id: i32, issue_id: i32)
        ensures
            queued(old(self).pending@, final(self).pending@, ActionView::LinkLinear { todo_id, issue_id }),
            *final(self) == (App { pending: final(self).pending, ..*old(self) }),
    {
        self.queue(Action::LinkLinear { todo_id, issue_id });
    }

    /// Detaches a Linear issue from a todo.
    pub fn spawn_unlink_linear(&mut self, todo_id: i32, issue_id: i32)
        ensures
            queued(old(self).pending@, final(self).pending@, ActionView::UnlinkLinear { todo_id, issue_id }),
            *final(self) == (App { pending: final(self).pending, ..*old(self) }),
    {
        self.queue(Action::UnlinkLinear { todo_id, issue_id });
    }

    /// Turns a pull request into a todo.
    pub fn spawn_todo_from_pr(&mut self, pr_id: i32, plan_today: bool)
        ensures
            queued(old(self).pending@, final(self).pending@, ActionView::TodoFromPr { pr_id, plan_today }),
            *final(self) == (App { pending: final(self).pending, ..*old(self) }),
    {
        self.queue(Action::TodoFromPr { pr_id, plan_today });
    }

    /// Dismisses a pull request from the inbox.
    pub fn spawn_dismiss_pr(&mut self, id: i32)
        ensures
            queued(old(self).pending@, final(self).pending@, ActionView::DismissPr { id }),
            *final(self) == (App { pending: final(self).pending, ..*old(self) }),
    {
        self.queue(Action::DismissPr { id });
    }

    /// Turns a Linear issue into a todo.
    pub fn spawn_todo_from_linear(&mut self, issue_id: i32, plan_today: bool)
        ensures
            queued(old(self).pending@, final(self).pending@, ActionView::TodoFromLinear { issue_id, plan_today }),
            *final(self) == (App { pending: final(self).pending, ..*old(self) }),
    {
        self.queue(Action::TodoFromLinear { issue_id, plan_today });
    }

    /// Syncs GitHub.
    pub fn spawn_sync_github(&mut self)
        ensures
            queued(old(self).pending@, final(self).pending@, ActionView::SyncGithub),
            *final(self) == (App { pending: final(self).pending, ..*old(self) }),
    {
        self.queue(Action::SyncGithub);
    }

    /// Syncs Linear.
    pub fn spawn_sync_linear(&mut self)
        ensures
            queued(old(self).pending@, final(self).pending@, ActionView::SyncLinear),
            *final(self) == (App { pending: final(self).pending, ..*old(self) }),
    {
        self.queue(Action::SyncLinear);
    }

    /// Syncs Linear, then GitHub.
    pub fn spawn_sync_all(&mut self)
        ensures
            queued(old(self).pending@, final(self).pending@, ActionView::SyncAll),
            *final(self) == (App { pending: final(self).pending, ..*old(self) }),
    {
        self.queue(Action::SyncAll);
    }

    /// Cancels a todo.
    pub fn spawn_cancel(&mut self, id: i32)
        ensures
            queued(old(self).pending@, final(self).pending@, ActionView::SetStatus {
                id,
                status: "cancelled"@,
                blocked: None,
            }),
            *final(self) == (App { pending: final(self).pending, ..*old(self) }),
    {
        self.spawn_set_status(id, "cancelled", None);
    }

    /// Saves a day's plan order.
    pub fn spawn_reorder(&mut self, date: &str, ids: &[i32])
        ensures
            queued(old(self).pending@, final(self).pending@, ActionView::Reorder {
                date: date@,
                ids: ids@,
            }),
            *final(self) == (App { pending: final(self).pending, ..*old(self) }),
    {
        self.queue(Action::Reorder { date: owned(date), ids: copy_ids(ids) });
    }

    /// Syncs one source: Linear for `"linear"`, GitHub otherwise.
    pub fn spawn_sync_source(&mut self, source: &str)
        ensures
            queued(old(self).pending@, final(self).pending@, if source@ == "linear"@ {
                ActionView::SyncLinear
            } else {
                ActionView::SyncGithub
            }),
            *final(self) == (App { pending: final(self).pending, ..*old(self) }),
    {
        if same_text(source, "linear") {
            self.spawn_sync_linear();
        } else {
            self.spawn_sync_github();
        }
    }

    /// Starts loading the detail of a todo: the sidebar forgets what it
    /// showed and waits for the new detail.
    pub fn spawn_fetch_detail(&mut self, id: i32)
        ensures
            queued(old(self).pending@, final(self).pending@, ActionView::FetchDetail { id }),
            final(self).detail_loaded_id == Some(id),
            final(self).detail is None,
            *final(self) == (App {
                pending: final(self).pending,
                detail_loaded_id: final(self).detail_loaded_id,
                detail: final(self).detail,
                ..*old(self)
            }),
    {
        self.detail_loaded_id = Some(id);
        self.detail = None;
        self.queue(Action::FetchDetail { id });
    }

    /// Loads the daily review of the review date.
    pub fn spawn_fetch_review(&mut self)
        ensures
            queued(old(self).pending@, final(self).pending@, ActionView::FetchReview {
                date: day_label(old(self).review_date as int),
            }),
            *final(self) == (App { pending: final(self).pending, ..*old(self) }),
    {
        let date = day_string(self.review_date);
        self.queue(Action::FetchReview { date });
    }

    /// Creates a todo from the add form: sets its description when given,
    /// links the pending pull requests and plans it when asked.
    pub fn spawn_sidebar_add_create(&mut self, title: &str, desc: &str, pending_prs: &[i32], plan_after: bool)
        ensures
            queued(old(self).pending@, final(self).pending@, ActionView::SidebarAddCreate {
                title: title@,
                desc: desc@,
                pending_prs: pending_prs@,
                plan_after,
            }),
            *final(self) == (App { pending: final(self).pending, ..*old(self) }),
    {
        self.queue(Action::SidebarAddCreate {
            title: owned(title),
            desc: owned(desc),
            pending_prs: copy_ids(pending_prs),
            plan_after,
        });
    }

    /// Switches to a view: the cursor goes to the first active row of a
    /// list view, and the Review view loads its review.
    pub fn switch_view(&mut self, view: View)
        ensures
            switched(*old(self), *final(self), view),
    {
        self.view = view;
        self.cursor = 0;
        self.clamp_cursor_to_active();
        if view == View::Review {
            self.spawn_fetch_review();
        }
    }

    /// Moves to the next view in tab order.
    pub fn next_view(&mut self)
        ensures
            switched(*old(self), *final(self), View::at(old(self).view.index() + 1)),
    {
        let v = self.view.next();
        self.switch_view(v);
    }

    /// Moves to the previous view in tab order.
    pub fn prev_view(&mut self)
        ensures
            switched(*old(self), *final(self), View::at(old(self).view.index() + 4)),
    {
        let v = self.view.prev();
        self.switch_view(v);
    }
}

/// What switching to `view` does: the cursor goes to the first active row
/// of a list view (0 elsewhere), and the Review view loads its review.
pub open spec fn switched(old: App, new: App, view: View) -> bool {
    &&& new.view == view
    &&& new.cursor == (if view == View::Today || view == View::Backlog {
        first_active((App { view, ..old }).list_rows())
    } else {
        0
    })
    &&& view == View::Review ==> queued(
        old.pending@,
        new.pending@,
        ActionView::FetchReview { date: day_label(old.review_date as int) },
    )
    &&& view != View::Review ==> new.pending == old.pending
    &&& new == (App { view: new.view, cursor: new.cursor, pending: new.pending, ..old })
}

fn empty_string() -> (r: String)
    ensures
        r@.len() == 0,
{
    let r = owned("");
    proof {
        reveal_strlit("");
    }
    r
}

fn contains_id(ids: &Vec<i32>, id: i32) -> (r: bool)
    ensures
        r == exists|j: int| 0 <= j < ids@.len() && ids@[j] == id,
{
    let mut i: usize = 0;
    while i < ids.len()
        invariant
            i <= ids.len(),
            forall|j: int| 0 <= j < i ==> ids@[j] != id,
        decreases ids.len() - i,
    {
        if ids[i] == id {
            return true;
        }
        i += 1;
    }
    false
}

} // verus!
