use preflight::app::{App, LinkKind, Mode, SidebarField, ToastKind, View};
use preflight::gql::{LinkRelation, LinearIssue, PlanRow, PullRequest, TagConnection, Todo};
use preflight::jobs::{next_call, start_job, take_reply, Call, Reply};
use preflight::keys::{KeyCode, KeyEvent, KeyModifiers};
use preflight::msg::AppMsg;

fn make_todo(id: i32, title: &str, status: &str) -> Todo {
    Todo {
        id,
        title: title.to_string(),
        description: None,
        status: status.to_string(),
        blocked_reason: None,
        sort_key: id,
        created_at: "2026-08-05 10:00:00 +00:00".to_string(),
        started_at: None,
        closed_at: None,
        tag: TagConnection { nodes: vec![] },
    }
}

fn make_pr(id: i32, dismissed_at: Option<&str>) -> PullRequest {
    PullRequest {
        id,
        owner: "owner".to_string(),
        repo: "repo".to_string(),
        number: id,
        title: format!("PR #{id}"),
        url: "https://example.com".to_string(),
        author: None,
        state: "open".to_string(),
        review_requested: false,
        authored_by_me: false,
        changes_requested: false,
        copilot_comments: false,
        merge_conflicts: false,
        approved: false,
        actions_failing: false,
        dismissed_at: dismissed_at.map(|s| s.to_string()),
        remote_updated_at: None,
    }
}

fn make_linear(id: i32, dismissed_at: Option<&str>) -> LinearIssue {
    LinearIssue {
        id,
        identifier: format!("PROJ-{id}"),
        title: format!("Issue #{id}"),
        url: "https://example.com".to_string(),
        state_name: "Todo".to_string(),
        state_type: "triage".to_string(),
        priority: None,
        team_key: None,
        assignee_name: None,
        assigned_to_me: false,
        dismissed_at: dismissed_at.map(|s| s.to_string()),
    }
}

fn make_plan_row(id: i32, position: i32, todo: Todo) -> PlanRow {
    PlanRow { id, position, carried_over: false, removed_at: None, todo: Some(todo) }
}

fn key(code: KeyCode) -> KeyEvent {
    KeyEvent::new(code, KeyModifiers::none())
}

/// The first call of the job of every queued action, the queue emptied.
fn queued_calls(app: &mut App) -> Vec<Call> {
    let actions = std::mem::take(&mut app.pending);
    actions
        .into_iter()
        .filter_map(|a| {
            let (job, _) = start_job(app, a);
            next_call(&job)
        })
        .collect()
}

fn enter_link_todo(app: &mut App) {
    app.mode = Mode::LinkTodo { pr_id: Some(10), linear_issue_id: None, selection: 0 };
}

fn setup_app_with_todo() -> App {
    let mut app = App::default();
    app.data.plan = vec![make_plan_row(1, 0, make_todo(1, "My Task", "todo"))];
    app.data.todos = vec![make_todo(1, "My Task", "todo")];
    app.cursor = 0;
    app.content_width = 120;
    app
}

fn enter_sidebar_edit_links(app: &mut App) {
    app.mode = Mode::SidebarEdit {
        id: 1,
        field: SidebarField::Links,
        input_active: true,
        title_input: String::new(),
        title_caret: 0,
        desc_input: String::new(),
        desc_caret: 0,
        desc_scroll: 0,
        tag_input: String::new(),
        tag_caret: 0,
        link_kind: LinkKind::Pr,
        link_selection: 0,
        attaching: false,
        link_search: String::new(),
        scroll: 0,
    };
}

#[test]
fn test_link_todo_confirm_pr_posts_link_pull_request() {
    let mut app = App::default();
    app.data.todos = vec![make_todo(1, "My Task", "todo")];
    enter_link_todo(&mut app);

    app.handle_key(key(KeyCode::Enter));

    assert_eq!(app.mode, Mode::Navigate, "confirm exits the picker");
    let actions = std::mem::take(&mut app.pending);
    assert_eq!(actions.len(), 1, "confirm should post a link mutation");
    let (mut job, _) = start_job(&app, actions.into_iter().next().unwrap());
    assert_eq!(next_call(&job), Some(Call::LinkPr { todo_id: 1, pr_id: 10, relation: LinkRelation::References }));
    // Success sends a toast and a refresh.
    let msgs = take_reply(&mut job, Reply::Done);
    let saw_toast = msgs.iter().any(|m| matches!(m, AppMsg::Toast(ToastKind::Success, _)));
    let saw_refresh = msgs.iter().any(|m| matches!(m, AppMsg::Refresh));
    assert!(saw_toast, "success should raise a toast");
    assert!(saw_refresh, "success should trigger a refresh");
}

#[test]
fn test_link_todo_confirm_linear_posts_link_linear_issue() {
    let mut app = App::default();
    app.data.todos = vec![make_todo(1, "My Task", "todo")];
    app.mode = Mode::LinkTodo { pr_id: None, linear_issue_id: Some(7), selection: 0 };

    app.handle_key(key(KeyCode::Enter));

    assert_eq!(queued_calls(&mut app), vec![Call::LinkLinear { todo_id: 1, issue_id: 7 }]);
}

#[test]
fn test_link_todo_esc_cancels_without_mutating() {
    let mut app = App::default();
    app.data.todos = vec![make_todo(1, "My Task", "todo")];
    enter_link_todo(&mut app);

    app.handle_key(key(KeyCode::Esc));

    assert_eq!(app.mode, Mode::Navigate, "Esc exits the picker");
    assert!(app.pending.is_empty(), "Esc must not issue a mutation");
}

#[test]
fn test_c_on_pr_row_issues_todo_from_pr_mutation() {
    let mut app = App::default();
    app.view = View::Inbox;
    app.data.pulls = vec![make_pr(5, None)];
    app.cursor = 0;

    app.handle_key(key(KeyCode::Char('C')));

    assert_eq!(queued_calls(&mut app), vec![Call::TodoFromPr { pr_id: 5, plan_today: true }]);
}

#[test]
fn test_c_on_linear_row_issues_todo_from_linear_mutation() {
    let mut app = App::default();
    app.view = View::Inbox;
    app.data.linears = vec![make_linear(9, None)];
    app.cursor = 0;

    app.handle_key(key(KeyCode::Char('C')));

    assert_eq!(queued_calls(&mut app), vec![Call::TodoFromLinear { issue_id: 9, plan_today: true }]);
}

#[test]
fn test_d_on_pr_row_issues_dismiss_mutation() {
    let mut app = App::default();
    app.view = View::Inbox;
    app.data.pulls = vec![make_pr(5, None)];
    app.cursor = 0;

    app.handle_key(key(KeyCode::Char('d')));

    assert_eq!(queued_calls(&mut app), vec![Call::DismissPr { id: 5 }]);
}

#[test]
fn test_d_on_linear_row_is_a_noop() {
    let mut app = App::default();
    app.view = View::Inbox;
    app.data.linears = vec![make_linear(9, None)];
    app.cursor = 0;

    app.handle_key(key(KeyCode::Char('d')));

    assert!(queued_calls(&mut app).is_empty(), "d on a Linear row must not issue a mutation");
}

#[test]
fn test_attach_esc_cancels_without_mutating() {
    let mut app = setup_app_with_todo();
    app.data.pulls = vec![make_pr(10, None)];
    enter_sidebar_edit_links(&mut app);

    app.handle_key(key(KeyCode::Char('a')));
    app.handle_key(key(KeyCode::Esc));

    if let Mode::SidebarEdit { attaching, .. } = &app.mode {
        assert!(!attaching, "Esc should clear attaching state");
    } else {
        panic!("expected SidebarEdit");
    }
    assert!(queued_calls(&mut app).is_empty(), "Esc must not issue a mutation");
}

#[test]
fn test_attach_confirm_pr_posts_link_pull_request() {
    let mut app = setup_app_with_todo();
    app.data.pulls = vec![make_pr(10, None)];
    enter_sidebar_edit_links(&mut app);

    app.handle_key(key(KeyCode::Char('a')));
    app.handle_key(key(KeyCode::Enter));

    let calls: Vec<Call> = queued_calls(&mut app).into_iter().filter(|c| matches!(c, Call::LinkPr { .. })).collect();
    assert_eq!(calls, vec![Call::LinkPr { todo_id: 1, pr_id: 10, relation: LinkRelation::References }], "confirm should post a link mutation");
}

#[test]
fn test_attach_tab_switches_to_linear_and_confirm_posts_link_linear_issue() {
    let mut app = setup_app_with_todo();
    app.data.linears = vec![make_linear(7, None)];
    enter_sidebar_edit_links(&mut app);

    app.handle_key(key(KeyCode::Char('a')));
    app.handle_key(key(KeyCode::Tab));
    if let Mode::SidebarEdit { link_kind, .. } = &app.mode {
        assert_eq!(*link_kind, LinkKind::Linear, "Tab should switch to Linear");
    } else {
        panic!("expected SidebarEdit");
    }
    app.handle_key(key(KeyCode::Enter));

    let calls: Vec<Call> =
        queued_calls(&mut app).into_iter().filter(|c| matches!(c, Call::LinkLinear { .. })).collect();
    assert_eq!(calls, vec![Call::LinkLinear { todo_id: 1, issue_id: 7 }], "confirm should post a link mutation");
}

#[test]
fn test_sidebar_add_accept_creates_todo() {
    let mut app = App { view: View::Today, content_width: 120, ..Default::default() };
    app.mode = Mode::SidebarAdd {
        field: SidebarField::Title,
        input_active: false,
        title_input: String::new(),
        title_caret: 0,
        desc_input: String::new(),
        desc_caret: 0,
        desc_scroll: 0,
        tag_input: String::new(),
        tag_caret: 0,
        link_kind: LinkKind::Pr,
        link_selection: 0,
        attaching: false,
        link_search: String::new(),
        pending_link_pr: Vec::new(),
        scroll: 0,
    };
    // Activate the Title field and type a title.
    app.handle_key(key(KeyCode::Enter));
    app.handle_key(key(KeyCode::Char('N')));
    app.handle_key(key(KeyCode::Char('e')));
    app.handle_key(key(KeyCode::Char('w')));
    // Accept (Enter on Title) creates the todo.
    app.handle_key(key(KeyCode::Enter));

    let calls = queued_calls(&mut app);
    assert!(!calls.is_empty(), "accepting SidebarAdd should post a mutation");
    assert_eq!(calls[0], Call::CreateTodo { title: "New".to_string() }, "createTodo should carry the typed title");
    assert_eq!(app.mode, Mode::Navigate, "accept should return to Navigate");
}

#[test]
fn link_relation_values_are_the_backend_names() {
    assert_eq!(LinkRelation::References.text(), "references");
    assert_eq!(LinkRelation::Implements.text(), "implements");
    assert_eq!(LinkRelation::Reviews.text(), "reviews");
}
