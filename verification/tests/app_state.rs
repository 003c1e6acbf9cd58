use preflight::app::{
    should_plan_after_create, status_index, AppData, App, Mode, Toast, ToastKind, View, STATUS_ORDER,
};
use preflight::gql::{FetchAll, LinearIssue, PlanRow, PullRequest, SyncState, Tag, TagConnection, Todo};
use preflight::views::matches_filter;
use preflight::keys::{KeyCode, KeyEvent, KeyModifiers};
use preflight::sidebar::tag_commit_is_removal;

fn make_todo(id: i32, title: &str, status: &str) -> Todo {
    Todo {
        id,
        title: title.to_string(),
        description: None,
        status: status.to_string(),
        blocked_reason: None,
        sort_key: id,
        created_at: "2026-08-05 10:00:00 +00:00".to_string(),
        started_at: None,
        closed_at: None,
        tag: TagConnection { nodes: vec![] },
    }
}

fn make_todo_with_tags(id: i32, title: &str, status: &str, slugs: &[&str]) -> Todo {
    let mut t = make_todo(id, title, status);
    t.tag = TagConnection {
        nodes: slugs.iter().map(|s| Tag { slug: s.to_string(), name: s.to_string() }).collect(),
    };
    t
}

fn make_plan_row(id: i32, position: i32, todo: Todo, removed_at: Option<&str>) -> PlanRow {
    PlanRow { id, position, carried_over: false, removed_at: removed_at.map(|s| s.to_string()), todo: Some(todo) }
}

fn make_pr(id: i32, dismissed_at: Option<&str>) -> PullRequest {
    PullRequest {
        id,
        owner: "owner".to_string(),
        repo: "repo".to_string(),
        number: id,
        title: format!("PR #{id}"),
        url: "https://example.com".to_string(),
        author: None,
        state: "open".to_string(),
        review_requested: false,
        authored_by_me: false,
        changes_requested: false,
        copilot_comments: false,
        merge_conflicts: false,
        approved: false,
        actions_failing: false,
        dismissed_at: dismissed_at.map(|s| s.to_string()),
        remote_updated_at: None,
    }
}

fn make_linear(id: i32, dismissed_at: Option<&str>) -> LinearIssue {
    LinearIssue {
        id,
        identifier: format!("PROJ-{id}"),
        title: format!("Issue #{id}"),
        url: "https://example.com".to_string(),
        state_name: "Todo".to_string(),
        state_type: "triage".to_string(),
        priority: None,
        team_key: None,
        assignee_name: None,
        assigned_to_me: false,
        dismissed_at: dismissed_at.map(|s| s.to_string()),
    }
}

fn make_sync(source: &str) -> SyncState {
    SyncState {
        source: source.to_string(),
        cursor: None,
        last_synced_at: None,
        last_status: "ok".to_string(),
        last_error: None,
    }
}

#[test]
fn test_view_label_returns_correct_strings() {
    assert_eq!(View::Today.label(), "Today");
    assert_eq!(View::Backlog.label(), "Backlog");
    assert_eq!(View::Inbox.label(), "Inbox");
    assert_eq!(View::Review.label(), "Review");
    assert_eq!(View::Sync.label(), "Sync");
}

#[test]
fn test_view_all_has_five_elements_in_order() {
    assert_eq!(View::ALL.len(), 5);
    assert_eq!(View::ALL[0], View::Today);
    assert_eq!(View::ALL[1], View::Backlog);
    assert_eq!(View::ALL[2], View::Inbox);
    assert_eq!(View::ALL[3], View::Review);
    assert_eq!(View::ALL[4], View::Sync);
}

#[test]
fn test_app_data_from_fetch_all() {
    let todo = make_todo(1, "T1", "todo");
    let pr = make_pr(1, None);
    let sync = make_sync("github");
    let fetch = FetchAll { todo: vec![todo.clone()], plan: vec![], pulls: vec![pr.clone()], linears: vec![], sync: vec![sync.clone()] };
    let data = AppData::from_fetch_all(fetch);
    assert_eq!(data.todos.len(), 1);
    assert_eq!(data.todos[0].id, 1);
    assert_eq!(data.pulls.len(), 1);
    assert_eq!(data.sync.len(), 1);
    assert_eq!(data.sync[0].source, "github");
}

#[test]
fn test_app_data_from_fetch_all_preserves_tags() {
    let todo = make_todo_with_tags(7, "Tagged", "todo", &["rust", "tui"]);
    let fetch = FetchAll { todo: vec![todo], plan: vec![], pulls: vec![], linears: vec![], sync: vec![] };
    let data = AppData::from_fetch_all(fetch);
    assert_eq!(data.todos.len(), 1);
    assert_eq!(data.todos[0].tag.nodes.len(), 2);
    assert_eq!(data.todos[0].tag.nodes[0].slug, "rust");
    assert_eq!(data.todos[0].tag.nodes[1].slug, "tui");
}

#[test]
fn test_status_order_has_five_in_fixed_sequence() {
    assert_eq!(STATUS_ORDER.len(), 5);
    assert_eq!(STATUS_ORDER, ["started", "blocked", "todo", "done", "cancelled"]);
}

#[test]
fn test_status_index_known() {
    assert_eq!(status_index("started"), Some(0));
    assert_eq!(status_index("blocked"), Some(1));
    assert_eq!(status_index("todo"), Some(2));
    assert_eq!(status_index("done"), Some(3));
    assert_eq!(status_index("cancelled"), Some(4));
}

#[test]
fn test_status_index_unknown_returns_none() {
    assert!(status_index("unknown").is_none());
    assert!(status_index("").is_none());
}

#[test]
fn test_matches_filter_empty_matches_all() {
    let todo = make_todo(1, "Write docs", "todo");
    assert!(matches_filter(&todo, ""));
}

#[test]
fn test_matches_filter_title_substring_case_insensitive() {
    let todo = make_todo(1, "Write Rust docs", "todo");
    assert!(matches_filter(&todo, "rust"));
    assert!(matches_filter(&todo, "RUST"));
    assert!(matches_filter(&todo, "write"));
    assert!(!matches_filter(&todo, "python"));
}

#[test]
fn test_matches_filter_tag_slug() {
    let todo = make_todo_with_tags(1, "Task", "todo", &["backend", "urgent"]);
    assert!(matches_filter(&todo, "back"));
    assert!(matches_filter(&todo, "URGENT"));
    assert!(!matches_filter(&todo, "frontend"));
}

#[test]
fn test_matches_filter_no_tags_falls_back_to_title() {
    let todo = make_todo(1, "Refactor", "todo");
    assert!(matches_filter(&todo, "refac"));
    assert!(!matches_filter(&todo, "meeting"));
}

#[test]
fn test_should_plan_after_create_today() {
    assert!(should_plan_after_create(View::Today));
}

#[test]
fn test_should_plan_after_create_backlog() {
    assert!(!should_plan_after_create(View::Backlog));
    assert!(!should_plan_after_create(View::Inbox));
    assert!(!should_plan_after_create(View::Review));
    assert!(!should_plan_after_create(View::Sync));
}

#[test]
fn test_today_plan_filters_removed_and_no_todo() {
    let mut app = App::default();
    app.data.plan = vec![
        make_plan_row(1, 0, make_todo(1, "a", "todo"), None),
        make_plan_row(2, 1, make_todo(2, "b", "todo"), Some("2026-08-05 11:00:00 +00:00")),
        PlanRow { id: 3, position: 2, carried_over: false, removed_at: None, todo: None },
    ];
    let ids: Vec<i32> = app.today_plan().iter().map(|t| t.id).collect();
    assert_eq!(ids, vec![1]);
}

#[test]
fn test_today_unplanned_only_removed() {
    let mut app = App::default();
    app.data.plan = vec![
        make_plan_row(1, 0, make_todo(1, "a", "todo"), None),
        make_plan_row(2, 1, make_todo(2, "b", "todo"), Some("2026-08-05 11:00:00 +00:00")),
    ];
    let ids: Vec<i32> = app.today_unplanned().iter().map(|p| p.id).collect();
    assert_eq!(ids, vec![2]);
}

#[test]
fn test_backlog_excludes_planned_todos() {
    let mut app = App::default();
    app.data.plan = vec![make_plan_row(1, 0, make_todo(1, "planned", "todo"), None)];
    app.data.todos = vec![make_todo(1, "planned", "todo"), make_todo(2, "free", "todo")];
    let ids: Vec<i32> = app.backlog().iter().map(|t| t.id).collect();
    assert_eq!(ids, vec![2]);
}

#[test]
fn test_backlog_includes_removed_plan_todos() {
    let mut app = App::default();
    app.data.plan = vec![make_plan_row(1, 0, make_todo(1, "gone", "todo"), Some("x"))];
    app.data.todos = vec![make_todo(1, "gone", "todo")];
    assert_eq!(app.backlog().len(), 1);
}

#[test]
fn test_inbox_prs_filters_dismissed() {
    let mut app = App::default();
    app.data.pulls = vec![make_pr(1, None), make_pr(2, Some("2026-08-05"))];
    assert_eq!(app.inbox_prs().len(), 1);
}

#[test]
fn test_inbox_prs_shows_dismissed_when_flagged() {
    let mut app = App { show_dismissed: true, ..Default::default() };
    app.data.pulls = vec![make_pr(1, None), make_pr(2, Some("2026-08-05"))];
    assert_eq!(app.inbox_prs().len(), 2);
}

#[test]
fn test_inbox_linears_filters_dismissed() {
    let mut app = App::default();
    app.data.linears = vec![make_linear(1, None), make_linear(2, Some("2026-08-05"))];
    assert_eq!(app.inbox_linears().len(), 1);
}

#[test]
fn test_inbox_linears_shows_dismissed_when_flagged() {
    let mut app = App { show_dismissed: true, ..Default::default() };
    app.data.linears = vec![make_linear(1, None), make_linear(2, Some("2026-08-05"))];
    assert_eq!(app.inbox_linears().len(), 2);
}

#[test]
fn test_sync_by_source_finds_existing() {
    let mut app = App::default();
    app.data.sync = vec![make_sync("github"), make_sync("linear")];
    assert_eq!(app.sync_by_source("linear").unwrap().source, "linear");
}

#[test]
fn test_sync_by_source_returns_none_missing() {
    let mut app = App::default();
    app.data.sync = vec![make_sync("github")];
    assert!(app.sync_by_source("nonexistent").is_none());
}

#[test]
fn test_set_toast_success_has_ttl() {
    let mut app = App::default();
    app.set_toast(ToastKind::Success, "done");
    let toast = app.toast.as_ref().unwrap();
    assert_eq!(toast.kind, ToastKind::Success);
    assert_eq!(toast.message, "done");
    assert_eq!(toast.ttl, Some(2500));
}

#[test]
fn test_set_toast_error_is_sticky() {
    let mut app = App::default();
    app.set_toast(ToastKind::Error, "oops");
    let toast = app.toast.as_ref().unwrap();
    assert_eq!(toast.kind, ToastKind::Error);
    assert_eq!(toast.message, "oops");
    assert!(toast.ttl.is_none(), "error toast TTL should be None (sticky)");
}

#[test]
fn test_set_error_sets_error_toast() {
    let mut app = App::default();
    app.set_error("something broke");
    let toast = app.toast.as_ref().unwrap();
    assert_eq!(toast.kind, ToastKind::Error);
    assert_eq!(toast.message, "something broke");
    assert!(toast.ttl.is_none());
}

#[test]
fn test_tick_spinner_increments_spinner() {
    let mut app = App { spinner: 0, ..Default::default() };
    app.tick_spinner();
    assert_eq!(app.spinner, 1);
}

#[test]
fn test_tick_spinner_wraps_at_max() {
    let mut app = App { spinner: u8::MAX, ..Default::default() };
    app.tick_spinner();
    assert_eq!(app.spinner, 0);
}

fn success_toast(ms: u64) -> Option<Toast> {
    Some(Toast { kind: ToastKind::Success, message: "ok".to_string(), ttl: Some(ms) })
}

#[test]
fn test_tick_spinner_decrements_success_ttl() {
    let mut app = App { toast: success_toast(200), ..Default::default() };
    app.tick_spinner();
    assert_eq!(app.toast.as_ref().unwrap().ttl, Some(100));
}

#[test]
fn test_tick_spinner_clears_toast_when_ttl_expires() {
    let mut app = App { toast: success_toast(50), ..Default::default() };
    app.tick_spinner();
    assert!(app.toast.is_none(), "toast should be cleared when TTL < tick interval");
}

#[test]
fn test_tick_spinner_does_not_clear_error_toast() {
    let mut app = App {
        toast: Some(Toast { kind: ToastKind::Error, message: "error".to_string(), ttl: None }),
        ..Default::default()
    };
    app.tick_spinner();
    assert!(app.toast.is_some(), "error toast should remain (sticky)");
}

#[test]
fn test_tick_spinner_2500ms_ttl_takes_25_ticks() {
    let mut app = App { toast: success_toast(2500), ..Default::default() };
    for _ in 0..25 {
        app.tick_spinner();
    }
    assert!(app.toast.is_none());
}

#[test]
fn test_tick_spinner_2500ms_ttl_present_after_24_ticks() {
    let mut app = App { toast: success_toast(2500), ..Default::default() };
    for _ in 0..24 {
        app.tick_spinner();
    }
    assert!(app.toast.is_some());
    assert_eq!(app.toast.as_ref().unwrap().ttl, Some(100));
}

#[test]
fn test_default_app_state() {
    let app = App::default();
    assert_eq!(app.view, View::Today);
    assert_eq!(app.mode, Mode::Navigate);
    assert_eq!(app.cursor, 0);
    assert_eq!(app.spinner, 0);
    assert!(!app.show_dismissed);
    assert!(!app.show_done);
    assert!(app.toast.is_none());
    assert!(app.data.todos.is_empty());
    assert!(app.data.plan.is_empty());
    assert!(app.data.pulls.is_empty());
    assert!(app.data.linears.is_empty());
    assert!(app.data.sync.is_empty());
}

#[test]
fn test_clamp_cursor_lands_on_first_active_row() {
    let mut app = App { view: View::Today, ..Default::default() };
    app.data.plan = vec![
        make_plan_row(1, 0, make_todo(1, "done one", "done"), None),
        make_plan_row(2, 1, make_todo(2, "started one", "started"), None),
        make_plan_row(3, 2, make_todo(3, "todo one", "todo"), None),
    ];
    app.clamp_cursor_to_active();
    assert_eq!(app.cursor, 0);
}

#[test]
fn test_clamp_cursor_falls_back_to_zero_all_terminal() {
    let mut app = App { view: View::Today, ..Default::default() };
    app.data.plan = vec![
        make_plan_row(1, 0, make_todo(1, "done one", "done"), None),
        make_plan_row(2, 1, make_todo(2, "cancelled one", "cancelled"), None),
    ];
    app.clamp_cursor_to_active();
    assert_eq!(app.cursor, 0);
}

#[test]
fn test_clamp_cursor_uses_backlog_rows_in_backlog_view() {
    let mut app = App { view: View::Backlog, ..Default::default() };
    app.data.plan = vec![make_plan_row(1, 0, make_todo(1, "planned", "done"), None)];
    app.data.todos = vec![make_todo(2, "done unplanned", "done"), make_todo(3, "todo unplanned", "todo")];
    app.clamp_cursor_to_active();
    assert_eq!(app.cursor, 0);
}

#[test]
fn test_clamp_cursor_leaves_explicit_cursor_alone() {
    let mut app = App { view: View::Today, cursor: 3, ..Default::default() };
    app.data.plan = vec![
        make_plan_row(1, 0, make_todo(1, "done", "done"), None),
        make_plan_row(2, 1, make_todo(2, "todo", "todo"), None),
    ];
    app.clamp_cursor_to_active();
    assert_eq!(app.cursor, 3);
}

#[test]
fn test_clamp_cursor_is_noop_outside_list_views() {
    let mut app = App { view: View::Sync, ..Default::default() };
    app.data.plan = vec![make_plan_row(1, 0, make_todo(1, "done", "done"), None)];
    app.clamp_cursor_to_active();
    assert_eq!(app.cursor, 0);
}

#[test]
fn clamp_cursor_skips_a_leading_finished_row() {
    let mut app = App { view: View::Backlog, ..Default::default() };
    app.data.todos = vec![make_todo(1, "c", "cancelled"), make_todo(2, "d", "done"), make_todo(3, "b", "blocked")];
    app.clamp_cursor_to_active();
    // Display order: blocked, done, cancelled; the blocked row comes first.
    assert_eq!(app.cursor, 0);
    let mut app2 = App { view: View::Backlog, ..Default::default() };
    app2.data.todos = vec![make_todo(1, "x", "mystery"), make_todo(2, "t", "todo")];
    app2.clamp_cursor_to_active();
    // The unknown status ranks with started, first; the todo row is second.
    assert_eq!(app2.cursor, 1);
}

#[test]
fn test_today_plan_is_display_ordered_by_status() {
    let mut app = App { view: View::Today, ..Default::default() };
    app.data.plan = vec![
        make_plan_row(1, 0, make_todo(1, "canc", "cancelled"), None),
        make_plan_row(2, 1, make_todo(2, "start", "started"), None),
        make_plan_row(3, 2, make_todo(3, "tod", "todo"), None),
    ];
    let titles: Vec<&str> = app.today_plan().iter().map(|t| t.title.as_str()).collect();
    assert_eq!(titles, vec!["start", "tod", "canc"]);
}

#[test]
fn test_backlog_is_display_ordered_by_status() {
    let mut app = App { view: View::Backlog, ..Default::default() };
    app.data.todos = vec![make_todo(1, "tod", "todo"), make_todo(2, "start", "started"), make_todo(3, "canc", "cancelled")];
    let titles: Vec<&str> = app.backlog().iter().map(|t| t.title.as_str()).collect();
    assert_eq!(titles, vec!["start", "tod", "canc"]);
}

#[test]
fn new_app_reviews_the_day_before() {
    let app = App::new(738000);
    assert_eq!(app.logical_date, 738000);
    assert_eq!(app.review_date, 737999);
    assert_eq!(app.day_start_hour, 4);
    assert!(app.pending.is_empty());
}

#[test]
fn test_today_plan_order_by_position() {
    let mut app = App::default();
    app.data.plan = vec![
        make_plan_row(2, 2, make_todo(2, "B", "todo"), None),
        make_plan_row(1, 1, make_todo(1, "A", "todo"), None),
    ];

    let plan = app.today_plan();
    assert_eq!(plan.len(), 2);
    // Plan rows are iterated in vec order, so position doesn't reorder — the
    // vec order is the position order
    assert_eq!(plan[0].id, 2);
    assert_eq!(plan[1].id, 1);
}


#[test]
fn test_tag_commit_is_removal_when_slug_exists() {
    let app = App {
        data: AppData {
            todos: vec![make_todo_with_tags(
                1,
                "Task",
                "todo",
                &["rust", "tui"],
            )],
            ..Default::default()
        },
        ..Default::default()
    };
    assert!(
        tag_commit_is_removal(&app, 1, "rust"),
        "an existing slug removes the tag"
    );
}

#[test]
fn test_tag_commit_not_removal_for_new_slug() {
    let app = App {
        data: AppData {
            todos: vec![make_todo_with_tags(
                1,
                "Task",
                "todo",
                &["rust"],
            )],
            ..Default::default()
        },
        ..Default::default()
    };
    assert!(
        !tag_commit_is_removal(&app, 1, "linear"),
        "a new slug is added, not removed"
    );
}

#[test]
fn test_tag_commit_not_removal_when_only_tag_is_last() {
    let app = App {
        data: AppData {
            todos: vec![make_todo_with_tags(
                1,
                "Task",
                "todo",
                &["only"],
            )],
            ..Default::default()
        },
        ..Default::default()
    };
    // Re-committing the last (only) tag still counts as removal so the
    // tags region can reach the empty state.
    assert!(tag_commit_is_removal(&app, 1, "only"));
}

#[test]
fn test_tag_commit_not_removal_for_unknown_todo() {
    let app = App {
        data: AppData {
            todos: vec![make_todo_with_tags(
                1,
                "Task",
                "todo",
                &["rust"],
            )],
            ..Default::default()
        },
        ..Default::default()
    };
    assert!(
        !tag_commit_is_removal(&app, 999, "rust"),
        "unknown todo defaults to add"
    );
}

#[test]
fn test_tab_switch_to_review_triggers_fetch() {
    let mut app = App {
        view: View::Sync,
        ..Default::default()
    };
    for _ in 0..4 {
        app.handle_key(KeyEvent::new(KeyCode::Tab, KeyModifiers::none()));
    }
    assert_eq!(app.view, View::Review);
    assert!(
        app.review.is_none(),
        "review should still be None until the async fetch completes"
    );
}

#[test]
fn test_backtab_switch_to_review_triggers_fetch() {
    let mut app = App {
        view: View::Today,
        ..Default::default()
    };
    app.handle_key(KeyEvent::new(KeyCode::BackTab, KeyModifiers::none()));
    app.handle_key(KeyEvent::new(KeyCode::BackTab, KeyModifiers::none()));
    assert_eq!(app.view, View::Review);
}


#[test]
fn reorder_down_then_up_restores_the_plan_order() {
    let rows = |ids: &[i32]| {
        ids.iter()
            .enumerate()
            .map(|(i, id)| make_plan_row(100 + *id, i as i32, make_todo(*id, "t", "todo"), None))
            .collect::<Vec<_>>()
    };
    let mut app = App::new(738000);
    let date = preflight::dates::day_string(738000);
    app.data.plan = rows(&[1, 2, 3]);
    app.mode = Mode::Reorder { source_id: 1 };
    app.handle_key(KeyEvent::new(KeyCode::Char('J'), KeyModifiers::none()));
    assert_eq!(app.pending.last(), Some(&preflight::app::Action::Reorder { date: date.clone(), ids: vec![2, 1, 3] }));
    // the refresh after the save brings the new order
    app.data.plan = rows(&[2, 1, 3]);
    app.handle_key(KeyEvent::new(KeyCode::Char('K'), KeyModifiers::none()));
    assert_eq!(app.pending.last(), Some(&preflight::app::Action::Reorder { date, ids: vec![1, 2, 3] }));
}

#[test]
fn a_part_of_a_matching_filter_still_matches() {
    let todo = make_todo(1, "Write Rust docs", "todo");
    assert!(matches_filter(&todo, "rust doc"));
    assert!(matches_filter(&todo, "rust"));
    assert!(matches_filter(&todo, "st d"));
    assert!(matches_filter(&todo, ""));
    assert!(matches_filter(&todo, "RUST DOC"));
    assert!(matches_filter(&todo, "Rust Doc"));
}
