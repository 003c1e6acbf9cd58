use preflight::app::{Action, App, ToastKind, View};
use preflight::gql::{FetchAll, PlanRow, TagConnection, Todo};
use preflight::startup::{config_path_for, endpoint_for};

fn make_todo(id: i32, status: &str) -> Todo {
    Todo {
        id,
        title: format!("todo {id}"),
        description: None,
        status: status.to_string(),
        blocked_reason: None,
        sort_key: id,
        created_at: "2026-08-05 10:00:00 +00:00".to_string(),
        started_at: None,
        closed_at: None,
        tag: TagConnection { nodes: vec![] },
    }
}

fn plan_row(id: i32, position: i32, todo: Todo) -> PlanRow {
    PlanRow { id, position, carried_over: false, removed_at: None, todo: Some(todo) }
}

#[test]
fn config_path_prefers_xdg_config_home() {
    assert_eq!(
        config_path_for(Some("/etc/xdg"), Some("/home/me")),
        Some("/etc/xdg/preflight/config.toml".to_string())
    );
}

#[test]
fn config_path_falls_back_to_home_when_xdg_is_empty() {
    assert_eq!(
        config_path_for(Some(""), Some("/home/me")),
        Some("/home/me/.config/preflight/config.toml".to_string())
    );
    assert_eq!(
        config_path_for(None, Some("/home/me")),
        Some("/home/me/.config/preflight/config.toml".to_string())
    );
}

#[test]
fn config_path_is_none_without_home() {
    assert_eq!(config_path_for(None, None), None);
    assert_eq!(config_path_for(Some(""), None), None);
}

#[test]
fn endpoint_prefers_the_environment() {
    assert_eq!(
        endpoint_for(Some("http://backend:9/graphql"), Some(("localhost", 8000))),
        "http://backend:9/graphql"
    );
}

#[test]
fn endpoint_from_configured_server() {
    assert_eq!(endpoint_for(None, Some(("0.0.0.0", 9400))), "http://0.0.0.0:9400/graphql");
}

#[test]
fn endpoint_default() {
    assert_eq!(endpoint_for(None, None), "http://127.0.0.1:8000/graphql");
}

#[test]
fn clock_sets_the_logical_and_review_days() {
    let mut app = App::new(700000);
    app.apply_clock(6, Some(738000));
    assert_eq!(app.day_start_hour, 6);
    assert_eq!(app.logical_date, 738000);
    assert_eq!(app.review_date, 737999);
}

#[test]
fn clock_without_a_date_keeps_the_days() {
    let mut app = App::new(700000);
    app.apply_clock(5, None);
    assert_eq!(app.day_start_hour, 5);
    assert_eq!(app.logical_date, 700000);
    assert_eq!(app.review_date, 699999);
}

#[test]
fn first_fetch_failure_shows_connect_failed() {
    let mut app = App::new(700000);
    app.apply_first_fetch(Err("connection refused".to_string()));
    let toast = app.toast.clone().expect("a toast");
    assert_eq!(toast.kind, ToastKind::Error);
    assert_eq!(toast.message, "connect failed: connection refused");
    assert!(app.pending.is_empty());
}

#[test]
fn first_fetch_moves_cursor_to_first_active_row_and_asks_for_its_detail() {
    let mut app = App::new(700000);
    assert_eq!(app.view, View::Today);
    let done = make_todo(1, "done");
    let open = make_todo(2, "todo");
    let data = FetchAll {
        todo: vec![done.clone(), open.clone()],
        plan: vec![plan_row(10, 0, done), plan_row(11, 1, open)],
        pulls: vec![],
        linears: vec![],
        sync: vec![],
    };
    app.apply_first_fetch(Ok(data));
    assert_eq!(app.data.todos.len(), 2);
    assert!(app.toast.is_none());
    assert_eq!(app.detail_loaded_id, Some(2));
    assert_eq!(app.pending, vec![Action::FetchDetail { id: 2 }]);
}
