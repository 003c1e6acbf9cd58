use chrono::Datelike;
use preflight::app::{Action, App, ToastKind};
use preflight::gql::{LinkRelation, DailyReview, FetchAll, TodoEvent, TodoLinearIssue, TodoPullRequest};
use preflight::jobs::{next_call, start_job, take_reply, Call, Job, Reply};
use preflight::msg::AppMsg;

fn app_on_aug_6() -> App {
    App::new(chrono::NaiveDate::from_ymd_opt(2026, 8, 6).unwrap().num_days_from_ce())
}

fn is_toast(m: &AppMsg, kind: ToastKind, text: &str) -> bool {
    matches!(m, AppMsg::Toast(k, t) if *k == kind && t == text)
}

fn is_refresh(m: &AppMsg) -> bool {
    matches!(m, AppMsg::Refresh)
}

fn created(msgs: &[AppMsg]) -> bool {
    msgs.len() == 2 && is_toast(&msgs[0], ToastKind::Success, "todo created") && is_refresh(&msgs[1])
}

fn event(id: i32) -> TodoEvent {
    TodoEvent {
        id,
        kind: "status_changed".to_string(),
        field: Some("status".to_string()),
        old_value: Some("todo".to_string()),
        new_value: Some("started".to_string()),
        actor: "me".to_string(),
        occurred_at: "2026-08-06 09:00:00 +00:00".to_string(),
    }
}

/// Answers every call with `Done` and collects the calls made.
fn run_all_done(job: &mut Job) -> Vec<Call> {
    let mut calls = Vec::new();
    while let Some(c) = next_call(job) {
        calls.push(c);
        take_reply(job, Reply::Done);
    }
    calls
}

#[test]
fn refresh_fetches_the_logical_day() {
    let mut app = app_on_aug_6();
    app.generation = 3;
    let (mut job, start) = start_job(&app, Action::Refresh);
    assert!(start.is_empty());
    assert_eq!(next_call(&job), Some(Call::FetchAll { date: "2026-08-06".to_string() }));
    let data = FetchAll { todo: vec![], plan: vec![], pulls: vec![], linears: vec![], sync: vec![] };
    let msgs = take_reply(&mut job, Reply::All(data.clone()));
    assert_eq!(msgs.len(), 1);
    assert!(matches!(&msgs[0], AppMsg::FetchAll { generation: 3, data: d } if *d == data));
    assert_eq!(next_call(&job), None);
}

#[test]
fn refresh_failure_is_an_error_toast() {
    let app = app_on_aug_6();
    let (mut job, _) = start_job(&app, Action::Refresh);
    let msgs = take_reply(&mut job, Reply::Failed("connection refused".to_string()));
    assert_eq!(msgs.len(), 1);
    assert!(is_toast(&msgs[0], ToastKind::Error, "connection refused"));
    assert!(job.finished);
}

#[test]
fn create_and_plan_makes_two_calls() {
    let app = app_on_aug_6();
    let (mut job, _) = start_job(&app, Action::CreateTodo { title: "write docs".to_string(), plan_today: true });
    assert_eq!(next_call(&job), Some(Call::CreateTodo { title: "write docs".to_string() }));
    let msgs = take_reply(&mut job, Reply::Created { id: 7 });
    assert!(msgs.is_empty());
    assert_eq!(next_call(&job), Some(Call::PlanToday { todo_id: 7 }));
    let msgs = take_reply(&mut job, Reply::Done);
    assert!(created(&msgs));
    assert_eq!(next_call(&job), None);
}

#[test]
fn create_then_plan_failure_still_reports_creation() {
    let app = app_on_aug_6();
    let (mut job, _) = start_job(&app, Action::CreateTodo { title: "x".to_string(), plan_today: true });
    take_reply(&mut job, Reply::Created { id: 9 });
    let msgs = take_reply(&mut job, Reply::Failed("no plan".to_string()));
    assert_eq!(msgs.len(), 3);
    assert!(is_toast(&msgs[0], ToastKind::Error, "plan failed: no plan"));
    assert!(created(&msgs[1..]));
}

#[test]
fn create_without_plan_is_one_call() {
    let app = app_on_aug_6();
    let (mut job, _) = start_job(&app, Action::CreateTodo { title: "x".to_string(), plan_today: false });
    let msgs = take_reply(&mut job, Reply::Created { id: 2 });
    assert!(created(&msgs));
    assert_eq!(next_call(&job), None);
}

#[test]
fn create_failure_stops_the_job() {
    let app = app_on_aug_6();
    let (mut job, _) = start_job(&app, Action::CreateTodo { title: "x".to_string(), plan_today: true });
    let msgs = take_reply(&mut job, Reply::Failed("duplicate".to_string()));
    assert_eq!(msgs.len(), 1);
    assert!(is_toast(&msgs[0], ToastKind::Error, "duplicate"));
    assert_eq!(next_call(&job), None);
}

#[test]
fn add_form_creation_runs_its_follow_ups_in_order() {
    let app = app_on_aug_6();
    let action = Action::SidebarAddCreate {
        title: "review".to_string(),
        desc: "look at it".to_string(),
        pending_prs: vec![3, 4],
        plan_after: true,
    };
    let (mut job, _) = start_job(&app, action);
    assert_eq!(next_call(&job), Some(Call::CreateTodo { title: "review".to_string() }));
    assert!(take_reply(&mut job, Reply::Created { id: 11 }).is_empty());
    assert_eq!(
        next_call(&job),
        Some(Call::UpdateTodo { id: 11, title: None, desc: Some("look at it".to_string()) })
    );
    assert!(take_reply(&mut job, Reply::Done).is_empty());
    assert_eq!(next_call(&job), Some(Call::LinkPr { todo_id: 11, pr_id: 3, relation: LinkRelation::References }));
    // a failed follow-up is not reported
    assert!(take_reply(&mut job, Reply::Failed("gone".to_string())).is_empty());
    assert_eq!(next_call(&job), Some(Call::LinkPr { todo_id: 11, pr_id: 4, relation: LinkRelation::References }));
    assert!(take_reply(&mut job, Reply::Done).is_empty());
    assert_eq!(next_call(&job), Some(Call::PlanToday { todo_id: 11 }));
    let msgs = take_reply(&mut job, Reply::Done);
    assert!(created(&msgs));
    assert_eq!(next_call(&job), None);
}

#[test]
fn add_form_without_follow_ups_reports_at_once() {
    let app = app_on_aug_6();
    let action = Action::SidebarAddCreate {
        title: "t".to_string(),
        desc: String::new(),
        pending_prs: vec![],
        plan_after: false,
    };
    let (mut job, _) = start_job(&app, action);
    let msgs = take_reply(&mut job, Reply::Created { id: 1 });
    assert!(created(&msgs));
    assert_eq!(next_call(&job), None);
}

#[test]
fn add_form_creation_failure_is_reported() {
    let app = app_on_aug_6();
    let action = Action::SidebarAddCreate {
        title: "t".to_string(),
        desc: "d".to_string(),
        pending_prs: vec![1],
        plan_after: true,
    };
    let (mut job, _) = start_job(&app, action);
    let msgs = take_reply(&mut job, Reply::Failed("bad title".to_string()));
    assert_eq!(msgs.len(), 1);
    assert!(is_toast(&msgs[0], ToastKind::Error, "bad title"));
    assert_eq!(next_call(&job), None);
}

#[test]
fn detail_fetch_gathers_three_replies() {
    let mut app = app_on_aug_6();
    app.generation = 5;
    let (mut job, _) = start_job(&app, Action::FetchDetail { id: 42 });
    assert_eq!(next_call(&job), Some(Call::TodoEvents { id: 42 }));
    assert!(take_reply(&mut job, Reply::Events(vec![event(1), event(2)])).is_empty());
    assert_eq!(next_call(&job), Some(Call::TodoPullRequests { id: 42 }));
    let prs = vec![TodoPullRequest { pull_request_id: 8, relation: "references".to_string(), pull_request: None }];
    assert!(take_reply(&mut job, Reply::PullRequests(prs.clone())).is_empty());
    assert_eq!(next_call(&job), Some(Call::TodoLinearIssues { id: 42 }));
    let linears = vec![TodoLinearIssue { linear_issue_id: 4, linear_issue: None }];
    let msgs = take_reply(&mut job, Reply::LinearIssues(linears.clone()));
    assert_eq!(msgs.len(), 1);
    match &msgs[0] {
        AppMsg::DetailData { generation, id, events, prs: p, linears: l } => {
            assert_eq!(*generation, 5);
            assert_eq!(*id, 42);
            assert_eq!(events, &vec![event(1), event(2)]);
            assert_eq!(p, &prs);
            assert_eq!(l, &linears);
        }
        _ => panic!("expected detail data"),
    }
    assert_eq!(next_call(&job), None);
}

#[test]
fn detail_fetch_reports_the_first_failure_after_all_calls() {
    let app = app_on_aug_6();
    let (mut job, _) = start_job(&app, Action::FetchDetail { id: 1 });
    assert!(take_reply(&mut job, Reply::Failed("events down".to_string())).is_empty());
    assert!(take_reply(&mut job, Reply::Failed("prs down".to_string())).is_empty());
    let msgs = take_reply(&mut job, Reply::LinearIssues(vec![]));
    assert_eq!(msgs.len(), 1);
    assert!(is_toast(&msgs[0], ToastKind::Error, "events down"));
}

#[test]
fn sync_all_runs_linear_then_github() {
    let app = app_on_aug_6();
    let (mut job, start) = start_job(&app, Action::SyncAll);
    assert_eq!(start.len(), 2);
    assert!(matches!(&start[0], AppMsg::SyncStarted { source } if source == "linear"));
    assert!(matches!(&start[1], AppMsg::SyncStarted { source } if source == "github"));
    assert_eq!(next_call(&job), Some(Call::SyncLinear));
    let msgs = take_reply(&mut job, Reply::Failed("rate limited".to_string()));
    assert_eq!(msgs.len(), 2);
    assert!(matches!(&msgs[0], AppMsg::SyncDone { source, success: false } if source == "linear"));
    assert!(is_toast(&msgs[1], ToastKind::Error, "rate limited"));
    assert_eq!(next_call(&job), Some(Call::SyncGithub));
    let msgs = take_reply(&mut job, Reply::Done);
    assert_eq!(msgs.len(), 1);
    assert!(matches!(&msgs[0], AppMsg::SyncDone { source, success: true } if source == "github"));
    assert_eq!(next_call(&job), None);
}

#[test]
fn single_sync_reports_start_and_end() {
    let app = app_on_aug_6();
    let (mut job, start) = start_job(&app, Action::SyncGithub);
    assert_eq!(start.len(), 1);
    assert!(matches!(&start[0], AppMsg::SyncStarted { source } if source == "github"));
    assert_eq!(run_all_done(&mut job), vec![Call::SyncGithub]);
}

#[test]
fn set_status_success_toasts_and_refreshes() {
    let app = app_on_aug_6();
    let action = Action::SetStatus { id: 3, status: "blocked".to_string(), blocked: Some("waiting".to_string()) };
    let (mut job, _) = start_job(&app, action);
    assert_eq!(
        next_call(&job),
        Some(Call::SetStatus { id: 3, status: "blocked".to_string(), blocked: Some("waiting".to_string()) })
    );
    let msgs = take_reply(&mut job, Reply::Done);
    assert_eq!(msgs.len(), 2);
    assert!(is_toast(&msgs[0], ToastKind::Success, "status set"));
    assert!(is_refresh(&msgs[1]));
}

#[test]
fn unplan_failure_is_quiet() {
    let app = app_on_aug_6();
    let (mut job, _) = start_job(&app, Action::Unplan { todo_id: 3 });
    assert!(take_reply(&mut job, Reply::Failed("x".to_string())).is_empty());
    assert!(job.finished);
}

#[test]
fn add_tag_failure_is_reported() {
    let app = app_on_aug_6();
    let (mut job, _) = start_job(&app, Action::AddTag { todo_id: 3, slug: "ops".to_string() });
    assert_eq!(next_call(&job), Some(Call::AddTag { todo_id: 3, slug: "ops".to_string() }));
    let msgs = take_reply(&mut job, Reply::Failed("no such tag".to_string()));
    assert_eq!(msgs.len(), 1);
    assert!(is_toast(&msgs[0], ToastKind::Error, "no such tag"));
}

#[test]
fn reorder_success_only_refreshes() {
    let app = app_on_aug_6();
    let (mut job, _) = start_job(&app, Action::Reorder { date: "2026-08-06".to_string(), ids: vec![3, 1, 2] });
    assert_eq!(next_call(&job), Some(Call::Reorder { date: "2026-08-06".to_string(), ids: vec![3, 1, 2] }));
    let msgs = take_reply(&mut job, Reply::Done);
    assert_eq!(msgs.len(), 1);
    assert!(is_refresh(&msgs[0]));
}

#[test]
fn review_reply_carries_the_generation() {
    let mut app = app_on_aug_6();
    app.generation = 9;
    let (mut job, _) = start_job(&app, Action::FetchReview { date: "2026-08-05".to_string() });
    assert_eq!(next_call(&job), Some(Call::DailyReview { date: "2026-08-05".to_string() }));
    let review = DailyReview {
        date: "2026-08-05".to_string(),
        planned: vec![],
        touched: vec![],
        completed: vec![],
        carried_over: vec![],
    };
    let msgs = take_reply(&mut job, Reply::Review(review.clone()));
    assert_eq!(msgs.len(), 1);
    assert!(matches!(&msgs[0], AppMsg::DailyReview { generation: 9, review: r } if *r == review));
}

#[test]
fn open_url_makes_no_call() {
    let app = app_on_aug_6();
    let (job, start) = start_job(&app, Action::OpenUrl { url: "https://example.com".to_string() });
    assert!(start.is_empty());
    assert_eq!(next_call(&job), None);
}

#[test]
fn every_job_stops_within_its_bound() {
    let app = app_on_aug_6();
    let cases: Vec<(Action, usize)> = vec![
        (Action::CreateTodo { title: "a".to_string(), plan_today: true }, 1),
        (Action::FetchDetail { id: 1 }, 3),
        (Action::SyncAll, 2),
        (Action::DismissPr { id: 4 }, 1),
        (
            Action::SidebarAddCreate {
                title: "a".to_string(),
                desc: "b".to_string(),
                pending_prs: vec![1, 2, 3],
                plan_after: false,
            },
            1,
        ),
    ];
    for (action, expected) in cases {
        let (mut job, _) = start_job(&app, action);
        // answering with `Done` never yields a created id, so a creation stops after one call
        assert_eq!(run_all_done(&mut job).len(), expected);
    }
}
