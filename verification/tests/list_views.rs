use preflight::app::{App, AppData, Mode, View};
use preflight::bars::{hint_line, legend, split_content, tab_bar, title_date_of, Area};
use preflight::gql::{DailyReview, LinearIssue, PlanRow, PullRequest, SyncState, Tag, TagConnection, Todo};
use preflight::lists::{
    backlog_list, grouped_list, inbox_rows, review_screen, sync_screen, today_list, ListLines,
    ReviewScreen, INBOX_COLUMNS,
};
use preflight::screen::{Emph, Styled};
use preflight::theme::{Glyph, Tone};
use preflight::views::{context_word, status_hints, sync_indicator_at, GroupedSection};

fn make_todo(id: i32, title: &str, status: &str) -> Todo {
    Todo {
        id,
        title: title.to_string(),
        description: None,
        status: status.to_string(),
        blocked_reason: None,
        sort_key: id,
        created_at: "2026-08-05 10:00:00 +00:00".to_string(),
        started_at: None,
        closed_at: None,
        tag: TagConnection { nodes: vec![] },
    }
}

fn make_todo_with_tags(id: i32, title: &str, status: &str, slugs: &[&str]) -> Todo {
    let mut t = make_todo(id, title, status);
    t.tag = TagConnection {
        nodes: slugs.iter().map(|s| Tag { slug: s.to_string(), name: s.to_string() }).collect(),
    };
    t
}

fn make_plan_row(id: i32, position: i32, todo: Todo, removed_at: Option<&str>) -> PlanRow {
    PlanRow { id, position, carried_over: false, removed_at: removed_at.map(|s| s.to_string()), todo: Some(todo) }
}

fn make_pr(id: i32, dismissed_at: Option<&str>) -> PullRequest {
    PullRequest {
        id,
        owner: "owner".to_string(),
        repo: "repo".to_string(),
        number: id,
        title: format!("PR #{id}"),
        url: "https://example.com".to_string(),
        author: None,
        state: "open".to_string(),
        review_requested: false,
        authored_by_me: false,
        changes_requested: false,
        copilot_comments: false,
        merge_conflicts: false,
        approved: false,
        actions_failing: false,
        dismissed_at: dismissed_at.map(|s| s.to_string()),
        remote_updated_at: None,
    }
}

fn make_linear(id: i32, dismissed_at: Option<&str>) -> LinearIssue {
    LinearIssue {
        id,
        identifier: format!("PROJ-{id}"),
        title: format!("Issue #{id}"),
        url: "https://example.com".to_string(),
        state_name: "Todo".to_string(),
        state_type: "triage".to_string(),
        priority: None,
        team_key: None,
        assignee_name: None,
        assigned_to_me: false,
        dismissed_at: dismissed_at.map(|s| s.to_string()),
    }
}

fn make_sync(source: &str) -> SyncState {
    SyncState {
        source: source.to_string(),
        cursor: None,
        last_synced_at: None,
        last_status: "ok".to_string(),
        last_error: None,
    }
}

fn line_text(l: &[Styled]) -> String {
    l.iter().map(|s| s.text.clone()).collect()
}

fn list_text(l: &ListLines) -> String {
    l.lines.iter().map(|x| line_text(x)).collect::<Vec<_>>().join("\n")
}

/// The lines drawn highlighted (the cursor's).
fn highlighted(l: &ListLines) -> Vec<String> {
    l.lines.iter().zip(l.marked.iter()).filter(|(_, m)| **m).map(|(x, _)| line_text(x)).collect()
}

fn selected_title(l: &ListLines) -> Option<String> {
    l.selected.map(|k| line_text(&l.lines[k]).trim_start_matches(|c: char| c == ' ' || c == Glyph::CURSOR).to_string())
}

fn inbox_text(app: &App) -> String {
    let t = inbox_rows(app);
    let mut out = INBOX_COLUMNS.join(" ");
    for row in &t.rows {
        out.push('\n');
        out.push_str(&row.iter().map(|c| line_text(c)).collect::<Vec<_>>().join(" | "));
    }
    out
}

fn sync_row(source: &str, cursor: Option<&str>, status: &str, error: Option<&str>) -> SyncState {
    SyncState {
        source: source.to_string(),
        cursor: cursor.map(|c| c.to_string()),
        last_synced_at: None,
        last_status: status.to_string(),
        last_error: error.map(|e| e.to_string()),
    }
}

#[test]
fn test_cursor_highlights_display_order_row() {
    let app = App {
        cursor: 0,
        data: AppData {
            plan: vec![
                make_plan_row(1, 0, make_todo(1, "PlanA", "todo"), None),
                make_plan_row(2, 1, make_todo(2, "PlanB", "started"), None),
            ],
            todos: vec![make_todo(1, "PlanA", "todo"), make_todo(2, "PlanB", "started")],
            ..AppData::default()
        },
        ..Default::default()
    };
    let l = today_list(&app);
    let rows = highlighted(&l);
    assert_eq!(rows.len(), 1);
    assert!(rows[0].ends_with("PlanB"), "cursor 0 should highlight the display-order top row:\n{}", list_text(&l));
}

#[test]
fn test_cursor_highlights_correct_row_across_groups() {
    let app = App {
        cursor: 1,
        data: AppData {
            plan: vec![
                make_plan_row(1, 0, make_todo(1, "Started", "started"), None),
                make_plan_row(2, 1, make_todo(2, "TodoTwo", "todo"), None),
                make_plan_row(3, 2, make_todo(3, "TodoThree", "todo"), None),
            ],
            ..AppData::default()
        },
        ..Default::default()
    };
    let l = today_list(&app);
    assert_eq!(highlighted(&l).len(), 1);
    assert!(selected_title(&l).unwrap().ends_with("TodoTwo"), "{}", list_text(&l));
    // Lines: STARTED header, Started, blank, TODO header, TodoTwo, ...
    assert_eq!(l.selected, Some(4));
}

#[test]
fn test_today_renders_plan_rows_with_headers() {
    let mut app = App::default();
    app.data.plan = vec![
        make_plan_row(1, 0, make_todo(1, "Task A", "todo"), None),
        make_plan_row(2, 1, make_todo(2, "Task B", "started"), None),
    ];
    let buf = list_text(&today_list(&app));
    assert!(buf.contains("Task A"), "{buf}");
    assert!(buf.contains("Task B"), "{buf}");
    assert!(buf.contains("STARTED \u{b7} 1"), "{buf}");
    assert!(buf.contains("TODO \u{b7} 1"), "{buf}");
    assert!(buf.contains(Glyph::STATUS_TODO), "{buf}");
    assert!(buf.contains(Glyph::STATUS_STARTED), "{buf}");
}

#[test]
fn test_today_renders_carried_over_glyph() {
    let mut app = App::default();
    let mut row = make_plan_row(1, 0, make_todo(1, "Carried task", "todo"), None);
    row.carried_over = true;
    app.data.plan = vec![row];
    let buf = list_text(&today_list(&app));
    assert!(buf.contains(Glyph::CARRIED), "{buf}");
    assert!(buf.contains("Carried task"), "{buf}");
}

#[test]
fn test_today_renders_unplanned_section() {
    let mut app = App::default();
    app.data.plan = vec![make_plan_row(1, 0, make_todo(1, "Dropped task", "todo"), Some("2026-08-05"))];
    let l = today_list(&app);
    let buf = list_text(&l);
    assert!(buf.contains("UNPLANNED TODAY \u{b7} 1"), "{buf}");
    assert!(buf.contains("Dropped task"), "{buf}");
    let dropped = l.lines.iter().find(|x| line_text(x).contains("Dropped task")).unwrap();
    assert_eq!(dropped[3].emph, Emph::Crossed);
}

#[test]
fn test_today_renders_inline_create_prompt_in_navigate_mode() {
    let app = App { mode: Mode::Navigate, ..Default::default() };
    let buf = list_text(&today_list(&app));
    assert!(buf.contains("add"), "{buf}");
    assert!(buf.contains("what else is happening today?"), "{buf}");
}

#[test]
fn test_today_cursor_at_index_1_highlights_second_row() {
    let mut app = App { cursor: 1, ..Default::default() };
    app.data.plan = vec![
        make_plan_row(1, 0, make_todo(1, "First", "todo"), None),
        make_plan_row(2, 1, make_todo(2, "Second", "todo"), None),
        make_plan_row(3, 2, make_todo(3, "Third", "todo"), None),
    ];
    let l = today_list(&app);
    let buf = list_text(&l);
    assert!(buf.contains(Glyph::CURSOR), "{buf}");
    assert_eq!(highlighted(&l), vec![format!("{}  {} Second", Glyph::CURSOR, Glyph::STATUS_TODO)]);
}

#[test]
fn today_search_without_match_shows_note() {
    let mut app = App { mode: Mode::Search { input: "zzz".into(), caret: 3 }, ..Default::default() };
    app.data.plan = vec![make_plan_row(1, 0, make_todo(1, "First", "todo"), None)];
    let l = today_list(&app);
    assert_eq!(line_text(&l.lines[0]), "  no matches for \"zzz\"");
    assert_eq!(l.selected, None);
}

#[test]
fn blocked_row_has_reason_line() {
    let mut app = App::default();
    let mut t = make_todo(1, "Stuck", "blocked");
    t.blocked_reason = Some("waiting on CI".into());
    app.data.plan = vec![make_plan_row(1, 0, t, None)];
    let l = today_list(&app);
    let reason = l.lines.iter().find(|x| line_text(x).contains("waiting on CI")).unwrap();
    assert_eq!(line_text(reason), format!("        {} waiting on CI", Glyph::BLOCKED_REASON));
    assert_eq!(reason[3].emph, Emph::Underlined);
    assert_eq!(reason[3].tone, Some(Tone::Blocked));
}

#[test]
fn test_backlog_groups_todos_by_status_with_counts() {
    let mut app = App::default();
    app.data.todos = vec![
        make_todo(1, "Active task", "started"),
        make_todo(2, "Blocked task", "blocked"),
        make_todo(3, "Todo task", "todo"),
        make_todo(4, "Done task", "done"),
    ];
    app.show_done = true;
    let output = list_text(&backlog_list(&app));
    assert!(output.contains("STARTED \u{b7} 1"));
    assert!(output.contains("BLOCKED \u{b7} 1"));
    assert!(output.contains("TODO \u{b7} 1"));
    assert!(output.contains("DONE \u{b7} 1"));
}

#[test]
fn test_backlog_done_hidden_when_show_done_false() {
    let mut app = App::default();
    app.data.todos = vec![make_todo(1, "Active task", "started"), make_todo(4, "Done task", "done")];
    app.show_done = false;
    let output = list_text(&backlog_list(&app));
    assert!(output.contains("DONE \u{b7} 1 (collapsed \u{2014} press D to expand)"), "{output}");
    assert!(!output.contains("Done task"), "{output}");
}

#[test]
fn test_backlog_renders_inline_create_prompt_in_navigate_mode() {
    let app = App::default();
    let output = list_text(&backlog_list(&app));
    assert!(output.contains("what else is on your mind?"), "{output}");
}

#[test]
fn test_backlog_renders_active_inline_create_input() {
    let app = App { mode: Mode::InlineCreate { input: "new backlog task".to_string(), caret: 16 }, ..Default::default() };
    let l = backlog_list(&app);
    let output = list_text(&l);
    assert!(output.contains("new backlog task\u{258f}"), "{output}");
    assert_eq!(l.lines.last().unwrap()[1].emph, Emph::Input);
}

#[test]
fn test_grouped_list_cursor_offsets_complete_header() {
    let first = make_todo(1, "first started", "started");
    let second = make_todo(2, "second started", "started");
    let third = make_todo(3, "plain todo", "todo");
    let groups = vec![
        GroupedSection { label: "STARTED", status: "started", rows: vec![&first, &second], collapsed: false },
        GroupedSection { label: "TODO", status: "todo", rows: vec![&third], collapsed: false },
    ];
    let l = grouped_list(&groups, Some(second.id), &vec![]);
    let rows = highlighted(&l);
    assert_eq!(rows.len(), 1, "expected exactly one highlighted row, got {rows:?}");
    assert!(rows[0].contains("second started"), "{rows:?}");
    assert_eq!(l.selected, Some(2));
}

#[test]
fn test_grouped_list_single_highlight_with_collapsed_done() {
    let started = make_todo(1, "started one", "started");
    let todo = make_todo(2, "todo one", "todo");
    let done_a = make_todo(3, "done a", "done");
    let done_b = make_todo(4, "done b", "done");
    let groups = vec![
        GroupedSection { label: "STARTED", status: "started", rows: vec![&started], collapsed: false },
        GroupedSection { label: "TODO", status: "todo", rows: vec![&todo], collapsed: false },
        GroupedSection { label: "DONE", status: "done", rows: vec![&done_a, &done_b], collapsed: true },
    ];
    let l = grouped_list(&groups, Some(todo.id), &vec![]);
    let rows = highlighted(&l);
    assert_eq!(rows.len(), 1, "expected exactly one highlighted row, got {rows:?}");
    assert!(rows[0].contains("todo one"), "{rows:?}");
    assert_eq!(line_text(l.lines.last().unwrap()), "  DONE \u{b7} 2 (collapsed \u{2014} press D to expand)");
}

#[test]
fn test_split_content_narrow_returns_full_area_no_sidebar() {
    let area = Area { x: 0, y: 0, width: 80, height: 24 };
    let (list, sidebar) = split_content(area);
    assert_eq!(list, area);
    assert!(sidebar.is_none());
}

#[test]
fn test_split_content_wide_splits_list_and_sidebar() {
    let area = Area { x: 0, y: 0, width: 120, height: 24 };
    let (list, sidebar) = split_content(area);
    assert!(list.width < area.width);
    let sb = sidebar.unwrap();
    assert!(sb.width >= 25);
    assert_eq!(list.width + sb.width, area.width);
    assert_eq!(sb.x, 90);
}

#[test]
fn test_split_content_boundary_99_no_sidebar() {
    let (_, sidebar) = split_content(Area { x: 0, y: 0, width: 99, height: 24 });
    assert!(sidebar.is_none());
}

#[test]
fn test_split_content_boundary_100_has_sidebar() {
    let (_, sidebar) = split_content(Area { x: 0, y: 0, width: 100, height: 24 });
    assert_eq!(sidebar.unwrap().width, 25);
}

#[test]
fn test_inbox_renders_pr_and_linear_groups() {
    let mut app = App::default();
    app.data.pulls = vec![make_pr(1, None), make_pr(2, None)];
    app.data.linears = vec![make_linear(3, None)];
    let buffer = inbox_text(&app);
    assert!(buffer.contains("GITHUB"), "{buffer}");
    assert!(buffer.contains("2 pull requests"), "{buffer}");
    assert!(buffer.contains("LINEAR"), "{buffer}");
    assert!(buffer.contains("1 issues"), "{buffer}");
    assert!(buffer.contains("PR #1"), "{buffer}");
    assert!(buffer.contains("PR #2"), "{buffer}");
    assert!(buffer.contains("Issue #3"), "{buffer}");
}

#[test]
fn test_inbox_hides_dismissed_when_show_dismissed_false() {
    let mut app = App::default();
    app.data.pulls = vec![make_pr(1, None), make_pr(2, Some("2026-08-05"))];
    app.show_dismissed = false;
    let buffer = inbox_text(&app);
    assert!(buffer.contains("PR #1"));
    assert!(!buffer.contains("PR #2"));
    app.show_dismissed = true;
    let buffer = inbox_text(&app);
    assert!(buffer.contains("PR #1"));
    assert!(buffer.contains("PR #2"));
    assert!(buffer.contains("  dismissed"), "{buffer}");
}

#[test]
fn test_inbox_renders_table_with_column_headers() {
    let mut app = App::default();
    app.data.pulls = vec![make_pr(1, None)];
    let buffer = inbox_text(&app);
    assert!(buffer.contains("REPO"), "{buffer}");
    assert!(buffer.contains("AUTHOR"), "{buffer}");
    assert!(buffer.contains("TITLE"), "{buffer}");
}

#[test]
fn test_inbox_orders_closed_prs_after_open() {
    let mut app = App { show_closed: true, ..Default::default() };
    let mut closed = make_pr(1, None);
    closed.title = "ClosedOne".into();
    closed.state = "closed".into();
    app.data.pulls = vec![closed, make_pr(2, None)];
    let buffer = inbox_text(&app);
    let open_idx = buffer.find("PR #2");
    let closed_idx = buffer.find("ClosedOne");
    assert!(open_idx.is_some(), "{buffer}");
    assert!(closed_idx.is_some(), "{buffer}");
    assert!(open_idx < closed_idx, "{buffer}");
    assert!(buffer.contains("CLOSED / MERGED"), "{buffer}");
}

#[test]
fn test_inbox_hides_closed_prs_by_default() {
    let mut app = App::default();
    let mut closed = make_pr(2, None);
    closed.title = "ClosedOne".into();
    closed.state = "closed".into();
    app.data.pulls = vec![make_pr(1, None), closed];
    let buffer = inbox_text(&app);
    assert!(buffer.contains("PR #1"));
    assert!(!buffer.contains("ClosedOne"), "{buffer}");
    assert!(buffer.contains("1 closed/merged hidden"), "{buffer}");
    app.show_closed = true;
    let buffer = inbox_text(&app);
    assert!(buffer.contains("ClosedOne"), "{buffer}");
    assert!(!buffer.contains("hidden"), "{buffer}");
}

#[test]
fn test_inbox_render_filter_narrows_prs() {
    let mut app = App::default();
    app.data.pulls = vec![make_pr(1, None), make_pr(2, None)];
    app.mode = Mode::Filter { input: "#1".into(), caret: 2 };
    let buffer = inbox_text(&app);
    assert!(buffer.contains("PR #1"));
    assert!(!buffer.contains("PR #2"));
}

#[test]
fn test_inbox_render_filter_narrows_linears() {
    let mut app = App::default();
    app.data.linears = vec![make_linear(1, None), make_linear(2, None)];
    app.mode = Mode::Filter { input: "PROJ-1".into(), caret: 6 };
    let buffer = inbox_text(&app);
    assert!(buffer.contains("PROJ-1"));
    assert!(!buffer.contains("PROJ-2"));
}

#[test]
fn test_inbox_renders_repo_dividers() {
    let mut app = App::default();
    let mut a = make_pr(1, None);
    a.owner = "owner-a".into();
    a.repo = "repo-x".into();
    let mut b = make_pr(2, None);
    b.owner = "owner-b".into();
    b.repo = "repo-y".into();
    app.data.pulls = vec![a, b];
    let buffer = inbox_text(&app);
    assert!(buffer.contains("owner-a/repo-x"), "{buffer}");
    assert!(buffer.contains("\u{2576} owner-b/repo-y"), "{buffer}");
}

#[test]
fn inbox_selection_skips_headers_and_dividers() {
    let mut app = App { cursor: 1, ..Default::default() };
    let mut a = make_pr(1, None);
    a.owner = "a".into();
    let mut b = make_pr(2, None);
    b.owner = "b".into();
    app.data.pulls = vec![a, b];
    app.data.linears = vec![make_linear(3, None)];
    let t = inbox_rows(&app);
    // Rows: GitHub header, a's row, divider for b, b's row, empty, Linear header, issue.
    assert_eq!(t.selected, Some(3));
    app.cursor = 2;
    assert_eq!(inbox_rows(&app).selected, Some(6));
    app.cursor = 3;
    assert_eq!(inbox_rows(&app).selected, None);
}

#[test]
fn test_sync_renders_source_rows() {
    let mut app = App::default();
    app.data.sync = vec![
        sync_row("github", Some("abc123"), "ok", None),
        sync_row("linear", None, "error", Some("rate limited")),
    ];
    let l = sync_screen(&app, 0);
    let output = list_text(&l);
    assert!(output.contains("SOURCE"));
    assert!(output.contains("STATE"));
    assert!(output.contains("LAST SYNC"));
    assert!(output.contains("CURSOR"));
    assert!(output.contains("github"));
    assert!(output.contains("linear"));
    assert!(output.contains("\u{21bb} ok"));
    assert!(output.contains("\u{25b2} error"));
    assert!(output.contains("              \u{25b2} rate limited"), "{output}");
    assert_eq!(line_text(&l.lines[1]), format!("{} github     \u{21bb} ok  never               abc123", Glyph::CURSOR));
    assert_eq!(l.selected, Some(0));
}

#[test]
fn test_sync_renders_offline_message_when_empty() {
    let app = App::default();
    let output = list_text(&sync_screen(&app, 0));
    assert!(output.contains("no sources configured"), "{output}");
}

#[test]
fn review_loading_and_day_panels() {
    let mut app = App::default();
    app.review_date = chrono::NaiveDate::from_ymd_opt(2026, 8, 4).unwrap().num_days_from_ce();
    match review_screen(&app) {
        ReviewScreen::Loading(l) => assert_eq!(line_text(&l), format!("  {} loading review for 2026-08-04\u{2026}", Glyph::SPINNER[2])),
        _ => panic!("expected the loading line"),
    }
    app.review = Some(DailyReview {
        date: "2026-08-04".into(),
        planned: vec![make_todo(1, "Planned", "done")],
        touched: vec![],
        completed: vec![make_todo(1, "Planned", "done")],
        carried_over: vec![],
    });
    match review_screen(&app) {
        ReviewScreen::Day { summary, planned, touched } => {
            assert_eq!(
                line_text(&summary),
                "  logical day 2026-08-04 04:00 \u{2192} 2026-08-04 04:00 \u{b7} 1 planned \u{b7} 0 touched \u{b7} 1 completed \u{b7} 0 carried"
            );
            assert_eq!(line_text(&planned[0]), "  PLANNED \u{b7} 1");
            assert_eq!(line_text(&planned[1]), format!("  {} Planned", Glyph::STATUS_DONE));
            assert_eq!(touched.len(), 1);
        },
        _ => panic!("expected the day's panels"),
    }
}

use chrono::Datelike;

#[test]
fn test_render_frame_shows_date_with_weekday() {
    let app = App::new(chrono::NaiveDate::from_ymd_opt(2026, 8, 6).unwrap().num_days_from_ce());
    let text: String = title_date_of(&app).iter().collect();
    assert!(text.contains("Thu"), "{text}");
    assert!(text.contains("2026-08-06"), "{text}");
    assert_eq!(text, format!("Thu 2026-08-06 \u{b7} day {:02}:00", app.day_start_hour));
}

#[test]
fn test_render_frame_tab_bar_highlights_active_view() {
    let tabs = tab_bar(View::Backlog);
    let text = line_text(&tabs);
    for label in ["Today", "Backlog", "Inbox", "Review", "Sync"] {
        assert!(text.contains(label), "{text}");
    }
    let active = tabs.iter().find(|s| s.emph == Emph::Badge).unwrap();
    assert_eq!(active.text, " Backlog ");
}

#[test]
fn test_render_frame_status_bar_shows_navigate_hints() {
    let app = App { view: View::Today, mode: Mode::Navigate, ..Default::default() };
    let status_line = line_text(&hint_line(status_hints(&app)));
    assert!(status_line.contains("j/k move"), "{status_line}");
    assert!(status_line.contains("SPC status"), "{status_line}");
    assert!(status_line.contains("a add"), "{status_line}");
}

#[test]
fn hint_keys_are_bold_accent() {
    let runs = hint_line("j/k move  enter open");
    assert_eq!(runs.len(), 4);
    assert_eq!(runs[0].text, "j/k");
    assert_eq!(runs[0].emph, Emph::Bold);
    assert_eq!(runs[1].text, " move  ");
    assert_eq!(runs[2].text, "enter");
    assert_eq!(runs[3].text, " open  ");
    let runs = hint_line("x");
    assert_eq!(runs[0].text, "x  ");
    assert_eq!(runs[0].tone, None);
}

#[test]
fn test_render_frame_sync_indicator_when_syncing() {
    let mut app = App::default();
    app.data.sync = vec![sync_row("github", None, "syncing", None)];
    let status_line = sync_indicator_at(&app, 0);
    assert!(Glyph::SPINNER.iter().any(|&c| status_line.contains(c)), "{status_line}");
}

#[test]
fn test_render_frame_context_word_changes_per_view() {
    let mut app = App { view: View::Today, ..Default::default() };
    app.data.plan = vec![
        make_plan_row(1, 0, make_todo(1, "First", "started"), None),
        make_plan_row(2, 1, make_todo(2, "Second", "todo"), None),
    ];
    assert!(context_word(&app).contains("2 planned"));
    let mut app = App { view: View::Sync, ..Default::default() };
    app.data.sync = vec![sync_row("github", None, "idle", None), sync_row("linear", None, "idle", None), sync_row("jira", None, "idle", None)];
    assert!(context_word(&app).contains("3 sources configured"));
}

#[test]
fn legend_lists_every_glyph() {
    let l = legend();
    assert_eq!(l.len(), 14);
    assert_eq!(l[0], (Glyph::PR_OPEN, "open PR"));
    assert_eq!(l[13], (Glyph::STATUS_STARTED, "Linear started"));
}

#[test]
fn test_inbox_legend_sidebar_renders() {
    let app = App { view: View::Inbox, ..Default::default() };
    // at 120 columns the inbox leaves room for the side panel, which shows the legend
    let content = Area { x: 0, y: 3, width: 120, height: 35 };
    assert!(split_content(content).1.is_some());
    assert_eq!(app.view, View::Inbox);
    let buffer = format!(
        "{}\n{}",
        preflight::bars::LEGEND_TITLE,
        preflight::bars::legend_lines()
            .iter()
            .map(|l| l.iter().map(|s| s.text.clone()).collect::<String>())
            .collect::<Vec<_>>()
            .join("\n")
    );
    assert!(buffer.contains("LEGEND"), "legend sidebar title should appear");
    assert!(buffer.contains("open PR"), "legend should describe the open PR glyph");
    assert!(buffer.contains("changes requested"), "legend should describe the changes-requested glyph");
}

#[test]
fn legend_lines_put_the_glyph_in_the_accent_tone() {
    let lines = preflight::bars::legend_lines();
    assert_eq!(lines.len(), legend().len());
    assert_eq!(lines[0][0].text, Glyph::PR_OPEN.to_string());
    assert_eq!(lines[0][0].tone, Some(Tone::Accent));
    assert_eq!(lines[0][1].text, " open PR");
    assert_eq!(lines[0][1].tone, None);
}

#[test]
fn test_section_header_has_title() {
    let line = preflight::lists::section_header("My Section");
    assert_eq!(line.len(), 1);
    assert_eq!(line[0].text, "My Section");
}

#[test]
fn test_section_header_is_dim_styled() {
    let line = preflight::lists::section_header("Header");
    assert_eq!(line[0].tone, Some(Tone::Dim));
}

#[test]
fn test_blocked_reason_line_contains_reason() {
    let line = preflight::lists::blocked_reason_line("waiting on CI");
    let reason_span = line.iter().find(|s| s.text == "waiting on CI");
    assert!(reason_span.is_some(), "reason text should be in the line spans");
    let span = reason_span.unwrap();
    assert_eq!(span.tone, Some(Tone::Blocked));
    assert_eq!(span.emph, Emph::Underlined);
}

#[test]
fn test_blocked_reason_line_has_glyph() {
    let line = preflight::lists::blocked_reason_line("reason");
    let glyph_span = line.iter().find(|s| s.text == Glyph::BLOCKED_REASON.to_string());
    assert!(glyph_span.is_some(), "blocked reason glyph should be present");
    assert_eq!(glyph_span.unwrap().tone, Some(Tone::Blocked));
}

#[test]
fn review_footer_says_the_day_is_closed() {
    let l = preflight::lists::review_footer();
    assert_eq!(l.len(), 1);
    assert_eq!(l[0].text, "  ─ read-only · this day is closed ─");
    assert_eq!(l[0].tone, Some(Tone::Faint));
}

#[test]
fn grouping_puts_each_known_row_in_one_group() {
    let rows = vec![
        make_todo(1, "a", "todo"),
        make_todo(2, "b", "done"),
        make_todo(3, "c", "archived"),
        make_todo(4, "d", "started"),
        make_todo(5, "e", "todo"),
    ];
    let refs: Vec<&Todo> = rows.iter().collect();
    let hidden = preflight::views::group_by_status(&refs, false);
    let shown = preflight::views::group_by_status(&refs, true);
    let statuses: Vec<&str> = hidden.iter().map(|g| g.status).collect();
    assert_eq!(statuses, vec!["started", "todo", "done"]);
    assert_eq!(hidden.iter().map(|g| g.rows.len()).sum::<usize>(), 4);
    assert_eq!(hidden.len(), shown.len());
    for (h, s) in hidden.iter().zip(shown.iter()) {
        assert_eq!(h.status, s.status);
        assert_eq!(h.rows.len(), s.rows.len());
        assert_eq!(h.collapsed, h.status == "done");
        assert!(!s.collapsed);
    }
}
