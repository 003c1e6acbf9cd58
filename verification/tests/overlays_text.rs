use preflight::app::{App, ConfirmAction, Mode, Toast, ToastKind, View};
use preflight::gql::{TagConnection, Todo};
use preflight::overlay::{
    confirm_hint_line, confirm_title_of, confirm_view, help_title_of, help_view, overflow_scroll,
    palette_view, status_picker, toast_view, todo_picker,
};
use preflight::screen::{Emph, Styled};
use preflight::theme::{Glyph, Tone};

fn text(lines: &[Vec<Styled>]) -> String {
    lines
        .iter()
        .map(|l| l.iter().map(|s| s.text.clone()).collect::<String>())
        .collect::<Vec<_>>()
        .join("\n")
}

fn line_text(l: &[Styled]) -> String {
    l.iter().map(|s| s.text.clone()).collect()
}

fn make_todo(id: i32, title: &str, status: &str) -> Todo {
    Todo {
        id,
        title: title.to_string(),
        description: None,
        status: status.to_string(),
        blocked_reason: None,
        sort_key: id,
        created_at: "2026-08-05 10:00:00 +00:00".to_string(),
        started_at: None,
        closed_at: None,
        tag: TagConnection { nodes: vec![] },
    }
}

#[test]
fn test_help_overlay_renders_keybindings() {
    let app = App { view: View::Today, mode: Mode::Help { filter: String::new() }, ..Default::default() };
    let filter = match &app.mode {
        Mode::Help { filter } => filter.clone(),
        _ => unreachable!(),
    };
    let output = format!("{}\n{}", help_title_of(&filter).iter().collect::<String>(), text(&help_view(&filter)));
    assert!(output.contains("KEYS"), "should show help overlay title");
    assert!(output.contains("Global"), "should show Global section");
    assert!(output.contains("quit the app"), "should show quit keybind");
    assert!(output.contains("move cursor"), "should show j/k keybind");
    assert!(output.contains("Sidebar edit"), "should show Sidebar edit section");
    assert!(output.contains("edit / save current field"), "should show sidebar edit/save keybind");
}

#[test]
fn test_help_overlay_does_not_overflow_blank_when_scrolled() {
    let lines = help_view("");
    // A 40-row screen leaves at most 38 rows inside the box.
    let room = lines.len().min(38);
    let scroll = overflow_scroll(lines.len(), room, 100);
    assert!(scroll + room >= lines.len(), "the last row stays in view");
    let shown = text(&lines[scroll..scroll + room]);
    assert!(shown.contains("add a tag to the current todo"), "last help row should still be visible:\n{shown}");
}

#[test]
fn test_help_overlay_sidebar_section_when_filtering() {
    let output = text(&help_view("field"));
    assert!(output.contains("Sidebar edit"), "{output}");
    assert_eq!(help_title_of("field").iter().collect::<String>(), " KEYS \u{b7} field ");
}

#[test]
fn help_without_matches_says_so() {
    assert_eq!(text(&help_view("zzzz")), "no keybinds match \"zzzz\"");
}

#[test]
fn help_rows_pad_keys_to_ten_columns() {
    let lines = help_view("quit");
    assert_eq!(line_text(&lines[1]), "  q         quit the app");
    assert_eq!(lines[1][0].tone, Some(Tone::Accent));
}

#[test]
fn test_confirm_dialog_renders_carryover_dates() {
    let action = ConfirmAction::CarryOver { from: "2026-08-05".to_string(), to: "2026-08-06".to_string() };
    let output = format!("{}\n{}\n{}", confirm_title_of(), text(&confirm_view(&action)), line_text(&confirm_hint_line()));
    assert!(output.contains("Carry unfinished todos from 2026-08-05 into 2026-08-06?"));
    assert!(output.contains("CONFIRM"));
    assert!(output.contains("y confirm"));
    assert!(output.contains("n cancel"));
    let lines = confirm_view(&action);
    assert_eq!(lines[1][0].tone, Some(Tone::Dim));
}

#[test]
fn test_success_toast_renders_message() {
    let toast = Toast { kind: ToastKind::Success, message: "Created".to_string(), ttl: Some(2500) };
    let l = toast_view(&toast);
    assert_eq!(line_text(&l), " \u{2713} Created");
    assert_eq!(l[0].tone, Some(Tone::Done));
}

#[test]
fn test_error_toast_renders_message() {
    let toast = Toast { kind: ToastKind::Error, message: "Connection failed".to_string(), ttl: None };
    let out = line_text(&toast_view(&toast));
    assert!(out.contains("Connection failed"));
    assert!(out.contains('\u{25B2}'));
}

#[test]
fn status_picker_marks_the_selection() {
    let app = App { mode: Mode::StatusSelect { id: 1, selection: 2, reason: None }, ..Default::default() };
    let (rows, prompt) = status_picker(&app);
    assert_eq!(rows.len(), 5);
    assert_eq!(line_text(&rows[0]), "  1. \u{25D0} started");
    assert_eq!(line_text(&rows[2]), format!("{} 3. {} todo", Glyph::CURSOR, Glyph::STATUS_TODO));
    assert_eq!(rows[2][4].emph, Emph::Bold);
    assert!(prompt.is_none());
}

#[test]
fn status_picker_reason_prompt() {
    let app = App { mode: Mode::StatusSelect { id: 1, selection: 1, reason: Some(String::new()) }, ..Default::default() };
    let (_, prompt) = status_picker(&app);
    assert_eq!(line_text(&prompt.unwrap()), "reason blocked because\u{2026}\u{258f}");
    let app = App { mode: Mode::StatusSelect { id: 1, selection: 1, reason: Some("CI".into()) }, ..Default::default() };
    let p = status_picker(&app).1.unwrap();
    assert_eq!(line_text(&p), "reason CI\u{258f}");
    assert_eq!(p[1].emph, Emph::Underlined);
}

#[test]
fn todo_picker_lists_every_todo() {
    let mut app = App { mode: Mode::LinkTodo { pr_id: Some(1), linear_issue_id: None, selection: 1 }, ..Default::default() };
    app.data.todos = vec![make_todo(1, "One", "todo"), make_todo(2, "Two", "done")];
    let rows = todo_picker(&app);
    assert_eq!(line_text(&rows[0]), format!("  {} One", Glyph::STATUS_TODO));
    assert_eq!(line_text(&rows[1]), format!("{} {} Two", Glyph::CURSOR, Glyph::STATUS_DONE));
}

#[test]
fn palette_window_follows_selection() {
    let (input, rows) = palette_view("", 0);
    assert_eq!(input.iter().collect::<String>(), ":\u{258f}");
    assert_eq!(rows.len(), 8);
    assert_eq!(rows[0], ("today", true));
    let (_, rows) = palette_view("", 12);
    assert_eq!(rows.len(), 8);
    assert_eq!(rows[7], ("quit", true));
    assert_eq!(rows[0].0, "sync github");
    let (input, rows) = palette_view("sync", 0);
    assert_eq!(input.iter().collect::<String>(), ":sync\u{258f}");
    assert_eq!(rows, vec![("sync", true), ("sync github", false), ("sync linear", false)]);
}

#[test]
fn test_link_todo_picker_lists_todos() {
    let mut app = App {
        view: View::Inbox,
        mode: Mode::LinkTodo { pr_id: Some(10), linear_issue_id: None, selection: 0 },
        ..Default::default()
    };
    app.data.todos = vec![make_todo(1, "Alpha Todo", "todo"), make_todo(2, "Beta Todo", "started")];
    let output = format!("{}\n{}", preflight::overlay::TODO_PICKER_TITLE, text(&todo_picker(&app)));
    assert!(output.contains("LINK TO TODO"), "picker should show a header:\n{output}");
    assert!(output.contains("Alpha Todo"), "picker should list todo Alpha:\n{output}");
    assert!(output.contains("Beta Todo"), "picker should list todo Beta:\n{output}");
}

#[test]
fn test_command_palette_renders_single_result() {
    let app = App { mode: Mode::Command { input: "backlog".into(), selection: 0, caret: 7 }, ..Default::default() };
    let (input, selection) = match &app.mode {
        Mode::Command { input, selection, .. } => (input.clone(), *selection),
        _ => unreachable!(),
    };
    let (prompt, rows) = palette_view(&input, selection);
    let text = format!(
        "{}\n{}",
        prompt.iter().collect::<String>(),
        rows.iter().map(|(name, _)| *name).collect::<Vec<_>>().join("\n")
    );
    assert!(text.contains("backlog"), "single filtered result must be visible in the palette:\n{text}");
    assert_eq!(rows, vec![("backlog", true)]);
}
