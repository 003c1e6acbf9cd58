use preflight::app::{next_status, status_by_index, DetailData};
use preflight::gql::{LinearIssue, PullRequest, TagConnection, Todo, TodoEvent, TodoLinearIssue, TodoPullRequest};
use preflight::theme::{linear_state_glyph, pr_state_glyph, status_glyph, Glyph, Palette};
use preflight::views::{filter_keybinds, group_by_status, matches_filter, text_with_caret};

fn make_todo(id: i32, status: &str) -> Todo {
    make_titled_todo(id, &format!("Todo {id}"), status)
}

fn make_titled_todo(id: i32, title: &str, status: &str) -> Todo {
    Todo {
        id,
        title: title.to_string(),
        description: None,
        status: status.to_string(),
        blocked_reason: None,
        sort_key: id,
        created_at: "2026-08-05 10:00:00 +00:00".to_string(),
        started_at: None,
        closed_at: None,
        tag: TagConnection { nodes: vec![] },
    }
}

fn make_pr(id: i32, dismissed_at: Option<&str>) -> PullRequest {
    PullRequest {
        id,
        owner: "owner".to_string(),
        repo: "repo".to_string(),
        number: id,
        title: format!("PR #{id}"),
        url: "https://example.com".to_string(),
        author: None,
        state: "open".to_string(),
        review_requested: false,
        authored_by_me: false,
        changes_requested: false,
        copilot_comments: false,
        merge_conflicts: false,
        approved: false,
        actions_failing: false,
        dismissed_at: dismissed_at.map(|s| s.to_string()),
        remote_updated_at: None,
    }
}

fn make_linear(id: i32, dismissed_at: Option<&str>) -> LinearIssue {
    LinearIssue {
        id,
        identifier: format!("PROJ-{id}"),
        title: format!("Issue #{id}"),
        url: "https://example.com".to_string(),
        state_name: "Todo".to_string(),
        state_type: "triage".to_string(),
        priority: None,
        team_key: None,
        assignee_name: None,
        assigned_to_me: false,
        dismissed_at: dismissed_at.map(|s| s.to_string()),
    }
}

#[test]
fn test_spinner_has_8_elements() {
    assert_eq!(Glyph::SPINNER.len(), 8, "SPINNER should have exactly 8 frames");
}

#[test]
fn test_spinner_frames_are_distinct() {
    for i in 0..8 {
        for j in (i + 1)..8 {
            assert_ne!(Glyph::SPINNER[i], Glyph::SPINNER[j]);
        }
    }
}

#[test]
fn test_status_glyphs_are_distinct() {
    let glyphs = [Glyph::STATUS_TODO, Glyph::STATUS_STARTED, Glyph::STATUS_BLOCKED, Glyph::STATUS_DONE, Glyph::STATUS_CANCELLED];
    for i in 0..glyphs.len() {
        for j in (i + 1)..glyphs.len() {
            assert_ne!(glyphs[i], glyphs[j]);
        }
    }
}

#[test]
fn test_pr_state_glyphs_are_distinct() {
    let glyphs = [Glyph::PR_OPEN, Glyph::PR_DRAFT, Glyph::PR_MERGED, Glyph::PR_CLOSED];
    for i in 0..glyphs.len() {
        for j in (i + 1)..glyphs.len() {
            assert_ne!(glyphs[i], glyphs[j]);
        }
    }
}

#[test]
fn test_ui_glyphs_are_set() {
    assert_ne!(Glyph::CURSOR, ' ');
    assert_ne!(Glyph::MARKED, ' ');
    assert_ne!(Glyph::REORDER_GRIP, ' ');
    assert_ne!(Glyph::CARRIED, ' ');
    assert_ne!(Glyph::BLOCKED_REASON, ' ');
    assert_ne!(Glyph::DISMISSED, ' ');
    assert_ne!(Glyph::NEEDS_YOU, ' ');
}

#[test]
fn test_bar_glyphs_are_distinct() {
    assert_ne!(Glyph::BAR_FULL, Glyph::BAR_PARTIAL);
    assert_ne!(Glyph::BAR_PARTIAL, Glyph::BAR_EMPTY);
    assert_ne!(Glyph::BAR_FULL, Glyph::BAR_EMPTY);
}

#[test]
fn test_actor_glyphs_are_set() {
    assert_ne!(Glyph::ACTOR_USER, ' ');
    assert_ne!(Glyph::ACTOR_SYNC, ' ');
    assert_ne!(Glyph::ACTOR_SYSTEM, ' ');
}

#[test]
fn test_filter_keybinds_empty_returns_all() {
    let sections = filter_keybinds("");
    assert_eq!(sections.len(), 4);
    assert_eq!(sections[0].0, "Global");
    assert_eq!(sections[1].0, "Today");
    assert_eq!(sections[2].0, "Backlog");
    assert_eq!(sections[3].0, "Sidebar edit");
}

#[test]
fn test_filter_keybinds_by_key() {
    let sections = filter_keybinds("SPC");
    assert_eq!(sections.len(), 2);
    assert!(sections.iter().any(|(t, _)| *t == "Today"));
    assert!(sections.iter().any(|(t, _)| *t == "Backlog"));
}

#[test]
fn test_filter_keybinds_by_desc() {
    let sections = filter_keybinds("reorder");
    assert_eq!(sections.len(), 1);
    assert_eq!(sections[0].0, "Today");
    assert_eq!(sections[0].1.len(), 1);
}

#[test]
fn test_filter_keybinds_hides_empty_sections() {
    let sections = filter_keybinds("quit");
    assert_eq!(sections.len(), 1);
    assert_eq!(sections[0].0, "Global");
    assert_eq!(sections[0].1.len(), 1);
}

#[test]
fn test_filter_keybinds_no_matches_returns_empty() {
    let sections = filter_keybinds("zzzznonexistent");
    assert!(sections.is_empty());
}

#[test]
fn test_filter_keybinds_case_insensitive() {
    let lower = filter_keybinds("tab");
    let upper = filter_keybinds("TAB");
    assert_eq!(lower.len(), upper.len());
    assert_eq!(lower.len(), 2);
    assert!(lower.iter().any(|(t, _)| *t == "Global"));
    assert!(lower.iter().any(|(t, _)| *t == "Sidebar edit"));
}

#[test]
fn test_detail_data_stores_prs_and_linears() {
    let pr = make_pr(1, None);
    let linear = make_linear(1, None);
    let detail = DetailData {
        tags: vec![],
        events: vec![TodoEvent {
            id: 1,
            kind: "created".to_string(),
            field: None,
            old_value: None,
            new_value: None,
            actor: "system".to_string(),
            occurred_at: "2026-08-05 10:00:00 +00:00".to_string(),
        }],
        prs: vec![TodoPullRequest { pull_request_id: pr.id, relation: "references".to_string(), pull_request: Some(pr) }],
        linears: vec![TodoLinearIssue { linear_issue_id: linear.id, linear_issue: Some(linear) }],
    };
    assert_eq!(detail.prs.len(), 1);
    assert_eq!(detail.linears.len(), 1);
    assert_eq!(detail.prs[0].relation, "references");
    assert!(detail.prs[0].pull_request.is_some());
    assert!(detail.linears[0].linear_issue.is_some());
}

#[test]
fn test_pull_request_has_new_fields() {
    let pr = make_pr(1, None);
    assert!(!pr.changes_requested, "changes_requested should default to false");
    assert!(!pr.copilot_comments, "copilot_comments should default to false");
    assert!(!pr.merge_conflicts, "merge_conflicts should default to false");
}

#[test]
fn test_next_status_forward_wraps() {
    assert_eq!(next_status(0, 1), 1);
    assert_eq!(next_status(4, 1), 0);
    assert_eq!(next_status(2, 1), 3);
}

#[test]
fn test_next_status_backward_wraps() {
    assert_eq!(next_status(0, -1), 4);
    assert_eq!(next_status(4, -1), 3);
    assert_eq!(next_status(2, -1), 1);
}

#[test]
fn test_status_by_index_valid() {
    assert_eq!(status_by_index(0), Some("started"));
    assert_eq!(status_by_index(1), Some("blocked"));
    assert_eq!(status_by_index(2), Some("todo"));
    assert_eq!(status_by_index(3), Some("done"));
    assert_eq!(status_by_index(4), Some("cancelled"));
}

#[test]
fn test_status_by_index_out_of_range() {
    assert!(status_by_index(5).is_none());
    assert!(status_by_index(100).is_none());
}

#[test]
fn test_group_by_status_empty_groups_skipped() {
    let t1 = make_todo(1, "started");
    let t2 = make_todo(2, "done");
    let rows: Vec<&Todo> = vec![&t1, &t2];
    let groups = group_by_status(&rows, true);
    assert_eq!(groups.len(), 2);
    assert_eq!(groups[0].status, "started");
    assert_eq!(groups[1].status, "done");
}

#[test]
fn test_group_by_status_fixed_order() {
    let t1 = make_todo(1, "cancelled");
    let t2 = make_todo(2, "todo");
    let t3 = make_todo(3, "started");
    let t4 = make_todo(4, "blocked");
    let t5 = make_todo(5, "done");
    let rows: Vec<&Todo> = vec![&t1, &t2, &t3, &t4, &t5];
    let groups = group_by_status(&rows, true);
    assert_eq!(groups.len(), 5);
    assert_eq!(groups[0].status, "started");
    assert_eq!(groups[1].status, "blocked");
    assert_eq!(groups[2].status, "todo");
    assert_eq!(groups[3].status, "done");
    assert_eq!(groups[4].status, "cancelled");
}

#[test]
fn test_group_by_status_done_collapsed_when_show_done_false() {
    let t1 = make_todo(1, "todo");
    let t2 = make_todo(2, "done");
    let t3 = make_todo(3, "done");
    let rows: Vec<&Todo> = vec![&t1, &t2, &t3];
    let groups = group_by_status(&rows, false);
    let done_group = groups.iter().find(|g| g.status == "done").unwrap();
    assert!(done_group.collapsed);
    assert_eq!(done_group.rows.len(), 2);
}

#[test]
fn test_group_by_status_done_expanded_when_show_done_true() {
    let t1 = make_todo(1, "done");
    let rows: Vec<&Todo> = vec![&t1];
    let groups = group_by_status(&rows, true);
    let done_group = groups.iter().find(|g| g.status == "done").unwrap();
    assert!(!done_group.collapsed);
    assert_eq!(done_group.rows.len(), 1);
}

#[test]
fn test_group_by_status_with_filter_end_to_end() {
    let t1 = make_titled_todo(1, "Write Rust docs", "started");
    let t2 = make_titled_todo(2, "Review PR", "todo");
    let t3 = make_titled_todo(3, "Rust refactor", "done");
    let all: Vec<&Todo> = vec![&t1, &t2, &t3];
    let filtered: Vec<&Todo> = all.iter().copied().filter(|t| matches_filter(t, "rust")).collect();
    let groups = group_by_status(&filtered, true);
    assert_eq!(groups.len(), 2);
    assert_eq!(groups[0].status, "started");
    assert_eq!(groups[0].rows.len(), 1);
    assert_eq!(groups[1].status, "done");
    assert_eq!(groups[1].rows.len(), 1);
}

#[test]
fn test_group_by_status_filter_no_matches_yields_empty() {
    let t1 = make_titled_todo(1, "Task", "todo");
    let all: Vec<&Todo> = vec![&t1];
    let filtered: Vec<&Todo> = all.iter().copied().filter(|t| matches_filter(t, "zzzznonexistent")).collect();
    assert!(filtered.is_empty());
    let groups = group_by_status(&filtered, true);
    assert!(groups.is_empty());
}

#[test]
fn group_by_status_labels_and_drops_unknown_statuses() {
    let t1 = make_todo(1, "archived");
    let t2 = make_todo(2, "blocked");
    let rows: Vec<&Todo> = vec![&t1, &t2];
    let groups = group_by_status(&rows, false);
    assert_eq!(groups.len(), 1);
    assert_eq!(groups[0].label, "BLOCKED");
    assert_eq!(groups[0].rows[0].id, 2);
}

#[test]
fn grouped_rows_read_in_display_order() {
    let ts = [make_todo(1, "done"), make_todo(2, "todo"), make_todo(3, "started"), make_todo(4, "todo")];
    let rows: Vec<&Todo> = ts.iter().collect();
    let flat: Vec<i32> = group_by_status(&rows, true).iter().flat_map(|g| g.rows.iter().map(|t| t.id)).collect();
    assert_eq!(flat, vec![3, 2, 4, 1]);
}

#[test]
fn test_status_glyph_each_status() {
    assert_eq!(status_glyph("todo"), (Glyph::STATUS_TODO, Palette::TODO));
    assert_eq!(status_glyph("started"), (Glyph::STATUS_STARTED, Palette::STARTED));
    assert_eq!(status_glyph("blocked"), (Glyph::STATUS_BLOCKED, Palette::BLOCKED));
    assert_eq!(status_glyph("done"), (Glyph::STATUS_DONE, Palette::DONE));
    assert_eq!(status_glyph("cancelled"), (Glyph::STATUS_CANCELLED, Palette::CANCELLED));
    assert_eq!(status_glyph("unknown_status"), ('?', Palette::DIM));
}

#[test]
fn test_pr_state_glyph_each_state() {
    assert_eq!(pr_state_glyph("open"), (Glyph::PR_OPEN, Palette::DONE));
    assert_eq!(pr_state_glyph("draft"), (Glyph::PR_DRAFT, Palette::CANCELLED));
    assert_eq!(pr_state_glyph("merged"), (Glyph::PR_MERGED, Palette::MERGED));
    assert_eq!(pr_state_glyph("closed"), (Glyph::PR_CLOSED, Palette::BLOCKED));
    assert_eq!(pr_state_glyph("weird"), ('?', Palette::DIM));
}

#[test]
fn test_linear_state_glyph_each_type() {
    assert_eq!(linear_state_glyph("triage"), ('?', Palette::ACCENT));
    assert_eq!(linear_state_glyph("backlog"), ('·', Palette::CANCELLED));
    assert_eq!(linear_state_glyph("unstarted"), (Glyph::STATUS_TODO, Palette::TODO));
    assert_eq!(linear_state_glyph("started"), (Glyph::STATUS_STARTED, Palette::STARTED));
    assert_eq!(linear_state_glyph("completed"), (Glyph::STATUS_DONE, Palette::DONE));
    assert_eq!(linear_state_glyph("canceled"), (Glyph::STATUS_CANCELLED, Palette::CANCELLED));
    assert_eq!(linear_state_glyph("unknown_type"), ('?', Palette::DIM));
}

#[test]
fn text_with_caret_places_the_glyph_on_a_boundary() {
    assert_eq!(text_with_caret("ab", 1), "a▌b");
    assert_eq!(text_with_caret("ab", 9), "ab▌");
    assert_eq!(text_with_caret("é", 1), "▌é");
    assert_eq!(text_with_caret("", 0), "▌");
}
