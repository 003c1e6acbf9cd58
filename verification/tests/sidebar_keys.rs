use preflight::app::{App, LinkKind, Mode, SidebarField, ToastKind, View};
use preflight::gql::{LinearIssue, PlanRow, PullRequest, Tag, TagConnection, Todo};
use preflight::keys::{KeyCode, KeyEvent, KeyModifiers};

fn make_todo(id: i32, title: &str, status: &str) -> Todo {
    Todo {
        id,
        title: title.to_string(),
        description: None,
        status: status.to_string(),
        blocked_reason: None,
        sort_key: id,
        created_at: "2026-08-05 10:00:00 +00:00".to_string(),
        started_at: None,
        closed_at: None,
        tag: TagConnection { nodes: vec![] },
    }
}

fn make_todo_with_tags(id: i32, title: &str, status: &str, slugs: &[&str]) -> Todo {
    let mut t = make_todo(id, title, status);
    t.tag = TagConnection {
        nodes: slugs.iter().map(|s| Tag { slug: s.to_string(), name: s.to_string() }).collect(),
    };
    t
}

fn make_plan_row(id: i32, position: i32, todo: Todo, removed_at: Option<&str>) -> PlanRow {
    PlanRow { id, position, carried_over: false, removed_at: removed_at.map(|s| s.to_string()), todo: Some(todo) }
}

fn make_pr(id: i32, dismissed_at: Option<&str>) -> PullRequest {
    PullRequest {
        id,
        owner: "owner".to_string(),
        repo: "repo".to_string(),
        number: id,
        title: format!("PR #{id}"),
        url: "https://example.com".to_string(),
        author: None,
        state: "open".to_string(),
        review_requested: false,
        authored_by_me: false,
        changes_requested: false,
        copilot_comments: false,
        merge_conflicts: false,
        approved: false,
        actions_failing: false,
        dismissed_at: dismissed_at.map(|s| s.to_string()),
        remote_updated_at: None,
    }
}

fn make_linear(id: i32, dismissed_at: Option<&str>) -> LinearIssue {
    LinearIssue {
        id,
        identifier: format!("PROJ-{id}"),
        title: format!("Issue #{id}"),
        url: "https://example.com".to_string(),
        state_name: "Todo".to_string(),
        state_type: "triage".to_string(),
        priority: None,
        team_key: None,
        assignee_name: None,
        assigned_to_me: false,
        dismissed_at: dismissed_at.map(|s| s.to_string()),
    }
}

fn setup_app_with_todo() -> App {
    let mut app = App::default();
    app.data.plan = vec![make_plan_row(1, 0, make_todo(1, "My Task", "todo"), None)];
    app.data.todos = vec![make_todo(1, "My Task", "todo")];
    app.cursor = 0;
    app.content_width = 120;
    app
}

fn enter_sidebar_edit(app: &mut App) {
    app.mode = Mode::SidebarEdit {
        id: 1,
        field: SidebarField::Description,
        input_active: false,
        title_input: String::new(),
        title_caret: 0,
        desc_input: String::new(),
        desc_caret: 0,
        desc_scroll: 0,
        tag_input: String::new(),
        tag_caret: 0,
        link_kind: LinkKind::Pr,
        link_selection: 0,
        attaching: false,
        link_search: String::new(),
        scroll: 0,
    };
}

fn nav_to_links_active(app: &mut App) {
    if let Mode::SidebarEdit { field, input_active, .. } = &mut app.mode {
        *field = SidebarField::Links;
        *input_active = true;
    }
}

fn key(code: KeyCode) -> KeyEvent {
    KeyEvent::new(code, KeyModifiers::none())
}

#[test]
fn test_edit_form_moves_caret_with_left_right() {
    let mut app = setup_app_with_todo();
    app.mode = Mode::SidebarEdit {
        id: 1,
        field: SidebarField::Title,
        input_active: true,
        title_input: "hello".to_string(),
        title_caret: 5,
        desc_input: String::new(),
        desc_caret: 0,
        desc_scroll: 0,
        tag_input: String::new(),
        tag_caret: 0,
        link_kind: LinkKind::Pr,
        link_selection: 0,
        attaching: false,
        link_search: String::new(),
        scroll: 0,
    };
    // Left then Left: caret moves to index 3.
    app.key_sidebar(key(KeyCode::Left));
    app.key_sidebar(key(KeyCode::Left));
    if let Mode::SidebarEdit { title_caret, .. } = &app.mode {
        assert_eq!(*title_caret, 3, "Left twice should move caret to 3");
    } else {
        panic!("expected SidebarEdit");
    }
}

#[test]
fn test_r_enters_inline_edit_seeded_with_title() {
    let mut app = setup_app_with_todo();
    app.handle_key(key(KeyCode::Char('r')));
    assert!(
        matches!(&app.mode, Mode::InlineEdit { id, input, .. } if *id == 1 && input == "My Task"),
        "should enter InlineEdit with id=1 and input seeded from title"
    );
}

#[test]
fn test_r_on_empty_plan_does_nothing() {
    let mut app = App::default();

    app.handle_key(key(KeyCode::Char('r')));
    assert_eq!(app.mode, Mode::Navigate);
}

#[test]
fn test_esc_from_inline_edit_returns_to_navigate() {
    let mut app = setup_app_with_todo();
    // Enter inline edit
    app.handle_key(key(KeyCode::Char('r')));
    assert!(matches!(app.mode, Mode::InlineEdit { .. }));
    // Esc returns to Navigate
    app.handle_key(key(KeyCode::Esc));
    assert_eq!(app.mode, Mode::Navigate);
}

#[test]
fn test_enter_from_inline_edit_commits_and_returns_to_navigate() {
    let mut app = setup_app_with_todo();
    app.handle_key(key(KeyCode::Char('r')));
    assert!(matches!(app.mode, Mode::InlineEdit { .. }));
    // Enter commits (mutation runs async) and returns to Navigate
    app.handle_key(key(KeyCode::Enter));
    assert_eq!(app.mode, Mode::Navigate);
}

#[test]
fn test_e_enters_sidebar_edit() {
    let mut app = setup_app_with_todo();
    app.handle_key(key(KeyCode::Char('e')));
    assert!(
        matches!(&app.mode, Mode::SidebarEdit { id, field, .. } if *id == 1 && *field == SidebarField::Description),
        "should enter SidebarEdit for id=1, focused on Description"
    );
}

#[test]
fn test_enter_enters_sidebar_edit() {
    let mut app = setup_app_with_todo();
    app.handle_key(key(KeyCode::Enter));
    assert!(
        matches!(&app.mode, Mode::SidebarEdit { id, .. } if *id == 1),
        "Enter should also enter SidebarEdit"
    );
}

#[test]
fn test_esc_from_sidebar_edit_returns_to_navigate() {
    let mut app = setup_app_with_todo();
    app.handle_key(key(KeyCode::Char('e')));
    assert!(matches!(app.mode, Mode::SidebarEdit { .. }));
    app.handle_key(key(KeyCode::Esc));
    assert_eq!(app.mode, Mode::Navigate);
}

#[test]
fn test_sidebar_edit_starts_with_scroll_zero() {
    let mut app = setup_app_with_todo();
    app.handle_key(key(KeyCode::Char('e')));
    if let Mode::SidebarEdit { scroll, .. } = &app.mode {
        assert_eq!(*scroll, 0, "scroll should be reset on entry");
    } else {
        panic!("expected SidebarEdit mode");
    }
}

#[test]
fn test_sidebar_edit_seeds_desc_input_from_todo_description() {
    let mut app = setup_app_with_todo();
    app.data.todos[0].description = Some("existing description".to_string());
    if let Some(todo) = &mut app.data.plan[0].todo {
        todo.description = Some("existing description".to_string());
    }
    app.handle_key(key(KeyCode::Char('e')));
    if let Mode::SidebarEdit { desc_input, .. } = &app.mode {
        assert_eq!(desc_input, "existing description");
    } else {
        panic!("expected SidebarEdit mode");
    }
}

#[test]
fn test_narrow_terminal_prevents_sidebar_edit() {
    let mut app = setup_app_with_todo();
    app.content_width = 80; // below 100
    app.handle_key(key(KeyCode::Char('e')));
    assert_eq!(
        app.mode,
        Mode::Navigate,
        "should stay in Navigate on narrow terminal"
    );
    assert!(
        app.toast.is_some(),
        "should show a toast when terminal is too narrow"
    );
    let toast = app.toast.as_ref().unwrap();
    assert_eq!(toast.kind, ToastKind::Error);
    assert!(
        toast.message.contains("narrow"),
        "toast should mention narrow terminal"
    );
}

#[test]
fn test_narrow_terminal_blocks_enter_key_too() {
    let mut app = setup_app_with_todo();
    app.content_width = 99;
    app.handle_key(key(KeyCode::Enter));
    assert_eq!(app.mode, Mode::Navigate);
    assert!(app.toast.is_some());
}

#[test]
fn test_tab_cycles_fields_forward() {
    let mut app = setup_app_with_todo();
    enter_sidebar_edit(&mut app);

    // Description -> Links
    app.key_sidebar(key(KeyCode::Tab));
    if let Mode::SidebarEdit { field, .. } = &app.mode {
        assert_eq!(*field, SidebarField::Links);
    } else {
        panic!("expected SidebarEdit");
    }

    // Links -> Tags
    app.key_sidebar(key(KeyCode::Tab));
    if let Mode::SidebarEdit { field, .. } = &app.mode {
        assert_eq!(*field, SidebarField::Tags);
    } else {
        panic!("expected SidebarEdit");
    }

    // Tags -> Title (wraps)
    app.key_sidebar(key(KeyCode::Tab));
    if let Mode::SidebarEdit { field, .. } = &app.mode {
        assert_eq!(*field, SidebarField::Title);
    } else {
        panic!("expected SidebarEdit");
    }

    // Title -> Description (wraps)
    app.key_sidebar(key(KeyCode::Tab));
    if let Mode::SidebarEdit { field, .. } = &app.mode {
        assert_eq!(*field, SidebarField::Description);
    } else {
        panic!("expected SidebarEdit");
    }
}

#[test]
fn test_j_cycles_fields_forward_same_as_tab() {
    let mut app = setup_app_with_todo();
    enter_sidebar_edit(&mut app);

    app.key_sidebar(key(KeyCode::Char('j')));
    if let Mode::SidebarEdit { field, .. } = &app.mode {
        assert_eq!(*field, SidebarField::Links, "j should advance like Tab");
    } else {
        panic!("expected SidebarEdit");
    }
}

#[test]
fn test_k_cycles_fields_backward() {
    let mut app = setup_app_with_todo();
    enter_sidebar_edit(&mut app);

    // Description -> Title (backward)
    app.key_sidebar(key(KeyCode::Char('k')));
    if let Mode::SidebarEdit { field, .. } = &app.mode {
        assert_eq!(*field, SidebarField::Title);
    } else {
        panic!("expected SidebarEdit");
    }
}

#[test]
fn test_back_tab_cycles_fields_backward() {
    let mut app = setup_app_with_todo();
    enter_sidebar_edit(&mut app);

    // Description -> Title (backward)
    app.key_sidebar(key(KeyCode::BackTab));
    if let Mode::SidebarEdit { field, .. } = &app.mode {
        assert_eq!(*field, SidebarField::Title);
    } else {
        panic!("expected SidebarEdit");
    }
}

#[test]
fn test_field_nav_resets_scroll() {
    let mut app = setup_app_with_todo();
    enter_sidebar_edit(&mut app);
    // Set scroll to something nonzero
    if let Mode::SidebarEdit { scroll, .. } = &mut app.mode {
        *scroll = 5;
    }
    app.key_sidebar(key(KeyCode::Tab));
    if let Mode::SidebarEdit { scroll, .. } = &app.mode {
        assert_eq!(*scroll, 0, "scroll should reset to 0 on field nav");
    } else {
        panic!("expected SidebarEdit");
    }
}

#[test]
fn test_field_nav_does_not_move_list_cursor() {
    let mut app = setup_app_with_todo();
    app.cursor = 0;
    enter_sidebar_edit(&mut app);
    app.key_sidebar(key(KeyCode::Char('j')));
    assert_eq!(
        app.cursor, 0,
        "list cursor should not move during sidebar field nav"
    );
}

#[test]
fn test_enter_activates_input_on_description() {
    let mut app = setup_app_with_todo();
    enter_sidebar_edit(&mut app);

    assert!(
        !matches!(&app.mode, Mode::SidebarEdit { input_active, .. } if *input_active),
        "input_active should be false on entry"
    );

    app.key_sidebar(key(KeyCode::Enter));
    assert!(
        matches!(&app.mode, Mode::SidebarEdit { input_active, .. } if *input_active),
        "Enter should activate input"
    );
}

#[test]
fn test_description_char_input() {
    let mut app = setup_app_with_todo();
    enter_sidebar_edit(&mut app);

    // Activate input
    app.key_sidebar(key(KeyCode::Enter));
    // Type some chars
    app.key_sidebar(key(KeyCode::Char('H')));
    app.key_sidebar(key(KeyCode::Char('i')));
    if let Mode::SidebarEdit { desc_input, .. } = &app.mode {
        assert_eq!(desc_input, "Hi");
    } else {
        panic!("expected SidebarEdit");
    }
}

#[test]
fn test_description_backspace() {
    let mut app = setup_app_with_todo();
    enter_sidebar_edit(&mut app);

    app.key_sidebar(key(KeyCode::Enter));
    app.key_sidebar(key(KeyCode::Char('H')));
    app.key_sidebar(key(KeyCode::Char('i')));
    app.key_sidebar(key(KeyCode::Backspace));
    if let Mode::SidebarEdit { desc_input, .. } = &app.mode {
        assert_eq!(desc_input, "H");
    } else {
        panic!("expected SidebarEdit");
    }
}

#[test]
fn test_description_enter_deactivates_input() {
    let mut app = setup_app_with_todo();
    enter_sidebar_edit(&mut app);

    app.key_sidebar(key(KeyCode::Enter));
    assert!(matches!(&app.mode, Mode::SidebarEdit { input_active, .. } if *input_active));
    // Commit with Enter
    app.key_sidebar(key(KeyCode::Enter));
    assert!(
        matches!(&app.mode, Mode::SidebarEdit { input_active, .. } if !*input_active),
        "Enter on description should deactivate input (commit)"
    );
    // Mode should still be SidebarEdit
    assert!(matches!(app.mode, Mode::SidebarEdit { .. }));
}

#[test]
fn test_description_esc_deactivates_input() {
    let mut app = setup_app_with_todo();
    enter_sidebar_edit(&mut app);

    app.key_sidebar(key(KeyCode::Enter));
    assert!(matches!(&app.mode, Mode::SidebarEdit { input_active, .. } if *input_active));
    app.key_sidebar(key(KeyCode::Esc));
    assert!(
        matches!(&app.mode, Mode::SidebarEdit { input_active, .. } if !*input_active),
        "Esc should deactivate input"
    );
}

#[test]
fn test_description_down_increases_scroll() {
    let mut app = setup_app_with_todo();
    enter_sidebar_edit(&mut app);

    app.key_sidebar(key(KeyCode::Enter));
    app.key_sidebar(key(KeyCode::Down));
    if let Mode::SidebarEdit { desc_scroll, .. } = &app.mode {
        assert_eq!(*desc_scroll, 1);
    } else {
        panic!("expected SidebarEdit");
    }
    app.key_sidebar(key(KeyCode::Down));
    if let Mode::SidebarEdit { desc_scroll, .. } = &app.mode {
        assert_eq!(*desc_scroll, 2);
    } else {
        panic!("expected SidebarEdit");
    }
}

#[test]
fn test_description_up_decreases_scroll_saturating() {
    let mut app = setup_app_with_todo();
    enter_sidebar_edit(&mut app);

    app.key_sidebar(key(KeyCode::Enter));
    // Scroll is 0, Up should saturate at 0
    app.key_sidebar(key(KeyCode::Up));
    if let Mode::SidebarEdit { desc_scroll, .. } = &app.mode {
        assert_eq!(*desc_scroll, 0);
    } else {
        panic!("expected SidebarEdit");
    }
}

#[test]
fn test_tag_input_typing() {
    let mut app = setup_app_with_todo();
    enter_sidebar_edit(&mut app);

    // Nav to Tags
    app.key_sidebar(key(KeyCode::Tab));
    app.key_sidebar(key(KeyCode::Tab));
    // Activate input
    app.key_sidebar(key(KeyCode::Enter));
    // Type a tag
    app.key_sidebar(key(KeyCode::Char('a')));
    app.key_sidebar(key(KeyCode::Char('b')));
    if let Mode::SidebarEdit { tag_input, .. } = &app.mode {
        assert_eq!(tag_input, "ab");
    } else {
        panic!("expected SidebarEdit");
    }
}

#[test]
fn test_tag_enter_clears_input_and_deactivates() {
    let mut app = setup_app_with_todo();
    enter_sidebar_edit(&mut app);

    // Nav to Tags
    app.key_sidebar(key(KeyCode::Tab));
    app.key_sidebar(key(KeyCode::Tab));
    app.key_sidebar(key(KeyCode::Enter));
    app.key_sidebar(key(KeyCode::Char('t')));
    app.key_sidebar(key(KeyCode::Char('e')));
    app.key_sidebar(key(KeyCode::Char('s')));
    // Commit
    app.key_sidebar(key(KeyCode::Enter));
    if let Mode::SidebarEdit {
        tag_input,
        input_active,
        ..
    } = &app.mode
    {
        assert!(tag_input.is_empty(), "tag input should be cleared");
        assert!(!input_active, "input should be deactivated");
    } else {
        panic!("expected SidebarEdit");
    }
}

#[test]
fn test_tag_backspace() {
    let mut app = setup_app_with_todo();
    enter_sidebar_edit(&mut app);

    app.key_sidebar(key(KeyCode::Tab));
    app.key_sidebar(key(KeyCode::Tab));
    app.key_sidebar(key(KeyCode::Enter));
    app.key_sidebar(key(KeyCode::Char('a')));
    app.key_sidebar(key(KeyCode::Backspace));
    if let Mode::SidebarEdit { tag_input, .. } = &app.mode {
        assert!(tag_input.is_empty());
    } else {
        panic!("expected SidebarEdit");
    }
}

#[test]
fn test_links_j_moves_selection_down() {
    let mut app = setup_app_with_todo();
    enter_sidebar_edit(&mut app);

    // Nav to Links
    app.key_sidebar(key(KeyCode::Tab));
    // Activate
    app.key_sidebar(key(KeyCode::Enter));
    // j (no links in data, selection stays at 0)
    app.key_sidebar(key(KeyCode::Char('j')));
    if let Mode::SidebarEdit { link_selection, .. } = &app.mode {
        assert_eq!(*link_selection, 0, "selection should stay 0 with no links");
    } else {
        panic!("expected SidebarEdit");
    }
}

#[test]
fn test_links_k_selection_saturates_at_zero() {
    let mut app = setup_app_with_todo();
    enter_sidebar_edit(&mut app);

    app.key_sidebar(key(KeyCode::Tab));
    app.key_sidebar(key(KeyCode::Enter));
    app.key_sidebar(key(KeyCode::Char('k')));
    if let Mode::SidebarEdit { link_selection, .. } = &app.mode {
        assert_eq!(*link_selection, 0);
    } else {
        panic!("expected SidebarEdit");
    }
}

#[test]
fn test_links_down_moves_selection_down() {
    let mut app = setup_app_with_todo();
    enter_sidebar_edit(&mut app);

    app.key_sidebar(key(KeyCode::Tab));
    app.key_sidebar(key(KeyCode::Enter));
    app.key_sidebar(key(KeyCode::Down));
    if let Mode::SidebarEdit { link_selection, .. } = &app.mode {
        assert_eq!(*link_selection, 0, "Down also moves link selection");
    } else {
        panic!("expected SidebarEdit");
    }
}

#[test]
fn test_links_up_moves_selection_up() {
    let mut app = setup_app_with_todo();
    enter_sidebar_edit(&mut app);
    // Set link_selection to 1
    if let Mode::SidebarEdit { link_selection, .. } = &mut app.mode {
        *link_selection = 1;
    }

    app.key_sidebar(key(KeyCode::Tab));
    app.key_sidebar(key(KeyCode::Enter));
    app.key_sidebar(key(KeyCode::Up));
    if let Mode::SidebarEdit { link_selection, .. } = &app.mode {
        assert_eq!(*link_selection, 0);
    } else {
        panic!("expected SidebarEdit");
    }
}

#[test]
fn test_links_tab_switches_kind() {
    let mut app = setup_app_with_todo();
    enter_sidebar_edit(&mut app);

    // Nav to Links
    app.key_sidebar(key(KeyCode::Tab));
    app.key_sidebar(key(KeyCode::Enter));
    assert!(
        matches!(&app.mode, Mode::SidebarEdit { link_kind, .. } if *link_kind == LinkKind::Pr),
        "default link kind should be Pr"
    );
    // Tab within links input toggles kind
    app.key_sidebar(key(KeyCode::Tab));
    if let Mode::SidebarEdit { link_kind, .. } = &app.mode {
        assert_eq!(*link_kind, LinkKind::Linear, "Tab should switch to Linear");
    } else {
        panic!("expected SidebarEdit");
    }
    // Tab again wraps back to Pr
    app.key_sidebar(key(KeyCode::Tab));
    if let Mode::SidebarEdit { link_kind, .. } = &app.mode {
        assert_eq!(*link_kind, LinkKind::Pr, "Tab should wrap back to Pr");
    } else {
        panic!("expected SidebarEdit");
    }
}

#[test]
fn test_links_enter_deactivates_input() {
    let mut app = setup_app_with_todo();
    enter_sidebar_edit(&mut app);

    app.key_sidebar(key(KeyCode::Tab));
    app.key_sidebar(key(KeyCode::Enter));
    app.key_sidebar(key(KeyCode::Enter));
    assert!(
        matches!(&app.mode, Mode::SidebarEdit { input_active, .. } if !*input_active),
        "Enter on Links should deactivate input"
    );
}

#[test]
fn test_links_esc_deactivates_input() {
    let mut app = setup_app_with_todo();
    enter_sidebar_edit(&mut app);

    app.key_sidebar(key(KeyCode::Tab));
    app.key_sidebar(key(KeyCode::Enter));
    app.key_sidebar(key(KeyCode::Esc));
    assert!(
        matches!(&app.mode, Mode::SidebarEdit { input_active, .. } if !*input_active),
        "Esc on Links should deactivate input"
    );
}

#[test]
fn test_sidebar_entry_sets_detail_loaded_id() {
    let mut app = setup_app_with_todo();
    assert_eq!(app.detail_loaded_id, None);
    app.handle_key(key(KeyCode::Char('e')));
    // fetch_detail sets detail_loaded_id synchronously
    assert_eq!(app.detail_loaded_id, Some(1));
}

#[test]
fn test_esc_twice_exits_when_input_active() {
    let mut app = setup_app_with_todo();
    enter_sidebar_edit(&mut app);

    // Activate input
    app.key_sidebar(key(KeyCode::Enter));
    assert!(matches!(&app.mode, Mode::SidebarEdit { input_active, .. } if *input_active));

    // First Esc deactivates input
    app.key_sidebar(key(KeyCode::Esc));
    assert!(matches!(&app.mode, Mode::SidebarEdit { input_active, .. } if !*input_active));

    // Second Esc exits — but this goes through handle_key which routes to handle_sidebar_edit
    // In the handler, Esc when !input_active exits to Navigate
    app.handle_key(key(KeyCode::Esc));
    assert_eq!(app.mode, Mode::Navigate);
}

#[test]
fn test_title_field_seeded_from_current_title() {
    let mut app = setup_app_with_todo();
    app.handle_key(key(KeyCode::Char('e')));
    if let Mode::SidebarEdit { title_input, .. } = &app.mode {
        assert_eq!(
            title_input, "My Task",
            "title input should be seeded from the todo title"
        );
    } else {
        panic!("expected SidebarEdit");
    }
}

#[test]
fn test_title_field_reachable_via_navigation() {
    let mut app = setup_app_with_todo();
    enter_sidebar_edit(&mut app);

    // Backward from Description -> Title.
    app.key_sidebar(key(KeyCode::Char('k')));
    if let Mode::SidebarEdit { field, .. } = &app.mode {
        assert_eq!(
            *field,
            SidebarField::Title,
            "Title should be reachable via backward navigation"
        );
    } else {
        panic!("expected SidebarEdit");
    }
}

#[test]
fn test_title_commit_deactivates_input_and_stays_in_edit() {
    let mut app = setup_app_with_todo();
    enter_sidebar_edit(&mut app);
    // Navigate to Title and activate input.
    if let Mode::SidebarEdit {
        field,
        input_active,
        ..
    } = &mut app.mode
    {
        *field = SidebarField::Title;
        *input_active = true;
    }
    // Typing then Enter commits the title (mutation runs async).
    app.key_sidebar(key(KeyCode::Char('N')));
    app.key_sidebar(key(KeyCode::Char('e')));
    app.key_sidebar(key(KeyCode::Enter));
    if let Mode::SidebarEdit { input_active, .. } = &app.mode {
        assert!(
            !input_active,
            "Enter on title should deactivate input (commit)"
        );
    } else {
        panic!("expected SidebarEdit");
    }
    // Mode stays in SidebarEdit after commit.
    assert!(matches!(app.mode, Mode::SidebarEdit { .. }));
}

#[test]
fn test_title_esc_deactivates_without_committing() {
    let mut app = setup_app_with_todo();
    enter_sidebar_edit(&mut app);
    if let Mode::SidebarEdit {
        field,
        input_active,
        ..
    } = &mut app.mode
    {
        *field = SidebarField::Title;
        *input_active = true;
    }
    // Type a char then Esc: Esc deactivates, input keeps the char.
    app.key_sidebar(key(KeyCode::Char('X')));
    app.key_sidebar(key(KeyCode::Esc));
    if let Mode::SidebarEdit {
        title_input,
        input_active,
        ..
    } = &app.mode
    {
        assert!(!input_active, "Esc should deactivate title input");
        assert_eq!(title_input, "X", "Esc should not discard typed input");
    } else {
        panic!("expected SidebarEdit");
    }
}

#[test]
fn test_r_in_edit_mode_does_not_inline_edit_title() {
    let mut app = setup_app_with_todo();
    enter_sidebar_edit(&mut app);

    // r while in sidebar edit mode must not enter InlineEdit.
    app.key_sidebar(key(KeyCode::Char('r')));
    assert!(
        matches!(app.mode, Mode::SidebarEdit { .. }),
        "r in edit mode should be ignored (no inline title edit)"
    );
}

#[test]
fn test_title_input_typing_and_backspace() {
    let mut app = setup_app_with_todo();
    enter_sidebar_edit(&mut app);
    if let Mode::SidebarEdit {
        field,
        input_active,
        ..
    } = &mut app.mode
    {
        *field = SidebarField::Title;
        *input_active = true;
    }
    app.key_sidebar(key(KeyCode::Char('N')));
    app.key_sidebar(key(KeyCode::Char('e')));
    if let Mode::SidebarEdit { title_input, .. } = &app.mode {
        assert_eq!(title_input, "Ne", "typing appends to title input");
    } else {
        panic!("expected SidebarEdit");
    }
    app.key_sidebar(key(KeyCode::Backspace));
    if let Mode::SidebarEdit { title_input, .. } = &app.mode {
        assert_eq!(title_input, "N", "backspace pops from title input");
    } else {
        panic!("expected SidebarEdit");
    }
}

#[test]
fn test_a_on_links_opens_attach_picker_state() {
    let mut app = setup_app_with_todo();
    app.data.pulls = vec![make_pr(10, None), make_pr(11, None)];
    enter_sidebar_edit(&mut app);
    nav_to_links_active(&mut app);

    app.key_sidebar(key(KeyCode::Char('a')));

    if let Mode::SidebarEdit { attaching, .. } = &app.mode {
        assert!(attaching, "`a` on active Links should set attaching=true");
    } else {
        panic!("expected SidebarEdit");
    }
}

#[test]
fn test_a_enters_sidebar_add_not_inline_create() {
    let mut app = App {
        view: View::Today,
        content_width: 120,
        ..Default::default()
    };
    app.handle_key(key(KeyCode::Char('a')));
    assert!(
        matches!(app.mode, Mode::SidebarAdd { .. }),
        "pressing 'a' should enter SidebarAdd, got {:?}",
        app.mode
    );
    assert!(
        !matches!(app.mode, Mode::InlineCreate { .. }),
        "pressing 'a' must not enter InlineCreate"
    );
}

#[test]
fn test_a_in_backlog_enters_sidebar_add() {
    let mut app = App {
        view: View::Backlog,
        content_width: 120,
        ..Default::default()
    };
    app.handle_key(key(KeyCode::Char('a')));
    assert!(
        matches!(app.mode, Mode::SidebarAdd { .. }),
        "pressing 'a' in Backlog should enter SidebarAdd"
    );
}

