use preflight::app::{App, Mode, View};
use preflight::commands::filter_commands;
use preflight::keys::{KeyCode, KeyEvent, KeyModifiers};

#[test]
fn test_colon_enters_command_mode() {
    let mut app = App::default();
    app.handle_key(KeyEvent::new(KeyCode::Char(':'), KeyModifiers::none()));
    assert!(matches!(app.mode, Mode::Command { .. }));
}

#[test]
fn test_command_palette_filters_by_substring() {
    let filtered = filter_commands("sync");
    assert!(filtered.iter().any(|c| c.label() == "sync github"));
    assert!(filtered.iter().any(|c| c.label() == "sync linear"));
}

#[test]
fn test_command_enter_executes_selection() {
    let mut app = App {
        mode: Mode::Command {
            input: "today".into(),
            selection: 0,
            caret: 5,
        },
        ..Default::default()
    };
    app.handle_key(KeyEvent::new(KeyCode::Enter, KeyModifiers::none()));
    assert_eq!(app.view, View::Today);
    assert_eq!(app.mode, Mode::Navigate);
}

#[test]
fn test_command_esc_returns_to_navigate() {
    let mut app = App {
        mode: Mode::Command {
            input: "sync".into(),
            selection: 0,
            caret: 4,
        },
        ..Default::default()
    };
    app.handle_key(KeyEvent::new(KeyCode::Esc, KeyModifiers::none()));
    assert_eq!(app.mode, Mode::Navigate);
}

#[test]
fn test_command_j_moves_selection_down() {
    let mut app = App {
        mode: Mode::Command {
            input: String::new(),
            selection: 0,
            caret: 0,
        },
        ..Default::default()
    };
    app.handle_key(KeyEvent::new(KeyCode::Char('j'), KeyModifiers::none()));
    if let Mode::Command { selection, .. } = &app.mode {
        assert!(*selection > 0);
    } else {
        panic!("expected Command mode");
    }
}

#[test]
fn test_command_k_moves_selection_up() {
    let mut app = App {
        mode: Mode::Command {
            input: String::new(),
            selection: 1,
            caret: 0,
        },
        ..Default::default()
    };
    app.handle_key(KeyEvent::new(KeyCode::Char('k'), KeyModifiers::none()));
    if let Mode::Command { selection, .. } = &app.mode {
        assert_eq!(*selection, 0);
    } else {
        panic!("expected Command mode");
    }
}

#[test]
fn test_slash_enters_filter_mode() {
    let mut app = App {
        view: View::Today,
        ..Default::default()
    };
    app.handle_key(KeyEvent::new(KeyCode::Char('/'), KeyModifiers::none()));
    assert!(matches!(app.mode, Mode::Filter { .. }));
}

#[test]
fn test_filter_enter_commits_filter() {
    let mut app = App {
        mode: Mode::Filter {
            input: "hello".into(),
            caret: 5,
        },
        ..Default::default()
    };
    app.handle_key(KeyEvent::new(KeyCode::Enter, KeyModifiers::none()));
    assert_eq!(app.mode, Mode::Navigate);
    assert_eq!(app.filter, "hello");
}

#[test]
fn test_filter_esc_clears_filter() {
    let mut app = App {
        mode: Mode::Filter {
            input: "hello".into(),
            caret: 5,
        },
        ..Default::default()
    };
    app.handle_key(KeyEvent::new(KeyCode::Esc, KeyModifiers::none()));
    assert_eq!(app.mode, Mode::Navigate);
    assert_eq!(app.filter, "");
}

