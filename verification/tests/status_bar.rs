use preflight::app::{App, LinkKind, Mode, SidebarField};
use preflight::views::status_hints;

#[test]
fn test_status_hints_sidebar_edit_inactive_shows_field_nav() {
    let mut app = App::default();
    app.mode = Mode::SidebarEdit {
        id: 1,
        field: SidebarField::Title,
        input_active: false,
        title_input: String::new(),
        title_caret: 0,
        desc_input: String::new(),
        desc_caret: 0,
        desc_scroll: 0,
        tag_input: String::new(),
        tag_caret: 0,
        link_kind: LinkKind::Pr,
        link_selection: 0,
        attaching: false,
        link_search: String::new(),
        scroll: 0,
    };
    let hints = status_hints(&app);
    assert!(
        hints.contains("enter edit"),
        "inactive sidebar should hint how to edit a field: {hints}"
    );
    assert!(
        hints.contains("tab/j"),
        "inactive sidebar should hint field navigation: {hints}"
    );
}

#[test]
fn test_status_hints_sidebar_edit_active_shows_save() {
    let mut app = App::default();
    app.mode = Mode::SidebarEdit {
        id: 1,
        field: SidebarField::Title,
        input_active: true,
        title_input: String::new(),
        title_caret: 0,
        desc_input: String::new(),
        desc_caret: 0,
        desc_scroll: 0,
        tag_input: String::new(),
        tag_caret: 0,
        link_kind: LinkKind::Pr,
        link_selection: 0,
        attaching: false,
        link_search: String::new(),
        scroll: 0,
    };
    let hints = status_hints(&app);
    assert!(
        hints.contains("enter save field"),
        "active sidebar should hint how to save a field: {hints}"
    );
}


#[test]
fn test_sidebar_edit_form_shows_field_nav_hints() {
    let mut app = App::default();
    app.mode = Mode::SidebarEdit {
        id: 1,
        field: SidebarField::Title,
        input_active: false,
        title_input: "Write docs".to_string(),
        title_caret: 10,
        desc_input: String::new(),
        desc_caret: 0,
        desc_scroll: 0,
        tag_input: String::new(),
        tag_caret: 0,
        link_kind: LinkKind::Pr,
        link_selection: 0,
        attaching: false,
        link_search: String::new(),
        scroll: 0,
    };
    let output = status_hints(&app);
    assert!(
        output.contains("Tab") || output.contains("j"),
        "edit form should show field navigation hints when input_inactive"
    );
}
