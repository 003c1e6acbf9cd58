use preflight::edit::{backspace, insert_char, move_caret, pop_word, text_len};
use preflight::keys::{edit_chord, KeyCode, KeyModifiers};

#[test]
fn test_edit_chord_ctrl_u_clears_and_resets_caret() {
    let mut buf = String::from("hello world");
    let mut caret = 5;
    assert!(edit_chord(KeyCode::Char('u'), KeyModifiers::ctrl(), &mut buf, &mut caret));
    assert_eq!(buf, "");
    assert_eq!(caret, 0);
}

#[test]
fn test_edit_chord_ctrl_w_pops_word_and_updates_caret() {
    let mut buf = String::from("hello world");
    let mut caret = 11;
    assert!(edit_chord(KeyCode::Char('w'), KeyModifiers::ctrl(), &mut buf, &mut caret));
    assert_eq!(buf, "hello ");
    assert_eq!(caret, 6);
}

#[test]
fn test_edit_chord_ctrl_a_sets_caret_to_start() {
    let mut buf = String::from("hello");
    let mut caret = 5;
    assert!(edit_chord(KeyCode::Char('a'), KeyModifiers::ctrl(), &mut buf, &mut caret));
    assert_eq!(caret, 0);
    assert_eq!(buf, "hello");
}

#[test]
fn test_edit_chord_ctrl_e_sets_caret_to_end() {
    let mut buf = String::from("hello");
    let mut caret = 0;
    assert!(edit_chord(KeyCode::Char('e'), KeyModifiers::ctrl(), &mut buf, &mut caret));
    assert_eq!(caret, 5);
}

#[test]
fn test_edit_chord_alt_backspace_pops_word() {
    let mut buf = String::from("hello world");
    let mut caret = 11;
    assert!(edit_chord(KeyCode::Backspace, KeyModifiers::alt(), &mut buf, &mut caret));
    assert_eq!(buf, "hello ");
    assert_eq!(caret, 6);
}

#[test]
fn test_edit_chord_unhandled_returns_false() {
    let mut buf = String::from("hello");
    let mut caret = 0;
    assert!(!edit_chord(KeyCode::Char('x'), KeyModifiers::none(), &mut buf, &mut caret));
    assert_eq!(buf, "hello");
    assert_eq!(caret, 0);
}

#[test]
fn test_pop_word_trailing_whitespace_first() {
    let mut buf = String::from("hello   ");
    let caret = pop_word(&mut buf, 8);
    assert_eq!(buf, "");
    assert_eq!(caret, 0);
}

#[test]
fn test_insert_char_at_middle() {
    let mut buf = String::from("hello");
    let caret = insert_char(&mut buf, 2, 'X');
    assert_eq!(buf, "heXllo");
    assert_eq!(caret, 3);
}

#[test]
fn test_backspace_at_start_is_noop() {
    let mut buf = String::from("hello");
    let caret = backspace(&mut buf, 0);
    assert_eq!(buf, "hello");
    assert_eq!(caret, 0);
}

#[test]
fn test_move_caret_left_at_start_clamps() {
    let caret = move_caret("hello", 0, -1);
    assert_eq!(caret, 0);
}

#[test]
fn test_move_caret_right_at_end_clamps() {
    let caret = move_caret("hello", 5, 1);
    assert_eq!(caret, 5);
}

#[test]
fn insert_then_backspace_restores_the_text() {
    let mut buf = String::from("héllo");
    let caret = insert_char(&mut buf, 3, 'ß');
    assert_eq!(buf, "héßllo");
    assert_eq!(caret, 5);
    let back = backspace(&mut buf, caret);
    assert_eq!(buf, "héllo");
    assert_eq!(back, 3);
}

#[test]
fn carets_move_by_whole_characters() {
    let s = "aé✓";
    assert_eq!(text_len(s), 6);
    assert_eq!(move_caret(s, 0, 1), 1);
    assert_eq!(move_caret(s, 1, 1), 3);
    assert_eq!(move_caret(s, 3, 1), 6);
    assert_eq!(move_caret(s, 6, -1), 3);
    assert_eq!(move_caret(s, 99, -1), 3);
}

#[test]
fn a_caret_past_the_end_is_clamped() {
    let mut buf = String::from("ab");
    let caret = insert_char(&mut buf, 10, 'c');
    assert_eq!(buf, "abc");
    assert_eq!(caret, 3);
    let mut buf2 = String::from("ab");
    assert_eq!(backspace(&mut buf2, 10), 1);
    assert_eq!(buf2, "a");
}

#[test]
fn pop_word_removes_the_word_before_the_caret_only() {
    let mut buf = String::from("one two three");
    let caret = pop_word(&mut buf, 7);
    assert_eq!(buf, "one  three");
    assert_eq!(caret, 4);
}
