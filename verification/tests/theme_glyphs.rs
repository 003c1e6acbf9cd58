use preflight::theme::{linear_state_glyph, pr_state_glyph, status_glyph, Glyph, Palette};


#[test]
fn test_status_glyph_todo() {
    let (ch, color) = status_glyph("todo");
    assert_eq!(ch, Glyph::STATUS_TODO);
    assert_eq!(color, Palette::TODO);
}

#[test]
fn test_status_glyph_started() {
    let (ch, color) = status_glyph("started");
    assert_eq!(ch, Glyph::STATUS_STARTED);
    assert_eq!(color, Palette::STARTED);
}

#[test]
fn test_status_glyph_blocked() {
    let (ch, color) = status_glyph("blocked");
    assert_eq!(ch, Glyph::STATUS_BLOCKED);
    assert_eq!(color, Palette::BLOCKED);
}

#[test]
fn test_status_glyph_done() {
    let (ch, color) = status_glyph("done");
    assert_eq!(ch, Glyph::STATUS_DONE);
    assert_eq!(color, Palette::DONE);
}

#[test]
fn test_status_glyph_cancelled() {
    let (ch, color) = status_glyph("cancelled");
    assert_eq!(ch, Glyph::STATUS_CANCELLED);
    assert_eq!(color, Palette::CANCELLED);
}

#[test]
fn test_status_glyph_unknown() {
    let (ch, color) = status_glyph("unknown_status");
    assert_eq!(ch, '?');
    assert_eq!(color, Palette::DIM);
}


#[test]
fn test_pr_state_glyph_open() {
    let (ch, color) = pr_state_glyph("open");
    assert_eq!(ch, Glyph::PR_OPEN);
    assert_eq!(color, Palette::DONE);
}

#[test]
fn test_pr_state_glyph_draft() {
    let (ch, color) = pr_state_glyph("draft");
    assert_eq!(ch, Glyph::PR_DRAFT);
    assert_eq!(color, Palette::CANCELLED);
}

#[test]
fn test_pr_state_glyph_merged() {
    let (ch, color) = pr_state_glyph("merged");
    assert_eq!(ch, Glyph::PR_MERGED);
    assert_eq!(color, Palette::MERGED);
}

#[test]
fn test_pr_state_glyph_closed() {
    let (ch, color) = pr_state_glyph("closed");
    assert_eq!(ch, Glyph::PR_CLOSED);
    assert_eq!(color, Palette::BLOCKED);
}

#[test]
fn test_pr_state_glyph_unknown() {
    let (ch, color) = pr_state_glyph("weird");
    assert_eq!(ch, '?');
    assert_eq!(color, Palette::DIM);
}


#[test]
fn test_linear_state_glyph_triage() {
    let (ch, color) = linear_state_glyph("triage");
    assert_eq!(ch, '?');
    assert_eq!(color, Palette::ACCENT);
}

#[test]
fn test_linear_state_glyph_backlog() {
    let (ch, color) = linear_state_glyph("backlog");
    assert_eq!(ch, '·');
    assert_eq!(color, Palette::CANCELLED);
}

#[test]
fn test_linear_state_glyph_unstarted() {
    let (ch, color) = linear_state_glyph("unstarted");
    assert_eq!(ch, Glyph::STATUS_TODO);
    assert_eq!(color, Palette::TODO);
}

#[test]
fn test_linear_state_glyph_started() {
    let (ch, color) = linear_state_glyph("started");
    assert_eq!(ch, Glyph::STATUS_STARTED);
    assert_eq!(color, Palette::STARTED);
}

#[test]
fn test_linear_state_glyph_completed() {
    let (ch, color) = linear_state_glyph("completed");
    assert_eq!(ch, Glyph::STATUS_DONE);
    assert_eq!(color, Palette::DONE);
}

#[test]
fn test_linear_state_glyph_canceled() {
    let (ch, color) = linear_state_glyph("canceled");
    assert_eq!(ch, Glyph::STATUS_CANCELLED);
    assert_eq!(color, Palette::CANCELLED);
}

#[test]
fn test_linear_state_glyph_unknown() {
    let (ch, color) = linear_state_glyph("unknown_type");
    assert_eq!(ch, '?');
    assert_eq!(color, Palette::DIM);
}

