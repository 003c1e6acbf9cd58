//! Visual theme: the colours (by name), the glyphs, and which glyph and
//! colour each status stands for. Colours are named here and turned into
//! terminal colours where the screen is drawn; status colours are paired
//! with glyphs so meaning survives monochrome.

use vstd::prelude::*;

use crate::text::same_text;

verus! {

/// The colours of the palette, by role.
#[derive(Clone, Copy, Debug, PartialEq, Eq, Structural)]
pub enum Tone {
    Bg,
    Surface,
    RowHighlight,
    Border,
    Text,
    Dim,
    Faint,
    Accent,
    AccentText,
    Todo,
    Started,
    Blocked,
    Done,
    Cancelled,
    Merged,
}

/// The light-on-dark palette.
pub struct Palette;

impl Palette {
    pub const BG: Tone = Tone::Bg;
    pub const SURFACE: Tone = Tone::Surface;
    pub const ROW_HIGHLIGHT: Tone = Tone::RowHighlight;
    pub const BORDER: Tone = Tone::Border;
    pub const TEXT: Tone = Tone::Text;
    pub const DIM: Tone = Tone::Dim;
    pub const GHOST: Tone = Tone::Faint;
    pub const ACCENT: Tone = Tone::Accent;
    pub const ACCENT_TEXT: Tone = Tone::AccentText;
    pub const TODO: Tone = Tone::Todo;
    pub const STARTED: Tone = Tone::Started;
    pub const BLOCKED: Tone = Tone::Blocked;
    pub const DONE: Tone = Tone::Done;
    pub const CANCELLED: Tone = Tone::Cancelled;
    pub const MERGED: Tone = Tone::Merged;
}

/// Glyphs (one cell each, present in common monospace fonts).
pub struct Glyph;

impl Glyph {
    pub const CURSOR: char = '\u{258C}';
    pub const MARKED: char = '\u{2022}';
    pub const REORDER_GRIP: char = '\u{28FF}';
    pub const STATUS_TODO: char = '\u{25CB}';
    pub const STATUS_STARTED: char = '\u{25D0}';
    pub const STATUS_BLOCKED: char = '\u{25B2}';
    pub const STATUS_DONE: char = '\u{2713}';
    pub const STATUS_CANCELLED: char = '\u{2715}';
    pub const CARRIED: char = '\u{21BB}';
    pub const BLOCKED_REASON: char = '\u{2514}';
    pub const PR_OPEN: char = '\u{25C7}';
    pub const PR_DRAFT: char = '\u{25CC}';
    pub const PR_MERGED: char = '\u{25C6}';
    pub const PR_CLOSED: char = '\u{2297}';
    pub const LINEAR: char = '\u{25A3}';
    pub const DISMISSED: char = '\u{2300}';
    pub const NEEDS_YOU: char = '\u{25CF}';
    pub const ACTOR_USER: char = '\u{25B8}';
    pub const ACTOR_SYNC: char = '\u{21BB}';
    pub const ACTOR_SYSTEM: char = '\u{2218}';
    pub const SPINNER: [char; 8] = [
        '\u{280B}',
        '\u{2819}',
        '\u{2839}',
        '\u{2838}',
        '\u{283C}',
        '\u{2834}',
        '\u{2826}',
        '\u{2807}',
    ];
    pub const BAR_FULL: char = '\u{2588}';
    pub const BAR_PARTIAL: char = '\u{2593}';
    pub const BAR_EMPTY: char = '\u{2591}';
    pub const REVIEW_ARROW: char = '\u{25C2}';
    pub const ACTIONS_FAILING: char = '\u{2691}';
    pub const CHANGES_REQUESTED: char = '\u{2717}';
    pub const COPILOT_COMMENTS: char = '\u{2726}';
    pub const MERGE_CONFLICTS: char = '\u{26A0}';
}

/// Relational suffixes on link badges (text, not glyphs).
pub const REL_REVIEWS: &'static str = "rev";
pub const REL_IMPLEMENTS: &'static str = "impl";
pub const REL_REFERENCES: &'static str = "ref";

/// The spinner frame shown at a spinner tick: the frames advance every
/// second tick.
pub open spec fn spinner_frame(spinner: u8) -> char {
    Glyph::SPINNER@[((spinner / 2) % 8) as int]
}

/// The spinner frame at a spinner tick.
pub fn spinner_at(spinner: u8) -> (c: char)
    ensures
        c == spinner_frame(spinner),
{
    let frames = Glyph::SPINNER;
    frames[((spinner / 2) % 8) as usize]
}

/// The glyph and colour of a todo status.
pub open spec fn status_look(status: Seq<char>) -> (char, Tone) {
    if status == "todo"@ {
        (Glyph::STATUS_TODO, Tone::Todo)
    } else if status == "started"@ {
        (Glyph::STATUS_STARTED, Tone::Started)
    } else if status == "blocked"@ {
        (Glyph::STATUS_BLOCKED, Tone::Blocked)
    } else if status == "done"@ {
        (Glyph::STATUS_DONE, Tone::Done)
    } else if status == "cancelled"@ {
        (Glyph::STATUS_CANCELLED, Tone::Cancelled)
    } else {
        ('?', Tone::Dim)
    }
}

/// The glyph and colour of a todo status; `?` dim for an unknown one.
pub fn status_glyph(status: &str) -> (r: (char, Tone))
    ensures
        r == status_look(status@),
{
    if same_text(status, "todo") {
        (Glyph::STATUS_TODO, Tone::Todo)
    } else if same_text(status, "started") {
        (Glyph::STATUS_STARTED, Tone::Started)
    } else if same_text(status, "blocked") {
        (Glyph::STATUS_BLOCKED, Tone::Blocked)
    } else if same_text(status, "done") {
        (Glyph::STATUS_DONE, Tone::Done)
    } else if same_text(status, "cancelled") {
        (Glyph::STATUS_CANCELLED, Tone::Cancelled)
    } else {
        ('?', Tone::Dim)
    }
}

/// The glyph and colour of a pull request state.
pub open spec fn pr_state_look(state: Seq<char>) -> (char, Tone) {
    if state == "open"@ {
        (Glyph::PR_OPEN, Tone::Done)
    } else if state == "draft"@ {
        (Glyph::PR_DRAFT, Tone::Cancelled)
    } else if state == "merged"@ {
        (Glyph::PR_MERGED, Tone::Merged)
    } else if state == "closed"@ {
        (Glyph::PR_CLOSED, Tone::Blocked)
    } else {
        ('?', Tone::Dim)
    }
}

/// The glyph and colour of a pull request state; `?` dim for an unknown
/// one.
pub fn pr_state_glyph(state: &str) -> (r: (char, Tone))
    ensures
        r == pr_state_look(state@),
{
    if same_text(state, "open") {
        (Glyph::PR_OPEN, Tone::Done)
    } else if same_text(state, "draft") {
        (Glyph::PR_DRAFT, Tone::Cancelled)
    } else if same_text(state, "merged") {
        (Glyph::PR_MERGED, Tone::Merged)
    } else if same_text(state, "closed") {
        (Glyph::PR_CLOSED, Tone::Blocked)
    } else {
        ('?', Tone::Dim)
    }
}

/// The glyph and colour of a Linear state type.
pub open spec fn linear_state_look(state_type: Seq<char>) -> (char, Tone) {
    if state_type == "triage"@ {
        ('?', Tone::Accent)
    } else if state_type == "backlog"@ {
        ('\u{B7}', Tone::Cancelled)
    } else if state_type == "unstarted"@ {
        (Glyph::STATUS_TODO, Tone::Todo)
    } else if state_type == "started"@ {
        (Glyph::STATUS_STARTED, Tone::Started)
    } else if state_type == "completed"@ {
        (Glyph::STATUS_DONE, Tone::Done)
    } else if state_type == "canceled"@ {
        (Glyph::STATUS_CANCELLED, Tone::Cancelled)
    } else {
        ('?', Tone::Dim)
    }
}

/// The glyph and colour of a Linear state type; `?` dim for an unknown
/// one.
pub fn linear_state_glyph(state_type: &str) -> (r: (char, Tone))
    ensures
        r == linear_state_look(state_type@),
{
    if same_text(state_type, "triage") {
        ('?', Tone::Accent)
    } else if same_text(state_type, "backlog") {
        ('\u{B7}', Tone::Cancelled)
    } else if same_text(state_type, "unstarted") {
        (Glyph::STATUS_TODO, Tone::Todo)
    } else if same_text(state_type, "started") {
        (Glyph::STATUS_STARTED, Tone::Started)
    } else if same_text(state_type, "completed") {
        (Glyph::STATUS_DONE, Tone::Done)
    } else if same_text(state_type, "canceled") {
        (Glyph::STATUS_CANCELLED, Tone::Cancelled)
    } else {
        ('?', Tone::Dim)
    }
}

} // verus!
