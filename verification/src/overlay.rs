//! What the overlays show, as styled lines: the status picker, the
//! confirmation dialog, the link-to-todo picker, the command palette, the
//! help table and the toast.

use vstd::prelude::*;

use crate::app::{status_at, status_by_index, App, ConfirmAction, Mode, Toast, ToastKind};
use crate::commands::{commands_for, filter_commands, Command};
use crate::gql::Todo;
use crate::screen::{
    blank, glyph_text, line_look, line_one, lines_look, look, one, push_blank, push_line,
    push_run, push_str_line, push_text_line, styled, styled_glyph, styled_str, toned, Emph,
    Look, Styled,
};
use crate::text::{chars_of, decimal, push_decimal, push_str};
use crate::theme::{status_glyph, status_look, Glyph, Tone};
use crate::views::{filter_keybinds, help_for, KeybindRow};

verus! {

broadcast use vstd::seq_lib::group_seq_properties;

// ---- Status picker ----

/// A row of the status picker: the cursor mark on the selected row, the
/// row's number, the status glyph and the status (bold when selected).
pub open spec fn status_item(i: nat, sel: nat) -> Seq<Look> {
    let st = status_at(i);
    let (g, c) = status_look(st);
    seq![
        if i == sel {
            toned(glyph_text(Glyph::CURSOR), Tone::Accent)
        } else {
            (" "@, None, Emph::Plain)
        },
        (" "@ + decimal(i + 1) + ". "@, None, Emph::Plain),
        toned(glyph_text(g), c),
        (" "@, None, Emph::Plain),
        (st, None, if i == sel { Emph::Bold } else { Emph::Plain }),
    ]
}

/// The five rows of the status picker.
pub open spec fn status_items(sel: nat) -> Seq<Seq<Look>> {
    Seq::new(5, |i: int| status_item(i as nat, sel))
}

/// The blocked-reason prompt, while a reason is being typed.
pub open spec fn reason_prompt(reason: Option<String>) -> Option<Seq<Look>> {
    match reason {
        Some(r) => Some(
            seq![
                toned("reason "@, Tone::Blocked),
                (
                    if r@.len() == 0 {
                        "blocked because\u{2026}\u{258f}"@
                    } else {
                        r@ + "\u{258f}"@
                    },
                    Some(Tone::Text),
                    Emph::Underlined,
                ),
            ],
        ),
        None => None,
    }
}

/// The rows and prompt of the status picker.
pub fn status_picker(app: &App) -> (r: (Vec<Vec<Styled>>, Option<Vec<Styled>>))
    requires
        app.mode is StatusSelect,
    ensures
        match app.mode {
            Mode::StatusSelect { selection, reason, .. } => {
                &&& lines_look(r.0@) == status_items(selection as nat)
                &&& match (r.1, reason_prompt(reason)) {
                    (Some(l), Some(p)) => line_look(l@) == p,
                    (None, None) => true,
                    _ => false,
                }
            },
            _ => false,
        },
{
    let mut items: Vec<Vec<Styled>> = Vec::new();
    match &app.mode {
        Mode::StatusSelect { selection, reason, .. } => {
            let sel = *selection;
            let mut i: usize = 0;
            while i < 5
                invariant
                    i <= 5,
                    lines_look(items@) == Seq::new(i as nat, |j: int| status_item(j as nat, sel as nat)),
                decreases 5 - i,
            {
                let st = match status_by_index(i) {
                    Some(s) => s,
                    None => "",
                };
                let (g, c) = status_glyph(st);
                let mut l: Vec<Styled> = Vec::new();
                if i == sel {
                    push_run(&mut l, styled_glyph(Glyph::CURSOR, Some(Tone::Accent)));
                } else {
                    push_run(&mut l, styled_str(" ", None, Emph::Plain));
                }
                let mut num: Vec<char> = Vec::new();
                push_str(&mut num, " ");
                push_decimal(&mut num, (i + 1) as u128);
                push_str(&mut num, ". ");
                push_run(&mut l, styled(num, None, Emph::Plain));
                push_run(&mut l, styled_glyph(g, Some(c)));
                push_run(&mut l, styled_str(" ", None, Emph::Plain));
                let emph = if i == sel {
                    Emph::Bold
                } else {
                    Emph::Plain
                };
                push_run(&mut l, styled_str(st, None, emph));
                assert(line_look(l@) =~= status_item(i as nat, sel as nat));
                push_line(&mut items, l);
                assert(lines_look(items@) =~= Seq::new((i + 1) as nat, |j: int| status_item(j as nat, sel as nat)));
                i += 1;
            }
            assert(lines_look(items@) =~= status_items(sel as nat));
            let prompt = match reason {
                Some(r) => {
                    let mut l: Vec<Styled> = Vec::new();
                    push_run(&mut l, styled_str("reason ", Some(Tone::Blocked), Emph::Plain));
                    let rv = chars_of(r.as_str());
                    if rv.len() == 0 {
                        push_run(&mut l, styled_str("blocked because\u{2026}\u{258f}", Some(Tone::Text), Emph::Underlined));
                    } else {
                        let mut t: Vec<char> = Vec::new();
                        push_str(&mut t, r.as_str());
                        push_str(&mut t, "\u{258f}");
                        push_run(&mut l, styled(t, Some(Tone::Text), Emph::Underlined));
                    }
                    Some(l)
                },
                None => None,
            };
            (items, prompt)
        },
        _ => (items, None),
    }
}

// ---- Confirmation dialog ----

/// The question and the note of a confirmation.
pub open spec fn confirm_text(a: ConfirmAction) -> Seq<Seq<char>> {
    match a {
        ConfirmAction::CarryOver { from, to } => seq![
            "Carry unfinished todos from "@ + from@ + " into "@ + to@ + "?"@,
            "yesterday's plan is kept."@,
        ],
        ConfirmAction::Unplan { .. } => seq![
            "Remove this todo from today's plan?"@,
            "the todo itself is kept."@,
        ],
        ConfirmAction::Cancel { .. } => seq!["Cancel this todo?"@, "it stays in the log, struck through."@],
        ConfirmAction::DismissPr { .. } => seq![
            "Dismiss this pull request?"@,
            "it stays visible under d-toggle."@,
        ],
    }
}

/// The dialog's lines: the question in the text tone, the note dim.
pub open spec fn confirm_lines(a: ConfirmAction) -> Seq<Seq<Look>> {
    let t = confirm_text(a);
    seq![one(t[0], Tone::Text), one(t[1], Tone::Dim)]
}

/// The confirmation dialog's title.
pub open spec fn confirm_title() -> Seq<char> {
    " CONFIRM "@
}

/// The confirmation dialog's title.
pub fn confirm_title_of() -> (r: &'static str)
    ensures
        r@ == confirm_title(),
{
    " CONFIRM "
}

/// The dialog's key hints: the default action on the accent background,
/// then how to cancel.
pub open spec fn confirm_hint() -> Seq<Look> {
    seq![(" y confirm "@, Some(Tone::AccentText), Emph::Badge), toned("  n cancel"@, Tone::Dim)]
}

/// The dialog's key hints.
pub fn confirm_hint_line() -> (r: Vec<Styled>)
    ensures
        line_look(r@) == confirm_hint(),
{
    let mut l: Vec<Styled> = Vec::new();
    push_run(&mut l, styled_str(" y confirm ", Some(Tone::AccentText), Emph::Badge));
    push_run(&mut l, styled_str("  n cancel", Some(Tone::Dim), Emph::Plain));
    assert(line_look(l@) =~= confirm_hint());
    l
}

/// The lines of the confirmation dialog.
pub fn confirm_view(a: &ConfirmAction) -> (r: Vec<Vec<Styled>>)
    ensures
        lines_look(r@) == confirm_lines(*a),
{
    let mut out: Vec<Vec<Styled>> = Vec::new();
    match a {
        ConfirmAction::CarryOver { from, to } => {
            let mut q: Vec<char> = Vec::new();
            push_str(&mut q, "Carry unfinished todos from ");
            push_str(&mut q, from.as_str());
            push_str(&mut q, " into ");
            push_str(&mut q, to.as_str());
            push_str(&mut q, "?");
            push_text_line(&mut out, q, Tone::Text);
            push_str_line(&mut out, "yesterday's plan is kept.", Tone::Dim);
        },
        ConfirmAction::Unplan { .. } => {
            push_str_line(&mut out, "Remove this todo from today's plan?", Tone::Text);
            push_str_line(&mut out, "the todo itself is kept.", Tone::Dim);
        },
        ConfirmAction::Cancel { .. } => {
            push_str_line(&mut out, "Cancel this todo?", Tone::Text);
            push_str_line(&mut out, "it stays in the log, struck through.", Tone::Dim);
        },
        ConfirmAction::DismissPr { .. } => {
            push_str_line(&mut out, "Dismiss this pull request?", Tone::Text);
            push_str_line(&mut out, "it stays visible under d-toggle.", Tone::Dim);
        },
    }
    assert(lines_look(out@) =~= confirm_lines(*a));
    out
}

// ---- Link-to-todo picker ----

/// A row of the link-to-todo picker.
pub open spec fn todo_item(t: Todo, current: bool) -> Seq<Look> {
    let (g, c) = status_look(t.status@);
    seq![
        if current {
            toned(glyph_text(Glyph::CURSOR), Tone::Accent)
        } else {
            (" "@, None, Emph::Plain)
        },
        (" "@, None, Emph::Plain),
        toned(glyph_text(g), c),
        (" "@, None, Emph::Plain),
        (t.title@, None, if current { Emph::Bold } else { Emph::Plain }),
    ]
}

/// The link-to-todo picker's title.
pub const TODO_PICKER_TITLE: &'static str = " LINK TO TODO ";

/// Every todo as a picker row, the selected one marked.
pub open spec fn todo_items(todos: Seq<Todo>, sel: nat) -> Seq<Seq<Look>> {
    Seq::new(todos.len(), |i: int| todo_item(todos[i], i == sel))
}

/// The rows of the link-to-todo picker.
pub fn todo_picker(app: &App) -> (r: Vec<Vec<Styled>>)
    requires
        app.mode is LinkTodo,
    ensures
        match app.mode {
            Mode::LinkTodo { selection, .. } => lines_look(r@) == todo_items(
                app.data.todos@,
                selection as nat,
            ),
            _ => false,
        },
{
    let mut out: Vec<Vec<Styled>> = Vec::new();
    let sel = match &app.mode {
        Mode::LinkTodo { selection, .. } => *selection,
        _ => 0,
    };
    let todos = &app.data.todos;
    let mut i: usize = 0;
    while i < todos.len()
        invariant
            i <= todos.len(),
            todos@ == app.data.todos@,
            lines_look(out@) == Seq::new(i as nat, |j: int| todo_item(todos@[j], j == sel)),
        decreases todos.len() - i,
    {
        let t = &todos[i];
        let (g, c) = status_glyph(t.status.as_str());
        let current = i == sel;
        let mut l: Vec<Styled> = Vec::new();
        if current {
            push_run(&mut l, styled_glyph(Glyph::CURSOR, Some(Tone::Accent)));
        } else {
            push_run(&mut l, styled_str(" ", None, Emph::Plain));
        }
        push_run(&mut l, styled_str(" ", None, Emph::Plain));
        push_run(&mut l, styled_glyph(g, Some(c)));
        push_run(&mut l, styled_str(" ", None, Emph::Plain));
        let emph = if current {
            Emph::Bold
        } else {
            Emph::Plain
        };
        push_run(&mut l, styled_str(t.title.as_str(), None, emph));
        assert(line_look(l@) =~= todo_item(todos@[i as int], i == sel));
        push_line(&mut out, l);
        assert(lines_look(out@) =~= Seq::new((i + 1) as nat, |j: int| todo_item(todos@[j], j == sel)));
        i += 1;
    }
    out
}

// ---- Command palette ----

/// How many commands the palette shows at once.
pub const PALETTE_ROWS: usize = 8;

/// `a - b`, or 0 when `b` is larger.
pub open spec fn minus(a: int, b: int) -> int {
    if a > b {
        a - b
    } else {
        0
    }
}

/// The first command shown: the window follows the selection and never
/// runs past the end.
pub open spec fn palette_start(sel: int, n: int) -> int {
    let a = minus(sel, PALETTE_ROWS - 1);
    let b = minus(n, PALETTE_ROWS as int);
    if a < b {
        a
    } else {
        b
    }
}

/// The shown commands' labels, each with whether it is the selected one.
pub open spec fn palette_rows(input: Seq<char>, sel: int) -> Seq<(Seq<char>, bool)> {
    let cmds = commands_for(input);
    let start = palette_start(sel, cmds.len() as int);
    let shown = if cmds.len() - start < PALETTE_ROWS {
        cmds.len() - start
    } else {
        PALETTE_ROWS as int
    };
    Seq::new(shown as nat, |i: int| (cmds[start + i].label_spec(), start + i == sel))
}

/// The palette's input line, `:` and the typed text and a bar caret.
pub open spec fn palette_input(input: Seq<char>) -> Seq<char> {
    ":"@ + input + "\u{258f}"@
}

/// The palette: its input line and the shown commands.
pub fn palette_view(input: &str, selection: usize) -> (r: (Vec<char>, Vec<(&'static str, bool)>))
    ensures
        r.0@ == palette_input(input@),
        r.1@.map_values(|x: (&'static str, bool)| (x.0@, x.1)) == palette_rows(input@, selection as int),
{
    let mut line: Vec<char> = Vec::new();
    push_str(&mut line, ":");
    push_str(&mut line, input);
    push_str(&mut line, "\u{258f}");
    let cmds = filter_commands(input);
    let n = cmds.len();
    let a = if selection > PALETTE_ROWS - 1 {
        selection - (PALETTE_ROWS - 1)
    } else {
        0
    };
    let b = if n > PALETTE_ROWS {
        n - PALETTE_ROWS
    } else {
        0
    };
    let start = if a < b {
        a
    } else {
        b
    };
    let shown = if n - start < PALETTE_ROWS {
        n - start
    } else {
        PALETTE_ROWS
    };
    let ghost spec_rows = palette_rows(input@, selection as int);
    let mut rows: Vec<(&'static str, bool)> = Vec::new();
    let mut i: usize = 0;
    while i < shown
        invariant
            i <= shown,
            start + shown <= n,
            n == cmds@.len(),
            cmds@ == commands_for(input@),
            start == palette_start(selection as int, n as int),
            spec_rows == palette_rows(input@, selection as int),
            spec_rows.len() == shown,
            rows@.map_values(|x: (&'static str, bool)| (x.0@, x.1)) == spec_rows.take(i as int),
        decreases shown - i,
    {
        let c: Command = cmds[start + i];
        let lab = c.label();
        assert(spec_rows[i as int] == (cmds@[start + i].label_spec(), start + i == selection));
        let ghost prev = rows@;
        let b = start + i == selection;
        rows.push((lab, b));
        proof {
            let f = |x: (&'static str, bool)| (x.0@, x.1);
            assert(rows@ == prev.push((lab, b)));
            assert(rows@.map_values(f) =~= prev.map_values(f).push(f((lab, b))));
            assert(f((lab, b)) == spec_rows[i as int]);
            assert(spec_rows.take(i + 1) =~= spec_rows.take(i as int).push(spec_rows[i as int]));
        }
        assert(rows@.map_values(|x: (&'static str, bool)| (x.0@, x.1)) =~= spec_rows.take(i + 1));
        i += 1;
    }
    assert(spec_rows.take(shown as int) =~= spec_rows);
    (line, rows)
}

// ---- Help table ----

/// `s` padded with spaces to `w` characters (`{:<w}`).
pub open spec fn padded(s: Seq<char>, w: nat) -> Seq<char> {
    if s.len() >= w {
        s
    } else {
        s + Seq::new((w - s.len()) as nat, |i: int| ' ')
    }
}

/// A keybinding line: the keys padded in the accent tone, then what they do.
pub open spec fn key_line(row: (Seq<char>, Seq<char>)) -> Seq<Look> {
    seq![toned("  "@ + padded(row.0, 10), Tone::Accent), (row.1, None, Emph::Plain)]
}

/// A section of the help table, after a blank line unless it is the first.
pub open spec fn help_section(s: (Seq<char>, Seq<(Seq<char>, Seq<char>)>), first: bool) -> Seq<Seq<Look>> {
    (if first {
        Seq::empty()
    } else {
        seq![blank()]
    }) + seq![one(s.0, Tone::Dim)] + s.1.map_values(|row: (Seq<char>, Seq<char>)| key_line(row))
}

/// The first `k` sections of the table.
pub open spec fn help_sections(secs: Seq<(Seq<char>, Seq<(Seq<char>, Seq<char>)>)>, k: nat) -> Seq<Seq<Look>>
    decreases k,
{
    if k == 0 {
        Seq::empty()
    } else {
        help_sections(secs, (k - 1) as nat) + help_section(secs[k - 1], k == 1)
    }
}

/// The help table for a filter, or a note when nothing matches.
pub open spec fn help_lines(filter: Seq<char>) -> Seq<Seq<Look>> {
    let secs = help_for(filter);
    if secs.len() == 0 {
        seq![one("no keybinds match \""@ + filter + "\""@, Tone::Dim)]
    } else {
        help_sections(secs, secs.len())
    }
}

/// The help box's title.
pub open spec fn help_title(filter: Seq<char>) -> Seq<char> {
    if filter.len() == 0 {
        " KEYS "@
    } else {
        " KEYS \u{b7} "@ + filter + " "@
    }
}

pub fn pad_to(s: &str, w: usize) -> (r: Vec<char>)
    ensures
        r@ == padded(s@, w as nat),
{
    let mut out = chars_of(s);
    let ghost base = out@;
    if out.len() < w {
        let need = w - out.len();
        let mut k: usize = 0;
        while k < need
            invariant
                k <= need,
                base.len() + need == w,
                out@ == base + Seq::new(k as nat, |i: int| ' '),
            decreases need - k,
        {
            out.push(' ');
            assert(out@ =~= base + Seq::new((k + 1) as nat, |i: int| ' '));
            k += 1;
        }
    }
    out
}

/// The lines of the help table for a filter.
pub fn help_view(filter: &str) -> (r: Vec<Vec<Styled>>)
    ensures
        lines_look(r@) == help_lines(filter@),
{
    let secs = filter_keybinds(filter);
    let ghost sv = help_for(filter@);
    let mut out: Vec<Vec<Styled>> = Vec::new();
    if secs.len() == 0 {
        let mut t: Vec<char> = Vec::new();
        push_str(&mut t, "no keybinds match \"");
        push_str(&mut t, filter);
        push_str(&mut t, "\"");
        push_text_line(&mut out, t, Tone::Dim);
        return out;
    }
    let mut i: usize = 0;
    while i < secs.len()
        invariant
            i <= secs.len(),
            secs@.map_values(|s: (&'static str, Vec<KeybindRow>)| crate::views::section_view(s)) == sv,
            lines_look(out@) == help_sections(sv, i as nat),
        decreases secs.len() - i,
    {
        let ghost before = lines_look(out@);
        let (title, rows) = &secs[i];
        assert(crate::views::section_view(secs@[i as int]) == sv[i as int]);
        if i > 0 {
            push_blank(&mut out);
        }
        push_str_line(&mut out, title, Tone::Dim);
        let ghost mid = lines_look(out@);
        let ghost rv = crate::views::rows_view(rows@);
        assert(rv == sv[i as int].1);
        let mut k: usize = 0;
        while k < rows.len()
            invariant
                k <= rows.len(),
                rv == crate::views::rows_view(rows@),
                lines_look(out@) == mid + rv.take(k as int).map_values(
                    |row: (Seq<char>, Seq<char>)| key_line(row),
                ),
            decreases rows.len() - k,
        {
            let row = rows[k];
            let mut kt: Vec<char> = Vec::new();
            push_str(&mut kt, "  ");
            let p = pad_to(row.key, 10);
            crate::text::push_chars(&mut kt, &p);
            let mut l: Vec<Styled> = Vec::new();
            push_run(&mut l, styled(kt, Some(Tone::Accent), Emph::Plain));
            push_run(&mut l, styled_str(row.desc, None, Emph::Plain));
            assert(rv[k as int] == (row.key@, row.desc@));
            assert(line_look(l@) =~= key_line(rv[k as int]));
            push_line(&mut out, l);
            assert(rv.take(k + 1) =~= rv.take(k as int).push(rv[k as int]));
            assert(lines_look(out@) =~= mid + rv.take(k + 1).map_values(
                |row: (Seq<char>, Seq<char>)| key_line(row),
            ));
            k += 1;
        }
        assert(rv.take(rows.len() as int) =~= rv);
        assert(lines_look(out@) =~= before + help_section(sv[i as int], i == 0));
        i += 1;
    }
    out
}

/// The help box's title for a filter.
pub fn help_title_of(filter: &str) -> (r: Vec<char>)
    ensures
        r@ == help_title(filter@),
{
    let mut t: Vec<char> = Vec::new();
    if chars_of(filter).len() == 0 {
        push_str(&mut t, " KEYS ");
    } else {
        push_str(&mut t, " KEYS \u{b7} ");
        push_str(&mut t, filter);
        push_str(&mut t, " ");
    }
    t
}

/// How far a box of `room` lines may scroll over `content` lines: the
/// asked scroll, at most the overflow.
pub fn overflow_scroll(content: usize, room: usize, scroll: usize) -> (r: usize)
    ensures
        r == (if scroll < minus(content as int, room as int) {
            scroll as int
        } else {
            minus(content as int, room as int)
        }),
{
    let max = if content > room {
        content - room
    } else {
        0
    };
    if scroll < max {
        scroll
    } else {
        max
    }
}

// ---- Toast ----

/// The toast line: a tick for success or a triangle for an error in the
/// kind's tone, then the message.
pub open spec fn toast_line(t: Toast) -> Seq<Look> {
    let (g, c) = match t.kind {
        ToastKind::Success => ('\u{2713}', Tone::Done),
        ToastKind::Error => ('\u{25B2}', Tone::Blocked),
    };
    seq![toned(" "@ + glyph_text(g) + " "@, c), toned(t.message@, Tone::Text)]
}

/// The runs of a toast.
pub fn toast_view(t: &Toast) -> (r: Vec<Styled>)
    ensures
        line_look(r@) == toast_line(*t),
{
    let (g, c) = match t.kind {
        ToastKind::Success => ('\u{2713}', Tone::Done),
        ToastKind::Error => ('\u{25B2}', Tone::Blocked),
    };
    let mut head: Vec<char> = Vec::new();
    head.push(' ');
    head.push(g);
    head.push(' ');
    assert(head@ =~= " "@ + glyph_text(g) + " "@) by {
        reveal_strlit(" ");
    }
    let mut l: Vec<Styled> = Vec::new();
    push_run(&mut l, styled(head, Some(c), Emph::Plain));
    push_run(&mut l, styled_str(t.message.as_str(), Some(Tone::Text), Emph::Plain));
    assert(line_look(l@) =~= toast_line(*t));
    l
}

} // verus!
