//! Key dispatch: the global keys, and the keys of every mode that captures
//! input (the one-line inputs, the list filter, the command palette, the
//! reorder mode, the confirm dialog, the help overlay, the status popup and
//! the link-to-todo picker).

use vstd::prelude::*;
use vstd::view::View as _;

use crate::app::{
    active_plan, queued, should_plan_after_create_spec, status_at, switched, toast_is,
    ActionView, App, ConfirmAction, Mode, ToastKind, View, Action,
};
use crate::commands::{commands_for, filter_commands, Command};
use crate::dates::{day_in_range, day_label, day_string};
use crate::edit::{caret_ok, lemma_boundary_ok, lemma_offset_ends};
use crate::form::{
    accepts, accepts_char, form_wf, is_line_key, line_caret_after, line_key, pop_char, push_char,
    text_after, trimmed_string, CharClass,
};
use crate::keys::{chord, chord_caret, chord_of, chord_text, edit_chord, KeyCode, KeyEvent};
use crate::nav::{backlog_post, inbox_post, review_key_ok, review_post, sync_post, today_post};
use crate::sidebar::sidebar_post;
use crate::text::trimmed;

verus! {

broadcast use vstd::seq_lib::group_seq_properties;

// ---- One-line inputs ----

impl Mode {
    /// The modes with a one-line text input.
    pub open spec fn is_line(self) -> bool {
        ||| self is InlineCreate
        ||| self is InlineEdit
        ||| self is Search
        ||| self is Filter
        ||| self is Command
    }

    /// The text and caret of a one-line input.
    pub open spec fn line(self) -> (Seq<char>, int) {
        match self {
            Mode::InlineCreate { input, caret } => (input@, caret as int),
            Mode::InlineEdit { input, caret, .. } => (input@, caret as int),
            Mode::Search { input, caret } => (input@, caret as int),
            Mode::Filter { input, caret } => (input@, caret as int),
            Mode::Command { input, caret, .. } => (input@, caret as int),
            _ => (Seq::empty(), 0),
        }
    }

    /// Every caret of the mode sits on a character boundary of its text.
    pub open spec fn wf(self) -> bool {
        if self.is_line() {
            caret_ok(self.line().0, self.line().1)
        } else if self is SidebarEdit || self is SidebarAdd {
            form_wf(self.form_view())
        } else {
            true
        }
    }

    /// `new` is the same one-line mode (same todo, same selection) with
    /// the text and caret `line`.
    pub open spec fn line_updated(self, new: Mode, line: (Seq<char>, int)) -> bool {
        &&& new.line() == line
        &&& match self {
            Mode::InlineCreate { .. } => new is InlineCreate,
            Mode::InlineEdit { id, .. } => new is InlineEdit && new->InlineEdit_id == id,
            Mode::Search { .. } => new is Search,
            Mode::Filter { .. } => new is Filter,
            Mode::Command { selection, .. } => new is Command && new->Command_selection
                == selection,
            _ => false,
        }
    }
}

/// True when a key edits a one-line input: a readline chord (where the
/// input takes chords) or a key of [`is_line_key`].
pub open spec fn line_handled(ev: KeyEvent, class: CharClass, chords: bool) -> bool {
    (chords && chord_of(ev.code, ev.modifiers) is Some) || is_line_key(ev.code, class)
}

/// The text and caret after a key that edits a one-line input.
pub open spec fn line_step(s: Seq<char>, caret: int, ev: KeyEvent, class: CharClass, chords: bool) -> (
    Seq<char>,
    int,
) {
    if chords && chord_of(ev.code, ev.modifiers) is Some {
        let c = chord_of(ev.code, ev.modifiers)->0;
        (chord_text(c, s, caret), chord_caret(c, s, caret))
    } else {
        (text_after(s, caret, ev.code, class), line_caret_after(s, caret, ev.code, class))
    }
}

/// What a key does to a one-line input mode, when it edits the input.
pub open spec fn line_edited(old: App, new: App, ev: KeyEvent, class: CharClass, chords: bool) -> bool {
    &&& old.mode.line_updated(
        new.mode,
        line_step(old.mode.line().0, old.mode.line().1, ev, class, chords),
    )
    &&& new == (App { mode: new.mode, ..old })
}

fn line_key_kind(key: KeyCode, class: CharClass) -> (r: bool)
    ensures
        r == is_line_key(key, class),
{
    match key {
        KeyCode::Char(c) => accepts_char(class, c),
        KeyCode::Backspace | KeyCode::Left | KeyCode::Right | KeyCode::Home | KeyCode::End => true,
        _ => false,
    }
}

fn empty_text() -> (r: String)
    ensures
        r@.len() == 0,
{
    String::new()
}

impl App {
    /// Applies a key that edits the one-line input of the mode; returns
    /// false, changing nothing, for any other key.
    fn edit_line(&mut self, ev: KeyEvent, class: CharClass, chords: bool) -> (handled: bool)
        requires
            old(self).mode.is_line(),
            old(self).mode.wf(),
        ensures
            handled == line_handled(ev, class, chords),
            handled ==> line_edited(*old(self), *final(self), ev, class, chords),
            !handled ==> *final(self) == *old(self),
            final(self).mode.wf(),
    {
        let is_chord = chords && chord(ev.code, ev.modifiers).is_some();
        if !is_chord && !line_key_kind(ev.code, class) {
            return false;
        }
        match &mut self.mode {
            Mode::InlineCreate { input, caret } => {
                if is_chord {
                    edit_chord(ev.code, ev.modifiers, input, caret);
                } else {
                    line_key(input, caret, ev.code, class);
                }
            },
            Mode::InlineEdit { input, caret, .. } => {
                if is_chord {
                    edit_chord(ev.code, ev.modifiers, input, caret);
                } else {
                    line_key(input, caret, ev.code, class);
                }
            },
            Mode::Search { input, caret } => {
                if is_chord {
                    edit_chord(ev.code, ev.modifiers, input, caret);
                } else {
                    line_key(input, caret, ev.code, class);
                }
            },
            Mode::Filter { input, caret } => {
                if is_chord {
                    edit_chord(ev.code, ev.modifiers, input, caret);
                } else {
                    line_key(input, caret, ev.code, class);
                }
            },
            Mode::Command { input, caret, .. } => {
                if is_chord {
                    edit_chord(ev.code, ev.modifiers, input, caret);
                } else {
                    line_key(input, caret, ev.code, class);
                }
            },
            _ => {},
        }
        true
    }
}

/// Keys of the inline create input: Enter creates the todo (planned when
/// created from Today) or complains of a blank title.
pub open spec fn inline_create_post(old: App, new: App, ev: KeyEvent) -> bool {
    let s = old.mode.line().0;
    if line_handled(ev, CharClass::Line, true) {
        line_edited(old, new, ev, CharClass::Line, true)
    } else if ev.code == KeyCode::Enter {
        if trimmed(s).len() == 0 {
            toast_is(new.toast, ToastKind::Error, "a title is required"@) && new == (App {
                toast: new.toast,
                ..old
            })
        } else {
            &&& new.mode == Mode::Navigate
            &&& queued(
                old.pending@,
                new.pending@,
                ActionView::CreateTodo {
                    title: trimmed(s),
                    plan_today: should_plan_after_create_spec(old.view),
                },
            )
            &&& new == (App { mode: new.mode, pending: new.pending, ..old })
        }
    } else {
        new == old
    }
}

/// Keys of the inline rename input: Enter saves the title or complains of
/// a blank one.
pub open spec fn inline_edit_post(old: App, new: App, ev: KeyEvent) -> bool {
    let s = old.mode.line().0;
    if line_handled(ev, CharClass::Line, true) {
        line_edited(old, new, ev, CharClass::Line, true)
    } else if ev.code == KeyCode::Enter {
        if trimmed(s).len() == 0 {
            toast_is(new.toast, ToastKind::Error, "a title is required"@) && new == (App {
                toast: new.toast,
                ..old
            })
        } else {
            &&& new.mode == Mode::Navigate
            &&& queued(
                old.pending@,
                new.pending@,
                ActionView::UpdateTodo {
                    id: old.mode->InlineEdit_id,
                    title: Some(trimmed(s)),
                    desc: None,
                },
            )
            &&& new == (App { mode: new.mode, pending: new.pending, ..old })
        }
    } else {
        new == old
    }
}

/// Keys of the search input: editing only.
pub open spec fn search_post(old: App, new: App, ev: KeyEvent) -> bool {
    if line_handled(ev, CharClass::Line, false) {
        line_edited(old, new, ev, CharClass::Line, false)
    } else {
        new == old
    }
}

/// Keys of the list filter: Enter commits the typed filter.
pub open spec fn filter_post(old: App, new: App, ev: KeyEvent) -> bool {
    if line_handled(ev, CharClass::Line, true) {
        line_edited(old, new, ev, CharClass::Line, true)
    } else if ev.code == KeyCode::Enter {
        &&& new.filter@ == old.mode.line().0
        &&& new.mode == Mode::Navigate
        &&& new == (App { mode: new.mode, filter: new.filter, ..old })
    } else {
        new == old
    }
}

impl App {
    /// Keys of the inline create input.
    pub fn key_inline_create(&mut self, ev: KeyEvent)
        requires
            old(self).mode is InlineCreate,
            old(self).mode.wf(),
        ensures
            inline_create_post(*old(self), *final(self), ev),
            final(self).mode.wf(),
    {
        if self.edit_line(ev, CharClass::Line, true) {
            return;
        }
        if ev.code == KeyCode::Enter {
            let title = match &self.mode {
                Mode::InlineCreate { input, .. } => trimmed_string(input),
                _ => empty_text(),
            };
            if title.as_str().is_empty() {
                self.set_error("a title is required");
                return;
            }
            let plan_after = crate::app::should_plan_after_create(self.view);
            self.spawn_create_todo(title.as_str(), plan_after);
            self.mode = Mode::Navigate;
        }
    }

    /// Keys of the inline rename input.
    pub fn key_inline_edit(&mut self, ev: KeyEvent)
        requires
            old(self).mode is InlineEdit,
            old(self).mode.wf(),
        ensures
            inline_edit_post(*old(self), *final(self), ev),
            final(self).mode.wf(),
    {
        if self.edit_line(ev, CharClass::Line, true) {
            return;
        }
        if ev.code == KeyCode::Enter {
            let (id, title) = match &self.mode {
                Mode::InlineEdit { id, input, .. } => (*id, trimmed_string(input)),
                _ => (0, empty_text()),
            };
            if title.as_str().is_empty() {
                self.set_error("a title is required");
                return;
            }
            self.spawn_update_todo(id, Some(title.as_str()), None);
            self.mode = Mode::Navigate;
        }
    }

    /// Keys of the search input.
    pub fn key_search(&mut self, ev: KeyEvent)
        requires
            old(self).mode is Search,
            old(self).mode.wf(),
        ensures
            search_post(*old(self), *final(self), ev),
            final(self).mode.wf(),
    {
        self.edit_line(ev, CharClass::Line, false);
    }

    /// Keys of the list filter input.
    pub fn key_filter(&mut self, ev: KeyEvent)
        requires
            old(self).mode is Filter,
            old(self).mode.wf(),
        ensures
            filter_post(*old(self), *final(self), ev),
            final(self).mode.wf(),
    {
        if self.edit_line(ev, CharClass::Line, true) {
            return;
        }
        if ev.code == KeyCode::Enter {
            let f = match &self.mode {
                Mode::Filter { input, .. } => input.clone(),
                _ => empty_text(),
            };
            self.filter = f;
            self.mode = Mode::Navigate;
        }
    }
}

// ---- Command palette ----

/// The command mode with its text and caret kept and the selection `sel`.
pub open spec fn command_selected(old: App, new: App, sel: int) -> bool {
    &&& new.mode is Command
    &&& new.mode.line() == old.mode.line()
    &&& new.mode->Command_selection == sel
    &&& new == (App { mode: new.mode, ..old })
}

/// What running a command does (from navigate mode, `mid`).
pub open spec fn command_ran(mid: App, new: App, cmd: Command) -> bool {
    match cmd {
        Command::Today => switched(mid, new, View::Today),
        Command::Backlog => switched(mid, new, View::Backlog),
        Command::Inbox => switched(mid, new, View::Inbox),
        Command::Review => switched(mid, new, View::Review),
        Command::Sync => switched(mid, new, View::Sync),
        Command::SyncGithub => queued(mid.pending@, new.pending@, ActionView::SyncGithub) && new
            == (App { pending: new.pending, ..mid }),
        Command::SyncLinear => queued(mid.pending@, new.pending@, ActionView::SyncLinear) && new
            == (App { pending: new.pending, ..mid }),
        Command::CarryOver => {
            &&& new.mode matches Mode::Confirm { action: ConfirmAction::CarryOver { from, to } }
                && from@ == day_label(mid.logical_date - 1) && to@ == day_label(
                mid.logical_date as int,
            )
            &&& new == (App { mode: new.mode, ..mid })
        },
        Command::Refresh => queued(mid.pending@, new.pending@, ActionView::Refresh) && new == (
        App { pending: new.pending, ..mid }),
        Command::ToggleDone => new == (App { show_done: !mid.show_done, ..mid }),
        Command::ToggleDismissed => new == (App { show_dismissed: !mid.show_dismissed, ..mid }),
        Command::Help => {
            &&& new.mode matches Mode::Help { filter } && filter@.len() == 0
            &&& new.help_scroll == 0
            &&& new == (App { mode: new.mode, help_scroll: new.help_scroll, ..mid })
        },
        Command::Quit => new == (App { quit_requested: true, ..mid }),
    }
}

/// Keys of the command palette: j/Down/Tab and k/Up move through the
/// offered commands (wrapping), Enter runs the selected one, typing and
/// Backspace edit the filter (selecting the first command again).
pub open spec fn command_post(old: App, new: App, ev: KeyEvent) -> bool {
    let s = old.mode.line().0;
    let sel = old.mode->Command_selection as int;
    let cmds = commands_for(s);
    let n = cmds.len() as int;
    if chord_of(ev.code, ev.modifiers) is Some {
        line_edited(old, new, ev, CharClass::Command, true)
    } else {
        match ev.code {
            KeyCode::Char('j') | KeyCode::Down | KeyCode::Tab => if n > 0 {
                command_selected(old, new, (sel + 1) % n)
            } else {
                new == old
            },
            KeyCode::Char('k') | KeyCode::Up => if n > 0 {
                command_selected(old, new, if sel == 0 { n - 1 } else { sel - 1 })
            } else {
                new == old
            },
            KeyCode::Enter => if sel < n {
                command_ran(App { mode: Mode::Navigate, ..old }, new, cmds[sel])
            } else {
                new == (App { mode: Mode::Navigate, ..old })
            },
            KeyCode::Char(c) => if accepts(CharClass::Command, c) {
                &&& new.mode is Command
                &&& new.mode.line() == line_step(
                    s,
                    old.mode.line().1,
                    ev,
                    CharClass::Command,
                    false,
                )
                &&& new.mode->Command_selection == 0
                &&& new == (App { mode: new.mode, ..old })
            } else {
                new == old
            },
            KeyCode::Backspace => {
                &&& new.mode is Command
                &&& new.mode.line() == line_step(
                    s,
                    old.mode.line().1,
                    ev,
                    CharClass::Command,
                    false,
                )
                &&& new.mode->Command_selection == 0
                &&& new == (App { mode: new.mode, ..old })
            },
            KeyCode::Left | KeyCode::Right | KeyCode::Home | KeyCode::End => line_edited(
                old,
                new,
                ev,
                CharClass::Command,
                false,
            ),
            _ => new == old,
        }
    }
}

impl App {
    fn set_command_selection(&mut self, sel: usize)
        requires
            old(self).mode is Command,
        ensures
            command_selected(*old(self), *final(self), sel as int),
            final(self).mode.wf() == old(self).mode.wf(),
    {
        if let Mode::Command { selection, .. } = &mut self.mode {
            *selection = sel;
        }
    }

    /// Runs a command of the palette.
    pub fn run_command(&mut self, cmd: Command)
        requires
            day_in_range(old(self).logical_date as int),
        ensures
            command_ran(*old(self), *final(self), cmd),
    {
        match cmd {
            Command::Today => self.switch_view(View::Today),
            Command::Backlog => self.switch_view(View::Backlog),
            Command::Inbox => self.switch_view(View::Inbox),
            Command::Review => self.switch_view(View::Review),
            Command::Sync => self.switch_view(View::Sync),
            Command::SyncGithub => self.spawn_sync_github(),
            Command::SyncLinear => self.spawn_sync_linear(),
            Command::CarryOver => {
                let from = day_string(self.logical_date - 1);
                let to = day_string(self.logical_date);
                self.mode = Mode::Confirm { action: ConfirmAction::CarryOver { from, to } };
            },
            Command::Refresh => self.spawn_refresh(),
            Command::ToggleDone => {
                self.show_done = !self.show_done;
            },
            Command::ToggleDismissed => {
                self.show_dismissed = !self.show_dismissed;
            },
            Command::Help => {
                self.mode = Mode::Help { filter: empty_text() };
                self.help_scroll = 0;
            },
            Command::Quit => {
                self.quit_requested = true;
            },
        }
    }

    /// Keys of the command palette.
    pub fn key_command(&mut self, ev: KeyEvent)
        requires
            old(self).mode is Command,
            old(self).mode.wf(),
            day_in_range(old(self).logical_date as int),
        ensures
            command_post(*old(self), *final(self), ev),
            final(self).mode.wf(),
    {
        if chord(ev.code, ev.modifiers).is_some() {
            self.edit_line(ev, CharClass::Command, true);
            return;
        }
        let (sel, n, chosen) = match &self.mode {
            Mode::Command { input, selection, .. } => {
                let cmds = filter_commands(input.as_str());
                let chosen = if *selection < cmds.len() {
                    Some(cmds[*selection])
                } else {
                    None
                };
                (*selection, cmds.len(), chosen)
            },
            _ => (0, 0, None),
        };
        let code = ev.code;
        if code == KeyCode::Char('j') || code == KeyCode::Down || code == KeyCode::Tab {
            if n > 0 {
                proof {
                    vstd::arithmetic::div_mod::lemma_add_mod_noop(sel as int, 1, n as int);
                    vstd::arithmetic::div_mod::lemma_mod_bound(sel as int, n as int);
                    if n == 1 {
                        assert(1int % 1 == 0);
                    } else {
                        vstd::arithmetic::div_mod::lemma_small_mod(1, n as nat);
                    }
                }
                self.set_command_selection((sel % n + 1) % n);
            }
        } else if code == KeyCode::Char('k') || code == KeyCode::Up {
            if n > 0 {
                self.set_command_selection(
                    if sel == 0 {
                        n - 1
                    } else {
                        sel - 1
                    },
                );
            }
        } else if code == KeyCode::Enter {
            self.mode = Mode::Navigate;
            if let Some(cmd) = chosen {
                self.run_command(cmd);
            }
        } else if code == KeyCode::Backspace {
            self.edit_line(ev, CharClass::Command, false);
            self.set_command_selection(0);
        } else {
            match code {
                KeyCode::Char(c) => {
                    if accepts_char(CharClass::Command, c) {
                        self.edit_line(ev, CharClass::Command, false);
                        self.set_command_selection(0);
                    }
                },
                KeyCode::Left | KeyCode::Right | KeyCode::Home | KeyCode::End => {
                    self.edit_line(ev, CharClass::Command, false);
                },
                _ => {},
            }
        }
    }
}

// ---- Reorder ----

/// The first position of `x` in `ids`, if any.
pub open spec fn first_pos(ids: Seq<i32>, x: i32) -> Option<int> {
    if exists|i: int| 0 <= i < ids.len() && ids[i] == x {
        Some(
            choose|i: int|
                0 <= i < ids.len() && ids[i] == x && forall|j: int| 0 <= j < i ==> ids[j] != x,
        )
    } else {
        None
    }
}

/// `ids` with the first `x` swapped with its neighbour after (`down`) or
/// before; unchanged when there is no such neighbour.
pub open spec fn moved_id(ids: Seq<i32>, x: i32, down: bool) -> Seq<i32> {
    match first_pos(ids, x) {
        Some(p) => if down && p + 1 < ids.len() {
            ids.update(p, ids[p + 1]).update(p + 1, x)
        } else if !down && p > 0 {
            ids.update(p, ids[p - 1]).update(p - 1, x)
        } else {
            ids
        },
        None => ids,
    }
}

/// The first position of an id that occurs once is that position.
proof fn lemma_first_pos_once(ids: Seq<i32>, x: i32, p: int)
    requires
        0 <= p < ids.len(),
        ids[p] == x,
        forall|j: int| 0 <= j < ids.len() && j != p ==> ids[j] != x,
    ensures
        first_pos(ids, x) == Some(p),
{
    assert(0 <= p < ids.len() && ids[p] == x);
    let w = choose|i: int| 0 <= i < ids.len() && ids[i] == x && forall|j: int| 0 <= j < i ==> ids[j] != x;
    assert(0 <= p < ids.len() && ids[p] == x && forall|j: int| 0 <= j < p ==> ids[j] != x);
    assert(w == p);
}

/// K undoes J: moving a todo one place down and then one place up gives
/// back the plan's order, when the todo occurs once and is not last.
pub proof fn lemma_move_down_then_up(ids: Seq<i32>, x: i32, p: int)
    requires
        0 <= p < ids.len() - 1,
        ids[p] == x,
        forall|j: int| 0 <= j < ids.len() && j != p ==> ids[j] != x,
    ensures
        moved_id(moved_id(ids, x, true), x, false) == ids,
{
    lemma_first_pos_once(ids, x, p);
    let mid = ids.update(p, ids[p + 1]).update(p + 1, x);
    assert(moved_id(ids, x, true) == mid);
    assert forall|j: int| 0 <= j < mid.len() && j != p + 1 implies mid[j] != x by {
        if j == p {
            assert(ids[p + 1] != x);
        } else {
            assert(ids[j] != x);
        }
    }
    lemma_first_pos_once(mid, x, p + 1);
    assert(mid.update(p + 1, mid[p]).update(p, x) =~= ids);
}

/// Keys of the reorder mode: J/Down and K/Up move the armed todo one place
/// in today's plan and save the new order; Enter leaves the mode.
pub open spec fn reorder_post(old: App, new: App, key: KeyCode) -> bool {
    let ids = active_plan(old.data.plan@).map_values(|t: crate::gql::Todo| t.id);
    let src = old.mode->Reorder_source_id;
    let down = key == KeyCode::Char('J') || key == KeyCode::Down;
    let up = key == KeyCode::Char('K') || key == KeyCode::Up;
    if down || up {
        &&& queued(
            old.pending@,
            new.pending@,
            ActionView::Reorder {
                date: day_label(old.logical_date as int),
                ids: moved_id(ids, src, down),
            },
        )
        &&& new == (App { pending: new.pending, ..old })
    } else if key == KeyCode::Enter {
        new == (App { mode: Mode::Navigate, ..old })
    } else {
        new == old
    }
}

fn find_id(ids: &Vec<i32>, x: i32) -> (r: Option<usize>)
    ensures
        match r {
            Some(p) => first_pos(ids@, x) == Some(p as int) && p < ids.len() && ids@[p as int] == x,
            None => first_pos(ids@, x) is None,
        },
{
    let mut i: usize = 0;
    while i < ids.len()
        invariant
            i <= ids.len(),
            forall|j: int| 0 <= j < i ==> ids@[j] != x,
        decreases ids.len() - i,
    {
        if ids[i] == x {
            proof {
                let w = choose|k: int|
                    0 <= k < ids@.len() && ids@[k] == x && forall|j: int|
                        0 <= j < k ==> ids@[j] != x;
                assert(0 <= i < ids@.len() && ids@[i as int] == x && forall|j: int|
                    0 <= j < i ==> ids@[j] != x);
                if w < i {
                } else if w > i {
                    assert(ids@[i as int] != x);
                }
            }
            return Some(i);
        }
        i += 1;
    }
    None
}

impl App {
    /// Keys of the reorder mode.
    pub fn key_reorder(&mut self, key: KeyCode)
        requires
            old(self).mode is Reorder,
        ensures
            reorder_post(*old(self), *final(self), key),
    {
        let src = match &self.mode {
            Mode::Reorder { source_id } => *source_id,
            _ => 0,
        };
        let down = key == KeyCode::Char('J') || key == KeyCode::Down;
        let up = key == KeyCode::Char('K') || key == KeyCode::Up;
        if down || up {
            let mut ids = self.active_plan_ids();
            let ghost before = ids@;
            match find_id(&ids, src) {
                Some(p) => {
                    if down && p + 1 < ids.len() {
                        let next = ids[p + 1];
                        ids.set(p, next);
                        ids.set(p + 1, src);
                    } else if !down && p > 0 {
                        let prev = ids[p - 1];
                        ids.set(p, prev);
                        ids.set(p - 1, src);
                    }
                    proof {
                        assert(before[p as int] == src);
                    }
                },
                None => {},
            }
            assert(ids@ =~= moved_id(before, src, down));
            let date = day_string(self.logical_date);
            self.spawn_reorder(date.as_str(), ids.as_slice());
        } else if key == KeyCode::Enter {
            self.mode = Mode::Navigate;
        }
    }
}

// ---- Confirm dialog ----

/// The operation a confirmed action runs.
pub open spec fn confirmed(a: ConfirmAction) -> ActionView {
    match a {
        ConfirmAction::CarryOver { from, to } => ActionView::CarryOver { from: from@, to: to@ },
        ConfirmAction::Unplan { id } => ActionView::Unplan { todo_id: id },
        ConfirmAction::Cancel { id } => ActionView::SetStatus {
            id,
            status: "cancelled"@,
            blocked: None,
        },
        ConfirmAction::DismissPr { id } => ActionView::DismissPr { id },
    }
}

/// Keys of the confirm dialog: y/Y runs the action, n/N drops it; both
/// close the dialog.
pub open spec fn confirm_post(old: App, new: App, key: KeyCode) -> bool {
    if key == KeyCode::Char('y') || key == KeyCode::Char('Y') {
        &&& new.mode == Mode::Navigate
        &&& queued(old.pending@, new.pending@, confirmed(old.mode->Confirm_action))
        &&& new == (App { mode: new.mode, pending: new.pending, ..old })
    } else if key == KeyCode::Char('n') || key == KeyCode::Char('N') {
        new == (App { mode: Mode::Navigate, ..old })
    } else {
        new == old
    }
}

impl App {
    /// Keys of the confirm dialog.
    pub fn key_confirm(&mut self, key: KeyCode)
        requires
            old(self).mode is Confirm,
        ensures
            confirm_post(*old(self), *final(self), key),
    {
        if key == KeyCode::Char('y') || key == KeyCode::Char('Y') {
            let mut m = Mode::Navigate;
            std::mem::swap(&mut m, &mut self.mode);
            match m {
                Mode::Confirm { action } => match action {
                    ConfirmAction::CarryOver { from, to } => {
                        self.spawn_carry_over(from.as_str(), to.as_str());
                    },
                    ConfirmAction::Unplan { id } => {
                        self.spawn_unplan(id);
                    },
                    ConfirmAction::Cancel { id } => {
                        self.spawn_cancel(id);
                    },
                    ConfirmAction::DismissPr { id } => {
                        self.spawn_dismiss_pr(id);
                    },
                },
                _ => {},
            }
        } else if key == KeyCode::Char('n') || key == KeyCode::Char('N') {
            self.mode = Mode::Navigate;
        }
    }
}

// ---- Help overlay ----

/// Keys of the help overlay: typing filters the keybindings (back to the
/// top), Down and Up scroll.
pub open spec fn help_post(old: App, new: App, key: KeyCode) -> bool {
    let f = old.mode->Help_filter@;
    match key {
        KeyCode::Char(c) => if accepts(CharClass::HelpFilter, c) {
            &&& new.mode matches Mode::Help { filter } && filter@ == f.push(c)
            &&& new.help_scroll == 0
            &&& new == (App { mode: new.mode, help_scroll: new.help_scroll, ..old })
        } else {
            new == old
        },
        KeyCode::Backspace => {
            &&& new.mode matches Mode::Help { filter } && filter@ == (if f.len() > 0 {
                f.drop_last()
            } else {
                f
            })
            &&& new.help_scroll == 0
            &&& new == (App { mode: new.mode, help_scroll: new.help_scroll, ..old })
        },
        KeyCode::Down => new == (App {
            help_scroll: if old.help_scroll < usize::MAX {
                (old.help_scroll + 1) as usize
            } else {
                old.help_scroll
            },
            ..old
        }),
        KeyCode::Up => if old.help_scroll > 0 {
            new == (App { help_scroll: (old.help_scroll - 1) as usize, ..old })
        } else {
            new == old
        },
        _ => new == old,
    }
}

impl App {
    /// Keys of the help overlay.
    pub fn key_help(&mut self, key: KeyCode)
        requires
            old(self).mode is Help,
        ensures
            help_post(*old(self), *final(self), key),
    {
        match key {
            KeyCode::Char(c) => {
                if accepts_char(CharClass::HelpFilter, c) {
                    if let Mode::Help { filter } = &mut self.mode {
                        *filter = push_char(filter, c);
                    }
                    self.help_scroll = 0;
                }
            },
            KeyCode::Backspace => {
                if let Mode::Help { filter } = &mut self.mode {
                    *filter = pop_char(filter);
                }
                self.help_scroll = 0;
            },
            KeyCode::Down => {
                self.help_scroll = self.help_scroll.saturating_add(1);
            },
            KeyCode::Up => {
                if self.help_scroll > 0 {
                    self.help_scroll = self.help_scroll - 1;
                }
            },
            _ => {},
        }
    }
}

// ---- Status popup ----

/// The status popup's steps stay within `i32`.
pub open spec fn status_key_ok(app: App, key: KeyCode) -> bool {
    let sel = crate::app::selection_i32(app.mode->StatusSelect_selection);
    &&& (key == KeyCode::Down || key == KeyCode::Char('j')) ==> sel + 1 <= i32::MAX
    &&& (key == KeyCode::Up || key == KeyCode::Char('k')) ==> sel - 1 >= i32::MIN
}

/// The popup with its selection `sel` and its reason `reason`.
pub open spec fn status_mode(old: App, new: App, sel: usize, reason: Option<Seq<char>>) -> bool {
    &&& new.mode matches Mode::StatusSelect { id, selection, reason: r } && id
        == old.mode->StatusSelect_id && selection == sel && crate::app::opt_view(r) == reason
    &&& new == (App { mode: new.mode, ..old })
}

/// Keys of the status popup. While the blocked-reason prompt is open,
/// typing and Backspace edit the reason and Enter sets the todo blocked
/// with it. Otherwise j/k move (wrapping), 1–5 pick a status, and Enter
/// sets the picked status, or opens the reason prompt for `blocked`.
pub open spec fn status_post(old: App, new: App, key: KeyCode) -> bool {
    let id = old.mode->StatusSelect_id;
    let sel = old.mode->StatusSelect_selection;
    let reason = crate::app::opt_view(old.mode->StatusSelect_reason);
    let typing = reason is Some;
    let r = reason->0;
    if typing && (key matches KeyCode::Char(c) && accepts(CharClass::Reason, c)) {
        status_mode(old, new, sel, Some(r.push(key->Char_0)))
    } else if typing && key == KeyCode::Backspace {
        status_mode(
            old,
            new,
            sel,
            Some(
                if r.len() > 0 {
                    r.drop_last()
                } else {
                    r
                },
            ),
        )
    } else if typing && key == KeyCode::Enter {
        &&& new.mode == Mode::Navigate
        &&& queued(
            old.pending@,
            new.pending@,
            ActionView::SetStatus { id, status: "blocked"@, blocked: Some(r) },
        )
        &&& new == (App { mode: new.mode, pending: new.pending, ..old })
    } else if key == KeyCode::Char('j') || key == KeyCode::Down {
        status_mode(
            old,
            new,
            crate::app::next_status_spec(crate::app::selection_i32(sel), 1) as usize,
            reason,
        )
    } else if key == KeyCode::Char('k') || key == KeyCode::Up {
        status_mode(
            old,
            new,
            crate::app::next_status_spec(crate::app::selection_i32(sel), -1) as usize,
            reason,
        )
    } else if key matches KeyCode::Char(d) && '1' <= d <= '5' {
        status_mode(old, new, ((key->Char_0) as u32 - '1' as u32) as usize, reason)
    } else if key == KeyCode::Enter {
        if sel >= 5 {
            new == (App { mode: Mode::Navigate, ..old })
        } else if sel == 1 {
            status_mode(old, new, sel, Some(Seq::empty()))
        } else {
            &&& new.mode == Mode::Navigate
            &&& queued(
                old.pending@,
                new.pending@,
                ActionView::SetStatus { id, status: status_at(sel as nat), blocked: None },
            )
            &&& new == (App { mode: new.mode, pending: new.pending, ..old })
        }
    } else {
        new == old
    }
}

impl App {
    fn set_status_selection(&mut self, sel: usize)
        requires
            old(self).mode is StatusSelect,
        ensures
            status_mode(
                *old(self),
                *final(self),
                sel,
                crate::app::opt_view(old(self).mode->StatusSelect_reason),
            ),
    {
        if let Mode::StatusSelect { selection, .. } = &mut self.mode {
            *selection = sel;
        }
    }

    /// Keys of the status popup.
    pub fn key_status_select(&mut self, key: KeyCode)
        requires
            old(self).mode is StatusSelect,
            status_key_ok(*old(self), key),
        ensures
            status_post(*old(self), *final(self), key),
    {
        let (id, sel, typing) = match &self.mode {
            Mode::StatusSelect { id, selection, reason } => (*id, *selection, reason.is_some()),
            _ => (0, 0, false),
        };
        if typing {
            match key {
                KeyCode::Char(c) => {
                    if accepts_char(CharClass::Reason, c) {
                        if let Mode::StatusSelect { reason: Some(r), .. } = &mut self.mode {
                            *r = push_char(r, c);
                        }
                        return;
                    }
                },
                KeyCode::Backspace => {
                    if let Mode::StatusSelect { reason: Some(r), .. } = &mut self.mode {
                        *r = pop_char(r);
                    }
                    return;
                },
                KeyCode::Enter => {
                    let mut m = Mode::Navigate;
                    std::mem::swap(&mut m, &mut self.mode);
                    if let Mode::StatusSelect { reason: Some(r), .. } = m {
                        self.spawn_set_status(id, "blocked", Some(r.as_str()));
                    }
                    return;
                },
                _ => {},
            }
        }
        match key {
            KeyCode::Down => self.set_status_selection(crate::app::next_status(sel, 1)),
            KeyCode::Up => self.set_status_selection(crate::app::next_status(sel, -1)),
            KeyCode::Char(c) => {
                if c == 'j' {
                    self.set_status_selection(crate::app::next_status(sel, 1));
                } else if c == 'k' {
                    self.set_status_selection(crate::app::next_status(sel, -1));
                } else if '1' <= c && c <= '5' {
                    let idx = (c as u32 - '1' as u32) as usize;
                    self.set_status_selection(idx);
                }
            },
            KeyCode::Enter => {
                match crate::app::status_by_index(sel) {
                    None => {
                        self.mode = Mode::Navigate;
                    },
                    Some(status) => {
                        if sel == 1 {
                            if let Mode::StatusSelect { reason, .. } = &mut self.mode {
                                *reason = Some(empty_text());
                            }
                        } else {
                            self.spawn_set_status(id, status, None);
                            self.mode = Mode::Navigate;
                        }
                    },
                }
            },
            _ => {},
        }
    }
}

// ---- Link-to-todo picker ----

/// Keys of the link-to-todo picker (opened from the inbox): j/k move over
/// the todos, Enter links the pull request or issue to the selected todo.
pub open spec fn link_todo_post(old: App, new: App, key: KeyCode) -> bool {
    let n = old.data.todos@.len();
    let sel = old.mode->LinkTodo_selection;
    let pr = old.mode->LinkTodo_pr_id;
    let issue = old.mode->LinkTodo_linear_issue_id;
    let with_sel = |s: usize| Mode::LinkTodo { pr_id: pr, linear_issue_id: issue, selection: s };
    if key == KeyCode::Char('j') || key == KeyCode::Down {
        if sel + 1 < n {
            new == (App { mode: with_sel((sel + 1) as usize), ..old })
        } else {
            new == old
        }
    } else if key == KeyCode::Char('k') || key == KeyCode::Up {
        new == (App { mode: with_sel(if sel > 0 { (sel - 1) as usize } else { 0 }), ..old })
    } else if key == KeyCode::Esc {
        new == (App { mode: Mode::Navigate, toast: None, ..old })
    } else if key == KeyCode::Enter {
        if sel < n {
            let tid = old.data.todos@[sel as int].id;
            &&& new.mode == Mode::Navigate
            &&& match (pr, issue) {
                (Some(p), _) => queued(
                    old.pending@,
                    new.pending@,
                    ActionView::LinkPr { todo_id: tid, pr_id: p },
                ),
                (None, Some(i)) => queued(
                    old.pending@,
                    new.pending@,
                    ActionView::LinkLinear { todo_id: tid, issue_id: i },
                ),
                (None, None) => new.pending == old.pending,
            }
            &&& new == (App { mode: new.mode, pending: new.pending, ..old })
        } else {
            new == old
        }
    } else {
        new == old
    }
}

impl App {
    /// Keys of the link-to-todo picker.
    pub fn key_link_todo(&mut self, key: KeyCode)
        requires
            old(self).mode is LinkTodo,
        ensures
            link_todo_post(*old(self), *final(self), key),
    {
        let n = self.data.todos.len();
        let (pr, issue, sel) = match &self.mode {
            Mode::LinkTodo { pr_id, linear_issue_id, selection } => (
                *pr_id,
                *linear_issue_id,
                *selection,
            ),
            _ => (None, None, 0),
        };
        if key == KeyCode::Char('j') || key == KeyCode::Down {
            if sel < n && sel + 1 < n {
                self.mode = Mode::LinkTodo { pr_id: pr, linear_issue_id: issue, selection: sel + 1 };
            }
        } else if key == KeyCode::Char('k') || key == KeyCode::Up {
            self.mode = Mode::LinkTodo {
                pr_id: pr,
                linear_issue_id: issue,
                selection: sel.saturating_sub(1),
            };
        } else if key == KeyCode::Esc {
            self.mode = Mode::Navigate;
            self.toast = None;
        } else if key == KeyCode::Enter {
            if sel < n {
                let tid = self.data.todos[sel].id;
                match (pr, issue) {
                    (Some(p), _) => self.spawn_link_pr(tid, p),
                    (None, Some(i)) => self.spawn_link_linear(tid, i),
                    (None, None) => {},
                }
                self.mode = Mode::Navigate;
            }
        }
    }
}

// ---- Dispatch ----

/// Keys while navigating go to the current view.
pub open spec fn navigate_post(old: App, new: App, key: KeyCode) -> bool {
    match old.view {
        View::Today => today_post(old, new, key),
        View::Backlog => backlog_post(old, new, key),
        View::Inbox => inbox_post(old, new, key),
        View::Review => review_post(old, new, key),
        View::Sync => sync_post(old, new, key),
    }
}

/// The state every key handler keeps: the carets of the mode on
/// character boundaries, and the logical day a date.
pub open spec fn app_wf(app: App) -> bool {
    app.mode.wf() && day_in_range(app.logical_date as int)
}

/// The keys handled without panicking: those that step the reviewed day
/// keep it a date, and the status popup's steps stay within `i32`.
pub open spec fn key_ok(app: App, ev: KeyEvent) -> bool {
    &&& app_wf(app)
    &&& (app.mode == Mode::Navigate && app.view == View::Review) ==> review_key_ok(app, ev.code)
    &&& app.mode is StatusSelect ==> status_key_ok(app, ev.code)
}

/// What a key does. In navigate mode `q` quits, Tab/BackTab switch views,
/// `?` opens the help and `:` the command palette; Esc closes whatever is
/// open (clearing a typed filter, but not in the sidebar forms, which
/// handle Esc themselves). Every other key goes to the mode's handler.
/// `quit` is the result: whether the client should quit.
pub open spec fn handle_key_post(old: App, new: App, ev: KeyEvent, quit: bool) -> bool {
    let nav = old.mode == Mode::Navigate;
    let code = ev.code;
    if nav && code == KeyCode::Char('q') {
        quit && new == old
    } else if nav && code == KeyCode::Tab {
        !quit && switched(old, new, View::at(old.view.index() + 1))
    } else if nav && code == KeyCode::BackTab {
        !quit && switched(old, new, View::at(old.view.index() + 4))
    } else if nav && code == KeyCode::Char('?') {
        &&& !quit
        &&& new.mode matches Mode::Help { filter } && filter@.len() == 0
        &&& new.help_scroll == 0
        &&& new == (App { mode: new.mode, help_scroll: new.help_scroll, ..old })
    } else if nav && code == KeyCode::Char(':') {
        &&& !quit
        &&& new.mode matches Mode::Command { input, selection, caret } && input@.len() == 0
            && selection == 0 && caret == 0
        &&& new == (App { mode: new.mode, ..old })
    } else if code == KeyCode::Esc && !old.mode.is_sidebar() {
        &&& !quit
        &&& if nav {
            new == (App { toast: None, ..old })
        } else if old.mode is Filter && old.mode.line().0.len() > 0 {
            &&& new.filter@.len() == 0
            &&& new == (App { mode: Mode::Navigate, toast: None, filter: new.filter, ..old })
        } else {
            new == (App { mode: Mode::Navigate, toast: None, ..old })
        }
    } else {
        &&& quit == new.quit_requested
        &&& match old.mode {
            Mode::Navigate => navigate_post(old, new, code),
            Mode::InlineCreate { .. } => inline_create_post(old, new, ev),
            Mode::InlineEdit { .. } => inline_edit_post(old, new, ev),
            Mode::Search { .. } => search_post(old, new, ev),
            Mode::Filter { .. } => filter_post(old, new, ev),
            Mode::Reorder { .. } => reorder_post(old, new, code),
            Mode::Confirm { .. } => confirm_post(old, new, code),
            Mode::Help { .. } => help_post(old, new, code),
            Mode::StatusSelect { .. } => status_post(old, new, code),
            Mode::LinkTodo { .. } => link_todo_post(old, new, code),
            Mode::Command { .. } => command_post(old, new, ev),
            Mode::SidebarEdit { .. } | Mode::SidebarAdd { .. } => sidebar_post(old, new, ev),
        }
    }
}

proof fn lemma_navigate_wf(old: App, new: App, key: KeyCode)
    requires
        app_wf(old),
        old.mode == Mode::Navigate,
        navigate_post(old, new, key),
    ensures
        app_wf(new),
{
    if new.mode is InlineEdit {
        let t = new.mode->InlineEdit_input@;
        lemma_boundary_ok(t, t.len() as int);
        lemma_offset_ends(t);
    }
    lemma_boundary_ok(Seq::<char>::empty(), 0);
    lemma_offset_ends(Seq::<char>::empty());
    if new.mode is Filter {
        assert(new.mode->Filter_input@.len() == 0);
        assert(new.mode->Filter_input@ =~= Seq::<char>::empty());
    }
    if new.mode is SidebarEdit || new.mode is SidebarAdd {
        let f = new.mode.form_view();
        lemma_boundary_ok(f.title, f.title.len() as int);
        lemma_offset_ends(f.title);
        lemma_boundary_ok(f.desc, 0);
        lemma_offset_ends(f.desc);
    }
}

impl App {
    /// Keys while navigating, by view.
    pub fn key_navigate(&mut self, key: KeyCode)
        requires
            app_wf(*old(self)),
            old(self).mode == Mode::Navigate,
            old(self).view == View::Review ==> review_key_ok(*old(self), key),
        ensures
            navigate_post(*old(self), *final(self), key),
            app_wf(*final(self)),
    {
        let ghost old_app = *self;
        match self.view {
            View::Today => self.nav_today(key),
            View::Backlog => self.nav_backlog(key),
            View::Inbox => self.nav_inbox(key),
            View::Review => self.nav_review(key),
            View::Sync => self.nav_sync(key),
        }
        proof {
            lemma_navigate_wf(old_app, *self, key);
        }
    }

    /// Handles a key; returns true when the client should quit.
    pub fn handle_key(&mut self, ev: KeyEvent) -> (quit: bool)
        requires
            key_ok(*old(self), ev),
        ensures
            handle_key_post(*old(self), *final(self), ev, quit),
            app_wf(*final(self)),
    {
        let nav = match &self.mode {
            Mode::Navigate => true,
            _ => false,
        };
        let code = ev.code;
        if nav {
            if code == KeyCode::Char('q') {
                return true;
            } else if code == KeyCode::Tab {
                self.next_view();
                return false;
            } else if code == KeyCode::BackTab {
                self.prev_view();
                return false;
            } else if code == KeyCode::Char('?') {
                self.mode = Mode::Help { filter: empty_text() };
                self.help_scroll = 0;
                return false;
            } else if code == KeyCode::Char(':') {
                self.mode = Mode::Command { input: empty_text(), selection: 0, caret: 0 };
                proof {
                    lemma_boundary_ok(Seq::<char>::empty(), 0);
                    lemma_offset_ends(Seq::<char>::empty());
                }
                return false;
            }
        }
        if code == KeyCode::Esc {
            let sidebar = match &self.mode {
                Mode::SidebarEdit { .. } | Mode::SidebarAdd { .. } => true,
                _ => false,
            };
            if !sidebar {
                if !nav {
                    let typed = match &self.mode {
                        Mode::Filter { input, .. } => !input.as_str().is_empty(),
                        _ => false,
                    };
                    if typed {
                        self.filter = empty_text();
                    }
                    self.mode = Mode::Navigate;
                }
                self.toast = None;
                return false;
            }
        }
        match &self.mode {
            Mode::Navigate => self.key_navigate(code),
            Mode::InlineCreate { .. } => self.key_inline_create(ev),
            Mode::InlineEdit { .. } => self.key_inline_edit(ev),
            Mode::Search { .. } => self.key_search(ev),
            Mode::Filter { .. } => self.key_filter(ev),
            Mode::Reorder { .. } => self.key_reorder(code),
            Mode::Confirm { .. } => self.key_confirm(code),
            Mode::Help { .. } => self.key_help(code),
            Mode::StatusSelect { .. } => self.key_status_select(code),
            Mode::LinkTodo { .. } => self.key_link_todo(code),
            Mode::Command { .. } => self.key_command(ev),
            Mode::SidebarEdit { .. } | Mode::SidebarAdd { .. } => self.key_sidebar(ev),
        }
        self.quit_requested
    }
}

/// Whether a key stays within the ranges its handler needs: the logical
/// day is a date, a review step keeps the reviewed day a date, and a step of
/// the status popup stays within `i32`. Every handler keeps the mode
/// well-formed, so for a state built by [`App::new`] and changed only by the
/// client's handlers this is [`key_ok`].
pub fn key_in_range(app: &App, ev: &KeyEvent) -> (b: bool)
    ensures
        b <==> {
            &&& day_in_range(app.logical_date as int)
            &&& (app.mode == Mode::Navigate && app.view == View::Review) ==> review_key_ok(*app, ev.code)
            &&& app.mode is StatusSelect ==> status_key_ok(*app, ev.code)
        },
{
    let lo: i64 = -100_000_000;
    let hi: i64 = 100_000_000;
    let d = app.logical_date as i64;
    if !(lo < d && d < hi) {
        return false;
    }
    let code = ev.code;
    let nav = match &app.mode {
        Mode::Navigate => true,
        _ => false,
    };
    if nav && app.view == View::Review {
        let r = app.review_date as i64;
        if (code == KeyCode::Char('h') || code == KeyCode::Left) && !(lo < r - 1 && r - 1 < hi) {
            return false;
        }
        if (code == KeyCode::Char('l') || code == KeyCode::Right) && !(lo < r + 1 && r + 1 < hi) {
            return false;
        }
    }
    match &app.mode {
        Mode::StatusSelect { selection, .. } => {
            let s = *selection as i32;
            if (code == KeyCode::Down || code == KeyCode::Char('j')) && s == i32::MAX {
                return false;
            }
            if (code == KeyCode::Up || code == KeyCode::Char('k')) && s == i32::MIN {
                return false;
            }
        },
        _ => {},
    }
    true
}

/// Carrying over from Today: `c` then `y` queues the carry-over of the
/// previous day's unfinished todos onto the logical day, and `c` then `n`
/// queues nothing.
pub proof fn lemma_carry_over_from_today(a: App, b: App, c: App, answer: KeyCode)
    requires
        a.mode == Mode::Navigate,
        a.view == View::Today,
        today_post(a, b, KeyCode::Char('c')),
        confirm_post(b, c, answer),
    ensures
        answer == KeyCode::Char('y') ==> c.mode == Mode::Navigate && queued(
            a.pending@,
            c.pending@,
            ActionView::CarryOver { from: day_label(a.logical_date - 1), to: day_label(a.logical_date as int) },
        ),
        answer == KeyCode::Char('n') ==> c.mode == Mode::Navigate && c.pending == a.pending,
{
}

} // verus!
