//! The sidebar forms: the edit form of an existing todo and the add form
//! of a new one. Both have four fields (title, description, links, tags)
//! navigated with Tab/j/k; Enter activates a field's input, Esc leaves it.
//! The edit form saves each field as it is committed; the add form only
//! collects, and creates the todo when its title is committed.

use vstd::prelude::*;

use crate::app::{LinkKind, SidebarField};
use crate::edit::{
    backspace, backspace_caret, backspaced, byte_len, caret_ok, insert_caret, insert_char,
    inserted, lemma_boundary_ok, lemma_offset_ends, move_caret, moved, text_len,
};
use crate::keys::{chord, chord_caret, chord_of, chord_text, edit_chord, KeyCode, KeyEvent};
use crate::text::{char_is_alphanumeric, chars_of, is_alphanumeric, string_of, trim_chars, trimmed};

verus! {

broadcast use vstd::seq_lib::group_seq_properties;

// ---- Accepted characters ----

/// Which characters a text input accepts.
#[derive(Clone, Copy, Debug, PartialEq, Eq)]
pub enum CharClass {
    /// Titles: alphanumerics, space and `#-_.,!?()[]:;/\`.
    Title,
    /// Descriptions: alphanumerics, space and `#-_.,!?()[]`.
    Description,
    /// Tag slugs: alphanumerics, `-` and `_`.
    Tag,
    /// Picker searches: alphanumerics, space and `#-_./`.
    Search,
    /// The one-line inputs (inline create and edit, search, list filter):
    /// alphanumerics, space and `#-_`.
    Line,
    /// The command palette: alphanumerics and space.
    Command,
    /// The help filter: alphanumerics, space and `/-_`.
    HelpFilter,
    /// The blocked reason: alphanumerics, space and `-_`.
    Reason,
}

pub open spec fn accepts(class: CharClass, c: char) -> bool {
    match class {
        CharClass::Title => is_alphanumeric(c) || c == ' ' || c == '#' || c == '-' || c == '_'
            || c == '.' || c == ',' || c == '!' || c == '?' || c == '(' || c == ')' || c == '['
            || c == ']' || c == ':' || c == ';' || c == '/' || c == '\\',
        CharClass::Description => is_alphanumeric(c) || c == ' ' || c == '#' || c == '-' || c
            == '_' || c == '.' || c == ',' || c == '!' || c == '?' || c == '(' || c == ')' || c
            == '[' || c == ']',
        CharClass::Tag => is_alphanumeric(c) || c == '-' || c == '_',
        CharClass::Search => is_alphanumeric(c) || c == ' ' || c == '#' || c == '-' || c == '_'
            || c == '.' || c == '/',
        CharClass::Line => is_alphanumeric(c) || c == ' ' || c == '#' || c == '-' || c == '_',
        CharClass::Command => is_alphanumeric(c) || c == ' ',
        CharClass::HelpFilter => is_alphanumeric(c) || c == ' ' || c == '/' || c == '-' || c
            == '_',
        CharClass::Reason => is_alphanumeric(c) || c == ' ' || c == '-' || c == '_',
    }
}

/// Whether `class` accepts `c`.
pub fn accepts_char(class: CharClass, c: char) -> (r: bool)
    ensures
        r == accepts(class, c),
{
    let alnum = char_is_alphanumeric(c);
    match class {
        CharClass::Title => alnum || c == ' ' || c == '#' || c == '-' || c == '_' || c == '.' || c
            == ',' || c == '!' || c == '?' || c == '(' || c == ')' || c == '[' || c == ']' || c
            == ':' || c == ';' || c == '/' || c == '\\',
        CharClass::Description => alnum || c == ' ' || c == '#' || c == '-' || c == '_' || c
            == '.' || c == ',' || c == '!' || c == '?' || c == '(' || c == ')' || c == '[' || c
            == ']',
        CharClass::Tag => alnum || c == '-' || c == '_',
        CharClass::Search => alnum || c == ' ' || c == '#' || c == '-' || c == '_' || c == '.'
            || c == '/',
        CharClass::Line => alnum || c == ' ' || c == '#' || c == '-' || c == '_',
        CharClass::Command => alnum || c == ' ',
        CharClass::HelpFilter => alnum || c == ' ' || c == '/' || c == '-' || c == '_',
        CharClass::Reason => alnum || c == ' ' || c == '-' || c == '_',
    }
}

// ---- Text keys ----

/// The keys every text input handles alike: an accepted character is
/// inserted at the caret, Backspace deletes before it, Left/Right move it.
pub open spec fn is_text_key(key: KeyCode, class: CharClass) -> bool {
    match key {
        KeyCode::Char(c) => accepts(class, c),
        KeyCode::Backspace | KeyCode::Left | KeyCode::Right => true,
        _ => false,
    }
}

/// The text after a text key.
pub open spec fn text_after(s: Seq<char>, caret: int, key: KeyCode, class: CharClass) -> Seq<
    char,
> {
    match key {
        KeyCode::Char(c) => if accepts(class, c) {
            inserted(s, caret, c)
        } else {
            s
        },
        KeyCode::Backspace => backspaced(s, caret),
        _ => s,
    }
}

/// The caret after a text key.
pub open spec fn caret_after(s: Seq<char>, caret: int, key: KeyCode, class: CharClass) -> int {
    match key {
        KeyCode::Char(c) => if accepts(class, c) {
            insert_caret(s, caret, c)
        } else {
            caret
        },
        KeyCode::Backspace => backspace_caret(s, caret),
        KeyCode::Left => moved(s, caret, -1),
        KeyCode::Right => moved(s, caret, 1),
        _ => caret,
    }
}

/// Applies a text key to a text and its caret; returns whether the key was
/// one.
pub fn text_key(buf: &mut String, caret: &mut usize, key: KeyCode, class: CharClass) -> (r: bool)
    requires
        caret_ok(old(buf)@, *old(caret) as int),
    ensures
        r == is_text_key(key, class),
        final(buf)@ == text_after(old(buf)@, *old(caret) as int, key, class),
        *final(caret) == caret_after(old(buf)@, *old(caret) as int, key, class),
        caret_ok(final(buf)@, *final(caret) as int),
{
    match key {
        KeyCode::Char(c) => {
            if accepts_char(class, c) {
                *caret = insert_char(buf, *caret, c);
                true
            } else {
                false
            }
        },
        KeyCode::Backspace => {
            *caret = backspace(buf, *caret);
            true
        },
        KeyCode::Left => {
            *caret = move_caret(buf.as_str(), *caret, -1);
            true
        },
        KeyCode::Right => {
            *caret = move_caret(buf.as_str(), *caret, 1);
            true
        },
        _ => false,
    }
}

/// The keys of a one-line input: the text keys, Home and End.
pub open spec fn is_line_key(key: KeyCode, class: CharClass) -> bool {
    is_text_key(key, class) || key == KeyCode::Home || key == KeyCode::End
}

/// The caret after a key of a one-line input: Home goes to the start, End
/// to the end.
pub open spec fn line_caret_after(s: Seq<char>, caret: int, key: KeyCode, class: CharClass) -> int {
    match key {
        KeyCode::Home => 0,
        KeyCode::End => byte_len(s) as int,
        _ => caret_after(s, caret, key, class),
    }
}

/// Applies a key of a one-line input; returns whether it was one.
pub fn line_key(buf: &mut String, caret: &mut usize, key: KeyCode, class: CharClass) -> (r: bool)
    requires
        caret_ok(old(buf)@, *old(caret) as int),
    ensures
        r == is_line_key(key, class),
        final(buf)@ == text_after(old(buf)@, *old(caret) as int, key, class),
        *final(caret) == line_caret_after(old(buf)@, *old(caret) as int, key, class),
        caret_ok(final(buf)@, *final(caret) as int),
{
    match key {
        KeyCode::Home => {
            proof {
                lemma_boundary_ok(buf@, 0);
                lemma_offset_ends(buf@);
            }
            *caret = 0;
            true
        },
        KeyCode::End => {
            proof {
                lemma_boundary_ok(buf@, buf@.len() as int);
                lemma_offset_ends(buf@);
            }
            *caret = text_len(buf.as_str());
            true
        },
        _ => text_key(buf, caret, key, class),
    }
}

// ---- The form ----

/// The state of a sidebar form. `pending_link_pr` is only used by the add
/// form (pull requests to link once the todo exists) and `desc_scroll`
/// only by the edit form.
#[derive(Clone, Debug, PartialEq)]
pub struct SidebarForm {
    pub field: SidebarField,
    pub input_active: bool,
    pub title_input: String,
    pub title_caret: usize,
    pub desc_input: String,
    pub desc_caret: usize,
    pub desc_scroll: usize,
    pub tag_input: String,
    pub tag_caret: usize,
    pub link_kind: LinkKind,
    pub link_selection: usize,
    pub attaching: bool,
    pub link_search: String,
    pub scroll: usize,
    pub pending_link_pr: Vec<i32>,
}

/// A sidebar form as values.
pub struct FormView {
    pub field: SidebarField,
    pub input_active: bool,
    pub title: Seq<char>,
    pub title_caret: int,
    pub desc: Seq<char>,
    pub desc_caret: int,
    pub desc_scroll: int,
    pub tag: Seq<char>,
    pub tag_caret: int,
    pub link_kind: LinkKind,
    pub link_selection: int,
    pub attaching: bool,
    pub link_search: Seq<char>,
    pub scroll: int,
    pub pending: Seq<i32>,
}

impl SidebarForm {
    pub open spec fn view(&self) -> FormView {
        FormView {
            field: self.field,
            input_active: self.input_active,
            title: self.title_input@,
            title_caret: self.title_caret as int,
            desc: self.desc_input@,
            desc_caret: self.desc_caret as int,
            desc_scroll: self.desc_scroll as int,
            tag: self.tag_input@,
            tag_caret: self.tag_caret as int,
            link_kind: self.link_kind,
            link_selection: self.link_selection as int,
            attaching: self.attaching,
            link_search: self.link_search@,
            scroll: self.scroll as int,
            pending: self.pending_link_pr@,
        }
    }
}

/// Every caret of the form sits on a character boundary of its text.
pub open spec fn form_wf(f: FormView) -> bool {
    &&& caret_ok(f.title, f.title_caret)
    &&& caret_ok(f.desc, f.desc_caret)
    &&& caret_ok(f.tag, f.tag_caret)
    &&& 0 <= f.title_caret <= usize::MAX
    &&& 0 <= f.desc_caret <= usize::MAX
    &&& 0 <= f.tag_caret <= usize::MAX
}

/// One step up, stopping at `usize::MAX`.
pub open spec fn sat_inc(x: int) -> int {
    if x < usize::MAX {
        x + 1
    } else {
        x
    }
}

/// One step down, stopping at 0.
pub open spec fn sat_dec(x: int) -> int {
    if x > 0 {
        x - 1
    } else {
        0
    }
}

/// Moves a selection down a list of `n` items, stopping at the last.
pub open spec fn sel_down(sel: int, n: int) -> int {
    let last = if n > 0 {
        n - 1
    } else {
        0
    };
    if sel < last {
        sel + 1
    } else {
        sel
    }
}

/// Keys while no input is active: Tab/j and BackTab/k move between fields
/// (resetting the scroll), Enter activates the field's input.
pub open spec fn idle_next(f: FormView, key: KeyCode) -> FormView {
    match key {
        KeyCode::Tab | KeyCode::Char('j') => FormView { field: f.field.next_spec(), scroll: 0, ..f },
        KeyCode::BackTab | KeyCode::Char('k') => FormView {
            field: f.field.prev_spec(),
            scroll: 0,
            ..f
        },
        KeyCode::Enter => FormView { input_active: true, ..f },
        _ => f,
    }
}

/// Keys of the active title input. Up/Down scroll the edit form.
pub open spec fn title_next(f: FormView, key: KeyCode, editing: bool) -> FormView {
    if is_text_key(key, CharClass::Title) {
        FormView {
            title: text_after(f.title, f.title_caret, key, CharClass::Title),
            title_caret: caret_after(f.title, f.title_caret, key, CharClass::Title),
            ..f
        }
    } else {
        match key {
            KeyCode::Enter => if editing {
                FormView { input_active: false, ..f }
            } else {
                f
            },
            KeyCode::Down => if editing {
                FormView { scroll: sat_inc(f.scroll), ..f }
            } else {
                f
            },
            KeyCode::Up => if editing {
                FormView { scroll: sat_dec(f.scroll), ..f }
            } else {
                f
            },
            KeyCode::Esc => FormView { input_active: false, ..f },
            _ => f,
        }
    }
}

/// Keys of the active description input. Up/Down scroll the description
/// of the edit form.
pub open spec fn desc_next(f: FormView, key: KeyCode, editing: bool) -> FormView {
    if is_text_key(key, CharClass::Description) {
        FormView {
            desc: text_after(f.desc, f.desc_caret, key, CharClass::Description),
            desc_caret: caret_after(f.desc, f.desc_caret, key, CharClass::Description),
            ..f
        }
    } else {
        match key {
            KeyCode::Enter => if editing {
                FormView { input_active: false, ..f }
            } else {
                f
            },
            KeyCode::Down => if editing {
                FormView { desc_scroll: sat_inc(f.desc_scroll), ..f }
            } else {
                f
            },
            KeyCode::Up => if editing {
                FormView { desc_scroll: sat_dec(f.desc_scroll), ..f }
            } else {
                f
            },
            KeyCode::Esc => FormView { input_active: false, ..f },
            _ => f,
        }
    }
}

/// Keys of the active links field. `a` opens the attach picker, whose
/// candidates are `cands` (the ids of the matching items of the current
/// kind, in picker order); in the edit form j/k browse the attached links
/// (`links`, ids of the current kind).
pub open spec fn links_next(
    f: FormView,
    key: KeyCode,
    editing: bool,
    cands: Seq<i32>,
    links: Seq<i32>,
) -> FormView {
    if f.attaching {
        match key {
            KeyCode::Esc => FormView { attaching: false, ..f },
            KeyCode::Tab => FormView {
                link_kind: f.link_kind.other_spec(),
                link_selection: 0,
                link_search: Seq::empty(),
                ..f
            },
            KeyCode::Char('j') | KeyCode::Down => FormView {
                link_selection: sel_down(f.link_selection, cands.len() as int),
                ..f
            },
            KeyCode::Char('k') | KeyCode::Up => FormView {
                link_selection: sat_dec(f.link_selection),
                ..f
            },
            KeyCode::Char(c) => if accepts(CharClass::Search, c) {
                FormView { link_search: f.link_search.push(c), link_selection: 0, ..f }
            } else {
                f
            },
            KeyCode::Backspace => FormView {
                link_search: if f.link_search.len() > 0 {
                    f.link_search.drop_last()
                } else {
                    f.link_search
                },
                ..f
            },
            KeyCode::Enter => if 0 <= f.link_selection < cands.len() {
                FormView {
                    attaching: false,
                    input_active: false,
                    pending: if !editing && f.link_kind == LinkKind::Pr {
                        f.pending.push(cands[f.link_selection])
                    } else {
                        f.pending
                    },
                    ..f
                }
            } else {
                f
            },
            _ => f,
        }
    } else {
        match key {
            KeyCode::Char('a') => FormView {
                attaching: true,
                link_selection: 0,
                link_search: Seq::empty(),
                ..f
            },
            KeyCode::Esc => FormView { input_active: false, ..f },
            KeyCode::Tab => if editing {
                FormView { link_kind: f.link_kind.other_spec(), link_selection: 0, ..f }
            } else {
                f
            },
            KeyCode::Char('j') | KeyCode::Down => if editing {
                FormView { link_selection: sel_down(f.link_selection, links.len() as int), ..f }
            } else {
                f
            },
            KeyCode::Char('k') | KeyCode::Up => if editing {
                FormView { link_selection: sat_dec(f.link_selection), ..f }
            } else {
                f
            },
            KeyCode::Enter | KeyCode::Char('x') => if editing {
                FormView { input_active: false, ..f }
            } else {
                f
            },
            _ => f,
        }
    }
}

/// Keys of the active tag input; Enter in the edit form commits a
/// non-blank tag and clears the input.
pub open spec fn tags_next(f: FormView, key: KeyCode, editing: bool) -> FormView {
    if is_text_key(key, CharClass::Tag) {
        FormView {
            tag: text_after(f.tag, f.tag_caret, key, CharClass::Tag),
            tag_caret: caret_after(f.tag, f.tag_caret, key, CharClass::Tag),
            ..f
        }
    } else {
        match key {
            KeyCode::Enter => if editing && trimmed(f.tag).len() > 0 {
                FormView { tag: Seq::empty(), tag_caret: 0, input_active: false, ..f }
            } else {
                f
            },
            KeyCode::Esc => FormView { input_active: false, ..f },
            _ => f,
        }
    }
}

/// The form after a key (chords aside).
pub open spec fn form_next(
    f: FormView,
    key: KeyCode,
    editing: bool,
    cands: Seq<i32>,
    links: Seq<i32>,
) -> FormView {
    if !f.input_active {
        idle_next(f, key)
    } else {
        match f.field {
            SidebarField::Title => title_next(f, key, editing),
            SidebarField::Description => desc_next(f, key, editing),
            SidebarField::Links => links_next(f, key, editing, cands, links),
            SidebarField::Tags => tags_next(f, key, editing),
        }
    }
}

/// True when a key is a readline chord applied to the active text input
/// (every field but the links has one).
pub open spec fn is_form_chord(f: FormView, ev: KeyEvent) -> bool {
    f.input_active && f.field != SidebarField::Links && chord_of(ev.code, ev.modifiers) is Some
}

/// The form after a key event: a chord edits the active input; any other
/// key goes by [`form_next`].
pub open spec fn form_key(
    f: FormView,
    ev: KeyEvent,
    editing: bool,
    cands: Seq<i32>,
    links: Seq<i32>,
) -> FormView {
    if is_form_chord(f, ev) {
        let c = chord_of(ev.code, ev.modifiers)->0;
        match f.field {
            SidebarField::Title => FormView {
                title: chord_text(c, f.title, f.title_caret),
                title_caret: chord_caret(c, f.title, f.title_caret),
                ..f
            },
            SidebarField::Description => FormView {
                desc: chord_text(c, f.desc, f.desc_caret),
                desc_caret: chord_caret(c, f.desc, f.desc_caret),
                ..f
            },
            _ => FormView {
                tag: chord_text(c, f.tag, f.tag_caret),
                tag_caret: chord_caret(c, f.tag, f.tag_caret),
                ..f
            },
        }
    } else {
        form_next(f, ev.code, editing, cands, links)
    }
}

// ---- Outcomes ----

/// What a key asks of the client beyond the form itself.
pub enum Outcome {
    /// Nothing: the form stays open.
    Stay,
    /// Close the form.
    Exit,
    /// Save the edited todo's title.
    SaveTitle(Seq<char>),
    /// Save the edited todo's description.
    SaveDesc(Seq<char>),
    /// Toggle a tag on the edited todo.
    CommitTag(Seq<char>),
    LinkPr(i32),
    LinkLinear(i32),
    UnlinkPr(i32),
    UnlinkLinear(i32),
    /// Create the new todo (add form) and close the form.
    Create { title: Seq<char>, desc: Seq<char> },
    /// The add form's title was blank.
    TitleRequired,
}

/// The outcome of a key (chords aside).
pub open spec fn form_outcome(
    f: FormView,
    key: KeyCode,
    editing: bool,
    cands: Seq<i32>,
    links: Seq<i32>,
) -> Outcome {
    if !f.input_active {
        if key == KeyCode::Esc {
            Outcome::Exit
        } else {
            Outcome::Stay
        }
    } else if key != KeyCode::Enter && key != KeyCode::Char('x') {
        Outcome::Stay
    } else {
        match f.field {
            SidebarField::Title => if key != KeyCode::Enter {
                Outcome::Stay
            } else if editing {
                Outcome::SaveTitle(trimmed(f.title))
            } else if trimmed(f.title).len() == 0 {
                Outcome::TitleRequired
            } else {
                Outcome::Create { title: trimmed(f.title), desc: trimmed(f.desc) }
            },
            SidebarField::Description => if key == KeyCode::Enter && editing {
                Outcome::SaveDesc(f.desc)
            } else {
                Outcome::Stay
            },
            SidebarField::Links => if !editing {
                Outcome::Stay
            } else if f.attaching && key == KeyCode::Enter && 0 <= f.link_selection
                < cands.len() {
                if f.link_kind == LinkKind::Pr {
                    Outcome::LinkPr(cands[f.link_selection])
                } else {
                    Outcome::LinkLinear(cands[f.link_selection])
                }
            } else if !f.attaching && key == KeyCode::Char('x') && 0 <= f.link_selection
                < links.len() {
                if f.link_kind == LinkKind::Pr {
                    Outcome::UnlinkPr(links[f.link_selection])
                } else {
                    Outcome::UnlinkLinear(links[f.link_selection])
                }
            } else {
                Outcome::Stay
            },
            SidebarField::Tags => if key == KeyCode::Enter && editing && trimmed(f.tag).len()
                > 0 {
                Outcome::CommitTag(trimmed(f.tag))
            } else {
                Outcome::Stay
            },
        }
    }
}

/// The outcome of a key event.
pub open spec fn form_key_outcome(
    f: FormView,
    ev: KeyEvent,
    editing: bool,
    cands: Seq<i32>,
    links: Seq<i32>,
) -> Outcome {
    if is_form_chord(f, ev) {
        Outcome::Stay
    } else {
        form_outcome(f, ev.code, editing, cands, links)
    }
}

/// What a key asks of the client, with owned texts.
pub enum FormEffect {
    Stay,
    Exit,
    SaveTitle(String),
    SaveDesc(String),
    CommitTag(String),
    LinkPr(i32),
    LinkLinear(i32),
    UnlinkPr(i32),
    UnlinkLinear(i32),
    Create { title: String, desc: String },
    TitleRequired,
}

impl FormEffect {
    pub open spec fn view(&self) -> Outcome {
        match self {
            FormEffect::Stay => Outcome::Stay,
            FormEffect::Exit => Outcome::Exit,
            FormEffect::SaveTitle(t) => Outcome::SaveTitle(t@),
            FormEffect::SaveDesc(d) => Outcome::SaveDesc(d@),
            FormEffect::CommitTag(t) => Outcome::CommitTag(t@),
            FormEffect::LinkPr(i) => Outcome::LinkPr(*i),
            FormEffect::LinkLinear(i) => Outcome::LinkLinear(*i),
            FormEffect::UnlinkPr(i) => Outcome::UnlinkPr(*i),
            FormEffect::UnlinkLinear(i) => Outcome::UnlinkLinear(*i),
            FormEffect::Create { title, desc } => Outcome::Create { title: title@, desc: desc@ },
            FormEffect::TitleRequired => Outcome::TitleRequired,
        }
    }
}

pub fn trimmed_string(s: &String) -> (r: String)
    ensures
        r@ == trimmed(s@),
{
    let v = trim_chars(&chars_of(s.as_str()));
    string_of(v.as_slice())
}

fn empty_text() -> (r: String)
    ensures
        r@ == Seq::<char>::empty(),
{
    String::new()
}

pub fn pop_char(s: &String) -> (r: String)
    ensures
        r@ == (if s@.len() > 0 {
            s@.drop_last()
        } else {
            s@
        }),
{
    let v = chars_of(s.as_str());
    if v.len() == 0 {
        return string_of(v.as_slice());
    }
    let mut out: Vec<char> = Vec::new();
    let mut i: usize = 0;
    while i + 1 < v.len()
        invariant
            v@ == s@,
            v.len() > 0,
            i + 1 <= v.len(),
            out@ == v@.take(i as int),
        decreases v.len() - i,
    {
        out.push(v[i]);
        assert(v@.take(i + 1) =~= v@.take(i as int).push(v@[i as int]));
        i += 1;
    }
    assert(out@ =~= s@.drop_last());
    string_of(out.as_slice())
}

pub fn push_char(s: &String, c: char) -> (r: String)
    ensures
        r@ == s@.push(c),
{
    let mut v = chars_of(s.as_str());
    v.push(c);
    string_of(v.as_slice())
}

impl SidebarForm {
    /// The form's view satisfies [`form_wf`].
    pub open spec fn wf(&self) -> bool {
        form_wf(self.view())
    }

    fn key_idle(&mut self, key: KeyCode) -> (e: FormEffect)
        requires
            !old(self).input_active,
        ensures
            final(self).view() == idle_next(old(self).view(), key),
            e.view() == (if key == KeyCode::Esc {
                Outcome::Exit
            } else {
                Outcome::Stay
            }),
    {
        match key {
            KeyCode::Tab => {
                self.field = self.field.next();
                self.scroll = 0;
            },
            KeyCode::BackTab => {
                self.field = self.field.prev();
                self.scroll = 0;
            },
            KeyCode::Char(c) => {
                if c == 'j' {
                    self.field = self.field.next();
                    self.scroll = 0;
                } else if c == 'k' {
                    self.field = self.field.prev();
                    self.scroll = 0;
                }
            },
            KeyCode::Enter => {
                self.input_active = true;
            },
            KeyCode::Esc => {
                return FormEffect::Exit;
            },
            _ => {},
        }
        FormEffect::Stay
    }

    fn key_title(&mut self, key: KeyCode, editing: bool) -> (e: FormEffect)
        requires
            old(self).input_active,
            old(self).field == SidebarField::Title,
            old(self).wf(),
        ensures
            final(self).view() == title_next(old(self).view(), key, editing),
            e.view() == form_outcome(old(self).view(), key, editing, Seq::empty(), Seq::empty()),
            final(self).wf(),
    {
        if text_key(&mut self.title_input, &mut self.title_caret, key, CharClass::Title) {
            return FormEffect::Stay;
        }
        match key {
            KeyCode::Enter => {
                let title = trimmed_string(&self.title_input);
                if editing {
                    self.input_active = false;
                    FormEffect::SaveTitle(title)
                } else if title.as_str().is_empty() {
                    FormEffect::TitleRequired
                } else {
                    let desc = trimmed_string(&self.desc_input);
                    FormEffect::Create { title, desc }
                }
            },
            KeyCode::Down => {
                if editing {
                    self.scroll = self.scroll.saturating_add(1);
                }
                FormEffect::Stay
            },
            KeyCode::Up => {
                if editing {
                    self.scroll = self.scroll.saturating_sub(1);
                }
                FormEffect::Stay
            },
            KeyCode::Esc => {
                self.input_active = false;
                FormEffect::Stay
            },
            _ => FormEffect::Stay,
        }
    }

    fn key_desc(&mut self, key: KeyCode, editing: bool) -> (e: FormEffect)
        requires
            old(self).input_active,
            old(self).field == SidebarField::Description,
            old(self).wf(),
        ensures
            final(self).view() == desc_next(old(self).view(), key, editing),
            e.view() == form_outcome(old(self).view(), key, editing, Seq::empty(), Seq::empty()),
            final(self).wf(),
    {
        if text_key(&mut self.desc_input, &mut self.desc_caret, key, CharClass::Description) {
            return FormEffect::Stay;
        }
        match key {
            KeyCode::Enter => {
                if editing {
                    self.input_active = false;
                    FormEffect::SaveDesc(self.desc_input.clone())
                } else {
                    FormEffect::Stay
                }
            },
            KeyCode::Down => {
                if editing {
                    self.desc_scroll = self.desc_scroll.saturating_add(1);
                }
                FormEffect::Stay
            },
            KeyCode::Up => {
                if editing {
                    self.desc_scroll = self.desc_scroll.saturating_sub(1);
                }
                FormEffect::Stay
            },
            KeyCode::Esc => {
                self.input_active = false;
                FormEffect::Stay
            },
            _ => FormEffect::Stay,
        }
    }

    fn key_tags(&mut self, key: KeyCode, editing: bool) -> (e: FormEffect)
        requires
            old(self).input_active,
            old(self).field == SidebarField::Tags,
            old(self).wf(),
        ensures
            final(self).view() == tags_next(old(self).view(), key, editing),
            e.view() == form_outcome(old(self).view(), key, editing, Seq::empty(), Seq::empty()),
            final(self).wf(),
    {
        if text_key(&mut self.tag_input, &mut self.tag_caret, key, CharClass::Tag) {
            return FormEffect::Stay;
        }
        match key {
            KeyCode::Enter => {
                let slug = trimmed_string(&self.tag_input);
                if editing && !slug.as_str().is_empty() {
                    self.tag_input = empty_text();
                    self.tag_caret = 0;
                    self.input_active = false;
                    proof {
                        lemma_boundary_ok(self.tag_input@, 0);
                        lemma_offset_ends(self.tag_input@);
                    }
                    FormEffect::CommitTag(slug)
                } else {
                    FormEffect::Stay
                }
            },
            KeyCode::Esc => {
                self.input_active = false;
                FormEffect::Stay
            },
            _ => FormEffect::Stay,
        }
    }

    fn key_links(&mut self, key: KeyCode, editing: bool, cands: &Vec<i32>, links: &Vec<i32>) -> (e:
        FormEffect)
        requires
            old(self).input_active,
            old(self).field == SidebarField::Links,
        ensures
            final(self).view() == links_next(old(self).view(), key, editing, cands@, links@),
            e.view() == form_outcome(old(self).view(), key, editing, cands@, links@),
    {
        if self.attaching {
            match key {
                KeyCode::Esc => {
                    self.attaching = false;
                },
                KeyCode::Tab => {
                    self.link_kind = self.link_kind.other();
                    self.link_selection = 0;
                    self.link_search = empty_text();
                },
                KeyCode::Down => {
                    self.link_selection = step_down(self.link_selection, cands.len());
                },
                KeyCode::Up => {
                    self.link_selection = self.link_selection.saturating_sub(1);
                },
                KeyCode::Char(c) => {
                    if c == 'j' {
                        self.link_selection = step_down(self.link_selection, cands.len());
                    } else if c == 'k' {
                        self.link_selection = self.link_selection.saturating_sub(1);
                    } else if accepts_char(CharClass::Search, c) {
                        self.link_search = push_char(&self.link_search, c);
                        self.link_selection = 0;
                    }
                },
                KeyCode::Backspace => {
                    self.link_search = pop_char(&self.link_search);
                },
                KeyCode::Enter => {
                    if self.link_selection < cands.len() {
                        let id = cands[self.link_selection];
                        let kind = self.link_kind;
                        self.attaching = false;
                        self.input_active = false;
                        if editing {
                            return match kind {
                                LinkKind::Pr => FormEffect::LinkPr(id),
                                LinkKind::Linear => FormEffect::LinkLinear(id),
                            };
                        } else if kind == LinkKind::Pr {
                            self.pending_link_pr.push(id);
                        }
                    }
                },
                _ => {},
            }
            FormEffect::Stay
        } else {
            match key {
                KeyCode::Esc => {
                    self.input_active = false;
                },
                KeyCode::Tab => {
                    if editing {
                        self.link_kind = self.link_kind.other();
                        self.link_selection = 0;
                    }
                },
                KeyCode::Down => {
                    if editing {
                        self.link_selection = step_down(self.link_selection, links.len());
                    }
                },
                KeyCode::Up => {
                    if editing {
                        self.link_selection = self.link_selection.saturating_sub(1);
                    }
                },
                KeyCode::Enter => {
                    if editing {
                        self.input_active = false;
                    }
                },
                KeyCode::Char(c) => {
                    if c == 'a' {
                        self.attaching = true;
                        self.link_selection = 0;
                        self.link_search = empty_text();
                    } else if editing && c == 'j' {
                        self.link_selection = step_down(self.link_selection, links.len());
                    } else if editing && c == 'k' {
                        self.link_selection = self.link_selection.saturating_sub(1);
                    } else if editing && c == 'x' {
                        let sel = self.link_selection;
                        let kind = self.link_kind;
                        self.input_active = false;
                        if sel < links.len() {
                            let id = links[sel];
                            return match kind {
                                LinkKind::Pr => FormEffect::UnlinkPr(id),
                                LinkKind::Linear => FormEffect::UnlinkLinear(id),
                            };
                        }
                    }
                },
                _ => {},
            }
            FormEffect::Stay
        }
    }

    /// Handles a key. `editing` tells the edit form from the add form;
    /// `cands` are the ids of the attach picker's candidates and `links` the
    /// ids of the attached links of the current kind.
    pub fn key(&mut self, ev: KeyEvent, editing: bool, cands: &Vec<i32>, links: &Vec<i32>) -> (e:
        FormEffect)
        requires
            old(self).wf(),
        ensures
            final(self).view() == form_key(old(self).view(), ev, editing, cands@, links@),
            e.view() == form_key_outcome(old(self).view(), ev, editing, cands@, links@),
            final(self).wf(),
    {
        if self.input_active {
            match self.field {
                SidebarField::Title => {
                    if edit_chord(ev.code, ev.modifiers, &mut self.title_input, &mut self.title_caret) {
                        return FormEffect::Stay;
                    }
                    self.key_title(ev.code, editing)
                },
                SidebarField::Description => {
                    if edit_chord(ev.code, ev.modifiers, &mut self.desc_input, &mut self.desc_caret) {
                        return FormEffect::Stay;
                    }
                    self.key_desc(ev.code, editing)
                },
                SidebarField::Tags => {
                    if edit_chord(ev.code, ev.modifiers, &mut self.tag_input, &mut self.tag_caret) {
                        return FormEffect::Stay;
                    }
                    self.key_tags(ev.code, editing)
                },
                SidebarField::Links => self.key_links(ev.code, editing, cands, links),
            }
        } else {
            self.key_idle(ev.code)
        }
    }
}

/// Moves a selection down a list of `n` items, stopping at the last.
fn step_down(sel: usize, n: usize) -> (r: usize)
    ensures
        r == sel_down(sel as int, n as int),
{
    let last = if n > 0 {
        n - 1
    } else {
        0
    };
    if sel < last {
        sel + 1
    } else {
        sel
    }
}

} // verus!
