//! Key events as the client reads them, and the readline chords every text
//! input honours before its own keys.

use vstd::prelude::*;

use crate::edit::{
    byte_len, caret_ok, lemma_boundary_ok, lemma_offset_ends, pop_word, word_pop_caret,
    word_popped,
};
use crate::text::string_of;

verus! {

/// The keys the client distinguishes.
#[derive(Clone, Copy, Debug, PartialEq, Eq, Structural)]
pub enum KeyCode {
    Char(char),
    Tab,
    BackTab,
    Enter,
    Esc,
    Backspace,
    Left,
    Right,
    Up,
    Down,
    Home,
    End,
    /// Any other key; no handler reacts to it.
    Other,
}

/// The modifier keys held with a key.
#[derive(Clone, Copy, Debug, PartialEq, Eq, Structural)]
pub struct KeyModifiers {
    pub control: bool,
    pub alt: bool,
}

impl KeyModifiers {
    /// No modifier held.
    pub fn none() -> (r: Self)
        ensures
            !r.control && !r.alt,
    {
        KeyModifiers { control: false, alt: false }
    }

    /// Control held.
    pub fn ctrl() -> (r: Self)
        ensures
            r.control && !r.alt,
    {
        KeyModifiers { control: true, alt: false }
    }

    /// Alt held.
    pub fn alt() -> (r: Self)
        ensures
            !r.control && r.alt,
    {
        KeyModifiers { control: false, alt: true }
    }
}

/// A key press.
#[derive(Clone, Copy, Debug, PartialEq, Eq, Structural)]
pub struct KeyEvent {
    pub code: KeyCode,
    pub modifiers: KeyModifiers,
}

impl KeyEvent {
    pub fn new(code: KeyCode, modifiers: KeyModifiers) -> (r: Self)
        ensures
            r.code == code,
            r.modifiers == modifiers,
    {
        KeyEvent { code, modifiers }
    }
}

/// The chord a key is, if any: `u` kill line, `w` kill word, `a` home,
/// `e` end (each with control), and backspace with alt or control (kill
/// word).
#[derive(Clone, Copy, Debug, PartialEq, Eq, Structural)]
pub enum Chord {
    KillLine,
    KillWord,
    Home,
    End,
}

pub open spec fn chord_of(key: KeyCode, mods: KeyModifiers) -> Option<Chord> {
    match key {
        KeyCode::Char('u') if mods.control => Some(Chord::KillLine),
        KeyCode::Char('w') if mods.control => Some(Chord::KillWord),
        KeyCode::Char('a') if mods.control => Some(Chord::Home),
        KeyCode::Char('e') if mods.control => Some(Chord::End),
        KeyCode::Backspace if mods.alt || mods.control => Some(Chord::KillWord),
        _ => None,
    }
}

/// The text a chord leaves.
pub open spec fn chord_text(c: Chord, s: Seq<char>, caret: int) -> Seq<char> {
    match c {
        Chord::KillLine => Seq::empty(),
        Chord::KillWord => word_popped(s, caret),
        Chord::Home => s,
        Chord::End => s,
    }
}

/// The caret a chord leaves.
pub open spec fn chord_caret(c: Chord, s: Seq<char>, caret: int) -> int {
    match c {
        Chord::KillLine => 0,
        Chord::KillWord => word_pop_caret(s, caret),
        Chord::Home => 0,
        Chord::End => byte_len(s) as int,
    }
}

/// Readline chords: ctrl-u (kill line), ctrl-w / alt-backspace /
/// ctrl-backspace (kill word), ctrl-a (home), ctrl-e (end). Returns true if
/// the key was one of them; otherwise nothing changes.
pub fn edit_chord(key: KeyCode, mods: KeyModifiers, buf: &mut String, caret: &mut usize) -> (r:
    bool)
    requires
        caret_ok(old(buf)@, *old(caret) as int),
    ensures
        r == chord_of(key, mods) is Some,
        caret_ok(final(buf)@, *final(caret) as int),
        !r ==> final(buf)@ == old(buf)@ && *final(caret) == *old(caret),
        r ==> final(buf)@ == chord_text(chord_of(key, mods)->0, old(buf)@, *old(caret) as int),
        r ==> *final(caret) == chord_caret(chord_of(key, mods)->0, old(buf)@, *old(caret) as int),
{
    proof {
        lemma_boundary_ok(buf@, 0);
        lemma_offset_ends(buf@);
    }
    match chord(key, mods) {
        Some(Chord::KillLine) => {
            *buf = string_of(&[]);
            *caret = 0;
            proof {
                lemma_boundary_ok(buf@, 0);
                lemma_offset_ends(buf@);
            }
        },
        Some(Chord::KillWord) => {
            *caret = pop_word(buf, *caret);
        },
        Some(Chord::Home) => {
            *caret = 0;
        },
        Some(Chord::End) => {
            *caret = crate::edit::text_len(buf.as_str());
            proof {
                lemma_boundary_ok(buf@, buf@.len() as int);
            }
        },
        None => {
            return false;
        },
    }
    true
}

/// The chord a key is, if any.
pub fn chord(key: KeyCode, mods: KeyModifiers) -> (r: Option<Chord>)
    ensures
        r == chord_of(key, mods),
{
    let ctrl = mods.control;
    match key {
        KeyCode::Char(c) => {
            if !ctrl {
                None
            } else if c == 'u' {
                Some(Chord::KillLine)
            } else if c == 'w' {
                Some(Chord::KillWord)
            } else if c == 'a' {
                Some(Chord::Home)
            } else if c == 'e' {
                Some(Chord::End)
            } else {
                None
            }
        },
        KeyCode::Backspace => {
            if mods.alt || ctrl {
                Some(Chord::KillWord)
            } else {
                None
            }
        },
        _ => None,
    }
}

} // verus!
