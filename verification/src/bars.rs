//! What the frame around the views shows: the title bar's date, the tab
//! bar and the key hints of the status bar, as styled runs.

use vstd::prelude::*;
use vstd::view::View as _;

use crate::app::{App, View};
use crate::dates::{day_label, day_string, weekday, weekday_name, weekday_number};
use crate::screen::{first_field, glyph_text, line_look, lines_look, look, push_run, styled, styled_str, toned, Emph, Look, Styled};
use crate::text::{chars_of, decimal, int_text, push_decimal, push_int, push_str};
use crate::theme::{Glyph, Tone};

verus! {

broadcast use vstd::seq_lib::group_seq_properties;

// ---- Title bar ----

/// `{:02}`: a number below ten (and not negative) with a leading zero.
pub open spec fn two_digits(n: int) -> Seq<char> {
    if 0 <= n < 10 {
        seq!['0'] + decimal(n as nat)
    } else {
        int_text(n)
    }
}

/// The title bar's date: weekday, day and the hour the logical day starts.
pub open spec fn title_date(day: int, start_hour: int) -> Seq<char> {
    weekday_name(weekday_number(day)) + " "@ + day_label(day) + " \u{b7} day "@ + two_digits(start_hour)
        + ":00"@
}

/// The title bar's date for the client state.
pub fn title_date_of(app: &App) -> (r: Vec<char>)
    ensures
        r@ == title_date(app.logical_date as int, app.day_start_hour as int),
{
    let mut t: Vec<char> = Vec::new();
    push_str(&mut t, weekday(app.logical_date));
    push_str(&mut t, " ");
    let d = day_string(app.logical_date);
    push_str(&mut t, d.as_str());
    push_str(&mut t, " \u{b7} day ");
    let h = app.day_start_hour;
    if 0 <= h && h < 10 {
        t.push('0');
        push_decimal(&mut t, h as u128);
    } else {
        push_int(&mut t, h as i64);
    }
    push_str(&mut t, ":00");
    assert(t@ =~= title_date(app.logical_date as int, app.day_start_hour as int));
    t
}

// ---- Tab bar ----

/// A tab: the current view's on the accent background, the others dim.
pub open spec fn tab_run(v: View, current: View) -> Look {
    if v == current {
        (" "@ + v.label_spec() + " "@, Some(Tone::AccentText), Emph::Badge)
    } else {
        toned(" "@ + v.label_spec() + " "@, Tone::Dim)
    }
}

/// The tab bar's runs: a space, then the tabs two spaces apart.
pub open spec fn tab_runs(current: View) -> Seq<Look> {
    seq![
        (" "@, None, Emph::Plain),
        tab_run(View::Today, current),
        ("  "@, None, Emph::Plain),
        tab_run(View::Backlog, current),
        ("  "@, None, Emph::Plain),
        tab_run(View::Inbox, current),
        ("  "@, None, Emph::Plain),
        tab_run(View::Review, current),
        ("  "@, None, Emph::Plain),
        tab_run(View::Sync, current),
    ]
}

fn push_tab(l: &mut Vec<Styled>, v: View, current: View)
    ensures
        line_look(final(l)@) == line_look(old(l)@).push(tab_run(v, current)),
{
    let mut t: Vec<char> = Vec::new();
    push_str(&mut t, " ");
    push_str(&mut t, v.label());
    push_str(&mut t, " ");
    if v == current {
        push_run(l, styled(t, Some(Tone::AccentText), Emph::Badge));
    } else {
        push_run(l, styled(t, Some(Tone::Dim), Emph::Plain));
    }
}

/// The tab bar's runs for the current view.
pub fn tab_bar(current: View) -> (r: Vec<Styled>)
    ensures
        line_look(r@) == tab_runs(current),
{
    let mut l: Vec<Styled> = Vec::new();
    push_run(&mut l, styled_str(" ", None, Emph::Plain));
    push_tab(&mut l, View::Today, current);
    push_run(&mut l, styled_str("  ", None, Emph::Plain));
    push_tab(&mut l, View::Backlog, current);
    push_run(&mut l, styled_str("  ", None, Emph::Plain));
    push_tab(&mut l, View::Inbox, current);
    push_run(&mut l, styled_str("  ", None, Emph::Plain));
    push_tab(&mut l, View::Review, current);
    push_run(&mut l, styled_str("  ", None, Emph::Plain));
    push_tab(&mut l, View::Sync, current);
    assert(line_look(l@) =~= tab_runs(current));
    l
}

// ---- Key hints ----

/// The finished pieces and the open piece after reading `p`, splitting at
/// each double space found left to right (`str::split("  ")`).
pub open spec fn hint_scan(p: Seq<char>) -> (Seq<Seq<char>>, Seq<char>)
    decreases p.len(),
{
    if p.len() == 0 {
        (Seq::empty(), Seq::empty())
    } else {
        let (done, open) = hint_scan(p.drop_last());
        if p.last() == ' ' && open.len() > 0 && open.last() == ' ' {
            (done.push(open.drop_last()), Seq::empty())
        } else {
            (done, open.push(p.last()))
        }
    }
}

/// The pieces of a hint text between double spaces.
pub open spec fn hint_pieces(s: Seq<char>) -> Seq<Seq<char>> {
    let (done, open) = hint_scan(s);
    done.push(open)
}

/// The runs of one hint: the key (the text before its first space) in
/// bold accent and the rest after it; a hint without a space as it is.
pub open spec fn hint_runs(piece: Seq<char>) -> Seq<Look> {
    let key = first_field(piece);
    if key.len() < piece.len() {
        seq![
            (key, Some(Tone::Accent), Emph::Bold),
            toned(" "@ + piece.skip(key.len() + 1 as int) + "  "@, Tone::Text),
        ]
    } else {
        seq![(piece + "  "@, None, Emph::Plain)]
    }
}

/// The runs of every hint, in order.
pub open spec fn hints_runs(pieces: Seq<Seq<char>>) -> Seq<Look>
    decreases pieces.len(),
{
    if pieces.len() == 0 {
        Seq::empty()
    } else {
        hints_runs(pieces.drop_last()) + hint_runs(pieces.last())
    }
}

proof fn lemma_first_field_prefix(s: Seq<char>)
    ensures
        first_field(s).len() <= s.len(),
        first_field(s) == s.take(first_field(s).len() as int),
        first_field(s).len() < s.len() ==> s[first_field(s).len() as int] == ' ',
        forall|k: int| 0 <= k < first_field(s).len() ==> s[k] != ' ',
    decreases s.len(),
{
    if s.len() > 0 && s[0] != ' ' {
        lemma_first_field_prefix(s.drop_first());
        assert(first_field(s) =~= seq![s[0]] + first_field(s.drop_first()));
        assert forall|k: int| 0 <= k < first_field(s).len() implies s[k] != ' ' by {
            if k > 0 {
                assert(s[k] == s.drop_first()[k - 1]);
            }
        }
        assert(first_field(s) =~= s.take(first_field(s).len() as int));
    } else {
        assert(first_field(s) =~= s.take(0));
    }
}

fn push_hint(l: &mut Vec<Styled>, piece: &Vec<char>)
    ensures
        line_look(final(l)@) == line_look(old(l)@) + hint_runs(piece@),
{
    let ghost base = line_look(l@);
    let mut k: usize = 0;
    while k < piece.len() && piece[k] != ' '
        invariant
            k <= piece.len(),
            forall|j: int| 0 <= j < k ==> piece@[j] != ' ',
        decreases piece.len() - k,
    {
        k += 1;
    }
    proof {
        lemma_first_field_prefix(piece@);
        let n = first_field(piece@).len() as int;
        if n < k {
            assert(piece@[n] == ' ');
        } else if k < n {
            assert(piece@[k as int] == ' ');
        }
        assert(n == k);
    }
    if k < piece.len() {
        let mut key: Vec<char> = Vec::new();
        let mut j: usize = 0;
        while j < k
            invariant
                j <= k <= piece.len(),
                key@ == piece@.take(j as int),
            decreases k - j,
        {
            key.push(piece[j]);
            assert(piece@.take(j + 1) =~= piece@.take(j as int).push(piece@[j as int]));
            j += 1;
        }
        let mut rest: Vec<char> = Vec::new();
        rest.push(' ');
        let mut m: usize = k + 1;
        while m < piece.len()
            invariant
                k + 1 <= m <= piece.len(),
                rest@ == seq![' '] + piece@.subrange(k + 1, m as int),
            decreases piece.len() - m,
        {
            rest.push(piece[m]);
            assert(piece@.subrange(k + 1, m + 1) =~= piece@.subrange(k + 1, m as int).push(piece@[m as int]));
            m += 1;
        }
        push_str(&mut rest, "  ");
        assert(rest@ =~= " "@ + piece@.skip(k + 1) + "  "@) by {
            reveal_strlit(" ");
        }
        push_run(l, styled(key, Some(Tone::Accent), Emph::Bold));
        push_run(l, styled(rest, Some(Tone::Text), Emph::Plain));
    } else {
        let mut all: Vec<char> = Vec::new();
        crate::text::push_chars(&mut all, piece);
        push_str(&mut all, "  ");
        push_run(l, styled(all, None, Emph::Plain));
    }
    assert(line_look(l@) =~= base + hint_runs(piece@));
}

/// The runs of a hint text: each piece between double spaces as a key
/// and its meaning.
pub fn hint_line(hints: &str) -> (r: Vec<Styled>)
    ensures
        line_look(r@) == hints_runs(hint_pieces(hints@)),
{
    let v = chars_of(hints);
    let mut done: Vec<Vec<char>> = Vec::new();
    let mut open: Vec<char> = Vec::new();
    let mut i: usize = 0;
    while i < v.len()
        invariant
            i <= v.len(),
            v@ == hints@,
            (done@.map_values(|x: Vec<char>| x@), open@) == hint_scan(v@.take(i as int)),
        decreases v.len() - i,
    {
        assert(v@.take(i + 1).drop_last() =~= v@.take(i as int));
        let ghost before = done@.map_values(|x: Vec<char>| x@);
        let n = open.len();
        if v[i] == ' ' && n > 0 && open[n - 1] == ' ' {
            let mut piece: Vec<char> = Vec::new();
            let mut k: usize = 0;
            while k < n - 1
                invariant
                    n == open.len(),
                    n > 0,
                    k <= n - 1,
                    piece@ == open@.take(k as int),
                decreases n - 1 - k,
            {
                piece.push(open[k]);
                assert(open@.take(k + 1) =~= open@.take(k as int).push(open@[k as int]));
                k += 1;
            }
            assert(piece@ =~= open@.drop_last());
            done.push(piece);
            open = Vec::new();
            assert(done@.map_values(|x: Vec<char>| x@) =~= before.push(hint_scan(v@.take(i as int)).1.drop_last()));
        } else {
            open.push(v[i]);
        }
        i += 1;
    }
    assert(v@.take(v.len() as int) =~= v@);
    let ghost nd = done@.len();
    let ghost pieces = hint_pieces(hints@);
    done.push(open);
    assert(done@.map_values(|x: Vec<char>| x@) =~= pieces);
    let mut l: Vec<Styled> = Vec::new();
    let mut j: usize = 0;
    while j < done.len()
        invariant
            j <= done.len(),
            done@.map_values(|x: Vec<char>| x@) == pieces,
            line_look(l@) == hints_runs(pieces.take(j as int)),
        decreases done.len() - j,
    {
        assert(pieces.take(j + 1).drop_last() =~= pieces.take(j as int));
        assert(pieces.take(j + 1).last() == done@[j as int]@);
        push_hint(&mut l, &done[j]);
        j += 1;
    }
    assert(pieces.take(done.len() as int) =~= pieces);
    l
}

// ---- Inbox legend ----

/// What the inbox's glyphs mean, in the legend's order.
pub open spec fn legend_entries() -> Seq<(char, Seq<char>)> {
    seq![
        (Glyph::PR_OPEN, "open PR"@),
        (Glyph::PR_DRAFT, "draft PR"@),
        (Glyph::PR_MERGED, "merged PR"@),
        (Glyph::PR_CLOSED, "closed PR"@),
        (Glyph::STATUS_DONE, "approved"@),
        (Glyph::CHANGES_REQUESTED, "changes requested"@),
        (Glyph::COPILOT_COMMENTS, "copilot comments"@),
        (Glyph::MERGE_CONFLICTS, "merge conflicts"@),
        (Glyph::ACTIONS_FAILING, "CI actions failing"@),
        (Glyph::NEEDS_YOU, "needs your review"@),
        ('?', "Linear triage"@),
        ('\u{b7}', "Linear backlog"@),
        (Glyph::STATUS_TODO, "Linear unstarted"@),
        (Glyph::STATUS_STARTED, "Linear started"@),
    ]
}

/// The legend's entries: each glyph and what it means.
pub fn legend() -> (r: Vec<(char, &'static str)>)
    ensures
        r@.map_values(|e: (char, &'static str)| (e.0, e.1@)) == legend_entries(),
{
    let r = vec![
        (Glyph::PR_OPEN, "open PR"),
        (Glyph::PR_DRAFT, "draft PR"),
        (Glyph::PR_MERGED, "merged PR"),
        (Glyph::PR_CLOSED, "closed PR"),
        (Glyph::STATUS_DONE, "approved"),
        (Glyph::CHANGES_REQUESTED, "changes requested"),
        (Glyph::COPILOT_COMMENTS, "copilot comments"),
        (Glyph::MERGE_CONFLICTS, "merge conflicts"),
        (Glyph::ACTIONS_FAILING, "CI actions failing"),
        (Glyph::NEEDS_YOU, "needs your review"),
        ('?', "Linear triage"),
        ('\u{b7}', "Linear backlog"),
        (Glyph::STATUS_TODO, "Linear unstarted"),
        (Glyph::STATUS_STARTED, "Linear started"),
    ];
    assert(r@.map_values(|e: (char, &'static str)| (e.0, e.1@)) =~= legend_entries());
    r
}

/// The legend panel's title.
pub const LEGEND_TITLE: &'static str = " LEGEND ";

/// A line of the legend panel: the glyph in the accent tone, then a space
/// and what it means.
pub open spec fn legend_line(e: (char, Seq<char>)) -> Seq<Look> {
    seq![toned(glyph_text(e.0), Tone::Accent), (" "@ + e.1, None, Emph::Plain)]
}

/// The legend panel's lines, one per entry of [`legend`].
pub fn legend_lines() -> (r: Vec<Vec<Styled>>)
    ensures
        lines_look(r@) == legend_entries().map_values(|e: (char, Seq<char>)| legend_line(e)),
{
    let entries = legend();
    let ghost all = legend_entries();
    let mut out: Vec<Vec<Styled>> = Vec::new();
    let mut i: usize = 0;
    while i < entries.len()
        invariant
            i <= entries.len(),
            all == legend_entries(),
            entries@.map_values(|e: (char, &'static str)| (e.0, e.1@)) == all,
            lines_look(out@) == all.take(i as int).map_values(|e: (char, Seq<char>)| legend_line(e)),
        decreases entries.len() - i,
    {
        let (g, desc) = entries[i];
        assert((g, desc@) == all[i as int]);
        let mut rest: Vec<char> = Vec::new();
        push_str(&mut rest, " ");
        push_str(&mut rest, desc);
        let mut l: Vec<Styled> = Vec::new();
        push_run(&mut l, crate::screen::styled_glyph(g, Some(Tone::Accent)));
        push_run(&mut l, styled(rest, None, Emph::Plain));
        assert(line_look(l@) =~= legend_line((g, desc@)));
        crate::screen::push_line(&mut out, l);
        assert(all.take(i + 1) =~= all.take(i as int).push(all[i as int]));
        assert(lines_look(out@) =~= all.take(i + 1).map_values(|e: (char, Seq<char>)| legend_line(e)));
        i += 1;
    }
    assert(all.take(entries.len() as int) =~= all);
    out
}

// ---- Layout ----

/// A rectangle of the terminal, in cells.
#[derive(Clone, Copy, Debug, PartialEq, Eq, Structural)]
pub struct Area {
    pub x: u16,
    pub y: u16,
    pub width: u16,
    pub height: u16,
}

/// How wide the list views must be to show the side panel.
pub const SIDEBAR_MIN_WIDTH: u16 = 100;

/// Splits the content area into the list and the side panel: below 100
/// columns the list takes it all; otherwise the panel takes a quarter (at
/// least 25 columns) on the right.
pub fn split_content(area: Area) -> (r: (Area, Option<Area>))
    requires
        area.x + area.width <= u16::MAX,
    ensures
        area.width < 100 ==> r == (area, None::<Area>),
        area.width >= 100 ==> {
            let side = if area.width / 4 > 25 { area.width / 4 } else { 25 };
            &&& r.0 == Area { width: (area.width - side) as u16, ..area }
            &&& r.1 == Some(Area { x: (area.x + area.width - side) as u16, width: side as u16, ..area })
        },
{
    if area.width < SIDEBAR_MIN_WIDTH {
        return (area, None);
    }
    let quarter = area.width / 4;
    let side = if quarter > 25 {
        quarter
    } else {
        25
    };
    let list_width = area.width - side;
    let list = Area { x: area.x, y: area.y, width: list_width, height: area.height };
    let panel = Area { x: area.x + list_width, y: area.y, width: side, height: area.height };
    (list, Some(panel))
}

} // verus!
