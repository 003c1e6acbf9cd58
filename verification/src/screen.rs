//! What the side panel shows, as styled lines: the text of each run with
//! its tone and emphasis. Laying the lines out and drawing them is left to
//! the terminal code; everything decided about their content is here.

use vstd::prelude::*;

use crate::app::{App, DetailData, LinkKind, Mode, SidebarField};
use crate::gql::{LinearIssue, PullRequest, Tag, Todo, TodoEvent, TodoLinearIssue, TodoPullRequest};
use crate::sidebar::first_with_id;
use crate::pick::{linear_candidates, linear_picker_candidates, pr_candidates, pr_picker_candidates};
use crate::text::{
    chars_of, decimal, int_text, joined, push_chars, push_decimal, push_int, push_str, string_of,
    trim_chars, trimmed,
};
use crate::theme::{status_glyph, status_look, Glyph, Tone};
use crate::views::{caret_text, cursor_todo, sidebar_todo, text_with_caret};

verus! {

broadcast use vstd::seq_lib::group_seq_properties;

/// How a run of text is emphasised.
#[derive(Clone, Copy, Debug, PartialEq, Eq, Structural)]
pub enum Emph {
    Plain,
    Bold,
    Crossed,
    Underlined,
    /// Underlined on the highlighted background: text being typed into a
    /// list row.
    Input,
    /// Bold on the accent background: the current tab, a default action.
    Badge,
}

/// A run of text drawn in one style; no tone means the terminal's default.
#[derive(Clone, Debug, PartialEq)]
pub struct Styled {
    pub text: String,
    pub tone: Option<Tone>,
    pub emph: Emph,
}

/// A run as the contracts see it: its characters, tone and emphasis.
pub type Look = (Seq<char>, Option<Tone>, Emph);

/// The look of a run.
pub open spec fn look(s: Styled) -> Look {
    (s.text@, s.tone, s.emph)
}

/// The looks of the runs of a line.
pub open spec fn line_look(l: Seq<Styled>) -> Seq<Look> {
    l.map_values(|s: Styled| look(s))
}

/// The looks of the runs of every line.
pub open spec fn lines_look(ls: Seq<Vec<Styled>>) -> Seq<Seq<Look>> {
    ls.map_values(|l: Vec<Styled>| line_look(l@))
}

/// A run in a palette tone.
pub open spec fn toned(t: Seq<char>, tone: Tone) -> Look {
    (t, Some(tone), Emph::Plain)
}

/// A line of one run in a palette tone.
pub open spec fn one(t: Seq<char>, tone: Tone) -> Seq<Look> {
    seq![toned(t, tone)]
}

/// An empty line.
pub open spec fn blank() -> Seq<Look> {
    Seq::empty()
}

/// The one-character text of a glyph.
pub open spec fn glyph_text(c: char) -> Seq<char> {
    seq![c]
}

pub fn styled(text: Vec<char>, tone: Option<Tone>, emph: Emph) -> (r: Styled)
    ensures
        look(r) == (text@, tone, emph),
{
    Styled { text: string_of(text.as_slice()), tone, emph }
}

/// A run holding the literal `text`.
pub fn styled_str(text: &str, tone: Option<Tone>, emph: Emph) -> (r: Styled)
    ensures
        look(r) == (text@, tone, emph),
{
    Styled { text: crate::text::owned(text), tone, emph }
}

/// A run holding one glyph.
pub fn styled_glyph(c: char, tone: Option<Tone>) -> (r: Styled)
    ensures
        look(r) == (glyph_text(c), tone, Emph::Plain),
{
    let mut v: Vec<char> = Vec::new();
    v.push(c);
    assert(v@ =~= glyph_text(c));
    styled(v, tone, Emph::Plain)
}

/// A line of one run.
pub fn line_one(s: Styled) -> (r: Vec<Styled>)
    ensures
        line_look(r@) == seq![look(s)],
{
    let mut v: Vec<Styled> = Vec::new();
    v.push(s);
    assert(line_look(v@) =~= seq![look(s)]);
    v
}

/// Appends a run to a line.
pub fn push_run(l: &mut Vec<Styled>, s: Styled)
    ensures
        line_look(final(l)@) == line_look(old(l)@).push(look(s)),
{
    l.push(s);
    assert(line_look(l@) =~= line_look(old(l)@).push(look(s)));
}

/// Appends a line.
pub fn push_line(out: &mut Vec<Vec<Styled>>, l: Vec<Styled>)
    ensures
        lines_look(final(out)@) == lines_look(old(out)@).push(line_look(l@)),
{
    let ghost ll = line_look(l@);
    out.push(l);
    assert(lines_look(out@) =~= lines_look(old(out)@).push(ll));
}

/// Appends a line of one run of the characters `t`.
pub fn push_text_line(out: &mut Vec<Vec<Styled>>, t: Vec<char>, tone: Tone)
    ensures
        lines_look(final(out)@) == lines_look(old(out)@).push(one(t@, tone)),
{
    let s = styled(t, Some(tone), Emph::Plain);
    push_line(out, line_one(s));
}

/// Appends a line of one run holding the literal `t`.
pub fn push_str_line(out: &mut Vec<Vec<Styled>>, t: &str, tone: Tone)
    ensures
        lines_look(final(out)@) == lines_look(old(out)@).push(one(t@, tone)),
{
    let s = styled_str(t, Some(tone), Emph::Plain);
    push_line(out, line_one(s));
}

/// Appends an empty line.
pub fn push_blank(out: &mut Vec<Vec<Styled>>)
    ensures
        lines_look(final(out)@) == lines_look(old(out)@).push(blank()),
{
    let v: Vec<Styled> = Vec::new();
    assert(line_look(v@) =~= blank());
    push_line(out, v);
}

// ---- The attach picker of the sidebar forms ----

/// What the picker lists: pull requests or Linear issues.
pub open spec fn kind_word(k: LinkKind) -> Seq<char> {
    match k {
        LinkKind::Pr => "PRs"@,
        LinkKind::Linear => "Issues"@,
    }
}

/// A pull request in the picker: `PR #12 Title`.
pub open spec fn pr_label(p: PullRequest) -> Seq<char> {
    "PR #"@ + int_text(p.number as int) + " "@ + p.title@
}

/// A Linear issue in the picker: `ENG-7 Title`.
pub open spec fn linear_label(l: LinearIssue) -> Seq<char> {
    l.identifier@ + " "@ + l.title@
}

/// The labels the picker lists for `kind`, in its order.
pub open spec fn candidate_labels(app: App, kind: LinkKind, search: Seq<char>) -> Seq<Seq<char>> {
    match kind {
        LinkKind::Pr => pr_candidates(app.data.pulls@, search).map_values(
            |i: usize| pr_label(app.data.pulls@[i as int]),
        ),
        LinkKind::Linear => linear_candidates(app.data.linears@, search).map_values(
            |i: usize| linear_label(app.data.linears@[i as int]),
        ),
    }
}

/// A picker row: the chosen one carries the cursor glyph and is bold.
pub open spec fn candidate_line(label: Seq<char>, chosen: bool) -> Seq<Look> {
    if chosen {
        seq![
            toned(glyph_text(Glyph::CURSOR), Tone::Accent),
            (" "@, None, Emph::Plain),
            (label, Some(Tone::Accent), Emph::Bold),
        ]
    } else {
        one("  "@ + label, Tone::Text)
    }
}

/// The picker's hint line.
pub open spec fn picker_hint(kind: LinkKind) -> Seq<char> {
    "  attach "@ + kind_word(kind)
        + " (tab: kind \u{b7} j/k: move \u{b7} enter: attach \u{b7} esc: cancel)"@
}

/// The attach picker: a hint, the search text, then the candidates with
/// the selection (clamped to the last one) marked, or a note when none
/// match.
pub open spec fn picker_lines(labels: Seq<Seq<char>>, kind: LinkKind, sel: nat, search: Seq<char>) -> Seq<
    Seq<Look>,
> {
    let head = seq![one(picker_hint(kind), Tone::Dim), one("  search: "@ + caret_text(search, 0), Tone::Dim)];
    if labels.len() == 0 {
        head.push(one("  no candidates"@, Tone::Faint))
    } else {
        let s = if sel < labels.len() { sel as int } else { labels.len() - 1 };
        head + Seq::new(labels.len(), |i: int| candidate_line(labels[i], i == s))
    }
}

fn kind_str(kind: LinkKind) -> (r: &'static str)
    ensures
        r@ == kind_word(kind),
{
    match kind {
        LinkKind::Pr => "PRs",
        LinkKind::Linear => "Issues",
    }
}

fn candidate_label(app: &App, kind: LinkKind, i: usize) -> (r: Vec<char>)
    requires
        kind == LinkKind::Pr ==> i < app.data.pulls@.len(),
        kind == LinkKind::Linear ==> i < app.data.linears@.len(),
    ensures
        kind == LinkKind::Pr ==> r@ == pr_label(app.data.pulls@[i as int]),
        kind == LinkKind::Linear ==> r@ == linear_label(app.data.linears@[i as int]),
{
    let mut out: Vec<char> = Vec::new();
    match kind {
        LinkKind::Pr => {
            let p = &app.data.pulls[i];
            push_str(&mut out, "PR #");
            push_int(&mut out, p.number as i64);
            push_str(&mut out, " ");
            push_str(&mut out, p.title.as_str());
        },
        LinkKind::Linear => {
            let l = &app.data.linears[i];
            push_str(&mut out, l.identifier.as_str());
            push_str(&mut out, " ");
            push_str(&mut out, l.title.as_str());
        },
    }
    out
}

/// Appends the attach picker's lines.
pub fn push_picker(out: &mut Vec<Vec<Styled>>, app: &App, kind: LinkKind, sel: usize, search: &str)
    ensures
        lines_look(final(out)@) == lines_look(old(out)@) + picker_lines(
            candidate_labels(*app, kind, search@),
            kind,
            sel as nat,
            search@,
        ),
{
    let ghost labels = candidate_labels(*app, kind, search@);
    let ghost base = lines_look(out@);
    let mut hint: Vec<char> = Vec::new();
    push_str(&mut hint, "  attach ");
    push_str(&mut hint, kind_str(kind));
    push_str(&mut hint, " (tab: kind \u{b7} j/k: move \u{b7} enter: attach \u{b7} esc: cancel)");
    assert(hint@ =~= picker_hint(kind));
    push_text_line(out, hint, Tone::Dim);
    let mut sl: Vec<char> = Vec::new();
    push_str(&mut sl, "  search: ");
    let shown = text_with_caret(search, 0);
    push_str(&mut sl, shown.as_str());
    push_text_line(out, sl, Tone::Dim);
    let ghost head = seq![one(picker_hint(kind), Tone::Dim), one("  search: "@ + caret_text(search@, 0), Tone::Dim)];
    assert(lines_look(out@) =~= base + head);
    let cands = match kind {
        LinkKind::Pr => pr_picker_candidates(app, search),
        LinkKind::Linear => linear_picker_candidates(app, search),
    };
    assert(kind == LinkKind::Pr ==> forall|j: int| 0 <= j < cands.len() ==> #[trigger] cands@[j] < app.data.pulls@.len()) by {
        if kind == LinkKind::Pr {
            assert forall|j: int| 0 <= j < cands.len() implies #[trigger] cands@[j] < app.data.pulls@.len() by {
                assert(cands@.contains(cands@[j]));
            }
        }
    }
    assert(kind == LinkKind::Linear ==> forall|j: int| 0 <= j < cands.len() ==> #[trigger] cands@[j] < app.data.linears@.len()) by {
        if kind == LinkKind::Linear {
            assert forall|j: int| 0 <= j < cands.len() implies #[trigger] cands@[j] < app.data.linears@.len() by {
                assert(cands@.contains(cands@[j]));
            }
        }
    }
    if cands.len() == 0 {
        push_str_line(out, "  no candidates", Tone::Faint);
        assert(lines_look(out@) =~= base + head.push(one("  no candidates"@, Tone::Faint)));
        return;
    }
    let s = if sel < cands.len() {
        sel
    } else {
        cands.len() - 1
    };
    let mut i: usize = 0;
    while i < cands.len()
        invariant
            i <= cands.len(),
            cands.len() > 0,
            labels.len() == cands.len(),
            s == (if sel < cands.len() { sel as int } else { cands.len() - 1 }),
            kind == LinkKind::Pr ==> cands@ == pr_candidates(app.data.pulls@, search@),
            kind == LinkKind::Linear ==> cands@ == linear_candidates(app.data.linears@, search@),
            kind == LinkKind::Pr ==> forall|j: int| 0 <= j < cands.len() ==> #[trigger] cands@[j] < app.data.pulls@.len(),
            kind == LinkKind::Linear ==> forall|j: int| 0 <= j < cands.len() ==> #[trigger] cands@[j] < app.data.linears@.len(),
            labels == candidate_labels(*app, kind, search@),
            lines_look(out@) == base + head + Seq::new(i as nat, |j: int| candidate_line(labels[j], j == s)),
        decreases cands.len() - i,
    {
        let label = candidate_label(app, kind, cands[i]);
        assert(label@ == labels[i as int]);
        let ghost before = lines_look(out@);
        if i == s {
            let mut l: Vec<Styled> = Vec::new();
            push_run(&mut l, styled_glyph(Glyph::CURSOR, Some(Tone::Accent)));
            push_run(&mut l, styled_str(" ", None, Emph::Plain));
            push_run(&mut l, styled(label, Some(Tone::Accent), Emph::Bold));
            assert(line_look(l@) =~= candidate_line(labels[i as int], true));
            push_line(out, l);
        } else {
            let mut t: Vec<char> = Vec::new();
            push_str(&mut t, "  ");
            push_chars(&mut t, &label);
            push_text_line(out, t, Tone::Text);
            assert(one(t@, Tone::Text) =~= candidate_line(labels[i as int], false));
        }
        assert(lines_look(out@) =~= base + head + Seq::new((i + 1) as nat, |j: int| candidate_line(labels[j], j == s)));
        i += 1;
    }
}

// ---- Pieces shared by the sidebar panels ----

/// A form field's header: accent and bold when focused (with `▸` while
/// its input is active), dim otherwise.
pub open spec fn field_header(name: Seq<char>, field: SidebarField, current: SidebarField, active: bool) -> Seq<Look> {
    if field == current {
        seq![((if active { "\u{25B8} "@ } else { "  "@ }) + name, Some(Tone::Accent), Emph::Bold)]
    } else {
        one("  "@ + name, Tone::Dim)
    }
}

/// A text field's value: with the caret while it is edited, otherwise dim,
/// and a dash when empty.
pub open spec fn value_line(input: Seq<char>, caret: int, editing: bool) -> Seq<Look> {
    if editing {
        one(caret_text(input, caret), Tone::Text)
    } else if input.len() == 0 {
        one("\u{2014}"@, Tone::Dim)
    } else {
        one(input, Tone::Dim)
    }
}

/// The first todo with id `id`, if any.
pub open spec fn todo_with_id(todos: Seq<Todo>, id: i32) -> Option<Todo> {
    if exists|i: int| first_with_id(todos, i, id) {
        Some(todos[choose|i: int| first_with_id(todos, i, id)])
    } else {
        None
    }
}

/// The status glyph and title of a todo.
pub open spec fn title_line(t: Todo) -> Seq<Look> {
    let (g, c) = status_look(t.status@);
    seq![toned(glyph_text(g), c), (" "@, None, Emph::Plain), toned(t.title@, Tone::Text)]
}

/// The linked pull requests, `  relation owner/repo#N{sep}title`, skipping
/// links whose pull request is not loaded.
pub open spec fn pr_link_lines(prs: Seq<TodoPullRequest>, sep: Seq<char>) -> Seq<Seq<Look>>
    decreases prs.len(),
{
    if prs.len() == 0 {
        Seq::empty()
    } else {
        let rest = pr_link_lines(prs.drop_last(), sep);
        match prs.last().pull_request {
            Some(p) => rest.push(
                one(
                    "  "@ + prs.last().relation@ + " "@ + p.owner@ + "/"@ + p.repo@ + "#"@ + int_text(
                        p.number as int,
                    ) + sep + p.title@,
                    Tone::Text,
                ),
            ),
            None => rest,
        }
    }
}

/// The linked Linear issues, `  ENG-7{sep}title`, skipping those not loaded.
pub open spec fn linear_link_lines(lins: Seq<TodoLinearIssue>, sep: Seq<char>) -> Seq<Seq<Look>>
    decreases lins.len(),
{
    if lins.len() == 0 {
        Seq::empty()
    } else {
        let rest = linear_link_lines(lins.drop_last(), sep);
        match lins.last().linear_issue {
            Some(l) => rest.push(one("  "@ + l.identifier@ + sep + l.title@, Tone::Text)),
            None => rest,
        }
    }
}

/// True when the detail lists any link.
pub open spec fn has_links(d: Option<DetailData>) -> bool {
    match d {
        Some(d) => d.prs@.len() > 0 || d.linears@.len() > 0,
        None => false,
    }
}

/// The tags of a todo as `#slug` words.
pub open spec fn tag_words(t: Todo) -> Seq<Seq<char>> {
    t.tag.nodes@.map_values(|g: Tag| "#"@ + g.slug@)
}

/// `pre` + the value + `post`, or nothing when there is no value.
pub open spec fn opt_part(v: Option<String>, pre: Seq<char>, post: Seq<char>) -> Seq<char> {
    match v {
        Some(s) => pre + s@ + post,
        None => Seq::empty(),
    }
}

/// An event of the log: `  kind field "old" -> "new" · actor`, leaving out
/// what the event does not carry.
pub open spec fn event_text(ev: TodoEvent) -> Seq<char> {
    "  "@ + ev.kind@ + opt_part(ev.field, " "@, ""@) + opt_part(ev.old_value, " \""@, "\""@)
        + opt_part(ev.new_value, " -> \""@, "\""@) + " \u{b7} "@ + ev.actor@
}

/// The event log, most recent first, when the detail has events.
pub open spec fn event_log(d: Option<DetailData>) -> Seq<Seq<Look>> {
    match d {
        Some(d) => if d.events@.len() > 0 {
            let n = d.events@.len();
            seq![blank(), seq![("EVENT LOG"@, Some(Tone::Accent), Emph::Bold)]] + Seq::new(
                n,
                |i: int| one(event_text(d.events@[n - 1 - i]), Tone::Dim),
            )
        } else {
            Seq::empty()
        },
        None => Seq::empty(),
    }
}

pub fn push_header(out: &mut Vec<Vec<Styled>>, name: &str, field: SidebarField, current: SidebarField, active: bool)
    ensures
        lines_look(final(out)@) == lines_look(old(out)@).push(field_header(name@, field, current, active)),
{
    let mut t: Vec<char> = Vec::new();
    if field == current {
        if active {
            push_str(&mut t, "\u{25B8} ");
        } else {
            push_str(&mut t, "  ");
        }
        push_str(&mut t, name);
        push_line(out, line_one(styled(t, Some(Tone::Accent), Emph::Bold)));
    } else {
        push_str(&mut t, "  ");
        push_str(&mut t, name);
        push_text_line(out, t, Tone::Dim);
    }
}

pub fn push_value(out: &mut Vec<Vec<Styled>>, input: &str, caret: usize, editing: bool)
    ensures
        lines_look(final(out)@) == lines_look(old(out)@).push(value_line(input@, caret as int, editing)),
{
    if editing {
        let shown = text_with_caret(input, caret);
        push_text_line(out, crate::text::chars_of(shown.as_str()), Tone::Text);
    } else if crate::text::chars_of(input).len() == 0 {
        push_str_line(out, "\u{2014}", Tone::Dim);
    } else {
        push_str_line(out, input, Tone::Dim);
    }
}

/// The first todo with id `id`.
pub fn find_todo(todos: &Vec<Todo>, id: i32) -> (r: Option<&Todo>)
    ensures
        match r {
            Some(t) => todo_with_id(todos@, id) == Some(*t),
            None => todo_with_id(todos@, id) is None,
        },
{
    let mut i: usize = 0;
    while i < todos.len()
        invariant
            i <= todos.len(),
            forall|j: int| 0 <= j < i ==> #[trigger] todos@[j].id != id,
        decreases todos.len() - i,
    {
        if todos[i].id == id {
            proof {
                assert(first_with_id(todos@, i as int, id));
                assert forall|k: int| #[trigger] first_with_id(todos@, k, id) implies k == i by {
                    if k < i {
                        assert(todos@[k].id != id);
                    } else if k > i {
                        assert(todos@[i as int].id == id);
                    }
                }
            }
            return Some(&todos[i]);
        }
        i += 1;
    }
    proof {
        assert forall|k: int| !#[trigger] first_with_id(todos@, k, id) by {
            if 0 <= k < todos@.len() {
                assert(todos@[k].id != id);
            }
        }
    }
    None
}

pub fn push_title_line(out: &mut Vec<Vec<Styled>>, t: &Todo)
    ensures
        lines_look(final(out)@) == lines_look(old(out)@).push(title_line(*t)),
{
    let (g, c) = status_glyph(t.status.as_str());
    let mut l: Vec<Styled> = Vec::new();
    push_run(&mut l, styled_glyph(g, Some(c)));
    push_run(&mut l, styled_str(" ", None, Emph::Plain));
    push_run(&mut l, styled_str(t.title.as_str(), Some(Tone::Text), Emph::Plain));
    assert(line_look(l@) =~= title_line(*t));
    push_line(out, l);
}

/// Appends the lines of the linked pull requests and Linear issues.
pub fn push_linked(out: &mut Vec<Vec<Styled>>, d: &DetailData, sep: &str)
    ensures
        lines_look(final(out)@) == lines_look(old(out)@) + pr_link_lines(d.prs@, sep@)
            + linear_link_lines(d.linears@, sep@),
{
    let ghost base = lines_look(out@);
    let mut i: usize = 0;
    while i < d.prs.len()
        invariant
            i <= d.prs.len(),
            lines_look(out@) == base + pr_link_lines(d.prs@.take(i as int), sep@),
        decreases d.prs.len() - i,
    {
        let ghost before = lines_look(out@);
        assert(d.prs@.take(i + 1).drop_last() =~= d.prs@.take(i as int));
        assert(d.prs@.take(i + 1).last() == d.prs@[i as int]);
        let link = &d.prs[i];
        match &link.pull_request {
            Some(p) => {
                let mut t: Vec<char> = Vec::new();
                push_str(&mut t, "  ");
                push_str(&mut t, link.relation.as_str());
                push_str(&mut t, " ");
                push_str(&mut t, p.owner.as_str());
                push_str(&mut t, "/");
                push_str(&mut t, p.repo.as_str());
                push_str(&mut t, "#");
                push_int(&mut t, p.number as i64);
                push_str(&mut t, sep);
                push_str(&mut t, p.title.as_str());
                push_text_line(out, t, Tone::Text);
            },
            None => {},
        }
        assert(lines_look(out@) =~= base + pr_link_lines(d.prs@.take(i + 1), sep@));
        i += 1;
    }
    assert(d.prs@.take(d.prs.len() as int) =~= d.prs@);
    let ghost mid = lines_look(out@);
    let mut k: usize = 0;
    while k < d.linears.len()
        invariant
            k <= d.linears.len(),
            mid == base + pr_link_lines(d.prs@, sep@),
            lines_look(out@) == mid + linear_link_lines(d.linears@.take(k as int), sep@),
        decreases d.linears.len() - k,
    {
        assert(d.linears@.take(k + 1).drop_last() =~= d.linears@.take(k as int));
        assert(d.linears@.take(k + 1).last() == d.linears@[k as int]);
        let link = &d.linears[k];
        match &link.linear_issue {
            Some(l) => {
                let mut t: Vec<char> = Vec::new();
                push_str(&mut t, "  ");
                push_str(&mut t, l.identifier.as_str());
                push_str(&mut t, sep);
                push_str(&mut t, l.title.as_str());
                push_text_line(out, t, Tone::Text);
            },
            None => {},
        }
        assert(lines_look(out@) =~= mid + linear_link_lines(d.linears@.take(k + 1), sep@));
        k += 1;
    }
    assert(d.linears@.take(d.linears.len() as int) =~= d.linears@);
}

/// The `#slug` words of a todo's tags joined by spaces.
pub fn tag_text(t: &Todo) -> (r: Vec<char>)
    ensures
        r@ == joined(tag_words(*t), " "@),
{
    let nodes = &t.tag.nodes;
    let ghost words = tag_words(*t);
    let mut out: Vec<char> = Vec::new();
    let mut i: usize = 0;
    while i < nodes.len()
        invariant
            i <= nodes.len(),
            words == tag_words(*t),
            nodes@ == t.tag.nodes@,
            out@ == joined(words.take(i as int), " "@),
        decreases nodes.len() - i,
    {
        if i > 0 {
            push_str(&mut out, " ");
        }
        push_str(&mut out, "#");
        push_str(&mut out, nodes[i].slug.as_str());
        proof {
            assert(words.take(i + 1).drop_last() =~= words.take(i as int));
            assert(words.take(i + 1).last() == words[i as int]);
            if i == 0 {
                assert(words.take(1) =~= seq![words[0]]);
            }
        }
        assert(out@ =~= joined(words.take(i + 1), " "@));
        i += 1;
    }
    assert(words.take(nodes.len() as int) =~= words);
    out
}

fn push_opt(t: &mut Vec<char>, v: &Option<String>, pre: &str, post: &str)
    ensures
        final(t)@ == old(t)@ + opt_part(*v, pre@, post@),
{
    match v {
        Some(s) => {
            push_str(t, pre);
            push_str(t, s.as_str());
            push_str(t, post);
        },
        None => {
            assert(old(t)@ + opt_part(*v, pre@, post@) =~= old(t)@);
        },
    }
}

/// Appends the event log, most recent first.
pub fn push_event_log(out: &mut Vec<Vec<Styled>>, d: &Option<DetailData>)
    ensures
        lines_look(final(out)@) == lines_look(old(out)@) + event_log(*d),
{
    let ghost base = lines_look(out@);
    match d {
        Some(d) => {
            if d.events.len() > 0 {
                push_blank(out);
                push_line(out, line_one(styled_str("EVENT LOG", Some(Tone::Accent), Emph::Bold)));
                let n = d.events.len();
                let ghost evs = d.events@;
                let ghost head = seq![blank(), seq![("EVENT LOG"@, Some(Tone::Accent), Emph::Bold)]];
                assert(lines_look(out@) =~= base + head);
                let mut i: usize = 0;
                while i < n
                    invariant
                        i <= n,
                        n == evs.len(),
                        evs == d.events@,
                        lines_look(out@) == base + head + Seq::new(
                            i as nat,
                            |j: int| one(event_text(evs[n - 1 - j]), Tone::Dim),
                        ),
                    decreases n - i,
                {
                    let ev = &d.events[n - 1 - i];
                    let mut t: Vec<char> = Vec::new();
                    push_str(&mut t, "  ");
                    push_str(&mut t, ev.kind.as_str());
                    push_opt(&mut t, &ev.field, " ", "");
                    push_opt(&mut t, &ev.old_value, " \"", "\"");
                    push_opt(&mut t, &ev.new_value, " -> \"", "\"");
                    push_str(&mut t, " \u{b7} ");
                    push_str(&mut t, ev.actor.as_str());
                    assert(t@ =~= event_text(evs[n - 1 - i as int]));
                    push_text_line(out, t, Tone::Dim);
                    assert(lines_look(out@) =~= base + head + Seq::new(
                        (i + 1) as nat,
                        |j: int| one(event_text(evs[n - 1 - j]), Tone::Dim),
                    ));
                    i += 1;
                }
            } else {
                assert(lines_look(out@) =~= base + event_log(Some(*d)));
            }
        },
        None => {
            assert(lines_look(out@) =~= base + event_log(None));
        },
    }
}

// ---- The edit and create forms ----

/// The links region of the edit form: a note when nothing is linked (and
/// no input is active), the linked items unless the picker is open, then
/// the picker or the selection line while the links field is active.
pub open spec fn edit_links(
    app: App,
    field: SidebarField,
    active: bool,
    kind: LinkKind,
    sel: nat,
    attaching: bool,
    search: Seq<char>,
) -> Seq<Seq<Look>> {
    let note = if !has_links(app.detail) && !active {
        seq![one("  No linked PRs or issues"@, Tone::Faint)]
    } else {
        Seq::empty()
    };
    let linked = if !active || field != SidebarField::Links || !attaching {
        match app.detail {
            Some(d) => pr_link_lines(d.prs@, " "@) + linear_link_lines(d.linears@, " "@),
            None => Seq::empty(),
        }
    } else {
        Seq::empty()
    };
    let tail = if active && field == SidebarField::Links {
        if attaching {
            picker_lines(candidate_labels(app, kind, search), kind, sel, search)
        } else {
            seq![one("  ["@ + kind_word(kind) + "] selection: "@ + decimal(sel), Tone::Dim)]
        }
    } else {
        Seq::empty()
    };
    note + linked + tail
}

/// The tags line of the edit form: the tag words and the input with its
/// caret while editing, otherwise the words (or `none`).
pub open spec fn edit_tags(t: Todo, input: Seq<char>, caret: int, editing: bool) -> Seq<Look> {
    let words = joined(tag_words(t), " "@);
    if editing {
        one(words + " "@ + caret_text(input, caret), Tone::Text)
    } else if t.tag.nodes@.len() == 0 {
        one("  none"@, Tone::Faint)
    } else {
        one("  "@ + words, Tone::Dim)
    }
}

/// The edit form of the todo `t` for the mode's fields.
pub open spec fn edit_form(app: App, t: Todo) -> Seq<Seq<Look>> {
    match app.mode {
        Mode::SidebarEdit {
            field,
            input_active,
            title_input,
            title_caret,
            desc_input,
            desc_caret,
            tag_input,
            tag_caret,
            link_kind,
            link_selection,
            attaching,
            link_search,
            ..
        } => seq![
            title_line(t),
            blank(),
            field_header("TITLE"@, SidebarField::Title, field, input_active),
            value_line(
                title_input@,
                title_caret as int,
                input_active && field == SidebarField::Title,
            ),
            field_header("DESCRIPTION"@, SidebarField::Description, field, input_active),
            value_line(
                desc_input@,
                desc_caret as int,
                input_active && field == SidebarField::Description,
            ),
            blank(),
            field_header("LINKS"@, SidebarField::Links, field, input_active),
        ] + edit_links(app, field, input_active, link_kind, link_selection as nat, attaching, link_search@)
            + seq![
            field_header("TAGS"@, SidebarField::Tags, field, input_active),
            edit_tags(t, tag_input@, tag_caret as int, input_active && field == SidebarField::Tags),
        ] + event_log(app.detail),
        _ => Seq::empty(),
    }
}

/// The links region of the create form.
pub open spec fn add_links(
    app: App,
    field: SidebarField,
    active: bool,
    kind: LinkKind,
    sel: nat,
    attaching: bool,
    search: Seq<char>,
) -> Seq<Seq<Look>> {
    if active && field == SidebarField::Links {
        if attaching {
            picker_lines(candidate_labels(app, kind, search), kind, sel, search)
        } else {
            seq![one("  press a to attach a PR or issue"@, Tone::Faint)]
        }
    } else {
        seq![one("  \u{2014}"@, Tone::Dim)]
    }
}

/// The tags line of the create form.
pub open spec fn add_tags(input: Seq<char>, caret: int, editing: bool) -> Seq<Look> {
    if editing {
        one(caret_text(input, caret), Tone::Text)
    } else if input.len() == 0 {
        one("  \u{2014}"@, Tone::Dim)
    } else {
        one("  "@ + input, Tone::Dim)
    }
}

/// The create form for the mode's fields.
pub open spec fn add_form(app: App) -> Seq<Seq<Look>> {
    match app.mode {
        Mode::SidebarAdd {
            field,
            input_active,
            title_input,
            title_caret,
            desc_input,
            desc_caret,
            tag_input,
            tag_caret,
            link_kind,
            link_selection,
            attaching,
            link_search,
            ..
        } => seq![
            one("new todo"@, Tone::Dim),
            blank(),
            field_header("TITLE"@, SidebarField::Title, field, input_active),
            value_line(
                title_input@,
                title_caret as int,
                input_active && field == SidebarField::Title,
            ),
            blank(),
            field_header("DESCRIPTION"@, SidebarField::Description, field, input_active),
            value_line(
                desc_input@,
                desc_caret as int,
                input_active && field == SidebarField::Description,
            ),
            blank(),
            field_header("LINKS"@, SidebarField::Links, field, input_active),
        ] + add_links(app, field, input_active, link_kind, link_selection as nat, attaching, link_search@)
            + seq![
            blank(),
            field_header("TAGS"@, SidebarField::Tags, field, input_active),
            add_tags(tag_input@, tag_caret as int, input_active && field == SidebarField::Tags),
        ],
        _ => Seq::empty(),
    }
}

fn push_selection_line(out: &mut Vec<Vec<Styled>>, kind: LinkKind, sel: usize)
    ensures
        lines_look(final(out)@) == lines_look(old(out)@).push(
            one("  ["@ + kind_word(kind) + "] selection: "@ + decimal(sel as nat), Tone::Dim),
        ),
{
    let mut t: Vec<char> = Vec::new();
    push_str(&mut t, "  [");
    push_str(&mut t, kind_str(kind));
    push_str(&mut t, "] selection: ");
    push_decimal(&mut t, sel as u128);
    push_text_line(out, t, Tone::Dim);
}

fn push_edit_links(
    out: &mut Vec<Vec<Styled>>,
    app: &App,
    field: SidebarField,
    active: bool,
    kind: LinkKind,
    sel: usize,
    attaching: bool,
    search: &str,
)
    ensures
        lines_look(final(out)@) == lines_look(old(out)@) + edit_links(
            *app,
            field,
            active,
            kind,
            sel as nat,
            attaching,
            search@,
        ),
{
    let ghost base = lines_look(out@);
    let linked = match &app.detail {
        Some(d) => d.prs.len() > 0 || d.linears.len() > 0,
        None => false,
    };
    if !linked && !active {
        push_str_line(out, "  No linked PRs or issues", Tone::Faint);
    }
    let ghost b1 = lines_look(out@);
    if !active || field != SidebarField::Links || !attaching {
        match &app.detail {
            Some(d) => push_linked(out, d, " "),
            None => {},
        }
    }
    let ghost b2 = lines_look(out@);
    if active && field == SidebarField::Links {
        if attaching {
            push_picker(out, app, kind, sel, search);
        } else {
            push_selection_line(out, kind, sel);
        }
    }
    assert(lines_look(out@) =~= base + edit_links(*app, field, active, kind, sel as nat, attaching, search@));
}

fn push_edit_tags(out: &mut Vec<Vec<Styled>>, t: &Todo, input: &str, caret: usize, editing: bool)
    ensures
        lines_look(final(out)@) == lines_look(old(out)@).push(edit_tags(*t, input@, caret as int, editing)),
{
    let words = tag_text(t);
    if editing {
        let mut l: Vec<char> = Vec::new();
        push_chars(&mut l, &words);
        push_str(&mut l, " ");
        let shown = text_with_caret(input, caret);
        push_str(&mut l, shown.as_str());
        push_text_line(out, l, Tone::Text);
    } else if t.tag.nodes.len() == 0 {
        push_str_line(out, "  none", Tone::Faint);
    } else {
        let mut l: Vec<char> = Vec::new();
        push_str(&mut l, "  ");
        push_chars(&mut l, &words);
        push_text_line(out, l, Tone::Dim);
    }
}

/// The lines of the edit form of `t`.
pub fn edit_form_lines(app: &App, t: &Todo) -> (r: Vec<Vec<Styled>>)
    requires
        app.mode is SidebarEdit,
    ensures
        lines_look(r@) == edit_form(*app, *t),
{
    let mut out: Vec<Vec<Styled>> = Vec::new();
    match &app.mode {
        Mode::SidebarEdit {
            field,
            input_active,
            title_input,
            title_caret,
            desc_input,
            desc_caret,
            tag_input,
            tag_caret,
            link_kind,
            link_selection,
            attaching,
            link_search,
            ..
        } => {
            let field = *field;
            let active = *input_active;
            push_title_line(&mut out, t);
            push_blank(&mut out);
            push_header(&mut out, "TITLE", SidebarField::Title, field, active);
            push_value(&mut out, title_input.as_str(), *title_caret, active && field == SidebarField::Title);
            push_header(&mut out, "DESCRIPTION", SidebarField::Description, field, active);
            push_value(&mut out, desc_input.as_str(), *desc_caret, active && field == SidebarField::Description);
            push_blank(&mut out);
            push_header(&mut out, "LINKS", SidebarField::Links, field, active);
            let ghost b1 = lines_look(out@);
            push_edit_links(&mut out, app, field, active, *link_kind, *link_selection, *attaching, link_search.as_str());
            let ghost b2 = lines_look(out@);
            push_header(&mut out, "TAGS", SidebarField::Tags, field, active);
            push_edit_tags(&mut out, t, tag_input.as_str(), *tag_caret, active && field == SidebarField::Tags);
            let ghost b3 = lines_look(out@);
            push_event_log(&mut out, &app.detail);
            assert(lines_look(out@) =~= edit_form(*app, *t));
        },
        _ => {},
    }
    out
}

fn push_add_links(
    out: &mut Vec<Vec<Styled>>,
    app: &App,
    field: SidebarField,
    active: bool,
    kind: LinkKind,
    sel: usize,
    attaching: bool,
    search: &str,
)
    ensures
        lines_look(final(out)@) == lines_look(old(out)@) + add_links(
            *app,
            field,
            active,
            kind,
            sel as nat,
            attaching,
            search@,
        ),
{
    let ghost base = lines_look(out@);
    if active && field == SidebarField::Links {
        if attaching {
            push_picker(out, app, kind, sel, search);
        } else {
            push_str_line(out, "  press a to attach a PR or issue", Tone::Faint);
        }
    } else {
        push_str_line(out, "  \u{2014}", Tone::Dim);
    }
    assert(lines_look(out@) =~= base + add_links(*app, field, active, kind, sel as nat, attaching, search@));
}

fn push_add_tags(out: &mut Vec<Vec<Styled>>, input: &str, caret: usize, editing: bool)
    ensures
        lines_look(final(out)@) == lines_look(old(out)@).push(add_tags(input@, caret as int, editing)),
{
    if editing {
        let shown = text_with_caret(input, caret);
        push_text_line(out, crate::text::chars_of(shown.as_str()), Tone::Text);
    } else if crate::text::chars_of(input).len() == 0 {
        push_str_line(out, "  \u{2014}", Tone::Dim);
    } else {
        let mut l: Vec<char> = Vec::new();
        push_str(&mut l, "  ");
        push_str(&mut l, input);
        push_text_line(out, l, Tone::Dim);
    }
}

/// The lines of the create form.
pub fn add_form_lines(app: &App) -> (r: Vec<Vec<Styled>>)
    requires
        app.mode is SidebarAdd,
    ensures
        lines_look(r@) == add_form(*app),
{
    let mut out: Vec<Vec<Styled>> = Vec::new();
    match &app.mode {
        Mode::SidebarAdd {
            field,
            input_active,
            title_input,
            title_caret,
            desc_input,
            desc_caret,
            tag_input,
            tag_caret,
            link_kind,
            link_selection,
            attaching,
            link_search,
            ..
        } => {
            let field = *field;
            let active = *input_active;
            push_str_line(&mut out, "new todo", Tone::Dim);
            push_blank(&mut out);
            push_header(&mut out, "TITLE", SidebarField::Title, field, active);
            push_value(&mut out, title_input.as_str(), *title_caret, active && field == SidebarField::Title);
            push_blank(&mut out);
            push_header(&mut out, "DESCRIPTION", SidebarField::Description, field, active);
            push_value(&mut out, desc_input.as_str(), *desc_caret, active && field == SidebarField::Description);
            push_blank(&mut out);
            push_header(&mut out, "LINKS", SidebarField::Links, field, active);
            let ghost b1 = lines_look(out@);
            push_add_links(&mut out, app, field, active, *link_kind, *link_selection, *attaching, link_search.as_str());
            let ghost b2 = lines_look(out@);
            push_blank(&mut out);
            push_header(&mut out, "TAGS", SidebarField::Tags, field, active);
            push_add_tags(&mut out, tag_input.as_str(), *tag_caret, active && field == SidebarField::Tags);
            assert(lines_look(out@) =~= add_form(*app));
        },
        _ => {},
    }
    out
}

// ---- The read-only card ----

/// A line without its `\r` ending, if it has one.
pub open spec fn strip_cr(l: Seq<char>) -> Seq<char> {
    if l.len() > 0 && l.last() == '\r' {
        l.drop_last()
    } else {
        l
    }
}

/// The finished lines and the open line after reading `p`, as `str::lines`
/// reads a text: a `\n` ends a line, and a `\r` just before it is dropped.
pub open spec fn line_scan(p: Seq<char>) -> (Seq<Seq<char>>, Seq<char>)
    decreases p.len(),
{
    if p.len() == 0 {
        (Seq::empty(), Seq::empty())
    } else {
        let (done, open) = line_scan(p.drop_last());
        if p.last() == '\n' {
            (done.push(strip_cr(open)), Seq::empty())
        } else {
            (done, open.push(p.last()))
        }
    }
}

/// `str::lines`: the lines of a text; a last line without `\n` counts when
/// it is not empty.
pub open spec fn text_lines(s: Seq<char>) -> Seq<Seq<char>> {
    let (done, open) = line_scan(s);
    if open.len() == 0 {
        done
    } else {
        done.push(open)
    }
}

/// The text before the first space (all of it when there is none).
pub open spec fn first_field(s: Seq<char>) -> Seq<char>
    decreases s.len(),
{
    if s.len() == 0 || s[0] == ' ' {
        Seq::empty()
    } else {
        seq![s[0]] + first_field(s.drop_first())
    }
}

/// The status line of the card: glyph, and the status in bold.
pub open spec fn status_line(t: Todo) -> Seq<Look> {
    let (g, c) = status_look(t.status@);
    seq![toned(glyph_text(g), c), (" "@, None, Emph::Plain), (t.status@, Some(c), Emph::Bold)]
}

/// The description's lines, indented, and a blank line after them; nothing
/// for a blank description.
pub open spec fn description_lines(d: Option<String>) -> Seq<Seq<Look>> {
    match d {
        Some(d) => if trimmed(d@).len() > 0 {
            text_lines(d@).map_values(|l: Seq<char>| one("  "@ + l, Tone::Text)).push(blank())
        } else {
            Seq::empty()
        },
        None => Seq::empty(),
    }
}

/// A dated line of the card, `label` + the date part of the timestamp.
pub open spec fn date_line(label: Seq<char>, ts: Option<String>) -> Seq<Seq<Look>> {
    match ts {
        Some(ts) => seq![one(label + first_field(ts@), Tone::Dim)],
        None => Seq::empty(),
    }
}

/// The blocked reason of a blocked todo, after a blank line.
pub open spec fn reason_lines(t: Todo) -> Seq<Seq<Look>> {
    match t.blocked_reason {
        Some(r) => if t.status@ == "blocked"@ {
            seq![
                blank(),
                seq![
                    toned(glyph_text(Glyph::BLOCKED_REASON), Tone::Blocked),
                    (" "@, None, Emph::Plain),
                    toned(r@, Tone::Blocked),
                ],
            ]
        } else {
            Seq::empty()
        },
        None => Seq::empty(),
    }
}

/// The links region of the card, once the todo's detail was asked for.
pub open spec fn card_links(app: App, t: Todo) -> Seq<Seq<Look>> {
    if app.detail_loaded_id == Some(t.id) {
        seq![blank(), seq![("LINKS"@, Some(Tone::Accent), Emph::Bold)]] + match app.detail {
            Some(d) => (if !has_links(app.detail) {
                seq![one("  No linked PRs or issues"@, Tone::Faint)]
            } else {
                Seq::empty()
            }) + pr_link_lines(d.prs@, " \u{2014} "@) + linear_link_lines(d.linears@, " \u{2014} "@),
            None => seq![one("  loading\u{2026}"@, Tone::Faint)],
        }
    } else {
        Seq::empty()
    }
}

/// The read-only card of the highlighted todo.
pub open spec fn info_card(app: App, t: Todo) -> Seq<Seq<Look>> {
    seq![status_line(t), one(t.title@, Tone::Text)] + description_lines(t.description) + (if t.tag.nodes@.len()
        > 0 {
        seq![one("tags  "@ + joined(tag_words(t), " "@), Tone::Dim)]
    } else {
        Seq::empty()
    }) + date_line("created  "@, Some(t.created_at)) + date_line("started  "@, t.started_at)
        + date_line("closed   "@, t.closed_at) + reason_lines(t) + card_links(app, t) + (
    if app.detail_loaded_id == Some(t.id) {
        event_log(app.detail)
    } else {
        Seq::empty()
    })
}

/// The lines of a text, as `str::lines` gives them.
pub fn split_lines(s: &str) -> (r: Vec<Vec<char>>)
    ensures
        r@.map_values(|l: Vec<char>| l@) == text_lines(s@),
{
    let v = chars_of(s);
    let mut done: Vec<Vec<char>> = Vec::new();
    let mut open: Vec<char> = Vec::new();
    let mut i: usize = 0;
    while i < v.len()
        invariant
            i <= v.len(),
            v@ == s@,
            (done@.map_values(|l: Vec<char>| l@), open@) == line_scan(v@.take(i as int)),
        decreases v.len() - i,
    {
        assert(v@.take(i + 1).drop_last() =~= v@.take(i as int));
        let ghost before = done@.map_values(|l: Vec<char>| l@);
        if v[i] == '\n' {
            let mut line: Vec<char> = Vec::new();
            let n = open.len();
            let keep = if n > 0 && open[n - 1] == '\r' {
                n - 1
            } else {
                n
            };
            let mut k: usize = 0;
            while k < keep
                invariant
                    k <= keep <= open.len(),
                    line@ == open@.take(k as int),
                decreases keep - k,
            {
                line.push(open[k]);
                assert(open@.take(k + 1) =~= open@.take(k as int).push(open@[k as int]));
                k += 1;
            }
            assert(line@ =~= strip_cr(open@));
            done.push(line);
            open = Vec::new();
            assert(done@.map_values(|l: Vec<char>| l@) =~= before.push(strip_cr(line_scan(v@.take(i as int)).1)));
        } else {
            open.push(v[i]);
        }
        i += 1;
    }
    assert(v@.take(v.len() as int) =~= v@);
    if open.len() > 0 {
        let ghost before = done@.map_values(|l: Vec<char>| l@);
        done.push(open);
        assert(done@.map_values(|l: Vec<char>| l@) =~= before.push(line_scan(s@).1));
    }
    done
}

/// The text before the first space.
pub fn first_field_of(s: &str) -> (r: Vec<char>)
    ensures
        r@ == first_field(s@),
{
    let v = chars_of(s);
    let mut i: usize = 0;
    while i < v.len() && v[i] != ' '
        invariant
            i <= v.len(),
            v@ == s@,
            first_field(v@) == v@.take(i as int) + first_field(v@.skip(i as int)),
        decreases v.len() - i,
    {
        proof {
            let rest = v@.skip(i as int);
            assert(rest.drop_first() =~= v@.skip(i + 1));
            assert(rest[0] == v@[i as int]);
            assert(v@.take(i + 1) =~= v@.take(i as int) + seq![v@[i as int]]);
        }
        i += 1;
    }
    proof {
        let rest = v@.skip(i as int);
        assert(first_field(rest) =~= Seq::<char>::empty());
    }
    let mut out: Vec<char> = Vec::new();
    let mut k: usize = 0;
    while k < i
        invariant
            k <= i <= v.len(),
            out@ == v@.take(k as int),
        decreases i - k,
    {
        out.push(v[k]);
        assert(v@.take(k + 1) =~= v@.take(k as int).push(v@[k as int]));
        k += 1;
    }
    assert(v@.take(i as int) + Seq::<char>::empty() =~= v@.take(i as int));
    out
}

fn push_date_line(out: &mut Vec<Vec<Styled>>, label: &str, ts: &Option<String>)
    ensures
        lines_look(final(out)@) == lines_look(old(out)@) + date_line(label@, *ts),
{
    let ghost base = lines_look(out@);
    match ts {
        Some(ts) => {
            let mut t: Vec<char> = Vec::new();
            push_str(&mut t, label);
            let d = first_field_of(ts.as_str());
            push_chars(&mut t, &d);
            push_text_line(out, t, Tone::Dim);
        },
        None => {},
    }
    assert(lines_look(out@) =~= base + date_line(label@, *ts));
}

fn push_description(out: &mut Vec<Vec<Styled>>, d: &Option<String>)
    ensures
        lines_look(final(out)@) == lines_look(old(out)@) + description_lines(*d),
{
    let ghost base = lines_look(out@);
    match d {
        Some(d) => {
            if trim_chars(&chars_of(d.as_str())).len() > 0 {
                let ls = split_lines(d.as_str());
                let ghost tl = text_lines(d@);
                let mut i: usize = 0;
                while i < ls.len()
                    invariant
                        i <= ls.len(),
                        ls@.map_values(|l: Vec<char>| l@) == tl,
                        lines_look(out@) == base + tl.take(i as int).map_values(
                            |l: Seq<char>| one("  "@ + l, Tone::Text),
                        ),
                    decreases ls.len() - i,
                {
                    let mut t: Vec<char> = Vec::new();
                    push_str(&mut t, "  ");
                    push_chars(&mut t, &ls[i]);
                    assert(ls@[i as int]@ == tl[i as int]);
                    push_text_line(out, t, Tone::Text);
                    assert(tl.take(i + 1) =~= tl.take(i as int).push(tl[i as int]));
                    assert(lines_look(out@) =~= base + tl.take(i + 1).map_values(
                        |l: Seq<char>| one("  "@ + l, Tone::Text),
                    ));
                    i += 1;
                }
                assert(tl.take(ls.len() as int) =~= tl);
                push_blank(out);
            }
        },
        None => {},
    }
    assert(lines_look(out@) =~= base + description_lines(*d));
}

fn push_card_links(out: &mut Vec<Vec<Styled>>, app: &App, t: &Todo)
    ensures
        lines_look(final(out)@) == lines_look(old(out)@) + card_links(*app, *t),
{
    let ghost base = lines_look(out@);
    let shown = match app.detail_loaded_id {
        Some(id) => id == t.id,
        None => false,
    };
    if shown {
        push_blank(out);
        push_line(out, line_one(styled_str("LINKS", Some(Tone::Accent), Emph::Bold)));
        let ghost b1 = lines_look(out@);
        match &app.detail {
            Some(d) => {
                if d.prs.len() == 0 && d.linears.len() == 0 {
                    push_str_line(out, "  No linked PRs or issues", Tone::Faint);
                }
                push_linked(out, d, " \u{2014} ");
            },
            None => {
                push_str_line(out, "  loading\u{2026}", Tone::Faint);
            },
        }
    }
    assert(lines_look(out@) =~= base + card_links(*app, *t));
}

/// The lines of the read-only card of `t`.
pub fn info_card_lines(app: &App, t: &Todo) -> (r: Vec<Vec<Styled>>)
    ensures
        lines_look(r@) == info_card(*app, *t),
{
    let mut out: Vec<Vec<Styled>> = Vec::new();
    let (g, c) = status_glyph(t.status.as_str());
    let mut l: Vec<Styled> = Vec::new();
    push_run(&mut l, styled_glyph(g, Some(c)));
    push_run(&mut l, styled_str(" ", None, Emph::Plain));
    push_run(&mut l, styled_str(t.status.as_str(), Some(c), Emph::Bold));
    assert(line_look(l@) =~= status_line(*t));
    push_line(&mut out, l);
    push_str_line(&mut out, t.title.as_str(), Tone::Text);
    let ghost b0 = lines_look(out@);
    push_description(&mut out, &t.description);
    let ghost b1 = lines_look(out@);
    if t.tag.nodes.len() > 0 {
        let mut tl: Vec<char> = Vec::new();
        push_str(&mut tl, "tags  ");
        let words = tag_text(t);
        push_chars(&mut tl, &words);
        push_text_line(&mut out, tl, Tone::Dim);
    }
    let ghost b2 = lines_look(out@);
    let created = Some(t.created_at.clone());
    proof {
        assert(created == Some(t.created_at));
    }
    push_date_line(&mut out, "created  ", &created);
    push_date_line(&mut out, "started  ", &t.started_at);
    push_date_line(&mut out, "closed   ", &t.closed_at);
    let ghost b3 = lines_look(out@);
    let blocked = crate::text::same_text(t.status.as_str(), "blocked");
    match &t.blocked_reason {
        Some(r) => {
            if blocked {
                push_blank(&mut out);
                let mut rl: Vec<Styled> = Vec::new();
                push_run(&mut rl, styled_glyph(Glyph::BLOCKED_REASON, Some(Tone::Blocked)));
                push_run(&mut rl, styled_str(" ", None, Emph::Plain));
                push_run(&mut rl, styled_str(r.as_str(), Some(Tone::Blocked), Emph::Plain));
                assert(line_look(rl@) =~= seq![
                    toned(glyph_text(Glyph::BLOCKED_REASON), Tone::Blocked),
                    (" "@, None, Emph::Plain),
                    toned(r@, Tone::Blocked),
                ]);
                push_line(&mut out, rl);
            }
            assert(lines_look(out@) =~= b3 + reason_lines(*t));
        },
        None => {
            assert(lines_look(out@) =~= b3 + reason_lines(*t));
        },
    }
    push_card_links(&mut out, app, t);
    let ghost b5 = lines_look(out@);
    let shown = match app.detail_loaded_id {
        Some(id) => id == t.id,
        None => false,
    };
    if shown {
        push_event_log(&mut out, &app.detail);
    }
    assert(lines_look(out@) =~= info_card(*app, *t));
    out
}

// ---- The side panel ----

/// How the side panel is framed: the edit form, the create form, the card,
/// or no frame (the edited todo is gone).
#[derive(Clone, Copy, Debug, PartialEq, Eq, Structural)]
pub enum PanelFrame {
    Edit,
    Create,
    Card,
    Bare,
}

/// The title of a panel's frame.
pub open spec fn frame_title(f: PanelFrame) -> Seq<char> {
    match f {
        PanelFrame::Edit => " EDIT "@,
        PanelFrame::Create => " CREATE "@,
        PanelFrame::Card => " TODO "@,
        PanelFrame::Bare => ""@,
    }
}

/// The title of a panel's frame.
pub fn frame_title_of(f: PanelFrame) -> (r: &'static str)
    ensures
        r@ == frame_title(f),
{
    match f {
        PanelFrame::Edit => " EDIT ",
        PanelFrame::Create => " CREATE ",
        PanelFrame::Card => " TODO ",
        PanelFrame::Bare => "",
    }
}

/// The side panel: its frame, its lines and how far they are scrolled.
pub struct SidePanel {
    pub frame: PanelFrame,
    pub lines: Vec<Vec<Styled>>,
    pub scroll: usize,
}

/// What the side panel shows for the client state.
pub open spec fn side_panel(app: App) -> (PanelFrame, Seq<Seq<Look>>, nat) {
    match app.mode {
        Mode::SidebarEdit { id, scroll, .. } => match todo_with_id(app.data.todos@, id) {
            Some(t) => (PanelFrame::Edit, edit_form(app, t), scroll as nat),
            None => (PanelFrame::Bare, seq![one("todo not found"@, Tone::Faint)], 0),
        },
        Mode::SidebarAdd { scroll, .. } => (PanelFrame::Create, add_form(app), scroll as nat),
        _ => match cursor_todo(app) {
            Some(t) => (PanelFrame::Card, info_card(app, t), 0),
            None => (PanelFrame::Card, seq![one("no todo highlighted"@, Tone::Faint)], 0),
        },
    }
}

/// The side panel for the client state.
pub fn side_panel_of(app: &App) -> (r: SidePanel)
    ensures
        (r.frame, lines_look(r.lines@), r.scroll as nat) == side_panel(*app),
{
    match &app.mode {
        Mode::SidebarEdit { id, scroll, .. } => match find_todo(&app.data.todos, *id) {
            Some(t) => SidePanel { frame: PanelFrame::Edit, lines: edit_form_lines(app, t), scroll: *scroll },
            None => {
                let mut out: Vec<Vec<Styled>> = Vec::new();
                push_str_line(&mut out, "todo not found", Tone::Faint);
                assert(lines_look(out@) =~= seq![one("todo not found"@, Tone::Faint)]);
                SidePanel { frame: PanelFrame::Bare, lines: out, scroll: 0 }
            },
        },
        Mode::SidebarAdd { scroll, .. } => SidePanel { frame: PanelFrame::Create, lines: add_form_lines(app), scroll: *scroll },
        _ => match sidebar_todo(app) {
            Some(t) => SidePanel { frame: PanelFrame::Card, lines: info_card_lines(app, t), scroll: 0 },
            None => {
                let mut out: Vec<Vec<Styled>> = Vec::new();
                push_str_line(&mut out, "no todo highlighted", Tone::Faint);
                assert(lines_look(out@) =~= seq![one("no todo highlighted"@, Tone::Faint)]);
                SidePanel { frame: PanelFrame::Card, lines: out, scroll: 0 }
            },
        },
    }
}

} // verus!
