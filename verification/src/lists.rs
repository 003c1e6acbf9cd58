//! What the list views show, as styled lines: the grouped todo lists of
//! Today and Backlog, the inbox table, the review panels and the sync
//! sources, with the line the cursor highlights.

use vstd::prelude::*;

use crate::app::{active_plan, display_order, plan_refs, todo_refs, App, Mode};
use crate::gql::{LinearIssue, PlanRow, PullRequest, SyncState, Todo};
use crate::msg::is_syncing;
use crate::nav::{inbox_display_linears, inbox_display_prs, inbox_shown_linears, inbox_shown_prs};
use crate::app::{linear_refs, pr_refs};
use crate::pick::{linear_done, linear_is_done, pr_closed, pr_is_closed};
use crate::text::{int_text, push_int};
use crate::theme::{linear_state_glyph, linear_state_look, spinner_at, spinner_frame};
use crate::dates::{day_label, day_string, relative_text, relative_time};
use crate::overlay::{pad_to, padded};
use crate::gql::DailyReview;
use crate::views::{pr_badges_for, pr_status_badges, sync_label, sync_label_for};
use crate::screen::{
    blank, glyph_text, line_look, line_one, lines_look, one, push_blank, push_line, push_run,
    push_str_line, push_text_line, styled, styled_glyph, styled_str, toned, Emph, Look,
    Styled,
};
use crate::text::{chars_of, decimal, push_decimal, push_str};
use crate::theme::{status_glyph, status_look, Glyph, Tone};
use crate::views::{group_by_status, group_label, groups_of, matches_filter, section_is, todo_matches, GroupedSection};

verus! {

broadcast use vstd::seq_lib::group_seq_properties;

/// A list line and whether it is the cursor's (drawn highlighted).
pub type Item = (Seq<Look>, bool);

/// The lines of a list, the cursor's lines marked, and the line the list
/// keeps in view.
pub struct ListLines {
    pub lines: Vec<Vec<Styled>>,
    pub marked: Vec<bool>,
    pub selected: Option<usize>,
}

/// The items of a list as values.
pub open spec fn items_of(l: ListLines) -> Seq<Item> {
    Seq::new(l.lines@.len(), |i: int| (line_look(l.lines@[i]@), l.marked@[i]))
}

/// `selected` is the last marked item, or none when no item is marked.
pub open spec fn last_marked(items: Seq<Item>, selected: Option<usize>) -> bool {
    match selected {
        Some(k) => k < items.len() && items[k as int].1 && forall|j: int|
            k < j < items.len() ==> !(#[trigger] items[j]).1,
        None => forall|j: int| 0 <= j < items.len() ==> !(#[trigger] items[j]).1,
    }
}

/// A well-formed list: as many marks as lines.
pub open spec fn list_wf(l: ListLines) -> bool {
    l.marked@.len() == l.lines@.len()
}

/// The cursor's mark in the first column.
pub open spec fn marker(cursor: bool) -> Look {
    if cursor {
        toned(glyph_text(Glyph::CURSOR), Tone::Accent)
    } else {
        (" "@, None, Emph::Plain)
    }
}

/// How a todo's title is drawn for its status.
pub open spec fn title_style(status: Seq<char>) -> (Option<Tone>, Emph) {
    if status == "started"@ {
        (Some(Tone::Text), Emph::Bold)
    } else if status == "done"@ {
        (Some(Tone::Dim), Emph::Plain)
    } else if status == "cancelled"@ {
        (Some(Tone::Cancelled), Emph::Crossed)
    } else {
        (Some(Tone::Text), Emph::Plain)
    }
}

/// A todo row of a grouped list.
pub open spec fn grouped_row(t: Todo, cursor: bool, carried: bool) -> Seq<Look> {
    let (g, c) = status_look(t.status@);
    let (tone, emph) = title_style(t.status@);
    seq![marker(cursor), ("  "@, None, Emph::Plain), toned(glyph_text(g), c), (" "@, None, Emph::Plain)]
        + (if carried {
        seq![toned(glyph_text(Glyph::CARRIED), Tone::Dim), (" "@, None, Emph::Plain)]
    } else {
        Seq::empty()
    }) + seq![(t.title@, tone, emph)]
}

/// The continuation line under a blocked todo.
pub open spec fn reason_row(r: Seq<char>) -> Seq<Look> {
    seq![
        ("        "@, None, Emph::Plain),
        toned(glyph_text(Glyph::BLOCKED_REASON), Tone::Blocked),
        (" "@, None, Emph::Plain),
        (r, Some(Tone::Blocked), Emph::Underlined),
    ]
}

/// The items of a group's rows: each todo, marked when it is the cursor's
/// todo, and the reason line under a blocked one.
pub open spec fn row_items(rows: Seq<Todo>, cursor: Option<i32>, carried: Seq<i32>) -> Seq<Item>
    decreases rows.len(),
{
    if rows.len() == 0 {
        Seq::empty()
    } else {
        let t = rows.last();
        let here = cursor == Some(t.id);
        row_items(rows.drop_last(), cursor, carried).push(
            (grouped_row(t, here, carried.contains(t.id)), here),
        ) + match t.blocked_reason {
            Some(r) => if t.status@ == "blocked"@ {
                seq![(reason_row(r@), false)]
            } else {
                Seq::empty()
            },
            None => Seq::empty(),
        }
    }
}

/// A group's header: `  LABEL · n`, noting a collapsed group.
pub open spec fn group_header(label: Seq<char>, n: nat, collapsed: bool) -> Seq<char> {
    "  "@ + label + " \u{b7} "@ + decimal(n) + (if collapsed {
        " (collapsed \u{2014} press D to expand)"@
    } else {
        ""@
    })
}

/// A group's items: the header, then (unless collapsed) its rows and a
/// blank line.
pub open spec fn section_items(label: Seq<char>, rows: Seq<Todo>, collapsed: bool, cursor: Option<i32>, carried: Seq<i32>) -> Seq<Item> {
    seq![(one(group_header(label, rows.len(), collapsed), Tone::Dim), false)] + if collapsed {
        Seq::empty()
    } else {
        row_items(rows, cursor, carried).push((blank(), false))
    }
}

/// The items of a group of the display order.
pub open spec fn group_items(g: (nat, Seq<Todo>, bool), cursor: Option<i32>, carried: Seq<i32>) -> Seq<Item> {
    section_items(group_label(g.0), g.1, g.2, cursor, carried)
}

/// The items of a list of built groups.
pub open spec fn sections_items<'a>(ss: Seq<GroupedSection<'a>>, cursor: Option<i32>, carried: Seq<i32>) -> Seq<Item>
    decreases ss.len(),
{
    if ss.len() == 0 {
        Seq::empty()
    } else {
        let g = ss.last();
        sections_items(ss.drop_last(), cursor, carried) + section_items(g.label@, todo_refs(g.rows@), g.collapsed, cursor, carried)
    }
}

/// The items of a list of groups.
pub open spec fn grouped_items(gs: Seq<(nat, Seq<Todo>, bool)>, cursor: Option<i32>, carried: Seq<i32>) -> Seq<Item>
    decreases gs.len(),
{
    if gs.len() == 0 {
        Seq::empty()
    } else {
        grouped_items(gs.drop_last(), cursor, carried) + group_items(gs.last(), cursor, carried)
    }
}

fn has_id(v: &Vec<i32>, id: i32) -> (r: bool)
    ensures
        r == v@.contains(id),
{
    let mut i: usize = 0;
    while i < v.len()
        invariant
            i <= v.len(),
            forall|j: int| 0 <= j < i ==> v@[j] != id,
        decreases v.len() - i,
    {
        if v[i] == id {
            assert(v@[i as int] == id);
            return true;
        }
        i += 1;
    }
    false
}

/// Appends an item.
fn push_item(l: &mut ListLines, line: Vec<Styled>, mark: bool)
    requires
        list_wf(*old(l)),
    ensures
        list_wf(*final(l)),
        items_of(*final(l)) == items_of(*old(l)).push((line_look(line@), mark)),
        mark ==> (final(l).selected matches Some(k) && k == old(l).lines@.len()),
        !mark ==> final(l).selected == old(l).selected,
{
    let n = l.lines.len();
    let ghost ll = line_look(line@);
    l.lines.push(line);
    l.marked.push(mark);
    if mark {
        l.selected = Some(n);
    }
    assert(items_of(*l) =~= items_of(*old(l)).push((ll, mark)));
}

proof fn lemma_last_marked_push(items: Seq<Item>, sel: Option<usize>, it: Item, sel2: Option<usize>)
    requires
        last_marked(items, sel),
        it.1 ==> (sel2 matches Some(k) && k == items.len()),
        !it.1 ==> sel2 == sel,
    ensures
        last_marked(items.push(it), sel2),
{
    let n = items.push(it);
    if !it.1 {
        match sel {
            Some(k) => {
                assert(n[k as int] == items[k as int]);
                assert forall|j: int| k < j < n.len() implies !(#[trigger] n[j]).1 by {
                    if j < items.len() {
                        assert(n[j] == items[j]);
                    }
                }
            },
            None => {
                assert forall|j: int| 0 <= j < n.len() implies !(#[trigger] n[j]).1 by {
                    if j < items.len() {
                        assert(n[j] == items[j]);
                    }
                }
            },
        }
    }
}

/// Appends the items of one group.
/// A section's header line: the title, dim.
pub fn section_header(title: &str) -> (r: Vec<Styled>)
    ensures
        line_look(r@) == one(title@, Tone::Dim),
{
    line_one(styled_str(title, Some(Tone::Dim), Emph::Plain))
}

/// The line under a blocked todo: the continuation glyph and the reason,
/// underlined, in the blocked tone.
pub fn blocked_reason_line(reason: &str) -> (r: Vec<Styled>)
    ensures
        line_look(r@) == reason_row(reason@),
{
    let mut rl: Vec<Styled> = Vec::new();
    push_run(&mut rl, styled_str("        ", None, Emph::Plain));
    push_run(&mut rl, styled_glyph(Glyph::BLOCKED_REASON, Some(Tone::Blocked)));
    push_run(&mut rl, styled_str(" ", None, Emph::Plain));
    push_run(&mut rl, styled_str(reason, Some(Tone::Blocked), Emph::Underlined));
    assert(line_look(rl@) =~= reason_row(reason@));
    rl
}

fn push_group(l: &mut ListLines, g: &GroupedSection, cursor: Option<i32>, carried: &Vec<i32>)
    requires
        list_wf(*old(l)),
    ensures
        list_wf(*final(l)),
        items_of(*final(l)) == items_of(*old(l)) + section_items(g.label@, todo_refs(g.rows@), g.collapsed, cursor, carried@),
        last_marked(items_of(*old(l)), old(l).selected) ==> last_marked(items_of(*final(l)), final(l).selected),
{
    let ghost rows = todo_refs(g.rows@);
    let ghost base = items_of(*l);
    let mut h: Vec<char> = Vec::new();
    push_str(&mut h, "  ");
    push_str(&mut h, g.label);
    push_str(&mut h, " \u{b7} ");
    push_decimal(&mut h, g.rows.len() as u128);
    if g.collapsed {
        push_str(&mut h, " (collapsed \u{2014} press D to expand)");
    } else {
        assert(h@ + ""@ =~= h@) by {
            reveal_strlit("");
        }
    }
    let ghost hv = h@;
    let ghost s0 = l.selected;
    let header = crate::text::string_of(h.as_slice());
    push_item(l, section_header(header.as_str()), false);
    proof {
        if last_marked(base, s0) {
            lemma_last_marked_push(base, s0, (one(hv, Tone::Dim), false), l.selected);
        }
    }
    let ghost after_header = items_of(*l);
    if !g.collapsed {
        let mut i: usize = 0;
        while i < g.rows.len()
            invariant
                i <= g.rows.len(),
                rows == todo_refs(g.rows@),
                list_wf(*l),
                items_of(*l) == after_header + row_items(rows.take(i as int), cursor, carried@),
                last_marked(base, s0) ==> last_marked(items_of(*l), l.selected),
            decreases g.rows.len() - i,
        {
            let t: &Todo = g.rows[i];
            assert(rows.take(i + 1).drop_last() =~= rows.take(i as int));
            assert(rows.take(i + 1).last() == *t);
            let here = match cursor {
                Some(c) => c == t.id,
                None => false,
            };
            let carried_here = has_id(carried, t.id);
            let (gl, c) = status_glyph(t.status.as_str());
            let mut line: Vec<Styled> = Vec::new();
            if here {
                push_run(&mut line, styled_glyph(Glyph::CURSOR, Some(Tone::Accent)));
            } else {
                push_run(&mut line, styled_str(" ", None, Emph::Plain));
            }
            push_run(&mut line, styled_str("  ", None, Emph::Plain));
            push_run(&mut line, styled_glyph(gl, Some(c)));
            push_run(&mut line, styled_str(" ", None, Emph::Plain));
            if carried_here {
                push_run(&mut line, styled_glyph(Glyph::CARRIED, Some(Tone::Dim)));
                push_run(&mut line, styled_str(" ", None, Emph::Plain));
            }
            let st = t.status.as_str();
            let (tone, emph) = if crate::text::same_text(st, "started") {
                (Some(Tone::Text), Emph::Bold)
            } else if crate::text::same_text(st, "done") {
                (Some(Tone::Dim), Emph::Plain)
            } else if crate::text::same_text(st, "cancelled") {
                (Some(Tone::Cancelled), Emph::Crossed)
            } else {
                (Some(Tone::Text), Emph::Plain)
            };
            push_run(&mut line, styled_str(t.title.as_str(), tone, emph));
            assert(line_look(line@) =~= grouped_row(*t, here, carried@.contains(t.id)));
            let ghost it = (line_look(line@), here);
            let ghost before = items_of(*l);
            let ghost sb = l.selected;
            push_item(l, line, here);
            proof {
                if last_marked(base, s0) {
                    lemma_last_marked_push(before, sb, it, l.selected);
                }
            }
            match &t.blocked_reason {
                Some(r) => {
                    if crate::text::same_text(st, "blocked") {
                        let rl = blocked_reason_line(r.as_str());
                        let ghost before2 = items_of(*l);
                        let ghost sb2 = l.selected;
                        push_item(l, rl, false);
                        proof {
                            if last_marked(base, s0) {
                                lemma_last_marked_push(before2, sb2, (reason_row(r@), false), l.selected);
                            }
                        }
                    }
                },
                None => {},
            }
            assert(items_of(*l) =~= after_header + row_items(rows.take(i + 1), cursor, carried@));
            i += 1;
        }
        assert(rows.take(g.rows.len() as int) =~= rows);
        let ghost before3 = items_of(*l);
        let ghost sb3 = l.selected;
        let empty: Vec<Styled> = Vec::new();
        assert(line_look(empty@) =~= blank());
        push_item(l, empty, false);
        proof {
            if last_marked(base, s0) {
                lemma_last_marked_push(before3, sb3, (blank(), false), l.selected);
            }
        }
    }
    assert(hv == group_header(g.label@, rows.len(), g.collapsed));
    assert(items_of(*l) =~= base + section_items(g.label@, rows, g.collapsed, cursor, carried@));
}

/// Appends the items of every group.
fn push_groups(l: &mut ListLines, groups: &Vec<GroupedSection>, cursor: Option<i32>, carried: &Vec<i32>)
    requires
        list_wf(*old(l)),
    ensures
        list_wf(*final(l)),
        items_of(*final(l)) == items_of(*old(l)) + sections_items(groups@, cursor, carried@),
        last_marked(items_of(*old(l)), old(l).selected) ==> last_marked(items_of(*final(l)), final(l).selected),
{
    let ghost base = items_of(*l);
    let ghost s0 = l.selected;
    let mut k: usize = 0;
    while k < groups.len()
        invariant
            k <= groups@.len(),
            list_wf(*l),
            items_of(*l) == base + sections_items(groups@.take(k as int), cursor, carried@),
            last_marked(base, s0) ==> last_marked(items_of(*l), l.selected),
        decreases groups.len() - k,
    {
        push_group(l, &groups[k], cursor, carried);
        assert(groups@.take(k + 1).drop_last() =~= groups@.take(k as int));
        assert(groups@.take(k + 1).last() == groups@[k as int]);
        assert(items_of(*l) =~= base + sections_items(groups@.take(k + 1), cursor, carried@));
        k += 1;
    }
    assert(groups@.take(groups.len() as int) =~= groups@);
}

/// Built groups stand for the groups they were built from.
proof fn lemma_sections_items<'a>(ss: Seq<GroupedSection<'a>>, gs: Seq<(nat, Seq<Todo>, bool)>, cursor: Option<i32>, carried: Seq<i32>)
    requires
        ss.len() == gs.len(),
        forall|k: int| 0 <= k < ss.len() ==> section_is(#[trigger] ss[k], gs[k]),
    ensures
        sections_items(ss, cursor, carried) == grouped_items(gs, cursor, carried),
    decreases ss.len(),
{
    if ss.len() > 0 {
        let n = ss.len() - 1;
        assert(section_is(ss[n], gs[n]));
        lemma_sections_items(ss.drop_last(), gs.drop_last(), cursor, carried);
    }
}

/// The grouped list of the given groups, the cursor's todo (by id)
/// highlighted and carried-over todos marked; the kept line is the
/// cursor's.
pub fn grouped_list(groups: &Vec<GroupedSection>, cursor: Option<i32>, carried: &Vec<i32>) -> (r: ListLines)
    ensures
        list_wf(r),
        items_of(r) == sections_items(groups@, cursor, carried@),
        last_marked(items_of(r), r.selected),
{
    let mut l = ListLines { lines: Vec::new(), marked: Vec::new(), selected: None };
    assert(items_of(l) =~= Seq::<Item>::empty());
    push_groups(&mut l, groups, cursor, carried);
    assert(items_of(l) =~= sections_items(groups@, cursor, carried@));
    l
}

/// The typed list filter, while searching.
pub open spec fn search_filter(mode: Mode) -> Seq<char> {
    match mode {
        Mode::Search { input, .. } => input@,
        _ => Seq::empty(),
    }
}

/// The inline-create prompt at the foot of a list: the typed title with a
/// bar caret, or the placeholder.
pub open spec fn create_line(mode: Mode, placeholder: Seq<char>) -> Seq<Look> {
    match mode {
        Mode::InlineCreate { input, .. } => seq![
            toned("  add "@, Tone::Accent),
            if input@.len() == 0 {
                (placeholder, Some(Tone::Faint), Emph::Input)
            } else {
                (input@ + "\u{258f}"@, Some(Tone::Text), Emph::Input)
            },
        ],
        _ => seq![toned("  add "@, Tone::Accent), toned(placeholder, Tone::Faint)],
    }
}

/// The ids of the carried-over todos still on the plan.
pub open spec fn carried_ids(plan: Seq<PlanRow>) -> Seq<i32>
    decreases plan.len(),
{
    if plan.len() == 0 {
        Seq::empty()
    } else {
        let p = plan.last();
        let rest = carried_ids(plan.drop_last());
        match p.todo {
            Some(t) => if p.carried_over && p.removed_at is None {
                rest.push(t.id)
            } else {
                rest
            },
            None => rest,
        }
    }
}

/// The rows taken off today's plan, struck through.
pub open spec fn unplanned_items(rows: Seq<PlanRow>) -> Seq<Item>
    decreases rows.len(),
{
    if rows.len() == 0 {
        Seq::empty()
    } else {
        let rest = unplanned_items(rows.drop_last());
        match rows.last().todo {
            Some(t) => {
                let (g, c) = status_look(t.status@);
                rest.push(
                    (
                        seq![
                            ("   \u{2013}  "@, None, Emph::Plain),
                            toned(glyph_text(g), c),
                            (" "@, None, Emph::Plain),
                            (t.title@, Some(Tone::Faint), Emph::Crossed),
                        ],
                        false,
                    ),
                )
            },
            None => rest,
        }
    }
}

/// The items of a filtered, grouped list; a note replaces the groups when
/// the filter matches nothing.
pub open spec fn head_items(filtered: Seq<Todo>, filter: Seq<char>, cursor: nat, show_done: bool, carried: Seq<i32>) -> Seq<Item> {
    let cur = if cursor < filtered.len() {
        Some(filtered[cursor as int].id)
    } else {
        None
    };
    if filter.len() > 0 && filtered.len() == 0 {
        seq![(one("  no matches for \""@ + filter + "\""@, Tone::Dim), false)]
    } else {
        grouped_items(groups_of(filtered, show_done), cur, carried)
    }
}

/// The Today list.
pub open spec fn today_items(app: App) -> Seq<Item> {
    let filter = search_filter(app.mode);
    let filtered = display_order(active_plan(app.data.plan@)).filter(|t: Todo| todo_matches(t, filter));
    let unplanned = app.data.plan@.filter(|p: PlanRow| p.removed_at is Some);
    let trailing = (if filter.len() == 0 && unplanned.len() > 0 {
        seq![(one("  UNPLANNED TODAY \u{b7} "@ + decimal(unplanned.len()), Tone::Dim), false)]
            + unplanned_items(unplanned) + seq![(blank(), false)]
    } else {
        Seq::empty()
    }) + seq![(create_line(app.mode, "what else is happening today?"@), false)];
    head_items(filtered, filter, app.cursor as nat, app.show_done, carried_ids(app.data.plan@)) + trailing
}

/// The Backlog list.
pub open spec fn backlog_items(app: App) -> Seq<Item> {
    let filter = search_filter(app.mode);
    let filtered = display_order(crate::app::backlog_rows(app.data.todos@, app.data.plan@)).filter(
        |t: Todo| todo_matches(t, filter),
    );
    head_items(filtered, filter, app.cursor as nat, app.show_done, Seq::empty()) + seq![
        (create_line(app.mode, "what else is on your mind?"@), false),
    ]
}

fn carried_of(plan: &Vec<PlanRow>) -> (r: Vec<i32>)
    ensures
        r@ == carried_ids(plan@),
{
    let mut out: Vec<i32> = Vec::new();
    let mut i: usize = 0;
    while i < plan.len()
        invariant
            i <= plan.len(),
            out@ == carried_ids(plan@.take(i as int)),
        decreases plan.len() - i,
    {
        assert(plan@.take(i + 1).drop_last() =~= plan@.take(i as int));
        assert(plan@.take(i + 1).last() == plan@[i as int]);
        let p = &plan[i];
        match &p.todo {
            Some(t) => {
                if p.carried_over && p.removed_at.is_none() {
                    out.push(t.id);
                }
            },
            None => {},
        }
        i += 1;
    }
    assert(plan@.take(plan.len() as int) =~= plan@);
    out
}

fn filter_rows<'a>(rows: &Vec<&'a Todo>, filter: &str) -> (r: Vec<&'a Todo>)
    ensures
        todo_refs(r@) == todo_refs(rows@).filter(|t: Todo| todo_matches(t, filter@)),
{
    let ghost pred = |t: Todo| todo_matches(t, filter@);
    let ghost rs = todo_refs(rows@);
    let mut out: Vec<&'a Todo> = Vec::new();
    let mut i: usize = 0;
    while i < rows.len()
        invariant
            i <= rows.len(),
            rs == todo_refs(rows@),
            pred == (|t: Todo| todo_matches(t, filter@)),
            todo_refs(out@) == rs.take(i as int).filter(pred),
        decreases rows.len() - i,
    {
        proof {
            assert(rs.take(i + 1) =~= rs.take(i as int).push(rs[i as int]));
            rs.take(i as int).lemma_filter_push(rs[i as int], pred);
        }
        if matches_filter(rows[i], filter) {
            out.push(rows[i]);
        }
        assert(todo_refs(out@) =~= rs.take(i + 1).filter(pred));
        i += 1;
    }
    assert(rs.take(rows.len() as int) =~= rs);
    out
}

fn push_create_line(l: &mut ListLines, mode: &Mode, placeholder: &str)
    requires
        list_wf(*old(l)),
    ensures
        list_wf(*final(l)),
        items_of(*final(l)) == items_of(*old(l)).push((create_line(*mode, placeholder@), false)),
        final(l).selected == old(l).selected,
{
    let mut line: Vec<Styled> = Vec::new();
    push_run(&mut line, styled_str("  add ", Some(Tone::Accent), Emph::Plain));
    match mode {
        Mode::InlineCreate { input, .. } => {
            if chars_of(input.as_str()).len() == 0 {
                push_run(&mut line, styled_str(placeholder, Some(Tone::Faint), Emph::Input));
            } else {
                let mut t: Vec<char> = Vec::new();
                push_str(&mut t, input.as_str());
                push_str(&mut t, "\u{258f}");
                push_run(&mut line, styled(t, Some(Tone::Text), Emph::Input));
            }
        },
        _ => {
            push_run(&mut line, styled_str(placeholder, Some(Tone::Faint), Emph::Plain));
        },
    }
    assert(line_look(line@) =~= create_line(*mode, placeholder@));
    push_item(l, line, false);
}

/// Appends the filtered rows, grouped, or the note that nothing matches.
fn push_head(l: &mut ListLines, filtered: &Vec<&Todo>, filter: &str, cursor: usize, show_done: bool, carried: &Vec<i32>)
    requires
        list_wf(*old(l)),
    ensures
        list_wf(*final(l)),
        items_of(*final(l)) == items_of(*old(l)) + head_items(
            todo_refs(filtered@),
            filter@,
            cursor as nat,
            show_done,
            carried@,
        ),
        last_marked(items_of(*old(l)), old(l).selected) ==> last_marked(items_of(*final(l)), final(l).selected),
{
    let ghost fs = todo_refs(filtered@);
    let ghost base = items_of(*l);
    let ghost s0 = l.selected;
    if chars_of(filter).len() > 0 && filtered.len() == 0 {
        let mut t: Vec<char> = Vec::new();
        push_str(&mut t, "  no matches for \"");
        push_str(&mut t, filter);
        push_str(&mut t, "\"");
        let ghost tv = t@;
        push_item(l, line_one(styled(t, Some(Tone::Dim), Emph::Plain)), false);
        proof {
            if last_marked(base, s0) {
                lemma_last_marked_push(base, s0, (one(tv, Tone::Dim), false), l.selected);
            }
        }
        assert(items_of(*l) =~= base + head_items(fs, filter@, cursor as nat, show_done, carried@));
    } else {
        let cur = if cursor < filtered.len() {
            Some(filtered[cursor].id)
        } else {
            None
        };
        let sl = filtered.as_slice();
        let groups = group_by_status(sl, show_done);
        assert(sl@ == filtered@);
        push_groups(l, &groups, cur, carried);
        proof {
            lemma_sections_items(groups@, groups_of(fs, show_done), cur, carried@);
        }
    }
}

/// Appends an item that is not the cursor's.
fn push_plain(l: &mut ListLines, line: Vec<Styled>, ghost_base_ok: Ghost<bool>)
    requires
        list_wf(*old(l)),
        ghost_base_ok@ ==> last_marked(items_of(*old(l)), old(l).selected),
    ensures
        list_wf(*final(l)),
        items_of(*final(l)) == items_of(*old(l)).push((line_look(line@), false)),
        final(l).selected == old(l).selected,
        ghost_base_ok@ ==> last_marked(items_of(*final(l)), final(l).selected),
{
    let ghost base = items_of(*l);
    let ghost ll = line_look(line@);
    push_item(l, line, false);
    proof {
        if ghost_base_ok@ {
            lemma_last_marked_push(base, l.selected, (ll, false), l.selected);
        }
    }
}

/// Appends the section of rows taken off the plan.
fn push_unplanned(l: &mut ListLines, unplanned: &Vec<&PlanRow>)
    requires
        list_wf(*old(l)),
        last_marked(items_of(*old(l)), old(l).selected),
    ensures
        list_wf(*final(l)),
        last_marked(items_of(*final(l)), final(l).selected),
        items_of(*final(l)) == items_of(*old(l)) + seq![
            (one("  UNPLANNED TODAY \u{b7} "@ + decimal(unplanned@.len()), Tone::Dim), false),
        ] + unplanned_items(plan_refs(unplanned@)) + seq![(blank(), false)],
{
    let ghost base = items_of(*l);
    let ghost up = plan_refs(unplanned@);
    let mut h: Vec<char> = Vec::new();
    push_str(&mut h, "  UNPLANNED TODAY \u{b7} ");
    push_decimal(&mut h, unplanned.len() as u128);
    push_plain(l, line_one(styled(h, Some(Tone::Dim), Emph::Plain)), Ghost(true));
    let ghost mid = items_of(*l);
    let mut i: usize = 0;
    while i < unplanned.len()
        invariant
            i <= unplanned.len(),
            up == plan_refs(unplanned@),
            list_wf(*l),
            last_marked(items_of(*l), l.selected),
            items_of(*l) == mid + unplanned_items(up.take(i as int)),
        decreases unplanned.len() - i,
    {
        assert(up.take(i + 1).drop_last() =~= up.take(i as int));
        assert(up.take(i + 1).last() == *unplanned@[i as int]);
        match &unplanned[i].todo {
            Some(t) => {
                let (g, c) = status_glyph(t.status.as_str());
                let mut line: Vec<Styled> = Vec::new();
                push_run(&mut line, styled_str("   \u{2013}  ", None, Emph::Plain));
                push_run(&mut line, styled_glyph(g, Some(c)));
                push_run(&mut line, styled_str(" ", None, Emph::Plain));
                push_run(&mut line, styled_str(t.title.as_str(), Some(Tone::Faint), Emph::Crossed));
                assert(line_look(line@) =~= seq![
                    ("   \u{2013}  "@, None, Emph::Plain),
                    toned(glyph_text(g), c),
                    (" "@, None, Emph::Plain),
                    (t.title@, Some(Tone::Faint), Emph::Crossed),
                ]);
                push_plain(l, line, Ghost(true));
            },
            None => {},
        }
        assert(items_of(*l) =~= mid + unplanned_items(up.take(i + 1)));
        i += 1;
    }
    assert(up.take(unplanned.len() as int) =~= up);
    let empty: Vec<Styled> = Vec::new();
    assert(line_look(empty@) =~= blank());
    push_plain(l, empty, Ghost(true));
    assert(items_of(*l) =~= base + seq![
        (one("  UNPLANNED TODAY \u{b7} "@ + decimal(unplanned@.len()), Tone::Dim), false),
    ] + unplanned_items(up) + seq![(blank(), false)]);
}

fn search_text(mode: &Mode) -> (r: &str)
    ensures
        r@ == search_filter(*mode),
{
    match mode {
        Mode::Search { input, .. } => input.as_str(),
        _ => {
            proof {
                reveal_strlit("");
            }
            ""
        },
    }
}

/// The Today list.
pub fn today_list(app: &App) -> (r: ListLines)
    ensures
        list_wf(r),
        items_of(r) == today_items(*app),
        last_marked(items_of(r), r.selected),
{
    let filter = search_text(&app.mode);
    let plan = app.today_plan();
    let filtered = filter_rows(&plan, filter);
    let carried = carried_of(&app.data.plan);
    let unplanned = app.today_unplanned();
    let mut l = ListLines { lines: Vec::new(), marked: Vec::new(), selected: None };
    assert(items_of(l) =~= Seq::<Item>::empty());
    push_head(&mut l, &filtered, filter, app.cursor, app.show_done, &carried);
    let ghost head = items_of(l);
    if chars_of(filter).len() == 0 && unplanned.len() > 0 {
        push_unplanned(&mut l, &unplanned);
    }
    let ghost mid = items_of(l);
    let ghost s1 = l.selected;
    push_create_line(&mut l, &app.mode, "what else is happening today?");
    proof {
        lemma_last_marked_push(mid, s1, (create_line(app.mode, "what else is happening today?"@), false), l.selected);
    }
    assert(items_of(l) =~= today_items(*app));
    l
}

/// The Backlog list.
pub fn backlog_list(app: &App) -> (r: ListLines)
    ensures
        list_wf(r),
        items_of(r) == backlog_items(*app),
        last_marked(items_of(r), r.selected),
{
    let filter = search_text(&app.mode);
    let rows = app.backlog();
    let filtered = filter_rows(&rows, filter);
    let carried: Vec<i32> = Vec::new();
    let mut l = ListLines { lines: Vec::new(), marked: Vec::new(), selected: None };
    assert(items_of(l) =~= Seq::<Item>::empty());
    push_head(&mut l, &filtered, filter, app.cursor, app.show_done, &carried);
    let ghost mid = items_of(l);
    let ghost s1 = l.selected;
    push_create_line(&mut l, &app.mode, "what else is on your mind?");
    proof {
        lemma_last_marked_push(mid, s1, (create_line(app.mode, "what else is on your mind?"@), false), l.selected);
    }
    assert(carried@ =~= Seq::<i32>::empty());
    assert(items_of(l) =~= backlog_items(*app));
    l
}

// ---- The inbox table ----

/// The inbox table's column headings.
pub const INBOX_COLUMNS: [&'static str; 4] = ["ST", "REPO", "AUTHOR", "TITLE"];

/// The cells of a table row, one line each.
pub type Cells = Seq<Seq<Look>>;

/// A row whose only text is in the title column.
pub open spec fn label_cells(label: Seq<char>, tone: Tone) -> Cells {
    seq![blank(), blank(), blank(), one(label, tone)]
}

/// A pull request's row: the cursor mark and status badges, the
/// repository and number, the author and the title (struck through when
/// dismissed).
pub open spec fn pr_cells(p: PullRequest, cursor: bool) -> Cells {
    let dismissed = p.dismissed_at is Some;
    seq![
        seq![marker(cursor)] + pr_badges_for(p).map_values(|b: (char, Tone)| toned(glyph_text(b.0), b.1)),
        one(
            p.owner@ + "/"@ + p.repo@ + "#"@ + int_text(p.number as int),
            if dismissed { Tone::Dim } else { Tone::Text },
        ),
        one(
            match p.author {
                Some(a) => a@,
                None => "\u{2014}"@,
            },
            Tone::Dim,
        ),
        if dismissed {
            seq![(p.title@, Some(Tone::Faint), Emph::Crossed), toned("  dismissed"@, Tone::Faint)]
        } else {
            seq![(p.title@, Some(Tone::Text), Emph::Plain)]
        },
    ]
}

/// A Linear issue's row: the cursor mark, state glyph and assignment mark,
/// the identifier, the assignee, and the title with the state and team.
pub open spec fn linear_cells(l: LinearIssue, cursor: bool) -> Cells {
    let dismissed = l.dismissed_at is Some;
    let (g, c) = linear_state_look(l.state_type@);
    seq![
        seq![marker(cursor), toned(glyph_text(g), c)] + if l.assigned_to_me {
            seq![toned(glyph_text(Glyph::NEEDS_YOU), Tone::Accent)]
        } else {
            Seq::empty()
        },
        one(l.identifier@, if dismissed { Tone::Dim } else { Tone::Text }),
        one(
            match l.assignee_name {
                Some(a) => a@,
                None => "\u{2014}"@,
            },
            Tone::Dim,
        ),
        seq![
            if dismissed {
                (l.title@, Some(Tone::Faint), Emph::Crossed)
            } else {
                (l.title@, Some(Tone::Text), Emph::Plain)
            },
            toned(
                "  "@ + l.state_name@ + " "@ + match l.team_key {
                    Some(k) => k@,
                    None => ""@,
                },
                Tone::Dim,
            ),
        ],
    ]
}

/// The rows of the shown pull requests, the row of each, whether a closed
/// one was met and the repository of the last: a divider before each new
/// repository after the first, and a sub-header before the first closed one.
pub open spec fn pr_table(prs: Seq<PullRequest>, cursor: nat) -> (Seq<Cells>, Seq<nat>, bool, Option<(Seq<char>, Seq<char>)>)
    decreases prs.len(),
{
    if prs.len() == 0 {
        (Seq::empty(), Seq::empty(), false, None)
    } else {
        let (rows, at, seen, repo) = pr_table(prs.drop_last(), cursor);
        let p = prs.last();
        let key = (p.owner@, p.repo@);
        let rows1 = if repo is Some && repo != Some(key) {
            rows.push(label_cells("\u{2576} "@ + p.owner@ + "/"@ + p.repo@, Tone::Border))
        } else {
            rows
        };
        let closed = pr_closed(p.state@);
        let rows2 = if closed && !seen {
            rows1.push(label_cells("CLOSED / MERGED"@, Tone::Faint))
        } else {
            rows1
        };
        (rows2.push(pr_cells(p, prs.len() - 1 == cursor)), at.push(rows2.len()), seen || closed, Some(key))
    }
}

/// The rows of the shown Linear issues and the row of each, with a
/// sub-header before the first completed or canceled one; the cursor
/// counts after `skip` pull requests.
pub open spec fn linear_table(lins: Seq<LinearIssue>, cursor: int, skip: int) -> (Seq<Cells>, Seq<nat>, bool)
    decreases lins.len(),
{
    if lins.len() == 0 {
        (Seq::empty(), Seq::empty(), false)
    } else {
        let (rows, at, seen) = linear_table(lins.drop_last(), cursor, skip);
        let l = lins.last();
        let done = linear_done(l.state_type@);
        let rows1 = if done && !seen {
            rows.push(label_cells("COMPLETED / CANCELED"@, Tone::Faint))
        } else {
            rows
        };
        (rows1.push(linear_cells(l, lins.len() - 1 + skip == cursor)), at.push(rows1.len()), seen || done)
    }
}

/// The first sync state of a source, if any.
pub open spec fn sync_of(syncs: Seq<SyncState>, source: Seq<char>) -> Option<SyncState> {
    if exists|i: int| 0 <= i < syncs.len() && #[trigger] syncs[i].source@ == source {
        let i = choose|i: int|
            0 <= i < syncs.len() && #[trigger] syncs[i].source@ == source && forall|j: int|
                0 <= j < i ==> syncs[j].source@ != source;
        Some(syncs[i])
    } else {
        None
    }
}

/// The group header of a source: its count, its sync label and how many
/// finished rows are hidden.
pub open spec fn source_header(name: Seq<char>, n: nat, what: Seq<char>, label: Seq<char>, hidden: nat, hidden_what: Seq<char>) -> Seq<char> {
    name + " \u{b7} "@ + decimal(n) + what + " \u{b7} "@ + label + if hidden > 0 {
        " \u{b7} "@ + decimal(hidden) + hidden_what
    } else {
        ""@
    }
}

/// Closed or merged pull requests kept out of the table.
pub open spec fn hidden_prs(app: App) -> nat {
    if app.show_closed {
        0
    } else {
        app.data.pulls@.filter(
            |p: PullRequest| (app.show_dismissed || p.dismissed_at is None) && pr_closed(p.state@),
        ).len()
    }
}

/// Completed or canceled Linear issues kept out of the table.
pub open spec fn hidden_linears(app: App) -> nat {
    if app.show_closed {
        0
    } else {
        app.data.linears@.filter(
            |l: LinearIssue| (app.show_dismissed || l.dismissed_at is None) && linear_done(l.state_type@),
        ).len()
    }
}

/// The inbox table: the GitHub group, an empty row, the Linear group; and
/// the row of the cursor's item.
pub open spec fn inbox_table(app: App) -> (Seq<Cells>, Option<nat>) {
    let prs = inbox_shown_prs(app);
    let lins = inbox_shown_linears(app);
    let gh = sync_label_for(sync_of(app.data.sync@, "github"@), app.spinner, is_syncing(app.syncing@, "github"@));
    let ln = sync_label_for(sync_of(app.data.sync@, "linear"@), app.spinner, is_syncing(app.syncing@, "linear"@));
    let (pr_rows, pr_at, _, _) = pr_table(prs, app.cursor as nat);
    let (lin_rows, lin_at, _) = linear_table(lins, app.cursor as int, prs.len() as int);
    let head = seq![label_cells(
        "\u{2576} "@ + source_header("GITHUB"@, prs.len(), " pull requests"@, gh, hidden_prs(app), " closed/merged hidden"@),
        Tone::Dim,
    )];
    let mid = seq![seq![blank()], label_cells(
        "\u{2576} "@ + source_header("LINEAR"@, lins.len(), " issues"@, ln, hidden_linears(app), " completed/canceled hidden"@),
        Tone::Dim,
    )];
    let rows = head + pr_rows + mid + lin_rows;
    let at = pr_at.map_values(|k: nat| k + 1) + lin_at.map_values(|k: nat| k + 1 + pr_rows.len() + 2);
    (rows, if app.cursor < at.len() { Some(at[app.cursor as int]) } else { None })
}

/// The cells of a row as values.
pub open spec fn cells_look(r: Vec<Vec<Styled>>) -> Cells {
    lines_look(r@)
}

/// The inbox table's rows and the row kept in view.
pub struct TableRows {
    pub rows: Vec<Vec<Vec<Styled>>>,
    pub selected: Option<usize>,
}

/// The rows as values.
pub open spec fn rows_look(t: Seq<Vec<Vec<Styled>>>) -> Seq<Cells> {
    t.map_values(|r: Vec<Vec<Styled>>| cells_look(r))
}

fn push_row(rows: &mut Vec<Vec<Vec<Styled>>>, r: Vec<Vec<Styled>>)
    ensures
        rows_look(final(rows)@) == rows_look(old(rows)@).push(cells_look(r)),
{
    let ghost c = cells_look(r);
    rows.push(r);
    assert(rows_look(rows@) =~= rows_look(old(rows)@).push(c));
}

fn label_row(label: Vec<char>, tone: Tone) -> (r: Vec<Vec<Styled>>)
    ensures
        cells_look(r) == label_cells(label@, tone),
{
    let mut out: Vec<Vec<Styled>> = Vec::new();
    push_blank(&mut out);
    push_blank(&mut out);
    push_blank(&mut out);
    push_text_line(&mut out, label, tone);
    assert(lines_look(out@) =~= label_cells(label@, tone));
    out
}

fn marker_run(cursor: bool) -> (r: Styled)
    ensures
        crate::screen::look(r) == marker(cursor),
{
    if cursor {
        styled_glyph(Glyph::CURSOR, Some(Tone::Accent))
    } else {
        styled_str(" ", None, Emph::Plain)
    }
}

fn pr_row(p: &PullRequest, cursor: bool) -> (r: Vec<Vec<Styled>>)
    ensures
        cells_look(r) == pr_cells(*p, cursor),
{
    let dismissed = p.dismissed_at.is_some();
    let badges = pr_status_badges(p);
    let mut st: Vec<Styled> = Vec::new();
    push_run(&mut st, marker_run(cursor));
    let ghost f = |b: (char, Tone)| toned(glyph_text(b.0), b.1);
    let mut i: usize = 0;
    while i < badges.len()
        invariant
            i <= badges.len(),
            f == (|b: (char, Tone)| toned(glyph_text(b.0), b.1)),
            line_look(st@) == seq![marker(cursor)] + badges@.take(i as int).map_values(f),
        decreases badges.len() - i,
    {
        let b = badges[i];
        let g = b.0;
        let c = b.1;
        assert(b == badges@[i as int]);
        let ghost before = line_look(st@);
        push_run(&mut st, styled_glyph(g, Some(c)));
        assert(f(badges@[i as int]) == toned(glyph_text(g), c));
        assert(badges@.take(i + 1) =~= badges@.take(i as int).push(badges@[i as int]));
        assert(badges@.take(i + 1).map_values(f) =~= badges@.take(i as int).map_values(f).push(f(badges@[i as int])));
        assert(line_look(st@) =~= seq![marker(cursor)] + badges@.take(i + 1).map_values(f));
        i += 1;
    }
    assert(badges@.take(badges.len() as int) =~= badges@);
    let mut repo: Vec<char> = Vec::new();
    push_str(&mut repo, p.owner.as_str());
    push_str(&mut repo, "/");
    push_str(&mut repo, p.repo.as_str());
    push_str(&mut repo, "#");
    push_int(&mut repo, p.number as i64);
    let author = match &p.author {
        Some(a) => styled_str(a.as_str(), Some(Tone::Dim), Emph::Plain),
        None => styled_str("\u{2014}", Some(Tone::Dim), Emph::Plain),
    };
    let mut title: Vec<Styled> = Vec::new();
    if dismissed {
        push_run(&mut title, styled_str(p.title.as_str(), Some(Tone::Faint), Emph::Crossed));
        push_run(&mut title, styled_str("  dismissed", Some(Tone::Faint), Emph::Plain));
    } else {
        push_run(&mut title, styled_str(p.title.as_str(), Some(Tone::Text), Emph::Plain));
    }
    let ghost want = pr_cells(*p, cursor);
    assert(line_look(st@) == want[0]);
    assert(repo@ == p.owner@ + "/"@ + p.repo@ + "#"@ + int_text(p.number as int));
    assert(seq![crate::screen::look(author)] == want[2]);
    assert(line_look(title@) =~= want[3]);
    let mut out: Vec<Vec<Styled>> = Vec::new();
    push_line(&mut out, st);
    push_text_line(&mut out, repo, if dismissed { Tone::Dim } else { Tone::Text });
    push_line(&mut out, line_one(author));
    push_line(&mut out, title);
    assert(lines_look(out@) =~= pr_cells(*p, cursor));
    out
}

fn linear_row(l: &LinearIssue, cursor: bool) -> (r: Vec<Vec<Styled>>)
    ensures
        cells_look(r) == linear_cells(*l, cursor),
{
    let dismissed = l.dismissed_at.is_some();
    let (g, c) = linear_state_glyph(l.state_type.as_str());
    let mut st: Vec<Styled> = Vec::new();
    push_run(&mut st, marker_run(cursor));
    push_run(&mut st, styled_glyph(g, Some(c)));
    if l.assigned_to_me {
        push_run(&mut st, styled_glyph(Glyph::NEEDS_YOU, Some(Tone::Accent)));
    }
    let assignee = match &l.assignee_name {
        Some(a) => styled_str(a.as_str(), Some(Tone::Dim), Emph::Plain),
        None => styled_str("\u{2014}", Some(Tone::Dim), Emph::Plain),
    };
    let mut title: Vec<Styled> = Vec::new();
    if dismissed {
        push_run(&mut title, styled_str(l.title.as_str(), Some(Tone::Faint), Emph::Crossed));
    } else {
        push_run(&mut title, styled_str(l.title.as_str(), Some(Tone::Text), Emph::Plain));
    }
    let mut extra: Vec<char> = Vec::new();
    push_str(&mut extra, "  ");
    push_str(&mut extra, l.state_name.as_str());
    push_str(&mut extra, " ");
    match &l.team_key {
        Some(k) => push_str(&mut extra, k.as_str()),
        None => {
            proof {
                reveal_strlit("");
            }
            assert(extra@ + ""@ =~= extra@);
        },
    }
    push_run(&mut title, styled(extra, Some(Tone::Dim), Emph::Plain));
    let ghost want = linear_cells(*l, cursor);
    assert(line_look(st@) =~= want[0]);
    assert(seq![crate::screen::look(assignee)] == want[2]);
    assert(line_look(title@) =~= want[3]);
    let mut out: Vec<Vec<Styled>> = Vec::new();
    push_line(&mut out, st);
    push_str_line(&mut out, l.identifier.as_str(), if dismissed { Tone::Dim } else { Tone::Text });
    push_line(&mut out, line_one(assignee));
    push_line(&mut out, title);
    assert(lines_look(out@) =~= linear_cells(*l, cursor));
    out
}

/// The row indices as values.
pub open spec fn at_look(at: Seq<usize>) -> Seq<nat> {
    at.map_values(|k: usize| k as nat)
}

fn push_pr_rows(rows: &mut Vec<Vec<Vec<Styled>>>, at: &mut Vec<usize>, prs: &Vec<&PullRequest>, cursor: usize)
    ensures
        rows_look(final(rows)@) == rows_look(old(rows)@) + pr_table(pr_refs(prs@), cursor as nat).0,
        at_look(final(at)@) == at_look(old(at)@) + pr_table(pr_refs(prs@), cursor as nat).1.map_values(
            |k: nat| k + old(rows)@.len(),
        ),
{
    let ghost ps = pr_refs(prs@);
    let ghost base = rows_look(rows@);
    let ghost abase = at_look(at@);
    let ghost n0 = rows@.len();
    let mut seen = false;
    let mut last: Option<usize> = None;
    let mut i: usize = 0;
    while i < prs.len()
        invariant
            i <= prs.len(),
            ps == pr_refs(prs@),
            n0 == old(rows)@.len(),
            base == rows_look(old(rows)@),
            abase == at_look(old(at)@),
            rows_look(rows@) == base + pr_table(ps.take(i as int), cursor as nat).0,
            at_look(at@) == abase + pr_table(ps.take(i as int), cursor as nat).1.map_values(|k: nat| k + n0),
            seen == pr_table(ps.take(i as int), cursor as nat).2,
            match last {
                Some(j) => j < i && pr_table(ps.take(i as int), cursor as nat).3 == Some((ps[j as int].owner@, ps[j as int].repo@)),
                None => pr_table(ps.take(i as int), cursor as nat).3 is None,
            },
        decreases prs.len() - i,
    {
        let ghost t = ps.take(i as int);
        let ghost prev = pr_table(t, cursor as nat);
        assert(ps.take(i + 1).drop_last() =~= t);
        assert(ps.take(i + 1).last() == ps[i as int]);
        let p: &PullRequest = prs[i];
        assert(*p == ps[i as int]);
        let new_repo = match last {
            Some(j) => !(crate::text::same_text(prs[j].owner.as_str(), p.owner.as_str())
                && crate::text::same_text(prs[j].repo.as_str(), p.repo.as_str())),
            None => false,
        };
        proof {
            match last {
                Some(j) => {
                    assert(*prs@[j as int] == ps[j as int]);
                    assert(new_repo == (prev.3 != Some((p.owner@, p.repo@))));
                },
                None => {},
            }
        }
        if new_repo {
            let mut d: Vec<char> = Vec::new();
            push_str(&mut d, "\u{2576} ");
            push_str(&mut d, p.owner.as_str());
            push_str(&mut d, "/");
            push_str(&mut d, p.repo.as_str());
            push_row(rows, label_row(d, Tone::Border));
        }
        let closed = pr_is_closed(p.state.as_str());
        if closed && !seen {
            let mut h: Vec<char> = Vec::new();
            push_str(&mut h, "CLOSED / MERGED");
            push_row(rows, label_row(h, Tone::Faint));
            seen = true;
        }
        let ghost before_at = at@;
        let k = rows.len();
        at.push(k);
        push_row(rows, pr_row(p, i == cursor));
        proof {
            let next = pr_table(ps.take(i + 1), cursor as nat);
            assert(rows_look(rows@) =~= base + next.0);
            assert(at_look(at@) =~= at_look(before_at).push(k as nat));
            assert(at_look(at@) =~= abase + next.1.map_values(|k: nat| k + n0));
        }
        seen = seen || closed;
        last = Some(i);
        i += 1;
    }
    assert(ps.take(prs.len() as int) =~= ps);
}

fn push_linear_rows(
    rows: &mut Vec<Vec<Vec<Styled>>>,
    at: &mut Vec<usize>,
    lins: &Vec<&LinearIssue>,
    cursor: usize,
    skip: usize,
)
    ensures
        rows_look(final(rows)@) == rows_look(old(rows)@) + linear_table(linear_refs(lins@), cursor as int, skip as int).0,
        at_look(final(at)@) == at_look(old(at)@) + linear_table(linear_refs(lins@), cursor as int, skip as int).1.map_values(
            |k: nat| k + old(rows)@.len(),
        ),
{
    let ghost ls = linear_refs(lins@);
    let ghost base = rows_look(rows@);
    let ghost abase = at_look(at@);
    let ghost n0 = rows@.len();
    let mut seen = false;
    let mut i: usize = 0;
    while i < lins.len()
        invariant
            i <= lins.len(),
            ls == linear_refs(lins@),
            n0 == old(rows)@.len(),
            base == rows_look(old(rows)@),
            abase == at_look(old(at)@),
            rows_look(rows@) == base + linear_table(ls.take(i as int), cursor as int, skip as int).0,
            at_look(at@) == abase + linear_table(ls.take(i as int), cursor as int, skip as int).1.map_values(|k: nat| k + n0),
            seen == linear_table(ls.take(i as int), cursor as int, skip as int).2,
        decreases lins.len() - i,
    {
        let ghost t = ls.take(i as int);
        assert(ls.take(i + 1).drop_last() =~= t);
        assert(ls.take(i + 1).last() == ls[i as int]);
        let l: &LinearIssue = lins[i];
        assert(*l == ls[i as int]);
        let done = linear_is_done(l.state_type.as_str());
        if done && !seen {
            let mut h: Vec<char> = Vec::new();
            push_str(&mut h, "COMPLETED / CANCELED");
            push_row(rows, label_row(h, Tone::Faint));
            seen = true;
        }
        let ghost before_at = at@;
        let k = rows.len();
        at.push(k);
        let here = if i as u128 + skip as u128 == cursor as u128 {
            true
        } else {
            false
        };
        push_row(rows, linear_row(l, here));
        proof {
            let next = linear_table(ls.take(i + 1), cursor as int, skip as int);
            assert(rows_look(rows@) =~= base + next.0);
            assert(at_look(at@) =~= at_look(before_at).push(k as nat));
            assert(at_look(at@) =~= abase + next.1.map_values(|k: nat| k + n0));
        }
        seen = seen || done;
        i += 1;
    }
    assert(ls.take(lins.len() as int) =~= ls);
}

/// The first sync state of a source.
fn sync_for<'a>(syncs: &'a Vec<SyncState>, source: &str) -> (r: Option<&'a SyncState>)
    ensures
        match r {
            Some(st) => sync_of(syncs@, source@) == Some(*st),
            None => sync_of(syncs@, source@) is None,
        },
{
    let mut i: usize = 0;
    while i < syncs.len()
        invariant
            i <= syncs.len(),
            forall|j: int| 0 <= j < i ==> #[trigger] syncs@[j].source@ != source@,
        decreases syncs.len() - i,
    {
        if crate::text::same_text(syncs[i].source.as_str(), source) {
            proof {
                assert(syncs@[i as int].source@ == source@);
                let w = choose|k: int|
                    0 <= k < syncs@.len() && #[trigger] syncs@[k].source@ == source@ && forall|j: int|
                        0 <= j < k ==> syncs@[j].source@ != source@;
                assert(0 <= i < syncs@.len() && syncs@[i as int].source@ == source@ && forall|j: int|
                    0 <= j < i ==> syncs@[j].source@ != source@);
                if w < i {
                    assert(syncs@[w].source@ != source@);
                } else if w > i {
                    assert(syncs@[i as int].source@ != source@);
                }
            }
            return Some(&syncs[i]);
        }
        i += 1;
    }
    None
}

fn sync_text(app: &App, source: &str) -> (r: String)
    ensures
        r@ == sync_label_for(sync_of(app.data.sync@, source@), app.spinner, is_syncing(app.syncing@, source@)),
{
    let st = sync_for(&app.data.sync, source);
    let busy = crate::msg::find_source(&app.syncing, source).is_some();
    sync_label(st, app.spinner, busy)
}

fn count_hidden_prs(app: &App) -> (r: usize)
    ensures
        r == hidden_prs(*app),
{
    if app.show_closed {
        return 0;
    }
    let ghost pred = |p: PullRequest| (app.show_dismissed || p.dismissed_at is None) && pr_closed(p.state@);
    let mut n: usize = 0;
    let mut i: usize = 0;
    while i < app.data.pulls.len()
        invariant
            i <= app.data.pulls.len(),
            !app.show_closed,
            pred == (|p: PullRequest| (app.show_dismissed || p.dismissed_at is None) && pr_closed(p.state@)),
            n == app.data.pulls@.take(i as int).filter(pred).len(),
            n <= i,
        decreases app.data.pulls.len() - i,
    {
        proof {
            assert(app.data.pulls@.take(i + 1) =~= app.data.pulls@.take(i as int).push(app.data.pulls@[i as int]));
            app.data.pulls@.take(i as int).lemma_filter_push(app.data.pulls@[i as int], pred);
        }
        let p = &app.data.pulls[i];
        if (app.show_dismissed || p.dismissed_at.is_none()) && pr_is_closed(p.state.as_str()) {
            n += 1;
        }
        i += 1;
    }
    assert(app.data.pulls@.take(i as int) =~= app.data.pulls@);
    n
}

fn count_hidden_linears(app: &App) -> (r: usize)
    ensures
        r == hidden_linears(*app),
{
    if app.show_closed {
        return 0;
    }
    let ghost pred = |l: LinearIssue| (app.show_dismissed || l.dismissed_at is None) && linear_done(l.state_type@);
    let mut n: usize = 0;
    let mut i: usize = 0;
    while i < app.data.linears.len()
        invariant
            i <= app.data.linears.len(),
            !app.show_closed,
            pred == (|l: LinearIssue| (app.show_dismissed || l.dismissed_at is None) && linear_done(l.state_type@)),
            n == app.data.linears@.take(i as int).filter(pred).len(),
            n <= i,
        decreases app.data.linears.len() - i,
    {
        proof {
            assert(app.data.linears@.take(i + 1) =~= app.data.linears@.take(i as int).push(app.data.linears@[i as int]));
            app.data.linears@.take(i as int).lemma_filter_push(app.data.linears@[i as int], pred);
        }
        let l = &app.data.linears[i];
        if (app.show_dismissed || l.dismissed_at.is_none()) && linear_is_done(l.state_type.as_str()) {
            n += 1;
        }
        i += 1;
    }
    assert(app.data.linears@.take(i as int) =~= app.data.linears@);
    n
}

fn header_text(name: &str, n: usize, what: &str, label: &String, hidden: usize, hidden_what: &str) -> (r: Vec<char>)
    ensures
        r@ == "\u{2576} "@ + source_header(name@, n as nat, what@, label@, hidden as nat, hidden_what@),
{
    let mut t: Vec<char> = Vec::new();
    push_str(&mut t, "\u{2576} ");
    push_str(&mut t, name);
    push_str(&mut t, " \u{b7} ");
    push_decimal(&mut t, n as u128);
    push_str(&mut t, what);
    push_str(&mut t, " \u{b7} ");
    push_str(&mut t, label.as_str());
    if hidden > 0 {
        push_str(&mut t, " \u{b7} ");
        push_decimal(&mut t, hidden as u128);
        push_str(&mut t, hidden_what);
    } else {
        proof {
            reveal_strlit("");
        }
        assert(t@ + ""@ =~= t@);
    }
    t
}

/// The inbox table's rows and the row of the cursor's item.
pub fn inbox_rows(app: &App) -> (r: TableRows)
    ensures
        rows_look(r.rows@) == inbox_table(*app).0,
        match (r.selected, inbox_table(*app).1) {
            (Some(a), Some(b)) => a == b,
            (None, None) => true,
            _ => false,
        },
{
    let prs = inbox_display_prs(app);
    let lins = inbox_display_linears(app);
    let gh = sync_text(app, "github");
    let ln = sync_text(app, "linear");
    let hp = count_hidden_prs(app);
    let hl = count_hidden_linears(app);
    let mut rows: Vec<Vec<Vec<Styled>>> = Vec::new();
    let mut at: Vec<usize> = Vec::new();
    push_row(&mut rows, label_row(header_text("GITHUB", prs.len(), " pull requests", &gh, hp, " closed/merged hidden"), Tone::Dim));
    let ghost r1 = rows_look(rows@);
    proof {
        assert(at_look(at@) =~= Seq::<nat>::empty());
    }
    push_pr_rows(&mut rows, &mut at, &prs, app.cursor);
    let ghost r2 = rows_look(rows@);
    let ghost a2 = at_look(at@);
    let np = rows.len();
    let mut empty_row: Vec<Vec<Styled>> = Vec::new();
    assert(lines_look(empty_row@) =~= Seq::<Seq<Look>>::empty());
    push_blank(&mut empty_row);
    assert(cells_look(empty_row) =~= seq![blank()]);
    push_row(&mut rows, empty_row);
    push_row(&mut rows, label_row(header_text("LINEAR", lins.len(), " issues", &ln, hl, " completed/canceled hidden"), Tone::Dim));
    let ghost r3 = rows_look(rows@);
    let n3 = rows.len();
    push_linear_rows(&mut rows, &mut at, &lins, app.cursor, prs.len());
    proof {
        let t = inbox_table(*app);
        let ps = inbox_shown_prs(*app);
        let ls = inbox_shown_linears(*app);
        let pt = pr_table(ps, app.cursor as nat);
        let lt = linear_table(ls, app.cursor as int, ps.len() as int);
        assert(np == 1 + pt.0.len());
        assert(n3 == 1 + pt.0.len() + 2);
        let head = seq![label_cells(
            "\u{2576} "@ + source_header("GITHUB"@, ps.len(), " pull requests"@, gh@, hidden_prs(*app), " closed/merged hidden"@),
            Tone::Dim,
        )];
        let mid = seq![seq![blank()], label_cells(
            "\u{2576} "@ + source_header("LINEAR"@, ls.len(), " issues"@, ln@, hidden_linears(*app), " completed/canceled hidden"@),
            Tone::Dim,
        )];
        assert(r1 == head);
        assert(r2 == head + pt.0);
        assert(r3 =~= head + pt.0 + mid);
        assert(rows_look(rows@) == r3 + lt.0);
        assert(rows_look(rows@) =~= t.0);
        assert(at_look(at@) =~= pt.1.map_values(|k: nat| k + 1) + lt.1.map_values(|k: nat| k + 1 + pt.0.len() + 2));
    }
    let selected = if app.cursor < at.len() {
        Some(at[app.cursor])
    } else {
        None
    };
    proof {
        if app.cursor < at.len() {
            assert(at_look(at@)[app.cursor as int] == at@[app.cursor as int] as nat);
        }
    }
    TableRows { rows, selected }
}
// ---- The review view ----

/// A todo line of a review panel.
pub open spec fn review_row(t: Todo) -> Seq<Look> {
    let (g, c) = status_look(t.status@);
    let (tone, emph) = title_style(t.status@);
    seq![("  "@, None, Emph::Plain), toned(glyph_text(g), c), (" "@, None, Emph::Plain), (t.title@, tone, emph)]
}

/// A review panel: its title with the count, then the todos.
pub open spec fn review_panel(title: Seq<char>, todos: Seq<Todo>) -> Seq<Seq<Look>> {
    seq![one("  "@ + title + " \u{b7} "@ + decimal(todos.len()), Tone::Dim)] + todos.map_values(
        |t: Todo| review_row(t),
    )
}

/// The summary line of a reviewed day.
pub open spec fn review_summary(r: DailyReview) -> Seq<char> {
    "  logical day "@ + r.date@ + " 04:00 \u{2192} "@ + r.date@ + " 04:00 \u{b7} "@ + decimal(r.planned@.len())
        + " planned \u{b7} "@ + decimal(r.touched@.len()) + " touched \u{b7} "@ + decimal(
        r.completed@.len(),
    ) + " completed \u{b7} "@ + decimal(r.carried_over@.len()) + " carried"@
}

/// The review's summary names the day and then gives each count just
/// before its label: the planned todos before " planned", the touched ones
/// before " touched", the completed ones before " completed" and the
/// carried-over ones before " carried", which ends the line.
pub proof fn lemma_review_summary_counts(r: DailyReview)
    ensures
        review_summary(r) == ("  logical day "@ + r.date@ + " 04:00 \u{2192} "@ + r.date@ + " 04:00 \u{b7} "@)
            + (decimal(r.planned@.len()) + " planned \u{b7} "@) + (decimal(r.touched@.len()) + " touched \u{b7} "@)
            + (decimal(r.completed@.len()) + " completed \u{b7} "@) + (decimal(r.carried_over@.len()) + " carried"@),
{
    assert(review_summary(r) =~= ("  logical day "@ + r.date@ + " 04:00 \u{2192} "@ + r.date@ + " 04:00 \u{b7} "@)
        + (decimal(r.planned@.len()) + " planned \u{b7} "@) + (decimal(r.touched@.len()) + " touched \u{b7} "@)
        + (decimal(r.completed@.len()) + " completed \u{b7} "@) + (decimal(r.carried_over@.len()) + " carried"@));
}

/// The line shown while the review loads.
pub open spec fn review_loading(day: int) -> Seq<char> {
    "  "@ + glyph_text(spinner_frame(4)) + " loading review for "@ + day_label(day) + "\u{2026}"@
}

/// The review view: the loading line, or the summary and the planned and
/// touched panels.
pub enum ReviewScreen {
    Loading(Vec<Styled>),
    Day { summary: Vec<Styled>, planned: Vec<Vec<Styled>>, touched: Vec<Vec<Styled>> },
}

fn push_review_panel(out: &mut Vec<Vec<Styled>>, title: &str, todos: &Vec<Todo>)
    requires
        old(out)@.len() == 0,
    ensures
        lines_look(final(out)@) == review_panel(title@, todos@),
{
    let mut h: Vec<char> = Vec::new();
    push_str(&mut h, "  ");
    push_str(&mut h, title);
    push_str(&mut h, " \u{b7} ");
    push_decimal(&mut h, todos.len() as u128);
    assert(lines_look(out@) =~= Seq::<Seq<Look>>::empty());
    push_text_line(out, h, Tone::Dim);
    let ghost head = lines_look(out@);
    let mut i: usize = 0;
    while i < todos.len()
        invariant
            i <= todos.len(),
            lines_look(out@) == head + todos@.take(i as int).map_values(|t: Todo| review_row(t)),
        decreases todos.len() - i,
    {
        let t = &todos[i];
        let (g, c) = status_glyph(t.status.as_str());
        let st = t.status.as_str();
        let (tone, emph) = if crate::text::same_text(st, "started") {
            (Some(Tone::Text), Emph::Bold)
        } else if crate::text::same_text(st, "done") {
            (Some(Tone::Dim), Emph::Plain)
        } else if crate::text::same_text(st, "cancelled") {
            (Some(Tone::Cancelled), Emph::Crossed)
        } else {
            (Some(Tone::Text), Emph::Plain)
        };
        let mut l: Vec<Styled> = Vec::new();
        push_run(&mut l, styled_str("  ", None, Emph::Plain));
        push_run(&mut l, styled_glyph(g, Some(c)));
        push_run(&mut l, styled_str(" ", None, Emph::Plain));
        push_run(&mut l, styled_str(t.title.as_str(), tone, emph));
        assert(line_look(l@) =~= review_row(todos@[i as int]));
        push_line(out, l);
        assert(todos@.take(i + 1) =~= todos@.take(i as int).push(todos@[i as int]));
        assert(lines_look(out@) =~= head + todos@.take(i + 1).map_values(|t: Todo| review_row(t)));
        i += 1;
    }
    assert(todos@.take(todos.len() as int) =~= todos@);
}

/// The review's closing line: the reviewed day is read-only.
pub open spec fn review_footer_text() -> Seq<char> {
    "  \u{2500} read-only \u{b7} this day is closed \u{2500}"@
}

/// The review's closing line, faint.
pub fn review_footer() -> (r: Vec<Styled>)
    ensures
        line_look(r@) == one(review_footer_text(), Tone::Faint),
{
    line_one(styled_str("  \u{2500} read-only \u{b7} this day is closed \u{2500}", Some(Tone::Faint), Emph::Plain))
}

/// The review view for the client state.
pub fn review_screen(app: &App) -> (r: ReviewScreen)
    ensures
        match (r, app.review) {
            (ReviewScreen::Loading(l), None) => line_look(l@) == one(review_loading(app.review_date as int), Tone::Dim),
            (ReviewScreen::Day { summary, planned, touched }, Some(rv)) => {
                &&& line_look(summary@) == one(review_summary(rv), Tone::Dim)
                &&& lines_look(planned@) == review_panel("PLANNED"@, rv.planned@)
                &&& lines_look(touched@) == review_panel("TOUCHED"@, rv.touched@)
            },
            _ => false,
        },
{
    match &app.review {
        None => {
            let mut t: Vec<char> = Vec::new();
            push_str(&mut t, "  ");
            t.push(spinner_at(4));
            push_str(&mut t, " loading review for ");
            let d = day_string(app.review_date);
            push_str(&mut t, d.as_str());
            push_str(&mut t, "\u{2026}");
            assert(t@ =~= review_loading(app.review_date as int));
            ReviewScreen::Loading(line_one(styled(t, Some(Tone::Dim), Emph::Plain)))
        },
        Some(rv) => {
            let mut t: Vec<char> = Vec::new();
            push_str(&mut t, "  logical day ");
            push_str(&mut t, rv.date.as_str());
            push_str(&mut t, " 04:00 \u{2192} ");
            push_str(&mut t, rv.date.as_str());
            push_str(&mut t, " 04:00 \u{b7} ");
            push_decimal(&mut t, rv.planned.len() as u128);
            push_str(&mut t, " planned \u{b7} ");
            push_decimal(&mut t, rv.touched.len() as u128);
            push_str(&mut t, " touched \u{b7} ");
            push_decimal(&mut t, rv.completed.len() as u128);
            push_str(&mut t, " completed \u{b7} ");
            push_decimal(&mut t, rv.carried_over.len() as u128);
            push_str(&mut t, " carried");
            let mut planned: Vec<Vec<Styled>> = Vec::new();
            push_review_panel(&mut planned, "PLANNED", &rv.planned);
            let mut touched: Vec<Vec<Styled>> = Vec::new();
            push_review_panel(&mut touched, "TOUCHED", &rv.touched);
            ReviewScreen::Day { summary: line_one(styled(t, Some(Tone::Dim), Emph::Plain)), planned, touched }
        },
    }
}

// ---- The sync view ----

/// The state run of a source's row.
pub open spec fn sync_state_run(status: Seq<char>, spinner: u8) -> Look {
    if status == "syncing"@ || status == "in_progress"@ {
        toned(glyph_text(spinner_frame(spinner)) + " syncing\u{2026}"@, Tone::Accent)
    } else if status == "ok"@ || status == "success"@ {
        toned("\u{21bb} ok"@, Tone::Done)
    } else if status == "error"@ {
        toned("\u{25b2} error"@, Tone::Blocked)
    } else if status == "no_token"@ || status == "offline"@ {
        toned("\u{2300} no token"@, Tone::Faint)
    } else {
        toned(status, Tone::Dim)
    }
}

/// A source's row: name, state, when it last synced and its cursor.
pub open spec fn sync_row(s: SyncState, cursor: bool, spinner: u8, now: i64) -> Seq<Look> {
    let last = match s.last_synced_at {
        Some(ts) => relative_text(ts@, now),
        None => "never"@,
    };
    seq![
        marker(cursor),
        (" "@ + padded(s.source@, 10) + " "@, None, Emph::Plain),
        sync_state_run(s.last_status@, spinner),
        (
            "  "@ + padded(last, 18) + "  "@ + match s.cursor {
                Some(c) => c@,
                None => "\u{2014}"@,
            },
            None,
            Emph::Plain,
        ),
    ]
}

/// The rows of the sources after `k`: each source (marked when under the
/// cursor) and its error line.
pub open spec fn sync_items(syncs: Seq<SyncState>, cursor: nat, spinner: u8, now: i64) -> Seq<Item>
    decreases syncs.len(),
{
    if syncs.len() == 0 {
        Seq::empty()
    } else {
        let s = syncs.last();
        let here = syncs.len() - 1 == cursor;
        sync_items(syncs.drop_last(), cursor, spinner, now).push((sync_row(s, here, spinner, now), here))
            + match s.last_error {
            Some(e) => seq![(one("              \u{25b2} "@ + e@, Tone::Blocked), false)],
            None => Seq::empty(),
        }
    }
}

/// The sync view: a note when no source is configured, else the header and
/// the sources.
pub open spec fn sync_view(app: App, now: i64) -> Seq<Item> {
    if app.data.sync@.len() == 0 {
        seq![(one("  no sources configured \u{2014} preflight works fully offline"@, Tone::Dim), false)]
    } else {
        seq![(one("  SOURCE      STATE                 LAST SYNC          CURSOR"@, Tone::Dim), false)]
            + sync_items(app.data.sync@, app.cursor as nat, app.spinner, now)
    }
}

fn state_run(status: &str, spinner: u8) -> (r: Styled)
    ensures
        crate::screen::look(r) == sync_state_run(status@, spinner),
{
    let same = |a: &str, b: &str| -> (r: bool)
        ensures
            r == (a@ == b@),
        { crate::text::same_text(a, b) };
    if same(status, "syncing") || same(status, "in_progress") {
        let mut t: Vec<char> = Vec::new();
        t.push(spinner_at(spinner));
        push_str(&mut t, " syncing\u{2026}");
        assert(t@ =~= glyph_text(spinner_frame(spinner)) + " syncing\u{2026}"@);
        styled(t, Some(Tone::Accent), Emph::Plain)
    } else if same(status, "ok") || same(status, "success") {
        styled_str("\u{21bb} ok", Some(Tone::Done), Emph::Plain)
    } else if same(status, "error") {
        styled_str("\u{25b2} error", Some(Tone::Blocked), Emph::Plain)
    } else if same(status, "no_token") || same(status, "offline") {
        styled_str("\u{2300} no token", Some(Tone::Faint), Emph::Plain)
    } else {
        styled_str(status, Some(Tone::Dim), Emph::Plain)
    }
}

/// The sync view at time `now` (Unix seconds), and the row kept in view:
/// the cursor's position when it names a source.
pub fn sync_screen(app: &App, now: i64) -> (r: ListLines)
    ensures
        list_wf(r),
        items_of(r) == sync_view(*app, now),
        r.selected == (if app.cursor < app.data.sync@.len() { Some(app.cursor) } else { None }),
{
    let mut l = ListLines { lines: Vec::new(), marked: Vec::new(), selected: None };
    assert(items_of(l) =~= Seq::<Item>::empty());
    let syncs = &app.data.sync;
    if syncs.len() == 0 {
        push_item(&mut l, line_one(styled_str("  no sources configured \u{2014} preflight works fully offline", Some(Tone::Dim), Emph::Plain)), false);
        assert(items_of(l) =~= sync_view(*app, now));
        return l;
    }
    push_item(&mut l, line_one(styled_str("  SOURCE      STATE                 LAST SYNC          CURSOR", Some(Tone::Dim), Emph::Plain)), false);
    let ghost head = items_of(l);
    let mut i: usize = 0;
    while i < syncs.len()
        invariant
            i <= syncs.len(),
            syncs@ == app.data.sync@,
            list_wf(l),
            items_of(l) == head + sync_items(syncs@.take(i as int), app.cursor as nat, app.spinner, now),
        decreases syncs.len() - i,
    {
        assert(syncs@.take(i + 1).drop_last() =~= syncs@.take(i as int));
        assert(syncs@.take(i + 1).last() == syncs@[i as int]);
        let s = &syncs[i];
        let here = i == app.cursor;
        let mut line: Vec<Styled> = Vec::new();
        push_run(&mut line, marker_run(here));
        let mut name: Vec<char> = Vec::new();
        push_str(&mut name, " ");
        let p = pad_to(s.source.as_str(), 10);
        crate::text::push_chars(&mut name, &p);
        push_str(&mut name, " ");
        push_run(&mut line, styled(name, None, Emph::Plain));
        push_run(&mut line, state_run(s.last_status.as_str(), app.spinner));
        let last = match &s.last_synced_at {
            Some(ts) => relative_time(ts.as_str(), now),
            None => crate::text::owned("never"),
        };
        let mut tail: Vec<char> = Vec::new();
        push_str(&mut tail, "  ");
        let lp = pad_to(last.as_str(), 18);
        crate::text::push_chars(&mut tail, &lp);
        push_str(&mut tail, "  ");
        match &s.cursor {
            Some(c) => push_str(&mut tail, c.as_str()),
            None => push_str(&mut tail, "\u{2014}"),
        }
        push_run(&mut line, styled(tail, None, Emph::Plain));
        assert(line_look(line@) =~= sync_row(*s, here, app.spinner, now));
        push_item(&mut l, line, here);
        match &s.last_error {
            Some(e) => {
                let mut t: Vec<char> = Vec::new();
                push_str(&mut t, "              \u{25b2} ");
                push_str(&mut t, e.as_str());
                push_item(&mut l, line_one(styled(t, Some(Tone::Blocked), Emph::Plain)), false);
            },
            None => {},
        }
        assert(items_of(l) =~= head + sync_items(syncs@.take(i + 1), app.cursor as nat, app.spinner, now));
        i += 1;
    }
    assert(syncs@.take(syncs.len() as int) =~= syncs@);
    l.selected = if app.cursor < syncs.len() {
        Some(app.cursor)
    } else {
        None
    };
    assert(items_of(l) =~= sync_view(*app, now));
    l
}

} // verus!
