//! What the views show, apart from drawing it: the list filter, the
//! grouped-by-status list, the help table and its filter, the caret in a
//! text field, the highlighted todo of the sidebar, and the words of the
//! status bar and tab bar.

use vstd::prelude::*;
use vstd::view::View as _;

use crate::app::{
    active_plan, backlog_rows, display_order, has_rank, rank_group, status_at, status_position,
    status_rank, todo_refs, App, Mode, View, lemma_status_roundtrip,
};
use crate::edit::{byte_len, clamped, offset, lemma_offset_mono, lemma_offset_step, lemma_offset_ends};
use crate::gql::{PullRequest, Todo};
use crate::text::{
    ascii_lower, ascii_lower_char, ascii_text, ascii_upper, ascii_upper_char, chars_of, contains_chars, contains_seq, decimal, lowercase, push_decimal, push_str, string_of,
    to_lowercase_chars, same_text,
};
use crate::theme::{spinner_at, spinner_frame, Glyph};

verus! {

broadcast use vstd::seq_lib::group_seq_properties;

// ---- List filter ----

/// A todo matches a filter when the filter is empty, or when the
/// lower-cased filter occurs in its lower-cased title or in one of its
/// lower-cased tag slugs.
pub open spec fn todo_matches(t: Todo, filter: Seq<char>) -> bool {
    ||| filter.len() == 0
    ||| contains_seq(lowercase(t.title@), lowercase(filter))
    ||| exists|k: int|
        0 <= k < t.tag.nodes@.len() && contains_seq(
            lowercase(#[trigger] t.tag.nodes@[k].slug@),
            lowercase(filter),
        )
}

/// [`todo_matches`] for an ASCII filter, whose lower-cased form is its
/// ASCII lower-casing.
pub open spec fn todo_matches_ascii(t: Todo, filter: Seq<char>) -> bool {
    ||| filter.len() == 0
    ||| contains_seq(lowercase(t.title@), ascii_lower(filter))
    ||| exists|k: int|
        0 <= k < t.tag.nodes@.len() && contains_seq(
            lowercase(#[trigger] t.tag.nodes@[k].slug@),
            ascii_lower(filter),
        )
}

/// Case-insensitive substring filter over a todo's title and tag slugs.
pub fn matches_filter(todo: &Todo, filter: &str) -> (r: bool)
    ensures
        r == todo_matches(*todo, filter@),
        ascii_text(filter@) ==> r == todo_matches_ascii(*todo, filter@),
{
    if filter.is_empty() {
        return true;
    }
    let needle = to_lowercase_chars(filter);
    let title = to_lowercase_chars(todo.title.as_str());
    if contains_chars(&title, &needle) {
        return true;
    }
    let tags = &todo.tag.nodes;
    let mut k: usize = 0;
    while k < tags.len()
        invariant
            k <= tags.len(),
            tags@ == todo.tag.nodes@,
            needle@ == lowercase(filter@),
            ascii_text(filter@) ==> needle@ == ascii_lower(filter@),
            forall|j: int| 0 <= j < k ==> !contains_seq(lowercase(#[trigger] tags@[j].slug@), needle@),
        decreases tags.len() - k,
    {
        let slug = to_lowercase_chars(tags[k].slug.as_str());
        if contains_chars(&slug, &needle) {
            return true;
        }
        k += 1;
    }
    false
}

/// A needle found in a text is found in it wherever a part of the needle is.
proof fn lemma_contains_part(hay: Seq<char>, needle: Seq<char>, i: int, j: int)
    requires
        contains_seq(hay, needle),
        0 <= i <= j <= needle.len(),
    ensures
        contains_seq(hay, needle.subrange(i, j)),
{
    let p = choose|p: int| 0 <= p && p + needle.len() <= hay.len() && #[trigger] hay.subrange(p, p + needle.len()) == needle;
    assert(hay.subrange(p + i, p + i + (j - i)) =~= needle.subrange(i, j)) by {
        assert(hay.subrange(p, p + needle.len()) == needle);
        assert forall|k: int| 0 <= k < j - i implies hay.subrange(p + i, p + i + (j - i))[k] == needle.subrange(i, j)[k] by {
            assert(hay.subrange(p, p + needle.len())[i + k] == needle[i + k]);
        }
    }
}

/// A shorter filter never loses a match: a todo that matches an ASCII
/// filter matches every part of it (and the empty filter matches every
/// todo).
pub proof fn lemma_filter_part_keeps_match(t: Todo, filter: Seq<char>, i: int, j: int)
    requires
        ascii_text(filter),
        0 <= i <= j <= filter.len(),
        todo_matches_ascii(t, filter),
    ensures
        ascii_text(filter.subrange(i, j)),
        todo_matches_ascii(t, filter.subrange(i, j)),
{
    let g = filter.subrange(i, j);
    assert(ascii_lower(g) =~= ascii_lower(filter).subrange(i, j));
    if g.len() > 0 {
        if contains_seq(lowercase(t.title@), ascii_lower(filter)) {
            lemma_contains_part(lowercase(t.title@), ascii_lower(filter), i, j);
        } else {
            let k = choose|k: int|
                0 <= k < t.tag.nodes@.len() && contains_seq(
                    lowercase(#[trigger] t.tag.nodes@[k].slug@),
                    ascii_lower(filter),
                );
            lemma_contains_part(lowercase(t.tag.nodes@[k].slug@), ascii_lower(filter), i, j);
        }
    }
}

proof fn lemma_case_char(c: char)
    ensures
        ascii_lower_char(ascii_upper_char(c)) == ascii_lower_char(c),
        ascii_lower_char(ascii_lower_char(c)) == ascii_lower_char(c),
        ((c as u32) < 128) ==> (ascii_upper_char(c) as u32) < 128 && (ascii_lower_char(c) as u32) < 128,
{
}

/// The filter is case-insensitive: an ASCII filter, its upper-cased and its
/// lower-cased forms match the same todos.
pub proof fn lemma_filter_ignores_case(t: Todo, filter: Seq<char>)
    requires
        ascii_text(filter),
    ensures
        ascii_text(ascii_upper(filter)),
        ascii_text(ascii_lower(filter)),
        todo_matches_ascii(t, ascii_upper(filter)) == todo_matches_ascii(t, filter),
        todo_matches_ascii(t, ascii_lower(filter)) == todo_matches_ascii(t, filter),
{
    assert forall|k: int| 0 <= k < filter.len() implies #[trigger] ascii_lower(ascii_upper(filter))[k]
        == ascii_lower(filter)[k] && ascii_lower(ascii_lower(filter))[k] == ascii_lower(filter)[k] by {
        lemma_case_char(filter[k]);
    }
    assert forall|k: int| 0 <= k < filter.len() implies (#[trigger] ascii_upper(filter)[k] as u32) < 128
        && (ascii_lower(filter)[k] as u32) < 128 by {
        lemma_case_char(filter[k]);
    }
    assert(ascii_lower(ascii_upper(filter)) =~= ascii_lower(filter));
    assert(ascii_lower(ascii_lower(filter)) =~= ascii_lower(filter));
}

// ---- Grouped list ----

/// A group of rows under a status header.
#[derive(Clone, Debug)]
pub struct GroupedSection<'a> {
    pub label: &'static str,
    pub status: &'static str,
    pub rows: Vec<&'a Todo>,
    pub collapsed: bool,
}

/// The rows whose status is the `i`-th of the display order.
pub open spec fn status_group(rows: Seq<Todo>, i: nat) -> Seq<Todo> {
    rows.filter(|t: Todo| t.status@ == status_at(i))
}

/// The header label of the `i`-th status.
pub open spec fn group_label(i: nat) -> Seq<char> {
    if i == 0 {
        "STARTED"@
    } else if i == 1 {
        "BLOCKED"@
    } else if i == 2 {
        "TODO"@
    } else if i == 3 {
        "DONE"@
    } else {
        "CANCELLED"@
    }
}

/// The groups of the first `i` statuses: (status position, rows,
/// collapsed), empty groups left out, the done group collapsed unless done
/// rows are shown.
pub open spec fn groups_upto(rows: Seq<Todo>, show_done: bool, i: nat) -> Seq<(nat, Seq<Todo>, bool)>
    decreases i,
{
    if i == 0 {
        Seq::empty()
    } else {
        let prev = groups_upto(rows, show_done, (i - 1) as nat);
        let g = status_group(rows, (i - 1) as nat);
        if g.len() > 0 {
            prev.push(((i - 1) as nat, g, !show_done && i - 1 == 3))
        } else {
            prev
        }
    }
}

/// The groups of the grouped list.
pub open spec fn groups_of(rows: Seq<Todo>, show_done: bool) -> Seq<(nat, Seq<Todo>, bool)> {
    groups_upto(rows, show_done, 5)
}

/// The group as values: its status position, rows and collapse flag.
pub open spec fn section_is(s: GroupedSection, g: (nat, Seq<Todo>, bool)) -> bool {
    &&& s.status@ == status_at(g.0)
    &&& s.label@ == group_label(g.0)
    &&& todo_refs(s.rows@) == g.1
    &&& s.collapsed == g.2
}

fn status_text(i: usize) -> (r: (&'static str, &'static str))
    requires
        i < 5,
    ensures
        r.0@ == status_at(i as nat),
        r.1@ == group_label(i as nat),
{
    if i == 0 {
        ("started", "STARTED")
    } else if i == 1 {
        ("blocked", "BLOCKED")
    } else if i == 2 {
        ("todo", "TODO")
    } else if i == 3 {
        ("done", "DONE")
    } else {
        ("cancelled", "CANCELLED")
    }
}

/// Groups rows by status in the fixed display order (started, blocked,
/// todo, done, cancelled). Empty groups are left out; the done group is
/// kept collapsed (header only) unless done rows are shown. Rows of an
/// unknown status belong to no group.
pub fn group_by_status<'a>(rows: &'a [&'a Todo], show_done: bool) -> (r: Vec<GroupedSection<'a>>)
    ensures
        r@.len() == groups_of(todo_refs(rows@), show_done).len(),
        forall|k: int|
            0 <= k < r@.len() ==> section_is(#[trigger] r@[k], groups_of(todo_refs(rows@), show_done)[k]),
{
    let ghost rs = todo_refs(rows@);
    let mut groups: Vec<GroupedSection<'a>> = Vec::new();
    let mut i: usize = 0;
    while i < 5
        invariant
            i <= 5,
            rs == todo_refs(rows@),
            groups@.len() == groups_upto(rs, show_done, i as nat).len(),
            forall|k: int|
                0 <= k < groups@.len() ==> section_is(
                    #[trigger] groups@[k],
                    groups_upto(rs, show_done, i as nat)[k],
                ),
        decreases 5 - i,
    {
        let (status, label) = status_text(i);
        let ghost pred = |t: Todo| t.status@ == status_at(i as nat);
        let mut matching: Vec<&'a Todo> = Vec::new();
        let mut j: usize = 0;
        while j < rows.len()
            invariant
                j <= rows.len(),
                i < 5,
                rs == todo_refs(rows@),
                status@ == status_at(i as nat),
                pred == (|t: Todo| t.status@ == status_at(i as nat)),
                todo_refs(matching@) == rs.take(j as int).filter(pred),
            decreases rows.len() - j,
        {
            proof {
                assert(rs.take(j + 1) =~= rs.take(j as int).push(rs[j as int]));
                rs.take(j as int).lemma_filter_push(rs[j as int], pred);
            }
            if same_text(rows[j].status.as_str(), status) {
                matching.push(rows[j]);
            }
            assert(todo_refs(matching@) =~= rs.take(j + 1).filter(pred));
            j += 1;
        }
        assert(rs.take(j as int) =~= rs);
        if matching.len() > 0 {
            let ghost before = groups@;
            groups.push(GroupedSection { label, status, rows: matching, collapsed: !show_done && i == 3 });
            proof {
                assert forall|k: int| 0 <= k < groups@.len() implies section_is(
                    #[trigger] groups@[k],
                    groups_upto(rs, show_done, (i + 1) as nat)[k],
                ) by {
                    if k < before.len() {
                        assert(groups@[k] == before[k]);
                    }
                }
            }
        }
        i += 1;
    }
    groups
}

/// All the rows of a list of groups, group after group.
pub open spec fn group_rows(gs: Seq<(nat, Seq<Todo>, bool)>) -> Seq<Todo>
    decreases gs.len(),
{
    if gs.len() == 0 {
        Seq::empty()
    } else {
        group_rows(gs.drop_last()) + gs.last().1
    }
}

/// Every row has one of the five statuses.
pub open spec fn known_statuses(rows: Seq<Todo>) -> bool {
    forall|i: int| 0 <= i < rows.len() ==> status_position(#[trigger] rows[i].status@) is Some
}

proof fn lemma_filter_same(rows: Seq<Todo>, p: spec_fn(Todo) -> bool, q: spec_fn(Todo) -> bool)
    requires
        forall|i: int| 0 <= i < rows.len() ==> p(#[trigger] rows[i]) == q(rows[i]),
    ensures
        rows.filter(p) == rows.filter(q),
    decreases rows.len(),
{
    reveal_with_fuel(Seq::filter, 1);
    if rows.len() > 0 {
        lemma_filter_same(rows.drop_last(), p, q);
        assert(p(rows[rows.len() - 1]) == q(rows[rows.len() - 1]));
    }
}

proof fn lemma_group_is_rank(rows: Seq<Todo>, k: nat)
    requires
        known_statuses(rows),
        k < 5,
    ensures
        status_group(rows, k) == rank_group(rows, k),
{
    assert forall|i: int| 0 <= i < rows.len() implies (|t: Todo| t.status@ == status_at(k))(
        #[trigger] rows[i],
    ) == has_rank(k)(rows[i]) by {
        let s = rows[i].status@;
        let p = status_position(s)->0;
        lemma_status_roundtrip(p);
        lemma_status_roundtrip(k);
        assert(status_rank(s) == p);
        if s == status_at(k) {
            assert(p == k);
        }
        if p == k {
            assert(s == status_at(p)) by {
                reveal_strlit("started");
                reveal_strlit("blocked");
                reveal_strlit("todo");
                reveal_strlit("done");
                reveal_strlit("cancelled");
            }
        }
    }
    lemma_filter_same(rows, |t: Todo| t.status@ == status_at(k), has_rank(k));
}

proof fn lemma_groups_concat(rows: Seq<Todo>, show_done: bool, i: nat)
    requires
        i <= 5,
    ensures
        group_rows(groups_upto(rows, show_done, i)) == (if i == 0 {
            Seq::<Todo>::empty()
        } else {
            group_rows(groups_upto(rows, show_done, (i - 1) as nat)) + status_group(
                rows,
                (i - 1) as nat,
            )
        }),
{
    if i > 0 {
        let prev = groups_upto(rows, show_done, (i - 1) as nat);
        let g = status_group(rows, (i - 1) as nat);
        if g.len() > 0 {
            let gs = prev.push(((i - 1) as nat, g, !show_done && i - 1 == 3));
            assert(gs.drop_last() =~= prev);
        } else {
            assert(group_rows(prev) + g =~= group_rows(prev));
        }
    }
}

/// With every status known, the grouped list shows exactly the rows in
/// display order: the groups, read one after another, are the rows sorted
/// by status with the order inside a status kept. (Rows of an unknown
/// status are in no group.)
pub proof fn lemma_groups_are_display_order(rows: Seq<Todo>, show_done: bool)
    requires
        known_statuses(rows),
    ensures
        group_rows(groups_of(rows, show_done)) == display_order(rows),
{
    lemma_groups_concat(rows, show_done, 0);
    lemma_groups_concat(rows, show_done, 1);
    lemma_groups_concat(rows, show_done, 2);
    lemma_groups_concat(rows, show_done, 3);
    lemma_groups_concat(rows, show_done, 4);
    lemma_groups_concat(rows, show_done, 5);
    lemma_group_is_rank(rows, 0);
    lemma_group_is_rank(rows, 1);
    lemma_group_is_rank(rows, 2);
    lemma_group_is_rank(rows, 3);
    lemma_group_is_rank(rows, 4);
    assert(group_rows(groups_upto(rows, show_done, 0)) =~= Seq::<Todo>::empty());
    assert(Seq::<Todo>::empty() + rank_group(rows, 0) =~= rank_group(rows, 0));
}

/// A filter keeps something exactly when some element passes.
proof fn lemma_filter_nonempty<A>(s: Seq<A>, f: spec_fn(A) -> bool)
    ensures
        s.filter(f).len() > 0 <==> exists|i: int| 0 <= i < s.len() && f(#[trigger] s[i]),
    decreases s.len(),
{
    reveal_with_fuel(Seq::filter, 1);
    if s.len() > 0 {
        let d = s.drop_last();
        lemma_filter_nonempty(d, f);
        if exists|i: int| 0 <= i < d.len() && f(#[trigger] d[i]) {
            let i = choose|i: int| 0 <= i < d.len() && f(#[trigger] d[i]);
            assert(s[i] == d[i]);
        }
        if exists|i: int| 0 <= i < s.len() && f(#[trigger] s[i]) {
            let i = choose|i: int| 0 <= i < s.len() && f(#[trigger] s[i]);
            if i < s.len() - 1 {
                assert(d[i] == s[i]);
            }
        }
    }
}

/// The groups of the first `i` statuses: each holds the non-empty group of
/// its status, collapsed when it is the done group and done rows are
/// hidden; a status has a group exactly when its group is non-empty; and
/// the two settings of `show_done` give the same statuses and rows.
proof fn lemma_groups_upto(rows: Seq<Todo>, show_done: bool, i: nat)
    requires
        i <= 5,
    ensures
        forall|k: int| 0 <= k < groups_upto(rows, show_done, i).len() ==> {
            let g = #[trigger] groups_upto(rows, show_done, i)[k];
            &&& g.0 < i
            &&& g.1 == status_group(rows, g.0)
            &&& g.1.len() > 0
            &&& g.2 == (!show_done && g.0 == 3)
        },
        forall|p: nat| p < i ==> ((exists|k: int| 0 <= k < groups_upto(rows, show_done, i).len() && (
            #[trigger] groups_upto(rows, show_done, i)[k]).0 == p) <==> status_group(rows, p).len() > 0),
        groups_upto(rows, true, i).len() == groups_upto(rows, false, i).len(),
        forall|k: int| 0 <= k < groups_upto(rows, true, i).len() ==> (#[trigger] groups_upto(rows, true, i)[k]).0
            == groups_upto(rows, false, i)[k].0 && groups_upto(rows, true, i)[k].1 == groups_upto(rows, false, i)[k].1,
    decreases i,
{
    if i > 0 {
        let j = (i - 1) as nat;
        lemma_groups_upto(rows, show_done, j);
        lemma_groups_upto(rows, !show_done, j);
        let prev = groups_upto(rows, show_done, j);
        let g = status_group(rows, j);
        let gs = groups_upto(rows, show_done, i);
        if g.len() > 0 {
            assert(gs == prev.push((j, g, !show_done && j == 3)));
            assert forall|p: nat| p < i implies ((exists|k: int| 0 <= k < gs.len() && (#[trigger] gs[k]).0 == p)
                <==> status_group(rows, p).len() > 0) by {
                if p < j {
                    if exists|k: int| 0 <= k < gs.len() && (#[trigger] gs[k]).0 == p {
                        let k = choose|k: int| 0 <= k < gs.len() && (#[trigger] gs[k]).0 == p;
                        assert(k < prev.len());
                        assert(prev[k].0 == p);
                    }
                    if exists|k: int| 0 <= k < prev.len() && (#[trigger] prev[k]).0 == p {
                        let k = choose|k: int| 0 <= k < prev.len() && (#[trigger] prev[k]).0 == p;
                        assert(gs[k].0 == p);
                    }
                } else {
                    assert(gs[prev.len() as int].0 == p);
                }
            }
        } else {
            assert(gs == prev);
            assert forall|p: nat| p < i implies ((exists|k: int| 0 <= k < gs.len() && (#[trigger] gs[k]).0 == p)
                <==> status_group(rows, p).len() > 0) by {
                if p == j {
                    if exists|k: int| 0 <= k < gs.len() && (#[trigger] gs[k]).0 == p {
                        let k = choose|k: int| 0 <= k < gs.len() && (#[trigger] gs[k]).0 == p;
                        assert(prev[k].0 < j);
                    }
                }
            }
        }
    }
}

/// The number of rows whose status is one of the first `i` of the display
/// order.
pub open spec fn count_upto(rows: Seq<Todo>, i: nat) -> nat
    decreases i,
{
    if i == 0 {
        0
    } else {
        count_upto(rows, (i - 1) as nat) + status_group(rows, (i - 1) as nat).len()
    }
}

/// A row of a known status.
pub open spec fn has_known_status(t: Todo) -> bool {
    status_position(t.status@) is Some
}

proof fn lemma_group_rows_count(rows: Seq<Todo>, show_done: bool, i: nat)
    requires
        i <= 5,
    ensures
        group_rows(groups_upto(rows, show_done, i)).len() == count_upto(rows, i),
    decreases i,
{
    lemma_groups_concat(rows, show_done, i);
    if i > 0 {
        lemma_group_rows_count(rows, show_done, (i - 1) as nat);
    }
}

/// Counting by the five statuses counts the rows of a known status.
proof fn lemma_count_known(rows: Seq<Todo>)
    ensures
        count_upto(rows, 5) == rows.filter(|t: Todo| has_known_status(t)).len(),
    decreases rows.len(),
{
    reveal_with_fuel(Seq::filter, 1);
    reveal_with_fuel(count_upto, 6);
    if rows.len() > 0 {
        let d = rows.drop_last();
        let x = rows.last();
        lemma_count_known(d);
        lemma_status_roundtrip(0);
        lemma_status_roundtrip(1);
        lemma_status_roundtrip(2);
        lemma_status_roundtrip(3);
        lemma_status_roundtrip(4);
        let p = status_position(x.status@);
        if p is Some {
            assert(x.status@ == status_at(p->0)) by {
                reveal_strlit("started");
                reveal_strlit("blocked");
                reveal_strlit("todo");
                reveal_strlit("done");
                reveal_strlit("cancelled");
            }
        }
        assert(count_upto(d, 5) == status_group(d, 0).len() + status_group(d, 1).len() + status_group(d, 2).len()
            + status_group(d, 3).len() + status_group(d, 4).len());
    }
}

/// Grouping loses and invents no row: every group holds the (non-empty)
/// rows of one status of the display order; a status has a group exactly
/// when some row has it; the groups together hold as many rows as there
/// are rows of a known status, so each such row is in exactly one group and
/// a row of another status in none; and showing done rows changes only
/// whether the done group is collapsed.
pub proof fn lemma_groups_partition(rows: Seq<Todo>, show_done: bool)
    ensures
        forall|k: int| 0 <= k < groups_of(rows, show_done).len() ==> {
            let g = #[trigger] groups_of(rows, show_done)[k];
            &&& g.0 < 5
            &&& g.1 == status_group(rows, g.0)
            &&& g.1.len() > 0
            &&& g.2 == (!show_done && g.0 == 3)
        },
        forall|p: nat| #![trigger status_at(p)] p < 5 ==> ((exists|k: int| 0 <= k < groups_of(rows, show_done).len() && (
            #[trigger] groups_of(rows, show_done)[k]).0 == p) <==> (exists|i: int| 0 <= i < rows.len() && (
            #[trigger] rows[i]).status@ == status_at(p))),
        group_rows(groups_of(rows, show_done)).len() == rows.filter(|t: Todo| has_known_status(t)).len(),
        groups_of(rows, true).len() == groups_of(rows, false).len(),
        forall|k: int| 0 <= k < groups_of(rows, true).len() ==> (#[trigger] groups_of(rows, true)[k]).0
            == groups_of(rows, false)[k].0 && groups_of(rows, true)[k].1 == groups_of(rows, false)[k].1,
{
    lemma_groups_upto(rows, show_done, 5);
    lemma_groups_upto(rows, true, 5);
    assert forall|p: nat| p < 5 implies (status_group(rows, p).len() > 0 <==> (exists|i: int| 0 <= i < rows.len()
        && (#[trigger] rows[i]).status@ == status_at(p))) by {
        lemma_filter_nonempty(rows, |t: Todo| t.status@ == status_at(p));
    }
    lemma_group_rows_count(rows, show_done, 5);
    lemma_count_known(rows);
}

// ---- Caret in a text field ----

/// True when character `k` of `s` is the last one that starts at or before
/// byte `c`.
pub open spec fn starts_by(s: Seq<char>, c: int, k: int) -> bool {
    &&& 0 <= k <= s.len()
    &&& offset(s, k) <= c
    &&& (k == s.len() || offset(s, k + 1) > c)
}

/// The character index of the caret at byte `caret`, moved back to a
/// character boundary when it falls inside a character.
pub open spec fn floor_index(s: Seq<char>, caret: int) -> int {
    choose|k: int| starts_by(s, clamped(s, caret), k)
}

/// `s` with the caret glyph inserted at the caret's character.
pub open spec fn caret_text(s: Seq<char>, caret: int) -> Seq<char> {
    let k = floor_index(s, caret);
    s.take(k) + seq![Glyph::CURSOR] + s.skip(k)
}

/// Only one character index is the last one starting by a given byte.
pub proof fn lemma_floor_unique(s: Seq<char>, caret: int, k: int)
    requires
        starts_by(s, clamped(s, caret), k),
    ensures
        floor_index(s, caret) == k,
{
    let c = clamped(s, caret);
    let k2 = floor_index(s, caret);
    assert(starts_by(s, c, k2));
    if k2 < k {
        if k2 + 1 < k {
            lemma_offset_mono(s, k2 + 1, k);
        }
    } else if k < k2 {
        if k + 1 < k2 {
            lemma_offset_mono(s, k + 1, k2);
        }
    }
}

/// Renders `text` with the caret glyph at byte `caret`, moved back to a
/// character boundary when it falls inside a character.
pub fn text_with_caret(text: &str, caret: usize) -> (r: String)
    ensures
        r@ == caret_text(text@, caret as int),
{
    let v = chars_of(text);
    let total = crate::edit::text_len(text);
    let c = if caret < total {
        caret
    } else {
        total
    };
    let mut k: usize = 0;
    let mut b: usize = 0;
    proof {
        lemma_offset_ends(v@);
    }
    while k < v.len() && b + crate::edit::width_of(v[k]) <= c
        invariant
            v@ == text@,
            k <= v.len(),
            b == offset(v@, k as int),
            b <= c,
            c <= total,
            total == byte_len(v@),
            total <= isize::MAX,
        decreases v.len() - k,
    {
        proof {
            lemma_offset_step(v@, k as int);
        }
        b = b + crate::edit::width_of(v[k]);
        k += 1;
    }
    proof {
        if k < v.len() {
            lemma_offset_step(v@, k as int);
        }
    }
    let mut out: Vec<char> = Vec::new();
    let mut i: usize = 0;
    while i < k
        invariant
            i <= k <= v.len(),
            out@ == v@.take(i as int),
        decreases k - i,
    {
        out.push(v[i]);
        assert(v@.take(i + 1) =~= v@.take(i as int).push(v@[i as int]));
        i += 1;
    }
    out.push(Glyph::CURSOR);
    let mut j: usize = k;
    while j < v.len()
        invariant
            k <= j <= v.len(),
            out@ == v@.take(k as int) + seq![Glyph::CURSOR] + v@.subrange(k as int, j as int),
        decreases v.len() - j,
    {
        out.push(v[j]);
        assert(v@.subrange(k as int, j + 1) =~= v@.subrange(k as int, j as int).push(v@[j as int]));
        j += 1;
    }
    assert(out@ =~= text@.take(k as int) + seq![Glyph::CURSOR] + text@.skip(k as int));
    proof {
        lemma_floor_unique(text@, caret as int, k as int);
    }
    string_of(out.as_slice())
}

// ---- Sidebar ----

/// The todo under the cursor in the Today or Backlog list, if any.
pub open spec fn cursor_todo(app: App) -> Option<Todo> {
    let rows = app.list_rows();
    if (app.view == View::Today || app.view == View::Backlog) && app.cursor < rows.len() {
        Some(rows[app.cursor as int])
    } else {
        None
    }
}

/// The highlighted todo for the sidebar: the cursor's row of the Today or
/// Backlog list.
pub fn sidebar_todo(app: &App) -> (r: Option<&Todo>)
    ensures
        match r {
            Some(t) => cursor_todo(*app) == Some(*t),
            None => cursor_todo(*app) is None,
        },
{
    let rows = match app.view {
        View::Today => app.today_plan(),
        View::Backlog => app.backlog(),
        _ => {
            return None;
        },
    };
    if app.cursor < rows.len() {
        Some(rows[app.cursor])
    } else {
        None
    }
}

// ---- Help overlay ----

/// A keybinding row of the help overlay: the keys and what they do.
#[derive(Clone, Copy, Debug, PartialEq, Eq)]
pub struct KeybindRow {
    pub key: &'static str,
    pub desc: &'static str,
}

/// Keybinding rows as values.
pub open spec fn rows_view(v: Seq<KeybindRow>) -> Seq<(Seq<char>, Seq<char>)> {
    v.map_values(|row: KeybindRow| (row.key@, row.desc@))
}

/// A help section as values.
pub open spec fn section_view(s: (&'static str, Vec<KeybindRow>)) -> (Seq<char>, Seq<(Seq<char>, Seq<char>)>) {
    (s.0@, rows_view(s.1@))
}

/// The help table: each section's title and its (key, description) rows.
pub open spec fn help_table() -> Seq<(Seq<char>, Seq<(Seq<char>, Seq<char>)>)> {
    seq![
        ("Global"@, seq![
            ("q"@, "quit the app"@),
            ("Tab"@, "next view"@),
            ("Shift-Tab"@, "previous view"@),
            ("?"@, "this help"@),
            ("Esc"@, "close overlay / cancel action"@),
        ]),
        ("Today"@, seq![
            ("j/k"@, "move cursor"@),
            ("SPC/s"@, "status popup"@),
            ("a"@, "add todo (inline)"@),
            ("e/Enter"@, "sidebar edit"@),
            ("D"@, "toggle done group"@),
            ("J/K"@, "reorder (armed mode)"@),
            ("x"@, "unplan from today"@),
            ("c"@, "carry over yesterday's unfinished"@),
            ("b"@, "go to backlog"@),
            ("R"@, "review yesterday"@),
            ("/"@, "search / filter"@),
        ]),
        ("Backlog"@, seq![
            ("j/k"@, "move cursor"@),
            ("SPC/s"@, "status popup"@),
            ("/"@, "search / filter"@),
            ("t"@, "plan for today"@),
            ("D"@, "toggle done group"@),
            ("a"@, "add todo (inline)"@),
            ("e/Enter"@, "sidebar edit"@),
        ]),
        ("Sidebar edit"@, seq![
            ("Tab/j"@, "next field"@),
            ("Shift-Tab/k"@, "previous field"@),
            ("Enter"@, "edit / save current field"@),
            ("Esc"@, "leave field / close the edit form"@),
            ("#"@, "add a tag to the current todo"@),
        ]),
    ]
}

/// The help table's rows of section `i`.
fn section_rows(i: usize) -> (r: Vec<KeybindRow>)
    requires
        i < 4,
    ensures
        r@.map_values(|row: KeybindRow| (row.key@, row.desc@)) == help_table()[i as int].1,
{
    if i == 0 {
        let r = vec![
            KeybindRow { key: "q", desc: "quit the app" },
            KeybindRow { key: "Tab", desc: "next view" },
            KeybindRow { key: "Shift-Tab", desc: "previous view" },
            KeybindRow { key: "?", desc: "this help" },
            KeybindRow { key: "Esc", desc: "close overlay / cancel action" },
        ];
        assert(r@.map_values(|row: KeybindRow| (row.key@, row.desc@)) =~= help_table()[i as int].1);
        r
    } else if i == 1 {
        let r = vec![
            KeybindRow { key: "j/k", desc: "move cursor" },
            KeybindRow { key: "SPC/s", desc: "status popup" },
            KeybindRow { key: "a", desc: "add todo (inline)" },
            KeybindRow { key: "e/Enter", desc: "sidebar edit" },
            KeybindRow { key: "D", desc: "toggle done group" },
            KeybindRow { key: "J/K", desc: "reorder (armed mode)" },
            KeybindRow { key: "x", desc: "unplan from today" },
            KeybindRow { key: "c", desc: "carry over yesterday's unfinished" },
            KeybindRow { key: "b", desc: "go to backlog" },
            KeybindRow { key: "R", desc: "review yesterday" },
            KeybindRow { key: "/", desc: "search / filter" },
        ];
        assert(r@.map_values(|row: KeybindRow| (row.key@, row.desc@)) =~= help_table()[i as int].1);
        r
    } else if i == 2 {
        let r = vec![
            KeybindRow { key: "j/k", desc: "move cursor" },
            KeybindRow { key: "SPC/s", desc: "status popup" },
            KeybindRow { key: "/", desc: "search / filter" },
            KeybindRow { key: "t", desc: "plan for today" },
            KeybindRow { key: "D", desc: "toggle done group" },
            KeybindRow { key: "a", desc: "add todo (inline)" },
            KeybindRow { key: "e/Enter", desc: "sidebar edit" },
        ];
        assert(r@.map_values(|row: KeybindRow| (row.key@, row.desc@)) =~= help_table()[i as int].1);
        r
    } else {
        let r = vec![
            KeybindRow { key: "Tab/j", desc: "next field" },
            KeybindRow { key: "Shift-Tab/k", desc: "previous field" },
            KeybindRow { key: "Enter", desc: "edit / save current field" },
            KeybindRow { key: "Esc", desc: "leave field / close the edit form" },
            KeybindRow { key: "#", desc: "add a tag to the current todo" },
        ];
        assert(r@.map_values(|row: KeybindRow| (row.key@, row.desc@)) =~= help_table()[i as int].1);
        r
    }
}

fn section_title(i: usize) -> (r: &'static str)
    requires
        i < 4,
    ensures
        r@ == help_table()[i as int].0,
{
    if i == 0 {
        "Global"
    } else if i == 1 {
        "Today"
    } else if i == 2 {
        "Backlog"
    } else {
        "Sidebar edit"
    }
}

/// A row is shown for a (lower-cased) needle when the needle is empty or
/// occurs in the lower-cased key or description.
pub open spec fn row_shown(row: (Seq<char>, Seq<char>), needle: Seq<char>) -> bool {
    needle.len() == 0 || contains_seq(lowercase(row.0), needle) || contains_seq(lowercase(row.1), needle)
}

/// The needle a help filter searches for: nothing for the empty filter,
/// else the filter lower-cased.
pub open spec fn help_needle(filter: Seq<char>) -> Seq<char> {
    if filter.len() == 0 {
        Seq::empty()
    } else {
        lowercase(filter)
    }
}

/// The first `i` help sections filtered by `filter` (lower-cased), the
/// sections left without rows dropped.
pub open spec fn sections_upto(filter: Seq<char>, i: nat) -> Seq<(Seq<char>, Seq<(Seq<char>, Seq<char>)>)>
    decreases i,
{
    if i == 0 {
        Seq::empty()
    } else {
        let prev = sections_upto(filter, (i - 1) as nat);
        let sec = help_table()[i - 1];
        let rows = sec.1.filter(|r: (Seq<char>, Seq<char>)| row_shown(r, help_needle(filter)));
        if rows.len() > 0 {
            prev.push((sec.0, rows))
        } else {
            prev
        }
    }
}

/// The help overlay's sections for a filter.
pub open spec fn help_for(filter: Seq<char>) -> Seq<(Seq<char>, Seq<(Seq<char>, Seq<char>)>)> {
    sections_upto(filter, 4)
}

/// Filters the keybinding sections by `filter` (case-insensitive on keys
/// and descriptions), dropping sections left empty. An empty filter keeps
/// every section whole.
pub fn filter_keybinds(filter: &str) -> (r: Vec<(&'static str, Vec<KeybindRow>)>)
    ensures
        r@.map_values(|s: (&'static str, Vec<KeybindRow>)| section_view(s)) == help_for(filter@),
{
    let needle = if chars_of(filter).len() == 0 {
        Vec::new()
    } else {
        to_lowercase_chars(filter)
    };
    let mut out: Vec<(&'static str, Vec<KeybindRow>)> = Vec::new();
    let mut i: usize = 0;
    while i < 4
        invariant
            i <= 4,
            needle@ == help_needle(filter@),
            out@.map_values(|s: (&'static str, Vec<KeybindRow>)| section_view(s)) == sections_upto(
                filter@,
                i as nat,
            ),
        decreases 4 - i,
    {
        let rows = section_rows(i);
        let ghost pred = |r: (Seq<char>, Seq<char>)| row_shown(r, help_needle(filter@));
        let ghost rv = rows_view(rows@);
        let mut kept: Vec<KeybindRow> = Vec::new();
        let mut j: usize = 0;
        while j < rows.len()
            invariant
                j <= rows.len(),
                i < 4,
                needle@ == help_needle(filter@),
                rv == rows_view(rows@),
                pred == (|r: (Seq<char>, Seq<char>)| row_shown(r, help_needle(filter@))),
                rows_view(kept@) == rv.take(j as int).filter(pred),
            decreases rows.len() - j,
        {
            proof {
                assert(rv.take(j + 1) =~= rv.take(j as int).push(rv[j as int]));
                rv.take(j as int).lemma_filter_push(rv[j as int], pred);
            }
            let row = rows[j];
            let keep = needle.len() == 0 || contains_chars(&to_lowercase_chars(row.key), &needle)
                || contains_chars(&to_lowercase_chars(row.desc), &needle);
            let ghost before = kept@;
            if keep {
                kept.push(row);
                assert(rows_view(kept@) =~= rows_view(before).push((row.key@, row.desc@)));
            }
            assert(rows_view(kept@) =~= rv.take(j + 1).filter(pred));
            j += 1;
        }
        assert(rv.take(j as int) =~= rv);
        if kept.len() > 0 {
            let ghost before = out@;
            let title = section_title(i);
            out.push((title, kept));
            assert(out@.map_values(|s: (&'static str, Vec<KeybindRow>)| section_view(s)) =~= before.map_values(
                |s: (&'static str, Vec<KeybindRow>)| section_view(s),
            ).push((title@, rows_view(kept@))));
        }
        i += 1;
    }
    out
}

/// An empty help filter keeps every section whole: the help shows the full
/// keybinding table.
pub proof fn lemma_empty_filter_keeps_all()
    ensures
        help_for(Seq::empty()) == help_table(),
{
    let e = Seq::<char>::empty();
    let pred = |r: (Seq<char>, Seq<char>)| row_shown(r, help_needle(e));
    assert forall|k: int| 0 <= k < 4 implies #[trigger] help_table()[k].1.filter(pred) == help_table()[k].1 by {
        let rows = help_table()[k].1;
        lemma_filter_all(rows, pred);
    }
    reveal_with_fuel(sections_upto, 5);
    assert(help_table().len() == 4);
    assert(help_for(e) =~= help_table());
}

/// Filtering by a predicate every element meets keeps the sequence.
proof fn lemma_filter_all<A>(s: Seq<A>, p: spec_fn(A) -> bool)
    requires
        forall|j: int| 0 <= j < s.len() ==> p(s[j]),
    ensures
        s.filter(p) == s,
    decreases s.len(),
{
    reveal_with_fuel(Seq::filter, 1);
    if s.len() > 0 {
        lemma_filter_all(s.drop_last(), p);
        assert(s.drop_last().push(s.last()) =~= s);
    } else {
        assert(s.filter(p) =~= s);
    }
}

// ---- Status bar and tab bar ----

/// The key hints of the status bar: by mode, else by view.
pub open spec fn hints_for(app: App) -> Seq<char> {
    match app.mode {
        Mode::InlineCreate { .. } => "enter save \u{b7} esc cancel \u{b7} # tag"@,
        Mode::InlineEdit { .. } => "enter save \u{b7} esc revert"@,
        Mode::Search { .. } => "type to filter \u{b7} esc clears"@,
        Mode::Reorder { .. } => "J/K move \u{b7} enter drop \u{b7} esc abort"@,
        Mode::Confirm { .. } => "y confirm \u{b7} n cancel"@,
        Mode::StatusSelect { reason, .. } => if reason is Some {
            "type reason \u{b7} enter commit \u{b7} esc cancel"@
        } else {
            "j/k move  1-5 select  enter commit  esc cancel"@
        },
        Mode::SidebarEdit { input_active, .. } => if input_active {
            "enter save field \u{b7} esc back to fields \u{b7} # tag"@
        } else {
            "tab/j next field \u{b7} shift-tab/k prev \u{b7} enter edit \u{b7} esc close \u{b7} ? keys"@
        },
        Mode::SidebarAdd { input_active, .. } => if input_active {
            "enter create \u{b7} esc cancel \u{b7} # tag"@
        } else {
            "tab/j next field \u{b7} shift-tab/k prev \u{b7} enter edit \u{b7} esc cancel \u{b7} ? keys"@
        },
        Mode::Help { .. } => "type to filter \u{b7} esc close"@,
        _ => match app.view {
            View::Today => "j/k move  SPC status  a add  e edit  enter detail  D done  ? keys"@,
            View::Backlog => "/ search  t plan today  SPC status  D done  enter detail  a add"@,
            View::Inbox => "C convert  L link  d dismiss  o open url  s sync group  D show dismissed"@,
            View::Review => "h/l prev/next day  g pick date  enter open todo  a actor filter"@,
            View::Sync => "s sync selected  S sync all  esc back"@,
        },
    }
}

/// The key hints of the status bar for the current mode and view.
pub fn status_hints(app: &App) -> (r: &'static str)
    ensures
        r@ == hints_for(*app),
{
    match &app.mode {
        Mode::InlineCreate { .. } => "enter save \u{b7} esc cancel \u{b7} # tag",
        Mode::InlineEdit { .. } => "enter save \u{b7} esc revert",
        Mode::Search { .. } => "type to filter \u{b7} esc clears",
        Mode::Reorder { .. } => "J/K move \u{b7} enter drop \u{b7} esc abort",
        Mode::Confirm { .. } => "y confirm \u{b7} n cancel",
        Mode::StatusSelect { reason, .. } => if reason.is_some() {
            "type reason \u{b7} enter commit \u{b7} esc cancel"
        } else {
            "j/k move  1-5 select  enter commit  esc cancel"
        },
        Mode::SidebarEdit { input_active, .. } => if *input_active {
            "enter save field \u{b7} esc back to fields \u{b7} # tag"
        } else {
            "tab/j next field \u{b7} shift-tab/k prev \u{b7} enter edit \u{b7} esc close \u{b7} ? keys"
        },
        Mode::SidebarAdd { input_active, .. } => if *input_active {
            "enter create \u{b7} esc cancel \u{b7} # tag"
        } else {
            "tab/j next field \u{b7} shift-tab/k prev \u{b7} enter edit \u{b7} esc cancel \u{b7} ? keys"
        },
        Mode::Help { .. } => "type to filter \u{b7} esc close",
        _ => match app.view {
            View::Today => "j/k move  SPC status  a add  e edit  enter detail  D done  ? keys",
            View::Backlog => "/ search  t plan today  SPC status  D done  enter detail  a add",
            View::Inbox => "C convert  L link  d dismiss  o open url  s sync group  D show dismissed",
            View::Review => "h/l prev/next day  g pick date  enter open todo  a actor filter",
            View::Sync => "s sync selected  S sync all  esc back",
        },
    }
}

/// How many todos of a list have a status.
pub open spec fn count_status(rows: Seq<Todo>, status: Seq<char>) -> nat {
    rows.filter(|t: Todo| t.status@ == status).len()
}

/// The context word of the tab bar: a count for the current view.
pub open spec fn context_for(app: App) -> Seq<char> {
    let plan = display_order(active_plan(app.data.plan@));
    match app.view {
        View::Today => decimal(plan.len()) + " planned \u{b7} "@ + decimal(count_status(plan, "done"@))
            + " done"@,
        View::Backlog => decimal(display_order(backlog_rows(app.data.todos@, app.data.plan@)).len())
            + " todos \u{b7} "@ + decimal(plan.len()) + " on today"@,
        View::Inbox => {
            let prs = app.data.pulls@.filter(
                |p: PullRequest| app.show_dismissed || p.dismissed_at is None,
            );
            let lins = app.data.linears@.filter(
                |l: crate::gql::LinearIssue| app.show_dismissed || l.dismissed_at is None,
            );
            let need = prs.filter(|p: PullRequest| p.review_requested).len() + lins.filter(
                |l: crate::gql::LinearIssue| l.assigned_to_me,
            ).len();
            decimal(need) + " need you \u{b7} "@ + decimal(prs.len() + lins.len()) + " total"@
        },
        View::Review => {
            let n: nat = match app.review {
                Some(r) => r.planned@.len() + r.touched@.len(),
                None => 0,
            };
            "h/l change day \u{b7} "@ + decimal(n) + " entries"@
        },
        View::Sync => decimal(app.data.sync@.len()) + " sources configured"@,
    }
}

/// Filtering twice keeps what passes both tests.
proof fn lemma_filter_both<A>(s: Seq<A>, f: spec_fn(A) -> bool, g: spec_fn(A) -> bool)
    ensures
        s.filter(f).filter(g) == s.filter(|x: A| f(x) && g(x)),
    decreases s.len(),
{
    reveal_with_fuel(Seq::filter, 1);
    if s.len() > 0 {
        lemma_filter_both(s.drop_last(), f, g);
        let d = s.drop_last();
        if f(s.last()) {
            assert(s.filter(f) == d.filter(f).push(s.last()));
            assert(s.filter(f).drop_last() =~= d.filter(f));
        }
    }
}

/// The Inbox's context counts the shown items that need the user (pull
/// requests asking for the user's review and Linear issues assigned to the
/// user) before " need you", and every shown item before " total"; with no
/// such item shown the first count is 0.
pub proof fn lemma_inbox_context_counts(app: App)
    requires
        app.view == View::Inbox,
    ensures
        context_for(app) == decimal(app.data.pulls@.filter(
            |p: PullRequest| (app.show_dismissed || p.dismissed_at is None) && p.review_requested,
        ).len() + app.data.linears@.filter(
            |l: crate::gql::LinearIssue| (app.show_dismissed || l.dismissed_at is None) && l.assigned_to_me,
        ).len()) + " need you \u{b7} "@ + decimal(app.data.pulls@.filter(
            |p: PullRequest| app.show_dismissed || p.dismissed_at is None,
        ).len() + app.data.linears@.filter(
            |l: crate::gql::LinearIssue| app.show_dismissed || l.dismissed_at is None,
        ).len()) + " total"@,
        (forall|i: int| 0 <= i < app.data.pulls@.len() && (app.show_dismissed || app.data.pulls@[i].dismissed_at is None)
            ==> !(#[trigger] app.data.pulls@[i]).review_requested) && (forall|i: int| 0 <= i < app.data.linears@.len() && (
            app.show_dismissed || app.data.linears@[i].dismissed_at is None)
            ==> !(#[trigger] app.data.linears@[i]).assigned_to_me) ==> context_for(app) == seq!['0'] + " need you \u{b7} "@
            + decimal(app.data.pulls@.filter(|p: PullRequest| app.show_dismissed || p.dismissed_at is None).len()
            + app.data.linears@.filter(|l: crate::gql::LinearIssue| app.show_dismissed || l.dismissed_at is None).len())
            + " total"@,
{
    let fp = |p: PullRequest| app.show_dismissed || p.dismissed_at is None;
    let gp = |p: PullRequest| p.review_requested;
    let fl = |l: crate::gql::LinearIssue| app.show_dismissed || l.dismissed_at is None;
    let gl = |l: crate::gql::LinearIssue| l.assigned_to_me;
    lemma_filter_both(app.data.pulls@, fp, gp);
    lemma_filter_both(app.data.linears@, fl, gl);
    let bp = |p: PullRequest| (app.show_dismissed || p.dismissed_at is None) && p.review_requested;
    let bl = |l: crate::gql::LinearIssue| (app.show_dismissed || l.dismissed_at is None) && l.assigned_to_me;
    assert(app.data.pulls@.filter(|x: PullRequest| fp(x) && gp(x)) == app.data.pulls@.filter(bp)) by {
        lemma_filter_same_any(app.data.pulls@, |x: PullRequest| fp(x) && gp(x), bp);
    }
    assert(app.data.linears@.filter(|x: crate::gql::LinearIssue| fl(x) && gl(x)) == app.data.linears@.filter(bl)) by {
        lemma_filter_same_any(app.data.linears@, |x: crate::gql::LinearIssue| fl(x) && gl(x), bl);
    }
    lemma_filter_nonempty(app.data.pulls@, bp);
    lemma_filter_nonempty(app.data.linears@, bl);
}

proof fn lemma_filter_same_any<A>(s: Seq<A>, p: spec_fn(A) -> bool, q: spec_fn(A) -> bool)
    requires
        forall|x: A| #[trigger] p(x) == q(x),
    ensures
        s.filter(p) == s.filter(q),
{
    assert(p =~= q);
}

/// The filter of a joined sequence is the join of the filters.
proof fn lemma_filter_concat<A>(x: Seq<A>, y: Seq<A>, f: spec_fn(A) -> bool)
    ensures
        (x + y).filter(f) == x.filter(f) + y.filter(f),
    decreases y.len(),
{
    reveal_with_fuel(Seq::filter, 1);
    if y.len() == 0 {
        assert(x + y =~= x);
        assert(y.filter(f) =~= Seq::<A>::empty());
        assert(x.filter(f) + y.filter(f) =~= x.filter(f));
    } else {
        lemma_filter_concat(x, y.drop_last(), f);
        assert((x + y).drop_last() =~= x + y.drop_last());
        assert((x + y).last() == y.last());
        if f(y.last()) {
            assert(x.filter(f) + y.filter(f) =~= (x.filter(f) + y.drop_last().filter(f)).push(y.last()));
        }
    }
}

/// The rows that pass `f`, counted rank by rank.
pub open spec fn rank_counts(rows: Seq<Todo>, f: spec_fn(Todo) -> bool) -> nat {
    rank_group(rows, 0).filter(f).len() + rank_group(rows, 1).filter(f).len() + rank_group(rows, 2).filter(f).len()
        + rank_group(rows, 3).filter(f).len() + rank_group(rows, 4).filter(f).len()
}

/// Every row has exactly one rank, so counting rank by rank counts every
/// row that passes.
proof fn lemma_rank_counts(rows: Seq<Todo>, f: spec_fn(Todo) -> bool)
    ensures
        rank_counts(rows, f) == rows.filter(f).len(),
    decreases rows.len(),
{
    reveal_with_fuel(Seq::filter, 1);
    if rows.len() > 0 {
        let d = rows.drop_last();
        lemma_rank_counts(d, f);
        let x = rows.last();
        assert(status_rank(x.status@) < 5);
        assert forall|k: nat| k < 5 implies #[trigger] rank_group(rows, k).filter(f).len() == rank_group(d, k).filter(
            f,
        ).len() + (if status_rank(x.status@) == k && f(x) { 1int } else { 0 }) by {
            if has_rank(k)(x) {
                assert(rank_group(rows, k) == rank_group(d, k).push(x));
                assert(rank_group(rows, k).filter(f) == (if f(x) {
                    rank_group(d, k).filter(f).push(x)
                } else {
                    rank_group(d, k).filter(f)
                })) by {
                    assert(rank_group(rows, k).drop_last() =~= rank_group(d, k));
                }
            } else {
                assert(rank_group(rows, k) == rank_group(d, k));
            }
        }
        assert(rank_group(rows, 0).filter(f).len() == rank_group(d, 0).filter(f).len() + (if status_rank(x.status@) == 0 && f(x) { 1int } else { 0 }));
        assert(rank_group(rows, 1).filter(f).len() == rank_group(d, 1).filter(f).len() + (if status_rank(x.status@) == 1 && f(x) { 1int } else { 0 }));
        assert(rank_group(rows, 2).filter(f).len() == rank_group(d, 2).filter(f).len() + (if status_rank(x.status@) == 2 && f(x) { 1int } else { 0 }));
        assert(rank_group(rows, 3).filter(f).len() == rank_group(d, 3).filter(f).len() + (if status_rank(x.status@) == 3 && f(x) { 1int } else { 0 }));
        assert(rank_group(rows, 4).filter(f).len() == rank_group(d, 4).filter(f).len() + (if status_rank(x.status@) == 4 && f(x) { 1int } else { 0 }));
    }
}

/// Putting rows in display order keeps how many of them pass any test.
pub proof fn lemma_display_order_counts(rows: Seq<Todo>, f: spec_fn(Todo) -> bool)
    ensures
        display_order(rows).filter(f).len() == rows.filter(f).len(),
        display_order(rows).len() == rows.len(),
{
    let g = |t: Todo| true;
    lemma_filter_concat(rank_group(rows, 0), rank_group(rows, 1), f);
    lemma_filter_concat(rank_group(rows, 0) + rank_group(rows, 1), rank_group(rows, 2), f);
    lemma_filter_concat(rank_group(rows, 0) + rank_group(rows, 1) + rank_group(rows, 2), rank_group(rows, 3), f);
    lemma_filter_concat(
        rank_group(rows, 0) + rank_group(rows, 1) + rank_group(rows, 2) + rank_group(rows, 3),
        rank_group(rows, 4),
        f,
    );
    lemma_rank_counts(rows, f);
    lemma_rank_counts(rows, g);
    lemma_filter_all_true(rows, g);
    assert forall|k: nat| k < 5 implies #[trigger] rank_group(rows, k).filter(g) == rank_group(rows, k) by {
        lemma_filter_all_true(rank_group(rows, k), g);
    }
    assert(rank_group(rows, 0).filter(g) == rank_group(rows, 0));
    assert(rank_group(rows, 1).filter(g) == rank_group(rows, 1));
    assert(rank_group(rows, 2).filter(g) == rank_group(rows, 2));
    assert(rank_group(rows, 3).filter(g) == rank_group(rows, 3));
    assert(rank_group(rows, 4).filter(g) == rank_group(rows, 4));
}

proof fn lemma_filter_all_true<A>(s: Seq<A>, g: spec_fn(A) -> bool)
    requires
        forall|x: A| #[trigger] g(x),
    ensures
        s.filter(g) == s,
{
    lemma_filter_all(s, g);
}

/// Today's context counts the todos on the active plan before " planned"
/// and those of them that are done before " done"; the Backlog's counts
/// the backlog rows and the active plan; the Review's counts the reviewed
/// day's planned and touched todos; the Sync view's counts the sources.
pub proof fn lemma_context_counts(app: App)
    ensures
        app.view == View::Today ==> context_for(app) == decimal(active_plan(app.data.plan@).len()) + " planned \u{b7} "@
            + decimal(active_plan(app.data.plan@).filter(|t: Todo| t.status@ == "done"@).len()) + " done"@,
        app.view == View::Backlog ==> context_for(app) == decimal(backlog_rows(app.data.todos@, app.data.plan@).len())
            + " todos \u{b7} "@ + decimal(active_plan(app.data.plan@).len()) + " on today"@,
        app.view == View::Review ==> context_for(app) == "h/l change day \u{b7} "@ + decimal(match app.review {
            Some(r) => r.planned@.len() + r.touched@.len(),
            None => 0,
        }) + " entries"@,
        app.view == View::Sync ==> context_for(app) == decimal(app.data.sync@.len()) + " sources configured"@,
{
    lemma_display_order_counts(active_plan(app.data.plan@), |t: Todo| t.status@ == "done"@);
    lemma_display_order_counts(backlog_rows(app.data.todos@, app.data.plan@), |t: Todo| true);
}

fn count_done(rows: &Vec<&Todo>) -> (r: usize)
    ensures
        r == count_status(todo_refs(rows@), "done"@),
{
    let ghost t = todo_refs(rows@);
    let ghost pred = |x: Todo| x.status@ == "done"@;
    let mut n: usize = 0;
    let mut i: usize = 0;
    while i < rows.len()
        invariant
            i <= rows.len(),
            t == todo_refs(rows@),
            pred == (|x: Todo| x.status@ == "done"@),
            n == t.take(i as int).filter(pred).len(),
            n <= i,
        decreases rows.len() - i,
    {
        proof {
            assert(t.take(i + 1) =~= t.take(i as int).push(t[i as int]));
            t.take(i as int).lemma_filter_push(t[i as int], pred);
        }
        if same_text(rows[i].status.as_str(), "done") {
            n = n + 1;
        }
        i += 1;
    }
    assert(t.take(i as int) =~= t);
    n
}

fn count_requested(prs: &Vec<&PullRequest>) -> (r: usize)
    ensures
        r == crate::app::pr_refs(prs@).filter(|p: PullRequest| p.review_requested).len(),
{
    let ghost t = crate::app::pr_refs(prs@);
    let ghost pred = |p: PullRequest| p.review_requested;
    let mut n: usize = 0;
    let mut i: usize = 0;
    while i < prs.len()
        invariant
            i <= prs.len(),
            t == crate::app::pr_refs(prs@),
            pred == (|p: PullRequest| p.review_requested),
            n == t.take(i as int).filter(pred).len(),
            n <= i,
        decreases prs.len() - i,
    {
        proof {
            assert(t.take(i + 1) =~= t.take(i as int).push(t[i as int]));
            t.take(i as int).lemma_filter_push(t[i as int], pred);
        }
        if prs[i].review_requested {
            n = n + 1;
        }
        i += 1;
    }
    assert(t.take(i as int) =~= t);
    n
}

fn count_assigned(lins: &Vec<&crate::gql::LinearIssue>) -> (r: usize)
    ensures
        r == crate::app::linear_refs(lins@).filter(|l: crate::gql::LinearIssue| l.assigned_to_me).len(),
{
    let ghost t = crate::app::linear_refs(lins@);
    let ghost pred = |l: crate::gql::LinearIssue| l.assigned_to_me;
    let mut n: usize = 0;
    let mut i: usize = 0;
    while i < lins.len()
        invariant
            i <= lins.len(),
            t == crate::app::linear_refs(lins@),
            pred == (|l: crate::gql::LinearIssue| l.assigned_to_me),
            n == t.take(i as int).filter(pred).len(),
            n <= i,
        decreases lins.len() - i,
    {
        proof {
            assert(t.take(i + 1) =~= t.take(i as int).push(t[i as int]));
            t.take(i as int).lemma_filter_push(t[i as int], pred);
        }
        if lins[i].assigned_to_me {
            n = n + 1;
        }
        i += 1;
    }
    assert(t.take(i as int) =~= t);
    n
}

/// The context word of the tab bar.
pub fn context_word(app: &App) -> (r: String)
    ensures
        r@ == context_for(*app),
{
    let mut out: Vec<char> = Vec::new();
    match app.view {
        View::Today => {
            let plan = app.today_plan();
            push_decimal(&mut out, plan.len() as u128);
            push_str(&mut out, " planned \u{b7} ");
            push_decimal(&mut out, count_done(&plan) as u128);
            push_str(&mut out, " done");
        },
        View::Backlog => {
            push_decimal(&mut out, app.backlog().len() as u128);
            push_str(&mut out, " todos \u{b7} ");
            push_decimal(&mut out, app.today_plan().len() as u128);
            push_str(&mut out, " on today");
        },
        View::Inbox => {
            let prs = app.inbox_prs();
            let lins = app.inbox_linears();
            let need: u128 = count_requested(&prs) as u128 + count_assigned(&lins) as u128;
            let total: u128 = prs.len() as u128 + lins.len() as u128;
            push_decimal(&mut out, need);
            push_str(&mut out, " need you \u{b7} ");
            push_decimal(&mut out, total);
            push_str(&mut out, " total");
        },
        View::Review => {
            let n: u128 = match &app.review {
                Some(r) => r.planned.len() as u128 + r.touched.len() as u128,
                None => 0,
            };
            push_str(&mut out, "h/l change day \u{b7} ");
            push_decimal(&mut out, n);
            push_str(&mut out, " entries");
        },
        View::Sync => {
            push_decimal(&mut out, app.data.sync.len() as u128);
            push_str(&mut out, " sources configured");
        },
    }
    string_of(out.as_slice())
}

// ---- Sync labels ----

/// A sync status that means a sync is running.
pub open spec fn is_syncing_status(s: Seq<char>) -> bool {
    s == "syncing"@ || s == "in_progress"@
}

/// The label of a sync group header: the spinner while a sync runs, else
/// the outcome of the last sync (no sync state reads as no token).
pub open spec fn sync_label_for(sync: Option<crate::gql::SyncState>, spinner: u8, syncing: bool) -> Seq<char> {
    if syncing || (sync matches Some(s) && is_syncing_status(s.last_status@)) {
        seq![spinner_frame(spinner)] + " syncing\u{2026}"@
    } else if sync matches Some(s) && (s.last_status@ == "ok"@ || s.last_status@ == "success"@) {
        "\u{21bb} ok"@
    } else if sync matches Some(s) && s.last_status@ == "error"@ {
        "\u{25b2} error"@
    } else {
        "\u{2300} no token"@
    }
}

/// The label of a sync group header.
pub fn sync_label(sync: Option<&crate::gql::SyncState>, spinner: u8, syncing: bool) -> (r: String)
    ensures
        r@ == sync_label_for(
            match sync {
                Some(s) => Some(*s),
                None => None,
            },
            spinner,
            syncing,
        ),
{
    let running = syncing || match sync {
        Some(s) => same_text(s.last_status.as_str(), "syncing") || same_text(
            s.last_status.as_str(),
            "in_progress",
        ),
        None => false,
    };
    let mut out: Vec<char> = Vec::new();
    if running {
        out.push(spinner_at(spinner));
        push_str(&mut out, " syncing\u{2026}");
    } else {
        match sync {
            Some(s) => {
                if same_text(s.last_status.as_str(), "ok") || same_text(s.last_status.as_str(), "success") {
                    push_str(&mut out, "\u{21bb} ok");
                } else if same_text(s.last_status.as_str(), "error") {
                    push_str(&mut out, "\u{25b2} error");
                } else {
                    push_str(&mut out, "\u{2300} no token");
                }
            },
            None => {
                push_str(&mut out, "\u{2300} no token");
            },
        }
    }
    string_of(out.as_slice())
}

/// The sync indicator of the status bar at `now` (Unix seconds): the
/// spinner while any source syncs, else how long ago the first source
/// synced, else nothing.
pub open spec fn sync_indicator_for(app: App, now: i64) -> Seq<char> {
    let rows = app.data.sync@;
    if exists|i: int| 0 <= i < rows.len() && is_syncing_status(#[trigger] rows[i].last_status@) {
        " "@ + seq![spinner_frame(app.spinner)] + " "@
    } else if rows.len() > 0 && rows[0].last_synced_at is Some {
        let ts = rows[0].last_synced_at->0@;
        " "@ + match crate::dates::timestamp_seconds(ts) {
            Some(t) => crate::dates::ago_text(crate::dates::minutes_between(t as int, now as int)),
            None => Seq::empty(),
        } + " "@
    } else {
        Seq::empty()
    }
}

fn first_syncing(rows: &Vec<crate::gql::SyncState>) -> (r: Option<usize>)
    ensures
        r is Some <==> exists|i: int| 0 <= i < rows@.len() && is_syncing_status(#[trigger] rows@[i].last_status@),
{
    let mut i: usize = 0;
    while i < rows.len()
        invariant
            i <= rows.len(),
            forall|j: int| 0 <= j < i ==> !is_syncing_status(#[trigger] rows@[j].last_status@),
        decreases rows.len() - i,
    {
        if same_text(rows[i].last_status.as_str(), "syncing") || same_text(
            rows[i].last_status.as_str(),
            "in_progress",
        ) {
            assert(is_syncing_status(rows@[i as int].last_status@));
            return Some(i);
        }
        i += 1;
    }
    None
}

/// The sync indicator of the status bar at `now` (Unix seconds).
pub fn sync_indicator_at(app: &App, now: i64) -> (r: String)
    ensures
        r@ == sync_indicator_for(*app, now),
{
    let rows = &app.data.sync;
    let any = match first_syncing(rows) {
        Some(_) => true,
        None => false,
    };
    let mut out: Vec<char> = Vec::new();
    if any {
        push_str(&mut out, " ");
        out.push(spinner_at(app.spinner));
        push_str(&mut out, " ");
        return string_of(out.as_slice());
    }
    if rows.len() > 0 {
        if let Some(ts) = &rows[0].last_synced_at {
            let rel = crate::dates::relative_time(ts.as_str(), now);
            push_str(&mut out, " ");
            push_str(&mut out, rel.as_str());
            push_str(&mut out, " ");
        }
    }
    string_of(out.as_slice())
}

/// The sync indicator of the status bar, now.
pub fn sync_indicator(app: &App) -> (r: String)
    ensures
        exists|now: i64| r@ == sync_indicator_for(*app, now),
{
    let now = crate::dates::now_unix();
    sync_indicator_at(app, now)
}

// ---- Pull request badges ----

/// The glyphs of a pull request's status cell: its state, then approved,
/// changes requested, Copilot comments, merge conflicts, failing actions
/// and a review request, each when it holds.
pub open spec fn pr_badges_for(pr: PullRequest) -> Seq<(char, crate::theme::Tone)> {
    seq![crate::theme::pr_state_look(pr.state@)] + (if pr.approved {
        seq![(Glyph::STATUS_DONE, crate::theme::Tone::Done)]
    } else {
        Seq::empty()
    }) + (if pr.changes_requested {
        seq![(Glyph::CHANGES_REQUESTED, crate::theme::Tone::Blocked)]
    } else {
        Seq::empty()
    }) + (if pr.copilot_comments {
        seq![(Glyph::COPILOT_COMMENTS, crate::theme::Tone::Accent)]
    } else {
        Seq::empty()
    }) + (if pr.merge_conflicts {
        seq![(Glyph::MERGE_CONFLICTS, crate::theme::Tone::Blocked)]
    } else {
        Seq::empty()
    }) + (if pr.actions_failing {
        seq![(Glyph::ACTIONS_FAILING, crate::theme::Tone::Blocked)]
    } else {
        Seq::empty()
    }) + (if pr.review_requested {
        seq![(Glyph::NEEDS_YOU, crate::theme::Tone::Accent)]
    } else {
        Seq::empty()
    })
}

/// Counts a pull request's set badge flags.
pub open spec fn flag_count(pr: PullRequest) -> nat {
    (if pr.approved { 1nat } else { 0 }) + (if pr.changes_requested { 1nat } else { 0 }) + (if pr.copilot_comments {
        1nat
    } else {
        0
    }) + (if pr.merge_conflicts { 1nat } else { 0 }) + (if pr.actions_failing { 1nat } else { 0 }) + (
    if pr.review_requested {
        1nat
    } else {
        0
    })
}

/// A pull request's status cell starts with its state's glyph, then shows
/// each status badge exactly when its flag is set: approved, changes
/// requested, copilot comments, merge conflicts, failing CI, review asked
/// of the user; there is one badge per set flag.
pub proof fn lemma_badges_follow_flags(pr: PullRequest)
    ensures
        pr_badges_for(pr)[0] == crate::theme::pr_state_look(pr.state@),
        pr_badges_for(pr).len() == 1 + flag_count(pr),
        pr_badges_for(pr).contains((Glyph::STATUS_DONE, crate::theme::Tone::Done)) <==> pr.approved,
        pr_badges_for(pr).contains((Glyph::CHANGES_REQUESTED, crate::theme::Tone::Blocked)) <==> pr.changes_requested,
        pr_badges_for(pr).contains((Glyph::COPILOT_COMMENTS, crate::theme::Tone::Accent)) <==> pr.copilot_comments,
        pr_badges_for(pr).contains((Glyph::MERGE_CONFLICTS, crate::theme::Tone::Blocked)) <==> pr.merge_conflicts,
        pr_badges_for(pr).contains((Glyph::ACTIONS_FAILING, crate::theme::Tone::Blocked)) <==> pr.actions_failing,
        pr_badges_for(pr).contains((Glyph::NEEDS_YOU, crate::theme::Tone::Accent)) <==> pr.review_requested,
{
    let st = crate::theme::pr_state_look(pr.state@);
    let a = if pr.approved { seq![(Glyph::STATUS_DONE, crate::theme::Tone::Done)] } else { Seq::empty() };
    let c = if pr.changes_requested { seq![(Glyph::CHANGES_REQUESTED, crate::theme::Tone::Blocked)] } else { Seq::empty() };
    let o = if pr.copilot_comments { seq![(Glyph::COPILOT_COMMENTS, crate::theme::Tone::Accent)] } else { Seq::empty() };
    let m = if pr.merge_conflicts { seq![(Glyph::MERGE_CONFLICTS, crate::theme::Tone::Blocked)] } else { Seq::empty() };
    let f = if pr.actions_failing { seq![(Glyph::ACTIONS_FAILING, crate::theme::Tone::Blocked)] } else { Seq::empty() };
    let r = if pr.review_requested { seq![(Glyph::NEEDS_YOU, crate::theme::Tone::Accent)] } else { Seq::empty() };
    let b1 = seq![st] + a;
    let b2 = b1 + c;
    let b3 = b2 + o;
    let b4 = b3 + m;
    let b5 = b4 + f;
    let b6 = b5 + r;
    assert(pr_badges_for(pr) == b6);
    assert forall|x: (char, crate::theme::Tone)| #[trigger] b6.contains(x) <==> (x == st || a.contains(x)
        || c.contains(x) || o.contains(x) || m.contains(x) || f.contains(x) || r.contains(x)) by {
        lemma_contains_concat(seq![st], a, x);
        lemma_contains_concat(b1, c, x);
        lemma_contains_concat(b2, o, x);
        lemma_contains_concat(b3, m, x);
        lemma_contains_concat(b4, f, x);
        lemma_contains_concat(b5, r, x);
        if seq![st].contains(x) {
            let i = choose|i: int| 0 <= i < 1 && seq![st][i] == x;
        }
        if x == st {
            assert(seq![st][0] == x);
        }
    }
    assert(b6.contains((Glyph::ACTIONS_FAILING, crate::theme::Tone::Blocked)) ==> pr.actions_failing) by {
        if !pr.actions_failing && f.contains((Glyph::ACTIONS_FAILING, crate::theme::Tone::Blocked)) {
            let i = choose|i: int| 0 <= i < f.len() && f[i] == (Glyph::ACTIONS_FAILING, crate::theme::Tone::Blocked);
        }
    }
    assert(pr.actions_failing ==> f[0] == (Glyph::ACTIONS_FAILING, crate::theme::Tone::Blocked));
    assert(pr.approved ==> a[0] == (Glyph::STATUS_DONE, crate::theme::Tone::Done));
    assert(pr.changes_requested ==> c[0] == (Glyph::CHANGES_REQUESTED, crate::theme::Tone::Blocked));
    assert(pr.copilot_comments ==> o[0] == (Glyph::COPILOT_COMMENTS, crate::theme::Tone::Accent));
    assert(pr.merge_conflicts ==> m[0] == (Glyph::MERGE_CONFLICTS, crate::theme::Tone::Blocked));
    assert(pr.review_requested ==> r[0] == (Glyph::NEEDS_YOU, crate::theme::Tone::Accent));
}

/// An element of two joined sequences is an element of one of them.
proof fn lemma_contains_concat<A>(x: Seq<A>, y: Seq<A>, e: A)
    ensures
        (x + y).contains(e) <==> x.contains(e) || y.contains(e),
{
    if (x + y).contains(e) {
        let i = choose|i: int| 0 <= i < (x + y).len() && (x + y)[i] == e;
        if i >= x.len() {
            assert(y[i - x.len()] == e);
        }
    }
    if x.contains(e) {
        let i = choose|i: int| 0 <= i < x.len() && x[i] == e;
        assert((x + y)[i] == e);
    }
    if y.contains(e) {
        let i = choose|i: int| 0 <= i < y.len() && y[i] == e;
        assert((x + y)[x.len() + i] == e);
    }
}

/// The glyphs and colours of a pull request's status cell.
pub fn pr_status_badges(pr: &PullRequest) -> (r: Vec<(char, crate::theme::Tone)>)
    ensures
        r@ == pr_badges_for(*pr),
{
    let mut out: Vec<(char, crate::theme::Tone)> = Vec::new();
    out.push(crate::theme::pr_state_glyph(pr.state.as_str()));
    let ghost a = out@;
    if pr.approved {
        out.push((Glyph::STATUS_DONE, crate::theme::Tone::Done));
    }
    let ghost b = out@;
    if pr.changes_requested {
        out.push((Glyph::CHANGES_REQUESTED, crate::theme::Tone::Blocked));
    }
    let ghost c = out@;
    if pr.copilot_comments {
        out.push((Glyph::COPILOT_COMMENTS, crate::theme::Tone::Accent));
    }
    let ghost d = out@;
    if pr.merge_conflicts {
        out.push((Glyph::MERGE_CONFLICTS, crate::theme::Tone::Blocked));
    }
    let ghost e = out@;
    if pr.actions_failing {
        out.push((Glyph::ACTIONS_FAILING, crate::theme::Tone::Blocked));
    }
    let ghost f = out@;
    if pr.review_requested {
        out.push((Glyph::NEEDS_YOU, crate::theme::Tone::Accent));
    }
    assert(out@ =~= pr_badges_for(*pr));
    out
}

} // verus!
