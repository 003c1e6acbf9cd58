//! The link pickers of the sidebar forms: which pull requests and Linear
//! issues match the typed search, and the order they are offered in.

use vstd::prelude::*;

use crate::app::App;
use crate::gql::{LinearIssue, PullRequest};
use crate::text::{
    ascii_lower, ascii_lower_char, chars_of, contains_chars, contains_seq, decimal, int_text,
    lemma_lex_order, lex_lt,
    push_int, same_chars, same_text, text_lt, to_ascii_lower,
};

verus! {

broadcast use vstd::seq_lib::group_seq_properties;

/// What a picker sorts an item by: finished items go after active ones,
/// then the latest stamp comes first, items without a stamp last.
pub struct PickKey {
    pub done: bool,
    pub stamp: Option<Vec<char>>,
}

/// A sort key as values.
pub type KeyView = (bool, Option<Seq<char>>);

impl PickKey {
    pub open spec fn key(&self) -> KeyView {
        (
            self.done,
            match self.stamp {
                Some(v) => Some(v@),
                None => None,
            },
        )
    }
}

/// The keys of a list of items, as values.
pub open spec fn key_views(keys: Seq<PickKey>) -> Seq<KeyView> {
    keys.map_values(|k: PickKey| k.key())
}

/// The order candidates are offered in: the sort key first, and between
/// equal keys the item's position in the data (a stable sort).
pub open spec fn picks_before(ka: KeyView, a: int, kb: KeyView, b: int) -> bool {
    if ka.0 != kb.0 {
        !ka.0
    } else {
        match (ka.1, kb.1) {
            (Some(x), Some(y)) => if x == y {
                a < b
            } else {
                lex_lt(y, x)
            },
            (Some(_), None) => true,
            (None, Some(_)) => false,
            (None, None) => a < b,
        }
    }
}

/// `picks_before` is a strict total order on distinct positions.
pub proof fn lemma_picks_order(ka: KeyView, a: int, kb: KeyView, b: int, kc: KeyView, c: int)
    ensures
        !picks_before(ka, a, ka, a),
        a != b ==> (picks_before(ka, a, kb, b) || picks_before(kb, b, ka, a)),
        picks_before(ka, a, kb, b) ==> !picks_before(kb, b, ka, a),
        picks_before(ka, a, kb, b) && picks_before(kb, b, kc, c) ==> picks_before(ka, a, kc, c),
{
    match (ka.1, kb.1, kc.1) {
        (Some(x), Some(y), Some(z)) => {
            lemma_lex_order(x, y, z);
            lemma_lex_order(y, x, z);
            lemma_lex_order(z, y, x);
            lemma_lex_order(x, z, y);
            lemma_lex_order(y, z, x);
            lemma_lex_order(z, x, y);
        },
        (Some(x), Some(y), None) => {
            lemma_lex_order(x, y, y);
            lemma_lex_order(y, x, x);
        },
        (Some(x), None, Some(z)) => {
            lemma_lex_order(x, z, z);
            lemma_lex_order(z, x, x);
        },
        (None, Some(y), Some(z)) => {
            lemma_lex_order(y, z, z);
            lemma_lex_order(z, y, y);
        },
        (Some(x), None, None) => {
            lemma_lex_order(x, x, x);
        },
        (None, Some(y), None) => {
            lemma_lex_order(y, y, y);
        },
        (None, None, Some(z)) => {
            lemma_lex_order(z, z, z);
        },
        (None, None, None) => {},
    }
}

/// Positions listed in picker order.
pub open spec fn picks_sorted(ks: Seq<KeyView>, s: Seq<usize>) -> bool {
    forall|i: int, j: int|
        0 <= i < j < s.len() ==> picks_before(
            ks[s[i] as int],
            s[i] as int,
            ks[s[j] as int],
            s[j] as int,
        )
}

/// Two lists in picker order that hold the same positions are the same
/// list: the picker order leaves nothing open.
pub proof fn lemma_sorted_unique(ks: Seq<KeyView>, a: Seq<usize>, b: Seq<usize>)
    requires
        picks_sorted(ks, a),
        picks_sorted(ks, b),
        forall|x: usize| a.contains(x) <==> b.contains(x),
    ensures
        a == b,
    decreases a.len(),
{
    if a.len() == 0 {
        if b.len() > 0 {
            assert(b.contains(b[0]));
        }
        assert(a =~= b);
    } else {
        let x = a[0];
        assert(a.contains(x));
        assert(b.contains(x));
        let y = b[0];
        if x != y {
            let j = choose|j: int| 0 <= j < b.len() && b[j] == x;
            assert(b.contains(y));
            let i = choose|i: int| 0 <= i < a.len() && a[i] == y;
            assert(j > 0);
            assert(i > 0);
            assert(picks_before(ks[y as int], y as int, ks[x as int], x as int));
            assert(picks_before(ks[x as int], x as int, ks[y as int], y as int));
            lemma_picks_order(ks[x as int], x as int, ks[y as int], y as int, ks[x as int], x as int);
        }
        let a1 = a.drop_first();
        let b1 = b.drop_first();
        assert forall|z: usize| a1.contains(z) <==> b1.contains(z) by {
            if a1.contains(z) {
                let k = choose|k: int| 0 <= k < a1.len() && a1[k] == z;
                assert(a[k + 1] == z);
                if z == x {
                    lemma_picks_order(ks[x as int], x as int, ks[x as int], x as int, ks[x as int], x as int);
                }
                assert(a.contains(z));
                assert(b.contains(z));
                let m = choose|m: int| 0 <= m < b.len() && b[m] == z;
                assert(m != 0);
                assert(b1[m - 1] == z);
            }
            if b1.contains(z) {
                let k = choose|k: int| 0 <= k < b1.len() && b1[k] == z;
                assert(b[k + 1] == z);
                if z == y {
                    lemma_picks_order(ks[y as int], y as int, ks[y as int], y as int, ks[y as int], y as int);
                }
                assert(b.contains(z));
                assert(a.contains(z));
                let m = choose|m: int| 0 <= m < a.len() && a[m] == z;
                assert(m != 0);
                assert(a1[m - 1] == z);
            }
        }
        assert forall|i: int, j: int| 0 <= i < j < a1.len() implies picks_before(
            ks[a1[i] as int],
            a1[i] as int,
            ks[a1[j] as int],
            a1[j] as int,
        ) by {
            assert(a1[i] == a[i + 1] && a1[j] == a[j + 1]);
        }
        assert forall|i: int, j: int| 0 <= i < j < b1.len() implies picks_before(
            ks[b1[i] as int],
            b1[i] as int,
            ks[b1[j] as int],
            b1[j] as int,
        ) by {
            assert(b1[i] == b[i + 1] && b1[j] == b[j + 1]);
        }
        lemma_sorted_unique(ks, a1, b1);
        assert(x == y);
        assert(a =~= seq![x] + a1);
        assert(b =~= seq![y] + b1);
    }
}

fn stamp_eq(a: &Vec<char>, b: &Vec<char>) -> (r: bool)
    ensures
        r == (a@ == b@),
{
    same_chars(a, b)
}

/// `picks_before` on two items.
fn key_before(ka: &PickKey, a: usize, kb: &PickKey, b: usize) -> (r: bool)
    ensures
        r == picks_before(ka.key(), a as int, kb.key(), b as int),
{
    if ka.done != kb.done {
        return !ka.done;
    }
    match (&ka.stamp, &kb.stamp) {
        (Some(x), Some(y)) => {
            if stamp_eq(x, y) {
                a < b
            } else {
                text_lt(y, x)
            }
        },
        (Some(_), None) => true,
        (None, Some(_)) => false,
        (None, None) => a < b,
    }
}

/// The kept positions of `keys`, in picker order.
fn sort_picks(keys: &Vec<PickKey>, keep: &Vec<bool>) -> (r: Vec<usize>)
    requires
        keys.len() == keep.len(),
    ensures
        forall|x: usize| r@.contains(x) <==> (x < keys.len() && keep@[x as int]),
        picks_sorted(key_views(keys@), r@),
{
    let ghost ks = key_views(keys@);
    let n = keys.len();
    let mut out: Vec<usize> = Vec::new();
    let mut k: usize = 0;
    while k < n
        invariant
            n == keys.len() == keep.len(),
            k <= n,
            ks == key_views(keys@),
            forall|x: usize| out@.contains(x) <==> (x < k && keep@[x as int]),
            forall|i: int| 0 <= i < out.len() ==> out@[i] < k,
            picks_sorted(ks, out@),
        decreases n - k,
    {
        if keep[k] {
            let mut p: usize = 0;
            while p < out.len() && key_before(&keys[out[p]], out[p], &keys[k], k)
                invariant
                    n == keys.len() == keep.len(),
                    k < n,
                    p <= out.len(),
                    ks == key_views(keys@),
                    forall|i: int| 0 <= i < out.len() ==> out@[i] < k,
                    forall|i: int|
                        0 <= i < p ==> picks_before(
                            ks[out@[i] as int],
                            out@[i] as int,
                            ks[k as int],
                            k as int,
                        ),
                decreases out.len() - p,
            {
                p += 1;
            }
            let ghost old_out = out@;
            proof {
                if p < out.len() {
                    let q = out@[p as int];
                    lemma_picks_order(ks[q as int], q as int, ks[k as int], k as int, ks[k as int], k as int);
                    assert(picks_before(ks[k as int], k as int, ks[q as int], q as int));
                }
            }
            out.insert(p, k);
            proof {
                assert forall|i: int, j: int| 0 <= i < j < out@.len() implies picks_before(
                    ks[out@[i] as int],
                    out@[i] as int,
                    ks[out@[j] as int],
                    out@[j] as int,
                ) by {
                    if j < p {
                    } else if j == p {
                    } else if i == p {
                        if j - 1 > p {
                            let q = old_out[p as int];
                            let w = old_out[j - 1];
                            lemma_picks_order(ks[k as int], k as int, ks[q as int], q as int, ks[w as int], w as int);
                        }
                    } else if i < p {
                    } else {
                    }
                }
                assert forall|x: usize| out@.contains(x) <==> (x < k + 1 && keep@[x as int]) by {
                    if out@.contains(x) {
                        let i = choose|i: int| 0 <= i < out@.len() && out@[i] == x;
                        if i < p {
                            assert(old_out.contains(x));
                        } else if i > p {
                            assert(old_out[i - 1] == x);
                            assert(old_out.contains(x));
                        }
                    }
                    if x < k + 1 && keep@[x as int] {
                        if x == k {
                            assert(out@[p as int] == k);
                        } else {
                            assert(old_out.contains(x));
                            let i = choose|i: int| 0 <= i < old_out.len() && old_out[i] == x;
                            if i < p {
                                assert(out@[i] == x);
                            } else {
                                assert(out@[i + 1] == x);
                            }
                        }
                    }
                }
            }
        } else {
            proof {
                assert forall|x: usize| out@.contains(x) <==> (x < k + 1 && keep@[x as int]) by {
                    if out@.contains(x) {
                        let i = choose|i: int| 0 <= i < out@.len() && out@[i] == x;
                    }
                }
            }
        }
        k += 1;
    }
    out
}

// ---- Ordering by owner and repository ----

/// Order by a pair of texts (as a tuple compares them), then by position.
pub open spec fn pair_before(ka: (Seq<char>, Seq<char>), a: int, kb: (Seq<char>, Seq<char>), b: int) -> bool {
    if ka.0 != kb.0 {
        lex_lt(ka.0, kb.0)
    } else if ka.1 != kb.1 {
        lex_lt(ka.1, kb.1)
    } else {
        a < b
    }
}

/// `pair_before` is a strict total order on distinct positions.
pub proof fn lemma_pair_order(
    ka: (Seq<char>, Seq<char>),
    a: int,
    kb: (Seq<char>, Seq<char>),
    b: int,
    kc: (Seq<char>, Seq<char>),
    c: int,
)
    ensures
        !pair_before(ka, a, ka, a),
        a != b ==> (pair_before(ka, a, kb, b) || pair_before(kb, b, ka, a)),
        pair_before(ka, a, kb, b) ==> !pair_before(kb, b, ka, a),
        pair_before(ka, a, kb, b) && pair_before(kb, b, kc, c) ==> pair_before(ka, a, kc, c),
{
    lemma_lex_order(ka.0, kb.0, kc.0);
    lemma_lex_order(kb.0, ka.0, kc.0);
    lemma_lex_order(ka.1, kb.1, kc.1);
    lemma_lex_order(kb.1, ka.1, kc.1);
    if ka.0 == kb.0 && ka.1 == kb.1 {
        assert(ka == kb);
    }
    if kb.0 == kc.0 && kb.1 == kc.1 {
        assert(kb == kc);
    }
    if ka.0 == kc.0 && ka.1 == kc.1 {
        assert(ka == kc);
    }
}

/// Positions in pair order.
pub open spec fn pairs_sorted(ks: Seq<(Seq<char>, Seq<char>)>, s: Seq<usize>) -> bool {
    forall|i: int, j: int|
        0 <= i < j < s.len() ==> pair_before(ks[s[i] as int], s[i] as int, ks[s[j] as int], s[j] as int)
}

/// The keys of a list of pairs, as values.
pub open spec fn pair_views(keys: Seq<(Vec<char>, Vec<char>)>) -> Seq<(Seq<char>, Seq<char>)> {
    keys.map_values(|k: (Vec<char>, Vec<char>)| (k.0@, k.1@))
}

fn pair_lt(ka: &(Vec<char>, Vec<char>), a: usize, kb: &(Vec<char>, Vec<char>), b: usize) -> (r: bool)
    ensures
        r == pair_before((ka.0@, ka.1@), a as int, (kb.0@, kb.1@), b as int),
{
    if !same_chars(&ka.0, &kb.0) {
        text_lt(&ka.0, &kb.0)
    } else if !same_chars(&ka.1, &kb.1) {
        text_lt(&ka.1, &kb.1)
    } else {
        a < b
    }
}

/// All positions of `keys`, ordered by pair and then position.
pub fn sort_pairs(keys: &Vec<(Vec<char>, Vec<char>)>) -> (r: Vec<usize>)
    ensures
        forall|x: usize| r@.contains(x) <==> x < keys.len(),
        pairs_sorted(pair_views(keys@), r@),
{
    let ghost ks = pair_views(keys@);
    let n = keys.len();
    let mut out: Vec<usize> = Vec::new();
    let mut k: usize = 0;
    while k < n
        invariant
            n == keys.len(),
            k <= n,
            ks == pair_views(keys@),
            forall|x: usize| out@.contains(x) <==> x < k,
            forall|i: int| 0 <= i < out.len() ==> out@[i] < k,
            pairs_sorted(ks, out@),
        decreases n - k,
    {
        let mut p: usize = 0;
        while p < out.len() && pair_lt(&keys[out[p]], out[p], &keys[k], k)
            invariant
                n == keys.len(),
                k < n,
                p <= out.len(),
                ks == pair_views(keys@),
                forall|i: int| 0 <= i < out.len() ==> out@[i] < k,
                forall|i: int|
                    0 <= i < p ==> pair_before(ks[out@[i] as int], out@[i] as int, ks[k as int], k as int),
            decreases out.len() - p,
        {
            p += 1;
        }
        let ghost old_out = out@;
        proof {
            if p < out.len() {
                let q = out@[p as int];
                lemma_pair_order(ks[q as int], q as int, ks[k as int], k as int, ks[k as int], k as int);
            }
        }
        out.insert(p, k);
        proof {
            assert forall|i: int, j: int| 0 <= i < j < out@.len() implies pair_before(
                ks[out@[i] as int],
                out@[i] as int,
                ks[out@[j] as int],
                out@[j] as int,
            ) by {
                if i == p && j - 1 > p {
                    let q = old_out[p as int];
                    let w = old_out[j - 1];
                    lemma_pair_order(ks[k as int], k as int, ks[q as int], q as int, ks[w as int], w as int);
                }
            }
            assert forall|x: usize| out@.contains(x) <==> x < k + 1 by {
                if out@.contains(x) {
                    let i = choose|i: int| 0 <= i < out@.len() && out@[i] == x;
                    if i < p {
                        assert(old_out.contains(x));
                    } else if i > p {
                        assert(old_out[i - 1] == x);
                        assert(old_out.contains(x));
                    }
                }
                if x < k + 1 {
                    if x == k {
                        assert(out@[p as int] == k);
                    } else {
                        assert(old_out.contains(x));
                        let i = choose|i: int| 0 <= i < old_out.len() && old_out[i] == x;
                        if i < p {
                            assert(out@[i] == x);
                        } else {
                            assert(out@[i + 1] == x);
                        }
                    }
                }
            }
        }
        k += 1;
    }
    out
}

/// Two lists in pair order that hold the same positions are the same list.
pub proof fn lemma_pairs_unique(ks: Seq<(Seq<char>, Seq<char>)>, a: Seq<usize>, b: Seq<usize>)
    requires
        pairs_sorted(ks, a),
        pairs_sorted(ks, b),
        forall|x: usize| a.contains(x) <==> b.contains(x),
    ensures
        a == b,
    decreases a.len(),
{
    if a.len() == 0 {
        if b.len() > 0 {
            assert(b.contains(b[0]));
        }
        assert(a =~= b);
    } else {
        let x = a[0];
        assert(a.contains(x));
        assert(b.contains(x));
        let y = b[0];
        if x != y {
            let j = choose|j: int| 0 <= j < b.len() && b[j] == x;
            assert(b.contains(y));
            let i = choose|i: int| 0 <= i < a.len() && a[i] == y;
            assert(j > 0);
            assert(i > 0);
            assert(pair_before(ks[y as int], y as int, ks[x as int], x as int));
            assert(pair_before(ks[x as int], x as int, ks[y as int], y as int));
            lemma_pair_order(ks[x as int], x as int, ks[y as int], y as int, ks[x as int], x as int);
        }
        let a1 = a.drop_first();
        let b1 = b.drop_first();
        assert forall|z: usize| a1.contains(z) <==> b1.contains(z) by {
            if a1.contains(z) {
                let k = choose|k: int| 0 <= k < a1.len() && a1[k] == z;
                assert(a[k + 1] == z);
                if z == x {
                    lemma_pair_order(ks[x as int], x as int, ks[x as int], x as int, ks[x as int], x as int);
                }
                assert(a.contains(z));
                assert(b.contains(z));
                let m = choose|m: int| 0 <= m < b.len() && b[m] == z;
                assert(m != 0);
                assert(b1[m - 1] == z);
            }
            if b1.contains(z) {
                let k = choose|k: int| 0 <= k < b1.len() && b1[k] == z;
                assert(b[k + 1] == z);
                if z == y {
                    lemma_pair_order(ks[y as int], y as int, ks[y as int], y as int, ks[y as int], y as int);
                }
                assert(b.contains(z));
                assert(a.contains(z));
                let m = choose|m: int| 0 <= m < a.len() && a[m] == z;
                assert(m != 0);
                assert(a1[m - 1] == z);
            }
        }
        assert forall|i: int, j: int| 0 <= i < j < a1.len() implies pair_before(
            ks[a1[i] as int],
            a1[i] as int,
            ks[a1[j] as int],
            a1[j] as int,
        ) by {
            assert(a1[i] == a[i + 1] && a1[j] == a[j + 1]);
        }
        assert forall|i: int, j: int| 0 <= i < j < b1.len() implies pair_before(
            ks[b1[i] as int],
            b1[i] as int,
            ks[b1[j] as int],
            b1[j] as int,
        ) by {
            assert(b1[i] == b[i + 1] && b1[j] == b[j + 1]);
        }
        lemma_pairs_unique(ks, a1, b1);
        assert(x == y);
        assert(a =~= seq![x] + a1);
        assert(b =~= seq![y] + b1);
    }
}

/// The positions of `ks` in pair order (see [`sort_pairs`]; only one list
/// qualifies).
pub open spec fn pair_order(ks: Seq<(Seq<char>, Seq<char>)>) -> Seq<usize> {
    choose|r: Seq<usize>| (forall|x: usize| r.contains(x) <==> x < ks.len()) && pairs_sorted(ks, r)
}

pub proof fn lemma_pair_order_is(ks: Seq<(Seq<char>, Seq<char>)>, r: Seq<usize>)
    requires
        forall|x: usize| r.contains(x) <==> x < ks.len(),
        pairs_sorted(ks, r),
    ensures
        r == pair_order(ks),
{
    let c = pair_order(ks);
    lemma_pairs_unique(ks, r, c);
}

// ---- Matching ----

/// Finished pull request states (closed or merged); open and draft stay
/// active.
pub open spec fn pr_closed(state: Seq<char>) -> bool {
    state == "closed"@ || state == "merged"@
}

/// Finished Linear state types (completed or canceled).
pub open spec fn linear_done(state_type: Seq<char>) -> bool {
    state_type == "completed"@ || state_type == "canceled"@
}

/// True for PR states that are finished (closed or merged).
pub fn pr_is_closed(state: &str) -> (r: bool)
    ensures
        r == pr_closed(state@),
{
    same_text(state, "closed") || same_text(state, "merged")
}

/// True for Linear state types that are finished (completed or canceled).
pub fn linear_is_done(state_type: &str) -> (r: bool)
    ensures
        r == linear_done(state_type@),
{
    same_text(state_type, "completed") || same_text(state_type, "canceled")
}

/// A pull request matches a search when the search is empty, or when, ignoring
/// ASCII case, it occurs in the title, in `#` and the number, or in the number.
pub open spec fn pr_matches(pr: PullRequest, search: Seq<char>) -> bool {
    let s = ascii_lower(search);
    search.len() == 0 || contains_seq(ascii_lower(pr.title@), s) || contains_seq(
        seq!['#'] + int_text(pr.number as int),
        s,
    ) || contains_seq(int_text(pr.number as int), s)
}

/// Every character of a decimal text is an ASCII digit.
proof fn lemma_decimal_digits(n: nat)
    ensures
        forall|k: int| 0 <= k < decimal(n).len() ==> '0' <= #[trigger] decimal(n)[k] && decimal(n)[k] <= '9',
    decreases n,
{
    if n >= 10 {
        lemma_decimal_digits(n / 10);
        assert forall|k: int| 0 <= k < decimal(n).len() implies '0' <= #[trigger] decimal(n)[k] && decimal(n)[k]
            <= '9' by {
            if k < decimal(n / 10).len() {
                assert(decimal(n)[k] == decimal(n / 10)[k]);
            }
        }
    }
}

/// A search that is part of `#` and the pull request's number (such as
/// `#42`, `42` or `4` for pull request 42) finds that pull request,
/// whatever its title.
pub proof fn lemma_number_search_matches(pr: PullRequest, search: Seq<char>)
    requires
        contains_seq(seq!['#'] + int_text(pr.number as int), search),
    ensures
        pr_matches(pr, search),
{
    let hay = seq!['#'] + int_text(pr.number as int);
    let n = pr.number as int;
    let m: nat = if n < 0 { (-n) as nat } else { n as nat };
    lemma_decimal_digits(m);
    assert forall|k: int| 0 <= k < hay.len() implies ascii_lower_char(#[trigger] hay[k]) == hay[k] by {
        if k > 0 {
            if n < 0 {
                if k > 1 {
                    assert(hay[k] == decimal(m)[k - 2]);
                }
            } else {
                assert(hay[k] == decimal(m)[k - 1]);
            }
        }
    }
    let p = choose|p: int| 0 <= p && p + search.len() <= hay.len() && #[trigger] hay.subrange(p, p + search.len())
        == search;
    assert forall|k: int| 0 <= k < search.len() implies #[trigger] ascii_lower(search)[k] == search[k] by {
        assert(hay.subrange(p, p + search.len())[k] == hay[p + k]);
    }
    assert(ascii_lower(search) =~= search);
}

/// A search for a pull request's own title, in any ASCII case, finds it.
pub proof fn lemma_title_search_matches(pr: PullRequest, search: Seq<char>)
    requires
        ascii_lower(search) == ascii_lower(pr.title@),
    ensures
        pr_matches(pr, search),
{
    let t = ascii_lower(pr.title@);
    let s = ascii_lower(search);
    assert(t.subrange(0int, 0int + s.len()) =~= s);
    assert(contains_seq(t, s));
}

/// A Linear issue matches a search when the search is empty, or when,
/// ignoring ASCII case, it occurs in the title or the identifier.
pub open spec fn linear_matches(li: LinearIssue, search: Seq<char>) -> bool {
    let s = ascii_lower(search);
    search.len() == 0 || contains_seq(ascii_lower(li.title@), s) || contains_seq(
        ascii_lower(li.identifier@),
        s,
    )
}

/// A search for a Linear issue's identifier or title, in any ASCII case,
/// finds it.
pub proof fn lemma_linear_search_matches(li: LinearIssue, search: Seq<char>)
    requires
        ascii_lower(search) == ascii_lower(li.identifier@) || ascii_lower(search) == ascii_lower(li.title@),
    ensures
        linear_matches(li, search),
{
    let a = ascii_lower(li.identifier@);
    let b = ascii_lower(li.title@);
    let s = ascii_lower(search);
    if s == a {
        assert(a.subrange(0int, 0int + s.len()) =~= s);
        assert(contains_seq(a, s));
    } else {
        assert(b.subrange(0int, 0int + s.len()) =~= s);
        assert(contains_seq(b, s));
    }
}

/// Case-insensitive substring test against a PR's number (as text) or title.
pub fn pr_matches_search(pr: &PullRequest, search: &str) -> (r: bool)
    ensures
        r == pr_matches(*pr, search@),
{
    let sv = chars_of(search);
    if sv.len() == 0 {
        return true;
    }
    let s = to_ascii_lower(&sv);
    let title = to_ascii_lower(&chars_of(pr.title.as_str()));
    if contains_chars(&title, &s) {
        return true;
    }
    let mut hashed: Vec<char> = Vec::new();
    hashed.push('#');
    push_int(&mut hashed, pr.number as i64);
    assert(hashed@ =~= seq!['#'] + int_text(pr.number as int));
    if contains_chars(&hashed, &s) {
        return true;
    }
    let mut plain: Vec<char> = Vec::new();
    push_int(&mut plain, pr.number as i64);
    assert(plain@ =~= int_text(pr.number as int));
    contains_chars(&plain, &s)
}

/// Case-insensitive substring test against a Linear issue's identifier or
/// title.
pub fn linear_matches_search(li: &LinearIssue, search: &str) -> (r: bool)
    ensures
        r == linear_matches(*li, search@),
{
    let sv = chars_of(search);
    if sv.len() == 0 {
        return true;
    }
    let s = to_ascii_lower(&sv);
    let title = to_ascii_lower(&chars_of(li.title.as_str()));
    if contains_chars(&title, &s) {
        return true;
    }
    let ident = to_ascii_lower(&chars_of(li.identifier.as_str()));
    contains_chars(&ident, &s)
}

// ---- Candidates ----

/// The sort key of a pull request in the picker.
pub open spec fn pr_key(pr: PullRequest) -> KeyView {
    (
        pr_closed(pr.state@),
        match pr.remote_updated_at {
            Some(t) => Some(t@),
            None => None,
        },
    )
}

/// The sort key of a Linear issue in the picker: only whether it is done.
pub open spec fn linear_key(li: LinearIssue) -> KeyView {
    (linear_done(li.state_type@), None)
}

/// The picker lists exactly the matching positions, in picker order: open
/// pull requests first, closed and merged after; within each group the most
/// recently updated first, those with no update time last, and otherwise
/// in data order.
pub open spec fn pr_candidates_ok(pulls: Seq<PullRequest>, search: Seq<char>, r: Seq<usize>) -> bool {
    &&& forall|x: usize| r.contains(x) <==> (x < pulls.len() && pr_matches(pulls[x as int], search))
    &&& picks_sorted(pulls.map_values(|p: PullRequest| pr_key(p)), r)
}

/// The picker lists exactly the matching positions: active issues first,
/// completed and canceled after, each group in data order.
pub open spec fn linear_candidates_ok(
    linears: Seq<LinearIssue>,
    search: Seq<char>,
    r: Seq<usize>,
) -> bool {
    &&& forall|x: usize|
        r.contains(x) <==> (x < linears.len() && linear_matches(linears[x as int], search))
    &&& picks_sorted(linears.map_values(|l: LinearIssue| linear_key(l)), r)
}

/// The pull request picker's list (see [`pr_candidates_ok`], which admits
/// exactly one list).
pub open spec fn pr_candidates(pulls: Seq<PullRequest>, search: Seq<char>) -> Seq<usize> {
    choose|r: Seq<usize>| pr_candidates_ok(pulls, search, r)
}

/// The Linear picker's list (see [`linear_candidates_ok`]).
pub open spec fn linear_candidates(linears: Seq<LinearIssue>, search: Seq<char>) -> Seq<usize> {
    choose|r: Seq<usize>| linear_candidates_ok(linears, search, r)
}

proof fn lemma_pr_candidates(pulls: Seq<PullRequest>, search: Seq<char>, r: Seq<usize>)
    requires
        pr_candidates_ok(pulls, search, r),
    ensures
        r == pr_candidates(pulls, search),
{
    let c = pr_candidates(pulls, search);
    lemma_sorted_unique(pulls.map_values(|p: PullRequest| pr_key(p)), r, c);
}

proof fn lemma_linear_candidates(linears: Seq<LinearIssue>, search: Seq<char>, r: Seq<usize>)
    requires
        linear_candidates_ok(linears, search, r),
    ensures
        r == linear_candidates(linears, search),
{
    let c = linear_candidates(linears, search);
    lemma_sorted_unique(linears.map_values(|l: LinearIssue| linear_key(l)), r, c);
}

fn opt_chars(s: &Option<String>) -> (r: Option<Vec<char>>)
    ensures
        match (s, r) {
            (Some(a), Some(b)) => b@ == a@,
            (None, None) => true,
            _ => false,
        },
{
    match s {
        Some(t) => Some(chars_of(t.as_str())),
        None => None,
    }
}

/// Filtered and sorted pull request positions for the link picker.
pub fn pr_picker_candidates(app: &App, search: &str) -> (r: Vec<usize>)
    ensures
        pr_candidates_ok(app.data.pulls@, search@, r@),
        r@ == pr_candidates(app.data.pulls@, search@),
{
    let pulls = &app.data.pulls;
    let ghost pk = pulls@.map_values(|p: PullRequest| pr_key(p));
    let mut keys: Vec<PickKey> = Vec::new();
    let mut keep: Vec<bool> = Vec::new();
    let mut i: usize = 0;
    while i < pulls.len()
        invariant
            i <= pulls.len(),
            keys.len() == i,
            keep.len() == i,
            pk == pulls@.map_values(|p: PullRequest| pr_key(p)),
            forall|j: int| 0 <= j < i ==> #[trigger] keys@[j].key() == pk[j],
            forall|j: int| 0 <= j < i ==> #[trigger] keep@[j] == pr_matches(pulls@[j], search@),
        decreases pulls.len() - i,
    {
        let p = &pulls[i];
        keys.push(PickKey { done: pr_is_closed(p.state.as_str()), stamp: opt_chars(&p.remote_updated_at) });
        keep.push(pr_matches_search(p, search));
        i += 1;
    }
    assert(key_views(keys@) =~= pk);
    let r = sort_picks(&keys, &keep);
    proof {
        lemma_pr_candidates(pulls@, search@, r@);
    }
    r
}

/// Filtered and sorted Linear issue positions for the link picker.
pub fn linear_picker_candidates(app: &App, search: &str) -> (r: Vec<usize>)
    ensures
        linear_candidates_ok(app.data.linears@, search@, r@),
        r@ == linear_candidates(app.data.linears@, search@),
{
    let linears = &app.data.linears;
    let ghost lk = linears@.map_values(|l: LinearIssue| linear_key(l));
    let mut keys: Vec<PickKey> = Vec::new();
    let mut keep: Vec<bool> = Vec::new();
    let mut i: usize = 0;
    while i < linears.len()
        invariant
            i <= linears.len(),
            keys.len() == i,
            keep.len() == i,
            lk == linears@.map_values(|l: LinearIssue| linear_key(l)),
            forall|j: int| 0 <= j < i ==> #[trigger] keys@[j].key() == lk[j],
            forall|j: int| 0 <= j < i ==> #[trigger] keep@[j] == linear_matches(linears@[j], search@),
        decreases linears.len() - i,
    {
        let l = &linears[i];
        keys.push(PickKey { done: linear_is_done(l.state_type.as_str()), stamp: None });
        keep.push(linear_matches_search(l, search));
        i += 1;
    }
    assert(key_views(keys@) =~= lk);
    let r = sort_picks(&keys, &keep);
    proof {
        lemma_linear_candidates(linears@, search@, r@);
    }
    r
}

} // verus!
