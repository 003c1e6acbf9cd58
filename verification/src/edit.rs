//! Readline-style editing of a text input with a caret.
//!
//! Texts are edited as Rust strings: the caret is a byte offset into the
//! UTF-8 encoding, exactly as the text inputs of the client keep it. Every
//! primitive first clamps the caret to the text's length; Rust's string
//! operations panic when that clamped caret falls inside a character, so
//! the primitives require it to sit on a character boundary.

use vstd::prelude::*;
use vstd::utf8::*;

use crate::text::{chars_of, string_of};

verus! {

broadcast use {char_is_scalar, vstd::seq_lib::group_seq_properties};

/// The number of bytes in the UTF-8 encoding of a character.
pub open spec fn char_width(c: char) -> nat {
    let u = c as u32;
    if u < 0x80 {
        1
    } else if u < 0x800 {
        2
    } else if u < 0x10000 {
        3
    } else {
        4
    }
}

/// The number of bytes in the UTF-8 encoding of a text (`str::len`).
pub open spec fn byte_len(s: Seq<char>) -> nat {
    encode_utf8(s).len()
}

/// The byte offset at which character `k` of `s` starts.
pub open spec fn offset(s: Seq<char>, k: int) -> nat {
    byte_len(s.take(k))
}

/// True when byte offset `b` starts a character of `s` (or is its end).
pub open spec fn at_boundary(s: Seq<char>, b: int) -> bool {
    exists|k: int| 0 <= k <= s.len() && #[trigger] offset(s, k) == b
}

/// The character index at byte offset `b`, when `b` is a boundary.
pub open spec fn index_at(s: Seq<char>, b: int) -> int {
    choose|k: int| 0 <= k <= s.len() && #[trigger] offset(s, k) == b
}

/// The caret clamped to the text's byte length.
pub open spec fn clamped(s: Seq<char>, caret: int) -> int {
    if caret < byte_len(s) {
        caret
    } else {
        byte_len(s) as int
    }
}

/// The clamped caret sits on a character boundary, so the string
/// operations on it do not panic.
pub open spec fn caret_ok(s: Seq<char>, caret: int) -> bool {
    at_boundary(s, clamped(s, caret))
}

/// The character index of the clamped caret.
pub open spec fn caret_index(s: Seq<char>, caret: int) -> int {
    index_at(s, clamped(s, caret))
}

proof fn lemma_scalar_width(c: char)
    ensures
        encode_scalar(c as u32).len() == char_width(c),
{
    assert(is_scalar(c as u32));
}

proof fn lemma_encode_push(s: Seq<char>, c: char)
    ensures
        encode_utf8(s.push(c)) == encode_utf8(s) + encode_scalar(c as u32),
    decreases s.len(),
{
    if s.len() == 0 {
        assert(s.push(c).drop_first() =~= Seq::<char>::empty());
        assert(encode_utf8(Seq::<char>::empty()) =~= Seq::<u8>::empty());
        assert(encode_utf8(s.push(c)) =~= encode_scalar(c as u32));
        assert(encode_utf8(s) =~= Seq::<u8>::empty());
    } else {
        lemma_encode_push(s.drop_first(), c);
        assert(s.push(c).drop_first() =~= s.drop_first().push(c));
        assert(s.push(c)[0] == s[0]);
        assert(encode_utf8(s.push(c)) =~= encode_scalar(s[0] as u32) + encode_utf8(
            s.drop_first().push(c),
        ));
    }
}

/// Offsets advance by the width of each character.
pub proof fn lemma_offset_step(s: Seq<char>, k: int)
    requires
        0 <= k < s.len(),
    ensures
        offset(s, k + 1) == offset(s, k) + char_width(s[k]),
{
    assert(s.take(k + 1) =~= s.take(k).push(s[k]));
    lemma_encode_push(s.take(k), s[k]);
    lemma_scalar_width(s[k]);
}

/// Offsets grow strictly with the character index.
pub proof fn lemma_offset_mono(s: Seq<char>, i: int, j: int)
    requires
        0 <= i < j <= s.len(),
    ensures
        offset(s, i) < offset(s, j),
    decreases j - i,
{
    lemma_offset_step(s, j - 1);
    if i < j - 1 {
        lemma_offset_mono(s, i, j - 1);
    }
}

/// The first offset is 0 and the last is the byte length.
pub proof fn lemma_offset_ends(s: Seq<char>)
    ensures
        offset(s, 0) == 0,
        offset(s, s.len() as int) == byte_len(s),
{
    assert(s.take(0) =~= Seq::<char>::empty());
    assert(encode_utf8(Seq::<char>::empty()) =~= Seq::<u8>::empty());
    assert(s.take(s.len() as int) =~= s);
}

/// A boundary names exactly one character index.
pub proof fn lemma_index_at(s: Seq<char>, k: int)
    requires
        0 <= k <= s.len(),
    ensures
        at_boundary(s, offset(s, k) as int),
        index_at(s, offset(s, k) as int) == k,
{
    let b = offset(s, k) as int;
    assert(at_boundary(s, b));
    let k2 = index_at(s, b);
    if k2 < k {
        lemma_offset_mono(s, k2, k);
    } else if k < k2 {
        lemma_offset_mono(s, k, k2);
    }
}

/// The offset of every character index is a valid caret that names that
/// index.
pub proof fn lemma_boundary_ok(s: Seq<char>, k: int)
    requires
        0 <= k <= s.len(),
    ensures
        caret_ok(s, offset(s, k) as int),
        clamped(s, offset(s, k) as int) == offset(s, k),
        caret_index(s, offset(s, k) as int) == k,
{
    lemma_offset_ends(s);
    if k < s.len() {
        lemma_offset_mono(s, k, s.len() as int);
    }
    lemma_index_at(s, k);
}

/// The byte width of a character, as `char::len_utf8` gives it.
pub fn width_of(c: char) -> (w: usize)
    ensures
        w == char_width(c),
{
    let u = c as u32;
    if u < 0x80 {
        1
    } else if u < 0x800 {
        2
    } else if u < 0x10000 {
        3
    } else {
        4
    }
}

/// Calls `str::len`: the byte length of the UTF-8 encoding. A string slice
/// never holds more than `isize::MAX` bytes (the bound std documents for
/// every allocation and slice).
#[verifier::external_body]
fn byte_count(s: &str) -> (n: usize)
    ensures
        n == byte_len(s@),
        n <= isize::MAX,
{
    s.len()
}

/// The byte length of a text (`str::len`).
pub fn text_len(s: &str) -> (n: usize)
    ensures
        n == byte_len(s@),
        n <= isize::MAX,
{
    byte_count(s)
}

/// The characters of `buf`, with the byte length of the whole text.
fn chars_and_len(buf: &str) -> (r: (Vec<char>, usize))
    ensures
        r.0@ == buf@,
        r.1 == byte_len(buf@),
        r.1 <= isize::MAX,
{
    let v = chars_of(buf);
    (v, byte_count(buf))
}

/// Finds the character index at which the clamped caret falls.
fn locate(v: &Vec<char>, total: usize, caret: usize) -> (r: (usize, usize))
    requires
        total == byte_len(v@),
        caret <= total,
    ensures
        r.0 <= v@.len(),
        r.1 == offset(v@, r.0 as int),
        at_boundary(v@, caret as int) <==> r.1 == caret,
        r.1 == caret ==> index_at(v@, caret as int) == r.0,
{
    proof {
        lemma_offset_ends(v@);
    }
    let mut k: usize = 0;
    let mut b: usize = 0;
    while k < v.len() && b < caret
        invariant
            k <= v@.len(),
            b == offset(v@, k as int),
            total == byte_len(v@),
            caret <= total,
            offset(v@, v@.len() as int) == total,
            forall|j: int| 0 <= j < k ==> #[trigger] offset(v@, j) < caret,
        decreases v@.len() - k,
    {
        proof {
            lemma_offset_step(v@, k as int);
            if k + 1 < v@.len() {
                lemma_offset_mono(v@, k + 1, v@.len() as int);
            }
        }
        b = b + width_of(v[k]);
        k = k + 1;
    }
    proof {
        if k < v@.len() {
            assert(b >= caret);
        } else {
            assert(b == total);
        }
        lemma_index_at(v@, k as int);
        if at_boundary(v@, caret as int) && b != caret {
            let j = index_at(v@, caret as int);
            if j < k {
            } else if j > k {
                lemma_offset_mono(v@, k as int, j);
            }
        }
    }
    (k, b)
}

/// `buf` with `ch` inserted at the clamped caret.
pub open spec fn inserted(s: Seq<char>, caret: int, ch: char) -> Seq<char> {
    let k = caret_index(s, caret);
    s.take(k).push(ch) + s.skip(k)
}

/// Insert `ch` at byte `caret` in `buf`; return the caret just after it.
pub fn insert_char(buf: &mut String, caret: usize, ch: char) -> (r: usize)
    requires
        caret_ok(old(buf)@, caret as int),
    ensures
        final(buf)@ == inserted(old(buf)@, caret as int, ch),
        r == insert_caret(old(buf)@, caret as int, ch),
        caret_ok(final(buf)@, r as int),
{
    let (v, total) = chars_and_len(buf.as_str());
    let c = if caret < total { caret } else { total };
    let (k, b) = locate(&v, total, c);
    let mut out: Vec<char> = Vec::new();
    let mut i: usize = 0;
    while i < k
        invariant
            i <= k <= v@.len(),
            out@ == v@.take(i as int),
        decreases k - i,
    {
        out.push(v[i]);
        assert(v@.take(i + 1) =~= v@.take(i as int).push(v@[i as int]));
        i += 1;
    }
    out.push(ch);
    let mut j: usize = k;
    while j < v.len()
        invariant
            k <= j <= v@.len(),
            out@ == v@.take(k as int).push(ch) + v@.subrange(k as int, j as int),
        decreases v@.len() - j,
    {
        out.push(v[j]);
        assert(v@.subrange(k as int, j + 1) =~= v@.subrange(k as int, j as int).push(
            v@[j as int],
        ));
        j += 1;
    }
    assert(out@ =~= inserted(v@, caret as int, ch));
    proof {
        let t = out@;
        assert(t.take(k + 1) =~= v@.take(k as int).push(ch));
        lemma_encode_push(v@.take(k as int), ch);
        lemma_scalar_width(ch);
        lemma_boundary_ok(t, k + 1);
    }
    let nb = string_of(out.as_slice());
    *buf = nb;
    b + width_of(ch)
}

/// The caret after inserting `ch` at `caret`.
pub open spec fn insert_caret(s: Seq<char>, caret: int, ch: char) -> int {
    clamped(s, caret) + char_width(ch)
}

/// The text after a backspace at `caret`: the character before the caret
/// goes, if there is one.
pub open spec fn backspaced(s: Seq<char>, caret: int) -> Seq<char> {
    let k = caret_index(s, caret);
    if clamped(s, caret) == 0 {
        s
    } else {
        s.take(k - 1) + s.skip(k)
    }
}

/// The caret after a backspace at `caret`.
pub open spec fn backspace_caret(s: Seq<char>, caret: int) -> int {
    let k = caret_index(s, caret);
    if clamped(s, caret) == 0 {
        0
    } else {
        offset(s, k - 1) as int
    }
}

/// Backspace undoes typing a character: after inserting `ch` at a caret on
/// a character boundary, a backspace at the caret the insertion left gives
/// back the same text, with the caret where it was (clamped to the text).
pub proof fn lemma_backspace_undoes_insert(s: Seq<char>, caret: int, ch: char)
    requires
        caret_ok(s, caret),
    ensures
        backspaced(inserted(s, caret, ch), insert_caret(s, caret, ch)) == s,
        backspace_caret(inserted(s, caret, ch), insert_caret(s, caret, ch)) == clamped(s, caret),
{
    let c = clamped(s, caret);
    let k = caret_index(s, caret);
    assert(0 <= k <= s.len() && offset(s, k) == c);
    let t = inserted(s, caret, ch);
    assert(t.take(k + 1) =~= s.take(k).push(ch));
    assert(t.take(k) =~= s.take(k));
    lemma_encode_push(s.take(k), ch);
    lemma_scalar_width(ch);
    assert(offset(t, k + 1) == c + char_width(ch));
    assert(t.len() == s.len() + 1);
    lemma_boundary_ok(t, k + 1);
    assert(insert_caret(s, caret, ch) == offset(t, k + 1));
    assert(caret_index(t, insert_caret(s, caret, ch)) == k + 1);
    assert(clamped(t, insert_caret(s, caret, ch)) != 0);
    assert(t.take(k) + t.skip(k + 1) =~= s);
}

/// The text after deleting the word before `caret`.
pub open spec fn word_popped(s: Seq<char>, caret: int) -> Seq<char> {
    let k = caret_index(s, caret);
    s.take(word_start(s, k)) + s.skip(k)
}

/// The caret after deleting the word before `caret`.
pub open spec fn word_pop_caret(s: Seq<char>, caret: int) -> int {
    offset(s, word_start(s, caret_index(s, caret))) as int
}

/// ASCII whitespace, as `u8::is_ascii_whitespace` tests it.
pub open spec fn is_ascii_ws(c: char) -> bool {
    c == ' ' || c == '\t' || c == '\n' || c == '\x0C' || c == '\r'
}

/// The index reached by stepping back over ASCII whitespace from `k`.
pub open spec fn skip_ws_back(s: Seq<char>, k: int) -> int
    decreases k,
{
    if k > 0 && k <= s.len() && is_ascii_ws(s[k - 1]) {
        skip_ws_back(s, k - 1)
    } else {
        k
    }
}

/// The index reached by stepping back over non-whitespace from `k`.
pub open spec fn skip_word_back(s: Seq<char>, k: int) -> int
    decreases k,
{
    if k > 0 && k <= s.len() && !is_ascii_ws(s[k - 1]) {
        skip_word_back(s, k - 1)
    } else {
        k
    }
}

/// Where the word before character `k` starts (unix-word-rubout).
pub open spec fn word_start(s: Seq<char>, k: int) -> int {
    skip_word_back(s, skip_ws_back(s, k))
}

proof fn lemma_skip_bounds(s: Seq<char>, k: int)
    requires
        0 <= k <= s.len(),
    ensures
        0 <= skip_ws_back(s, k) <= k,
        0 <= skip_word_back(s, k) <= k,
    decreases k,
{
    if k > 0 {
        lemma_skip_bounds(s, k - 1);
    }
}

fn ascii_ws(c: char) -> (r: bool)
    ensures
        r == is_ascii_ws(c),
{
    c == ' ' || c == '\t' || c == '\n' || c == '\x0C' || c == '\r'
}

/// The text left by deleting characters `[a, k)`.
fn cut(v: &Vec<char>, a: usize, k: usize) -> (r: Vec<char>)
    requires
        a <= k <= v@.len(),
    ensures
        r@ == v@.take(a as int) + v@.skip(k as int),
{
    let mut out: Vec<char> = Vec::new();
    let mut i: usize = 0;
    while i < a
        invariant
            i <= a <= k <= v@.len(),
            out@ == v@.take(i as int),
        decreases a - i,
    {
        out.push(v[i]);
        assert(v@.take(i + 1) =~= v@.take(i as int).push(v@[i as int]));
        i += 1;
    }
    let mut j: usize = k;
    while j < v.len()
        invariant
            a <= k <= j <= v@.len(),
            out@ == v@.take(a as int) + v@.subrange(k as int, j as int),
        decreases v@.len() - j,
    {
        out.push(v[j]);
        assert(v@.subrange(k as int, j + 1) =~= v@.subrange(k as int, j as int).push(
            v@[j as int],
        ));
        j += 1;
    }
    assert(out@ =~= v@.take(a as int) + v@.skip(k as int));
    out
}

/// Delete the trailing word before the caret (readline unix-word-rubout):
/// first the whitespace just before it, then the run of non-whitespace
/// before that. Returns the new caret, where the deleted run began.
pub fn pop_word(buf: &mut String, caret: usize) -> (r: usize)
    requires
        caret_ok(old(buf)@, caret as int),
    ensures
        ({
            let s = old(buf)@;
            let k = caret_index(s, caret as int);
            let e = word_start(s, k);
            &&& final(buf)@ == s.take(e) + s.skip(k)
            &&& r == offset(s, e)
        }),
        final(buf)@ == word_popped(old(buf)@, caret as int),
        r == word_pop_caret(old(buf)@, caret as int),
        caret_ok(final(buf)@, r as int),
{
    let (v, total) = chars_and_len(buf.as_str());
    let c = if caret < total { caret } else { total };
    let (k, b) = locate(&v, total, c);
    let mut e: usize = k;
    let mut eb: usize = b;
    while e > 0 && ascii_ws(v[e - 1])
        invariant
            e <= k <= v@.len(),
            eb == offset(v@, e as int),
            skip_ws_back(v@, k as int) == skip_ws_back(v@, e as int),
        decreases e,
    {
        proof {
            lemma_offset_step(v@, e - 1);
        }
        eb = eb - width_of(v[e - 1]);
        e = e - 1;
    }
    assert(skip_ws_back(v@, e as int) == e as int);
    let ghost w = e as int;
    while e > 0 && !ascii_ws(v[e - 1])
        invariant
            e <= w <= k <= v@.len(),
            eb == offset(v@, e as int),
            skip_word_back(v@, w) == skip_word_back(v@, e as int),
        decreases e,
    {
        proof {
            lemma_offset_step(v@, e - 1);
        }
        eb = eb - width_of(v[e - 1]);
        e = e - 1;
    }
    assert(skip_word_back(v@, e as int) == e as int);
    let out = cut(&v, e, k);
    proof {
        assert(out@.take(e as int) =~= v@.take(e as int));
        lemma_boundary_ok(out@, e as int);
    }
    *buf = string_of(out.as_slice());
    eb
}

/// Delete the character before the caret; return the new caret, where that
/// character began. At the start of the text nothing changes.
pub fn backspace(buf: &mut String, caret: usize) -> (r: usize)
    requires
        caret_ok(old(buf)@, caret as int),
    ensures
        ({
            let s = old(buf)@;
            let k = caret_index(s, caret as int);
            &&& clamped(s, caret as int) == 0 ==> (final(buf)@ == s && r == 0)
            &&& clamped(s, caret as int) != 0 ==> (final(buf)@ == s.take(k - 1) + s.skip(k)
                && r == offset(s, k - 1))
        }),
        final(buf)@ == backspaced(old(buf)@, caret as int),
        r == backspace_caret(old(buf)@, caret as int),
        caret_ok(final(buf)@, r as int),
{
    let (v, total) = chars_and_len(buf.as_str());
    let c = if caret < total { caret } else { total };
    if c == 0 {
        proof {
            lemma_boundary_ok(v@, 0);
            lemma_offset_ends(v@);
        }
        return 0;
    }
    let (k, b) = locate(&v, total, c);
    proof {
        lemma_offset_ends(v@);
        if k == 0 {
            assert(b == 0);
        }
        lemma_offset_step(v@, k - 1);
    }
    let out = cut(&v, k - 1, k);
    proof {
        assert(out@.take(k - 1) =~= v@.take(k - 1));
        lemma_boundary_ok(out@, k - 1);
    }
    *buf = string_of(out.as_slice());
    b - width_of(v[k - 1])
}

/// The caret after moving one character left (`dir < 0`) or right, clamped
/// to the text.
pub open spec fn moved(s: Seq<char>, caret: int, dir: int) -> int {
    let c = clamped(s, caret);
    let k = index_at(s, c);
    if dir < 0 {
        if c == 0 {
            0
        } else {
            offset(s, k - 1) as int
        }
    } else {
        if c >= byte_len(s) {
            byte_len(s) as int
        } else {
            offset(s, k + 1) as int
        }
    }
}

/// Move the caret one character in `dir` (-1 left, +1 right), clamped to
/// `[0, len]`.
pub fn move_caret(buf: &str, caret: usize, dir: i8) -> (r: usize)
    requires
        caret_ok(buf@, caret as int),
    ensures
        r == moved(buf@, caret as int, dir as int),
        caret_ok(buf@, r as int),
        r <= byte_len(buf@),
{
    let (v, total) = chars_and_len(buf);
    let c = if caret < total { caret } else { total };
    proof {
        lemma_offset_ends(v@);
    }
    if dir < 0 {
        if c == 0 {
            proof {
                lemma_index_at(v@, 0);
            }
            0
        } else {
            let (k, b) = locate(&v, total, c);
            proof {
                if k == 0 {
                    assert(b == 0);
                }
                lemma_offset_step(v@, k - 1);
                lemma_index_at(v@, k - 1);
                if k < v@.len() {
                    lemma_offset_mono(v@, k - 1, v@.len() as int);
                }
            }
            b - width_of(v[k - 1])
        }
    } else {
        if c >= total {
            proof {
                lemma_index_at(v@, v@.len() as int);
            }
            total
        } else {
            let (k, b) = locate(&v, total, c);
            proof {
                if k == v@.len() {
                    assert(b == total);
                }
                lemma_offset_step(v@, k as int);
                lemma_index_at(v@, k + 1);
                if k + 1 < v@.len() {
                    lemma_offset_mono(v@, k + 1, v@.len() as int);
                }
            }
            b + width_of(v[k])
        }
    }
}

} // verus!
