//! Editing a string at a cursor that counts UTF-8 bytes, as text inputs do.
//!
//! A cursor is valid for a string when it falls between two chars: it is the
//! UTF-8 length of some prefix of the string. The char index of that prefix is
//! what the contracts speak of.
use vstd::prelude::*;
use vstd::utf8::*;
use vstd::string::*;
use crate::crypto::secure_string::string_push;

verus! {

/// The number of bytes of the UTF-8 encoding of `s`.
pub open spec fn utf8_len(s: Seq<char>) -> nat {
    encode_utf8(s).len()
}

/// The number of bytes of the UTF-8 encoding of `c`.
pub open spec fn char_width(c: char) -> nat {
    encode_scalar(c as u32).len()
}

/// Whether the byte offset `b` falls between two chars of `s`.
pub open spec fn is_boundary(s: Seq<char>, b: int) -> bool {
    exists|k: int| 0 <= k <= s.len() && utf8_len(s.take(k)) == b
}

/// The number of chars before the byte offset `b` of `s`.
pub open spec fn char_index(s: Seq<char>, b: int) -> int {
    choose|k: int| 0 <= k <= s.len() && utf8_len(s.take(k)) == b
}

/// The byte offset of the char index `k` of `s`.
pub open spec fn byte_offset(s: Seq<char>, k: int) -> int {
    utf8_len(s.take(k)) as int
}

/// The encoding of a concatenation is the concatenation of the encodings.
pub proof fn lemma_encode_concat(a: Seq<char>, b: Seq<char>)
    ensures
        encode_utf8(a + b) == encode_utf8(a) + encode_utf8(b),
    decreases a.len(),
{
    if a.len() == 0 {
        assert(a + b =~= b);
        assert(encode_utf8(a) + encode_utf8(b) =~= encode_utf8(b));
    } else {
        assert((a + b).drop_first() =~= a.drop_first() + b);
        lemma_encode_concat(a.drop_first(), b);
        assert(encode_utf8(a + b) =~= encode_utf8(a) + encode_utf8(b));
    }
}

/// Every char takes one to four bytes.
pub proof fn lemma_char_width(c: char)
    ensures
        1 <= char_width(c) <= 4,
        encode_utf8(seq![c]).len() == char_width(c),
{
    let s = seq![c];
    assert(s.drop_first() =~= Seq::<char>::empty());
    assert(encode_utf8(Seq::<char>::empty()) =~= Seq::<u8>::empty());
    assert(encode_utf8(s) =~= encode_scalar(c as u32));
}

/// A string takes at most four bytes per char.
pub proof fn lemma_utf8_len_bound(s: Seq<char>)
    ensures
        utf8_len(s) <= 4 * s.len(),
    decreases s.len(),
{
    if s.len() > 0 {
        lemma_utf8_len_bound(s.drop_first());
        lemma_char_width(s[0]);
        assert(encode_utf8(s) == encode_scalar(s[0] as u32) + encode_utf8(s.drop_first()));
    }
}

/// Taking one more char adds its width.
pub proof fn lemma_take_step(s: Seq<char>, k: int)
    requires
        0 <= k < s.len(),
    ensures
        utf8_len(s.take(k + 1)) == utf8_len(s.take(k)) + char_width(s[k]),
{
    assert(s.take(k + 1) =~= s.take(k) + seq![s[k]]);
    lemma_encode_concat(s.take(k), seq![s[k]]);
    lemma_char_width(s[k]);
}

/// The length of the whole is that of a prefix and the rest.
pub proof fn lemma_utf8_len_split(s: Seq<char>, k: int)
    requires
        0 <= k <= s.len(),
    ensures
        utf8_len(s) == utf8_len(s.take(k)) + utf8_len(s.skip(k)),
{
    assert(s =~= s.take(k) + s.skip(k));
    lemma_encode_concat(s.take(k), s.skip(k));
}

/// Longer prefixes have longer encodings.
pub proof fn lemma_take_monotone(s: Seq<char>, i: int, j: int)
    requires
        0 <= i < j <= s.len(),
    ensures
        utf8_len(s.take(i)) < utf8_len(s.take(j)),
    decreases j - i,
{
    lemma_take_step(s, j - 1);
    lemma_char_width(s[j - 1]);
    if i < j - 1 {
        lemma_take_monotone(s, i, j - 1);
    }
}

/// A byte offset names at most one char index.
pub proof fn lemma_char_index_unique(s: Seq<char>, k: int)
    requires
        0 <= k <= s.len(),
    ensures
        is_boundary(s, byte_offset(s, k)),
        char_index(s, byte_offset(s, k)) == k,
{
    let b = byte_offset(s, k);
    assert(0 <= k <= s.len() && utf8_len(s.take(k)) == b);
    let j = char_index(s, b);
    if j < k {
        lemma_take_monotone(s, j, k);
    } else if k < j {
        lemma_take_monotone(s, k, j);
    }
}

/// The offsets of the first and the last boundary.
pub proof fn lemma_boundary_ends(s: Seq<char>)
    ensures
        byte_offset(s, 0) == 0,
        byte_offset(s, s.len() as int) == utf8_len(s),
{
    assert(s.take(0) =~= Seq::<char>::empty());
    assert(s.take(s.len() as int) =~= s);
}

/// The width in bytes of `c` in UTF-8.
pub fn utf8_width(c: char) -> (w: usize)
    ensures
        w == char_width(c),
        1 <= w <= 4,
{
    proof {
        char_is_scalar(c);
    }
    let v = c as u32;
    if v < 0x80 {
        1
    } else if v < 0x800 {
        2
    } else if v < 0x10000 {
        3
    } else {
        4
    }
}

/// Every string's encoding fits in memory: its byte length is a `usize`.
pub fn utf8_fits(s: &str)
    ensures
        utf8_len(s@) <= usize::MAX,
{
    let b = s.as_bytes();
    let n = b.len();
    assert(n as int == b@.len());
}

/// The byte length of `s`.
pub fn byte_len(s: &str) -> (n: usize)
    requires
        utf8_len(s@) <= usize::MAX,
    ensures
        n == utf8_len(s@),
{
    s.len()
}

/// The char index at the byte offset `b` of `s`.
pub fn char_index_at(s: &str, b: usize) -> (k: usize)
    requires
        is_boundary(s@, b as int),
    ensures
        k == char_index(s@, b as int),
        k <= s@.len(),
        byte_offset(s@, k as int) == b,
{
    let ghost target = char_index(s@, b as int);
    proof {
        lemma_char_index_unique(s@, target);
        lemma_boundary_ends(s@);
    }
    let mut i: usize = 0;
    let mut pos: usize = 0;
    while pos < b
        invariant
            0 <= target <= s@.len(),
            byte_offset(s@, target) == b,
            i <= target,
            pos == byte_offset(s@, i as int),
            pos <= b,
            i <= pos,
        decreases target - i,
    {
        proof {
            if i == target {
                assert(false);
            }
        }
        let c = s.get_char(i);
        let w = utf8_width(c);
        proof {
            lemma_take_step(s@, i as int);
            if i + 1 < target {
                lemma_take_monotone(s@, i + 1, target);
            }
        }
        pos = pos + w;
        i = i + 1;
    }
    proof {
        if i < target {
            lemma_take_monotone(s@, i as int, target);
        }
    }
    i
}

/// The byte offset of the char index `k` of `s`.
pub fn byte_offset_at(s: &str, k: usize) -> (b: usize)
    requires
        k <= s@.len(),
        utf8_len(s@) <= usize::MAX,
    ensures
        b == byte_offset(s@, k as int),
{
    let prefix = s.substring_char(0, k);
    proof {
        assert(prefix@ =~= s@.take(k as int));
        lemma_utf8_len_split(s@, k as int);
    }
    prefix.len()
}

/// `s` with `c` inserted at the char index `k`.
pub fn insert_char_at(s: &str, k: usize, c: char) -> (r: String)
    requires
        k <= s@.len(),
    ensures
        r@ == s@.take(k as int).push(c) + s@.skip(k as int),
{
    let n = s.unicode_len();
    let mut r = String::from_str(s.substring_char(0, k));
    string_push(&mut r, c);
    r.append(s.substring_char(k, n));
    r
}

/// `s` without the char at the index `k`.
pub fn remove_char_at(s: &str, k: usize) -> (r: String)
    requires
        k < s@.len(),
    ensures
        r@ == s@.take(k as int) + s@.skip(k + 1),
{
    let n = s.unicode_len();
    let mut r = String::from_str(s.substring_char(0, k));
    r.append(s.substring_char(k + 1, n));
    r
}

/// The result of inserting `c` at the cursor `b`: the text and the cursor
/// after the inserted char.
pub open spec fn inserted(s: Seq<char>, b: int, c: char) -> (Seq<char>, int) {
    let k = char_index(s, b);
    (s.take(k).push(c) + s.skip(k), b + char_width(c))
}

/// The result of deleting the char before the cursor `b`; nothing changes at
/// the start of the text.
pub open spec fn backspaced(s: Seq<char>, b: int) -> (Seq<char>, int) {
    let k = char_index(s, b);
    if b > 0 {
        (s.take(k - 1) + s.skip(k), byte_offset(s, k - 1))
    } else {
        (s, b)
    }
}

/// The text after deleting the char at the cursor `b`; nothing changes at the
/// end of the text.
pub open spec fn deleted(s: Seq<char>, b: int) -> Seq<char> {
    let k = char_index(s, b);
    if k < s.len() {
        s.take(k) + s.skip(k + 1)
    } else {
        s
    }
}

/// The cursor one char to the left of `b`, or `b` at the start.
pub open spec fn cursor_left(s: Seq<char>, b: int) -> int {
    if b > 0 {
        byte_offset(s, char_index(s, b) - 1)
    } else {
        b
    }
}

/// The cursor one char to the right of `b`, or `b` at the end.
pub open spec fn cursor_right(s: Seq<char>, b: int) -> int {
    let k = char_index(s, b);
    if k < s.len() {
        byte_offset(s, k + 1)
    } else {
        b
    }
}

/// Deleting the char before the cursor right after typing it gives back the
/// text and the cursor as they were.
pub proof fn lemma_backspace_undoes_insert(s: Seq<char>, b: int, c: char)
    requires
        is_boundary(s, b),
    ensures
        backspaced(inserted(s, b, c).0, inserted(s, b, c).1) == (s, b),
{
    let k = char_index(s, b);
    assert(0 <= k <= s.len() && utf8_len(s.take(k)) == b);
    let t = s.take(k).push(c) + s.skip(k);
    let nb = b + char_width(c);
    assert(t.take(k + 1) =~= s.take(k).push(c));
    assert(t.take(k) =~= s.take(k));
    assert(t.skip(k + 1) =~= s.skip(k));
    lemma_take_step(t, k);
    lemma_char_width(c);
    assert(utf8_len(t.take(k + 1)) == nb);
    lemma_char_index_unique(t, k + 1);
    assert(char_index(t, nb) == k + 1);
    assert(t.take(k) + t.skip(k + 1) =~= s);
}

/// Moving the cursor right and then left, away from the end of the text,
/// brings it back.
pub proof fn lemma_left_undoes_right(s: Seq<char>, b: int)
    requires
        is_boundary(s, b),
        char_index(s, b) < s.len(),
    ensures
        cursor_left(s, cursor_right(s, b)) == b,
{
    let k = char_index(s, b);
    assert(0 <= k <= s.len() && utf8_len(s.take(k)) == b);
    lemma_char_index_unique(s, k + 1);
    lemma_take_monotone(s, 0, k + 1);
    assert(s.take(0) =~= Seq::<char>::empty());
    assert(utf8_len(Seq::<char>::empty()) == 0);
}

/// Inserts `c` into `s` at the valid cursor `b` and returns the new cursor.
pub fn insert_at_cursor(s: &mut String, b: usize, c: char) -> (nb: usize)
    requires
        is_boundary(old(s)@, b as int),
        utf8_len(old(s)@) + 4 <= usize::MAX,
    ensures
        (final(s)@, nb as int) == inserted(old(s)@, b as int, c),
        is_boundary(final(s)@, nb as int),
        utf8_len(final(s)@) == utf8_len(old(s)@) + char_width(c),
{
    let ghost s0 = s@;
    let k = char_index_at(s.as_str(), b);
    let w = utf8_width(c);
    let r = insert_char_at(s.as_str(), k, c);
    proof {
        let t = r@;
        assert(t.take(k + 1) =~= s0.take(k as int).push(c));
        assert(t.take(k as int) =~= s0.take(k as int));
        lemma_take_step(t, k as int);
        lemma_char_index_unique(t, k + 1);
        lemma_utf8_len_split(s0, k as int);
        lemma_utf8_len_split(t, k + 1);
        assert(t.skip(k + 1) =~= s0.skip(k as int));
        lemma_boundary_bound(s0, b as int);
    }
    *s = r;
    b + w
}

/// Deletes the char before the valid cursor `b`, if there is one, and
/// returns the new cursor.
pub fn backspace_at_cursor(s: &mut String, b: usize) -> (nb: usize)
    requires
        is_boundary(old(s)@, b as int),
    ensures
        (final(s)@, nb as int) == backspaced(old(s)@, b as int),
        is_boundary(final(s)@, nb as int),
        utf8_len(final(s)@) <= utf8_len(old(s)@),
{
    let ghost s0 = s@;
    if b == 0 {
        return b;
    }
    let k = char_index_at(s.as_str(), b);
    proof {
        lemma_boundary_ends(s0);
        if k == 0 {
            assert(false);
        }
    }
    let prefix_len = byte_offset_before(s.as_str(), k);
    let r = remove_char_at(s.as_str(), k - 1);
    proof {
        let t = r@;
        assert(t.take(k - 1) =~= s0.take(k - 1));
        lemma_char_index_unique(t, k - 1);
        lemma_utf8_len_split(s0, k - 1);
        lemma_utf8_len_split(t, k - 1);
        assert(t.skip(k - 1) =~= s0.skip(k as int));
        lemma_utf8_len_split(s0, k as int);
        lemma_take_step(s0, k - 1);
        assert(s0.take(k as int).take(k - 1) =~= s0.take(k - 1));
    }
    *s = r;
    prefix_len
}

/// The byte offset of the char index `k - 1`, for `0 < k` with a known offset.
fn byte_offset_before(s: &str, k: usize) -> (b: usize)
    requires
        0 < k <= s@.len(),
        byte_offset(s@, k as int) <= usize::MAX,
    ensures
        b == byte_offset(s@, k - 1),
{
    proof {
        lemma_take_monotone(s@, k - 1, k as int);
    }
    let prefix = s.substring_char(0, k - 1);
    proof {
        assert(prefix@ =~= s@.take(k - 1));
        lemma_utf8_len_split(prefix@, prefix@.len() as int);
        assert(prefix@.take(prefix@.len() as int) =~= prefix@);
    }
    prefix.len()
}

/// Deletes the char at the valid cursor `b`, if there is one; the cursor
/// stays where it is.
pub fn delete_at_cursor(s: &mut String, b: usize)
    requires
        is_boundary(old(s)@, b as int),
    ensures
        final(s)@ == deleted(old(s)@, b as int),
        is_boundary(final(s)@, b as int),
        utf8_len(final(s)@) <= utf8_len(old(s)@),
{
    let ghost s0 = s@;
    let k = char_index_at(s.as_str(), b);
    let n = s.as_str().unicode_len();
    if k < n {
        let r = remove_char_at(s.as_str(), k);
        proof {
            let t = r@;
            assert(t.take(k as int) =~= s0.take(k as int));
            lemma_char_index_unique(t, k as int);
            lemma_utf8_len_split(s0, k as int);
            lemma_utf8_len_split(t, k as int);
            assert(t.skip(k as int) =~= s0.skip(k + 1));
            lemma_utf8_len_split(s0.skip(k as int), 1);
            assert(s0.skip(k as int).skip(1) =~= s0.skip(k + 1));
        }
        *s = r;
    }
}

/// The cursor one char to the left of the valid cursor `b`.
pub fn left_of(s: &str, b: usize) -> (nb: usize)
    requires
        is_boundary(s@, b as int),
    ensures
        nb == cursor_left(s@, b as int),
        is_boundary(s@, nb as int),
        nb <= b,
{
    if b == 0 {
        return b;
    }
    let k = char_index_at(s, b);
    proof {
        lemma_boundary_ends(s@);
        if k == 0 {
            assert(false);
        }
        lemma_char_index_unique(s@, k - 1);
        lemma_take_monotone(s@, k - 1, k as int);
    }
    byte_offset_before(s, k)
}

/// The cursor one char to the right of the valid cursor `b`.
pub fn right_of(s: &str, b: usize) -> (nb: usize)
    requires
        is_boundary(s@, b as int),
        utf8_len(s@) <= usize::MAX,
    ensures
        nb == cursor_right(s@, b as int),
        is_boundary(s@, nb as int),
        b <= nb,
{
    let k = char_index_at(s, b);
    let n = s.unicode_len();
    if k < n {
        proof {
            lemma_char_index_unique(s@, k + 1);
            lemma_take_monotone(s@, k as int, k + 1);
        }
        byte_offset_at(s, k + 1)
    } else {
        b
    }
}

/// The cursor at the end of `s` is valid and is its byte length.
pub proof fn lemma_end_is_boundary(s: Seq<char>)
    ensures
        is_boundary(s, utf8_len(s) as int),
        char_index(s, utf8_len(s) as int) == s.len(),
        is_boundary(s, 0),
        char_index(s, 0) == 0,
{
    lemma_boundary_ends(s);
    lemma_char_index_unique(s, s.len() as int);
    lemma_char_index_unique(s, 0);
}

/// A cursor lies within the byte length of its text, and the cursor
/// falls short of the end exactly when chars follow it.
pub proof fn lemma_boundary_bound(s: Seq<char>, b: int)
    requires
        is_boundary(s, b),
    ensures
        0 <= b <= utf8_len(s),
        (b < utf8_len(s)) == (char_index(s, b) < s.len()),
        0 <= char_index(s, b) <= s.len(),
        byte_offset(s, char_index(s, b)) == b,
{
    let k = char_index(s, b);
    lemma_boundary_ends(s);
    if k < s.len() {
        lemma_take_monotone(s, k, s.len() as int);
    }
}

} // verus!
