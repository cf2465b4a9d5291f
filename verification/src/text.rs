//! Text utilities: byte-level substring containment for name matching, and
//! the normalization applied to a scanned field before it becomes text —
//! decode the raw bytes as UTF-8, remove every NUL character (the stream
//! pads fields with NULs, and none belongs in a title or author), then
//! trim the whitespace around what is left.

use vstd::prelude::*;
use vstd::utf8::{decode_utf8, valid_utf8};

verus! {

/// `needle` occurs in `hay` starting at index `i`.
pub open spec fn is_match_at(hay: Seq<u8>, needle: Seq<u8>, i: int) -> bool {
    0 <= i && i + needle.len() <= hay.len() && hay.subrange(i, i + needle.len()) == needle
}

/// `needle` occurs somewhere in `hay` as a contiguous run of bytes.
pub open spec fn contains_seq(hay: Seq<u8>, needle: Seq<u8>) -> bool {
    exists|i: int| is_match_at(hay, needle, i)
}

/// `s` ends with `suffix`.
pub open spec fn ends_with(s: Seq<u8>, suffix: Seq<u8>) -> bool {
    s.len() >= suffix.len() && s.subrange(s.len() - suffix.len(), s.len() as int) == suffix
}

/// Substring containment on raw bytes.
///
/// Names reported by the operating system carry trailing padding and other
/// garbage, so every name comparison in this crate is containment, never
/// exact equality.
pub fn contains_bytes(hay: &Vec<u8>, needle: &Vec<u8>) -> (r: bool)
    ensures
        r == contains_seq(hay@, needle@),
{
    if needle.len() > hay.len() {
        assert(forall|i: int| !is_match_at(hay@, needle@, i));
        return false;
    }
    if needle.len() == 0 {
        assert(hay@.subrange(0, 0) =~= needle@);
        assert(is_match_at(hay@, needle@, 0));
        return true;
    }
    let mut i: usize = 0;
    while i <= hay.len() - needle.len()
        invariant
            0 < needle.len() <= hay.len(),
            i <= hay.len() - needle.len() + 1,
            forall|k: int| 0 <= k < i ==> !is_match_at(hay@, needle@, k),
        decreases hay.len() - needle.len() - i + 1,
    {
        if match_at(hay, needle, i) {
            return true;
        }
        i = i + 1;
    }
    assert(forall|k: int| !is_match_at(hay@, needle@, k));
    false
}

/// One position of the containment check: does `needle` start at `i`?
fn match_at(hay: &Vec<u8>, needle: &Vec<u8>, i: usize) -> (r: bool)
    requires
        i + needle.len() <= hay.len(),
    ensures
        r == is_match_at(hay@, needle@, i as int),
{
    let mut j: usize = 0;
    while j < needle.len()
        invariant
            i + needle.len() <= hay.len(),
            j <= needle.len(),
            forall|k: int| 0 <= k < j ==> hay@[i + k] == needle@[k],
        decreases needle.len() - j,
    {
        if hay[i + j] != needle[j] {
            assert(hay@.subrange(i as int, i + needle.len()) != needle@) by {
                assert(hay@.subrange(i as int, i + needle.len())[j as int] != needle@[j as int]);
            }
            return false;
        }
        j = j + 1;
    }
    assert(hay@.subrange(i as int, i + needle.len()) =~= needle@);
    true
}

/// Whether the last `suffix.len()` bytes of `buf` are exactly `suffix`.
pub fn ends_with_bytes(buf: &Vec<u8>, suffix: &Vec<u8>) -> (r: bool)
    ensures
        r == ends_with(buf@, suffix@),
{
    if suffix.len() > buf.len() {
        return false;
    }
    let start: usize = buf.len() - suffix.len();
    let mut j: usize = 0;
    while j < suffix.len()
        invariant
            suffix.len() <= buf.len(),
            start == buf.len() - suffix.len(),
            j <= suffix.len(),
            forall|k: int| 0 <= k < j ==> buf@[start + k] == suffix@[k],
        decreases suffix.len() - j,
    {
        if buf[start + j] != suffix[j] {
            assert(buf@.subrange(start as int, buf@.len() as int) != suffix@) by {
                assert(buf@.subrange(start as int, buf@.len() as int)[j as int]
                    != suffix@[j as int]);
            }
            return false;
        }
        j = j + 1;
    }
    assert(buf@.subrange(start as int, buf@.len() as int) =~= suffix@);
    true
}

/// The characters with the Unicode `White_Space` property, the set that
/// whitespace trimming removes from the ends of a field.
pub open spec fn is_ws_char(c: char) -> bool {
    let u = c as u32;
    u == 0x09 || u == 0x0A || u == 0x0B || u == 0x0C || u == 0x0D || u == 0x20 || u == 0x85
        || u == 0xA0 || u == 0x1680 || (0x2000 <= u && u <= 0x200A) || u == 0x2028 || u == 0x2029
        || u == 0x202F || u == 0x205F || u == 0x3000
}

/// Executable form of [`is_ws_char`].
fn char_is_ws(c: char) -> (r: bool)
    ensures
        r == is_ws_char(c),
{
    let u = c as u32;
    u == 0x09 || u == 0x0A || u == 0x0B || u == 0x0C || u == 0x0D || u == 0x20 || u == 0x85
        || u == 0xA0 || u == 0x1680 || (0x2000 <= u && u <= 0x200A) || u == 0x2028 || u == 0x2029
        || u == 0x202F || u == 0x205F || u == 0x3000
}

/// `cs` with every NUL character removed, wherever it stands — the stream
/// pads fields with NULs both around and inside the text.
pub open spec fn remove_nuls(cs: Seq<char>) -> Seq<char>
    decreases cs.len(),
{
    if cs.len() == 0 {
        cs
    } else if cs[0] == '\0' {
        remove_nuls(cs.drop_first())
    } else {
        seq![cs[0]] + remove_nuls(cs.drop_first())
    }
}

/// `cs` with every leading and trailing whitespace character removed.
pub open spec fn trim_ws(cs: Seq<char>) -> Seq<char>
    decreases cs.len(),
{
    if cs.len() == 0 {
        cs
    } else if is_ws_char(cs[0]) {
        trim_ws(cs.drop_first())
    } else if is_ws_char(cs.last()) {
        trim_ws(cs.drop_last())
    } else {
        cs
    }
}

/// What a raw scanned field means as text: decode the bytes as UTF-8 —
/// `None` when that fails — then remove every NUL character and trim the
/// surrounding whitespace.
pub open spec fn spec_normalize(s: Seq<u8>) -> Option<Seq<char>> {
    if valid_utf8(s) {
        Some(trim_ws(remove_nuls(decode_utf8(s))))
    } else {
        None
    }
}

/// Removing NULs commutes with appending one character.
proof fn lemma_remove_nuls_push(cs: Seq<char>, c: char)
    ensures
        remove_nuls(cs.push(c)) == (if c == '\0' {
            remove_nuls(cs)
        } else {
            remove_nuls(cs).push(c)
        }),
    decreases cs.len(),
{
    if cs.len() == 0 {
        assert(cs.push(c).drop_first() =~= cs);
        if c != '\0' {
            assert(seq![c] + remove_nuls(cs) =~= remove_nuls(cs).push(c));
        }
    } else {
        assert(cs.push(c)[0] == cs[0]);
        assert(cs.push(c).drop_first() =~= cs.drop_first().push(c));
        lemma_remove_nuls_push(cs.drop_first(), c);
        if cs[0] != '\0' && c != '\0' {
            assert(seq![cs[0]] + remove_nuls(cs.drop_first()).push(c) =~= (seq![cs[0]]
                + remove_nuls(cs.drop_first())).push(c));
        }
    }
}

/// Every NUL character of a field goes, embedded ones included.
fn strip_nul_chars(cs: &Vec<char>) -> (r: Vec<char>)
    ensures
        r@ == remove_nuls(cs@),
{
    let mut r: Vec<char> = Vec::new();
    let mut i: usize = 0;
    while i < cs.len()
        invariant
            i <= cs@.len(),
            r@ == remove_nuls(cs@.take(i as int)),
        decreases cs@.len() - i,
    {
        proof {
            lemma_remove_nuls_push(cs@.take(i as int), cs@[i as int]);
            assert(cs@.take(i as int).push(cs@[i as int]) =~= cs@.take(i + 1));
        }
        if cs[i] != '\0' {
            r.push(cs[i]);
        }
        i = i + 1;
    }
    proof {
        assert(cs@.take(cs@.len() as int) =~= cs@);
    }
    r
}

/// Dropping leading whitespace does not change the trim result.
proof fn lemma_trim_skip_front(cs: Seq<char>, i: int)
    requires
        0 <= i <= cs.len(),
        forall|k: int| 0 <= k < i ==> is_ws_char(cs[k]),
    ensures
        trim_ws(cs) == trim_ws(cs.subrange(i, cs.len() as int)),
    decreases i,
{
    if i > 0 {
        assert(cs.len() > 0 && is_ws_char(cs[0]));
        let cs1 = cs.drop_first();
        assert(forall|k: int| 0 <= k < i - 1 ==> is_ws_char(cs1[k]));
        lemma_trim_skip_front(cs1, i - 1);
        assert(cs1.subrange(i - 1, cs1.len() as int) =~= cs.subrange(i, cs.len() as int));
    } else {
        assert(cs.subrange(0, cs.len() as int) =~= cs);
    }
}

/// Dropping trailing whitespace does not change the trim result, provided
/// the first character is not whitespace.
proof fn lemma_trim_skip_back(cs: Seq<char>, j: int)
    requires
        0 <= j <= cs.len(),
        cs.len() > 0 ==> !is_ws_char(cs[0]),
        forall|k: int| j <= k < cs.len() ==> is_ws_char(cs[k]),
    ensures
        trim_ws(cs) == trim_ws(cs.subrange(0, j)),
    decreases cs.len() - j,
{
    if j < cs.len() {
        assert(is_ws_char(cs.last()));
        assert(!is_ws_char(cs[0]));
        let cs1 = cs.drop_last();
        assert(forall|k: int| j <= k < cs1.len() ==> is_ws_char(cs1[k]));
        lemma_trim_skip_back(cs1, j);
        assert(cs1.subrange(0, j) =~= cs.subrange(0, j));
    } else {
        assert(cs.subrange(0, cs.len() as int) =~= cs);
    }
}

/// A sequence kept whole trims to itself.
proof fn lemma_trim_noop(cs: Seq<char>)
    requires
        cs.len() > 0 ==> !is_ws_char(cs[0]),
        cs.len() > 0 ==> !is_ws_char(cs.last()),
    ensures
        trim_ws(cs) == cs,
{
}

/// Removes the whitespace characters at both ends of a field.
fn trim_ws_chars(cs: &Vec<char>) -> (r: Vec<char>)
    ensures
        r@ == trim_ws(cs@),
{
    let mut lo: usize = 0;
    while lo < cs.len() && char_is_ws(cs[lo])
        invariant
            lo <= cs@.len(),
            forall|k: int| 0 <= k < lo ==> is_ws_char(cs@[k]),
        decreases cs@.len() - lo,
    {
        lo = lo + 1;
    }
    proof {
        lemma_trim_skip_front(cs@, lo as int);
    }
    // From here on the tail `cs[lo..]` starts with a kept character (or is
    // empty).
    let mut hi: usize = cs.len();
    while hi > lo && char_is_ws(cs[hi - 1])
        invariant
            lo <= hi <= cs@.len(),
            lo < cs@.len() ==> !is_ws_char(cs@[lo as int]),
            forall|k: int| hi <= k < cs@.len() ==> is_ws_char(cs@[k]),
        decreases hi,
    {
        hi = hi - 1;
    }
    proof {
        let tail = cs@.subrange(lo as int, cs@.len() as int);
        assert(forall|k: int| hi - lo <= k < tail.len() ==> is_ws_char(tail[k]));
        lemma_trim_skip_back(tail, hi - lo);
        assert(tail.subrange(0, hi - lo) =~= cs@.subrange(lo as int, hi as int));
        let kept = cs@.subrange(lo as int, hi as int);
        if kept.len() > 0 {
            assert(!is_ws_char(kept[0]));
            assert(!is_ws_char(kept.last()));
        }
        lemma_trim_noop(kept);
    }
    let mut r: Vec<char> = Vec::new();
    let mut j: usize = lo;
    while j < hi
        invariant
            lo <= j <= hi <= cs@.len(),
            r@ == cs@.subrange(lo as int, j as int),
        decreases hi - j,
    {
        r.push(cs[j]);
        proof {
            assert(r@ =~= cs@.subrange(lo as int, j + 1));
        }
        j = j + 1;
    }
    r
}

/// Relies on `str::from_utf8`: `Ok` exactly when the bytes are valid
/// UTF-8, and then the characters of the string are the scalars those
/// bytes encode.
#[verifier::external_body]
fn utf8_to_chars(bytes: &Vec<u8>) -> (r: Option<Vec<char>>)
    ensures
        r is Some <==> valid_utf8(bytes@),
        r matches Some(cs) ==> cs@ == decode_utf8(bytes@),
{
    match core::str::from_utf8(bytes.as_slice()) {
        Ok(s) => Some(s.chars().collect()),
        Err(_) => None,
    }
}

/// Relies on `String`'s `FromIterator` over `char`: the collected string
/// holds exactly the given characters, in order.
#[verifier::external_body]
fn chars_to_string(chars: &Vec<char>) -> (r: String)
    ensures
        r@ == chars@,
{
    chars.iter().collect()
}

/// Normalizes one raw scanned field into text.
///
/// Decodes the bytes as UTF-8 — `None` exactly when that fails — then
/// removes every NUL character, embedded ones included, and trims the
/// whitespace around what remains.
pub fn normalize_field(bytes: &Vec<u8>) -> (r: Option<String>)
    ensures
        r is Some <==> spec_normalize(bytes@) is Some,
        r matches Some(s) ==> Some(s@) == spec_normalize(bytes@),
{
    let decoded = match utf8_to_chars(bytes) {
        Some(cs) => cs,
        None => {
            return None;
        },
    };
    let kept = strip_nul_chars(&decoded);
    let trimmed = trim_ws_chars(&kept);
    Some(chars_to_string(&trimmed))
}

} // verus!
