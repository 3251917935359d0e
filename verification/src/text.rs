//! Text as sequences of characters.
//!
//! Contracts in this crate speak of a string through its view, a
//! `Seq<char>`. The functions here move between `str` and `Vec<char>` and
//! give the few operations of `std` on strings that the rest of the crate
//! needs a meaning over that view.

use vstd::prelude::*;
use vstd::string::StringSliceAdditionalSpecFns;
use vstd::utf8::{decode_utf8, encode_utf8, is_char_boundary};

verus! {

/// Whether `c` is white space to `str::trim`: whether it has the Unicode
/// property `White_Space`.
pub uninterp spec fn unicode_whitespace(c: char) -> bool;

/// The lower-case form of `s`, as `str::to_lowercase` computes it.
pub uninterp spec fn lowercase_of(s: Seq<char>) -> Seq<char>;

/// The number of white-space characters at the start of `s`.
pub open spec fn leading_whitespace(s: Seq<char>) -> nat
    decreases s.len(),
{
    if s.len() > 0 && unicode_whitespace(s[0]) {
        1 + leading_whitespace(s.drop_first())
    } else {
        0
    }
}

/// The number of white-space characters at the end of `s`.
pub open spec fn trailing_whitespace(s: Seq<char>) -> nat
    decreases s.len(),
{
    if s.len() > 0 && unicode_whitespace(s.last()) {
        1 + trailing_whitespace(s.drop_last())
    } else {
        0
    }
}

/// `s` without its leading and trailing white space.
pub open spec fn trim_spec(s: Seq<char>) -> Seq<char> {
    let rest = s.skip(leading_whitespace(s) as int);
    rest.take(rest.len() - trailing_whitespace(rest))
}

/// The length of the first line of `s`: the position of the first line feed,
/// or the length of `s` where it holds none.
pub open spec fn line_end(s: Seq<char>) -> nat
    decreases s.len(),
{
    if s.len() == 0 || s[0] == '\n' {
        0
    } else {
        1 + line_end(s.drop_first())
    }
}

/// A line without the carriage return that may precede its line feed.
pub open spec fn without_carriage_return(line: Seq<char>) -> Seq<char> {
    if line.len() > 0 && line.last() == '\r' {
        line.drop_last()
    } else {
        line
    }
}

/// The lines of `s`. A line ends at a line feed or at a carriage return
/// directly followed by one; the terminator is not part of the line, and the
/// last line needs none.
pub open spec fn lines_of(s: Seq<char>) -> Seq<Seq<char>>
    decreases s.len(),
{
    let n = line_end(s);
    if s.len() == 0 {
        Seq::empty()
    } else if n < s.len() {
        seq![without_carriage_return(s.take(n as int))] + lines_of(s.skip(n as int + 1))
    } else {
        seq![s]
    }
}

/// `items` joined by single line feeds.
pub open spec fn join_lines(items: Seq<Seq<char>>) -> Seq<char>
    decreases items.len(),
{
    if items.len() == 0 {
        Seq::empty()
    } else if items.len() == 1 {
        items[0]
    } else {
        join_lines(items.drop_last()) + seq!['\n'] + items.last()
    }
}

/// Trusted: `str::trim` returns the slice left after the leading and the
/// trailing white space is removed. Which characters are white space is not
/// said here; the predicate is named `unicode_whitespace`.
pub assume_specification[ str::trim ](s: &str) -> (r: &str)
    ensures
        r@ == trim_spec(s@),
        r@.len() > 0 ==> !unicode_whitespace(r@.first()) && !unicode_whitespace(r@.last()),
;

/// Trusted: `str::to_lowercase` depends on its argument alone; its result is
/// given the name `lowercase_of`.
pub assume_specification[ str::to_lowercase ](s: &str) -> (r: String)
    ensures
        r@ == lowercase_of(s@),
;

/// Trusted: `String::push` appends one character.
pub assume_specification[ String::push ](s: &mut String, c: char)
    ensures
        final(s)@ == old(s)@.push(c),
;

/// Trusted: `str::lines` yields the lines of the text in order, split at
/// `\n` or `\r\n`, without the terminators; a final terminator adds no empty
/// line.
#[verifier::external_body]
pub(crate) fn text_lines(text: &str) -> (lines: Vec<String>)
    ensures
        lines.deep_view() == lines_of(text@),
{
    text.lines().map(String::from).collect()
}

/// The characters of `s`, in order.
pub fn chars_of(s: &str) -> (v: Vec<char>)
    ensures
        v@ == s@,
{
    let mut v: Vec<char> = Vec::new();
    for c in it: s.chars()
        invariant
            it.seq() == s@,
            v@ == it.seq().take(it.index() as int),
    {
        v.push(c);
    }
    v
}

/// The string made of the characters `v[from..to]`.
pub fn string_of(v: &Vec<char>, from: usize, to: usize) -> (s: String)
    requires
        from <= to <= v.len(),
    ensures
        s@ == v@.subrange(from as int, to as int),
{
    let mut s = String::new();
    let mut i: usize = from;
    while i < to
        invariant
            from <= i <= to <= v.len(),
            s@ == v@.subrange(from as int, i as int),
        decreases to - i,
    {
        s.push(v[i]);
        i += 1;
    }
    s
}

/// Joins `items` with single line feeds.
pub fn join_with_newlines(items: &Vec<String>) -> (s: String)
    ensures
        s@ == join_lines(items.deep_view()),
{
    let mut s = String::new();
    let mut i: usize = 0;
    while i < items.len()
        invariant
            i <= items.len(),
            s@ == join_lines(items.deep_view().take(i as int)),
        decreases items.len() - i,
    {
        let ghost before = items.deep_view().take(i as int);
        let ghost after = items.deep_view().take(i + 1);
        assert(after.drop_last() =~= before);
        if i > 0 {
            s.push('\n');
        }
        s.append(items[i].as_str());
        i += 1;
    }
    assert(items.deep_view().take(i as int) =~= items.deep_view());
    s
}

/// Whether two strings hold the same characters.
pub fn same_text(a: &str, b: &str) -> (same: bool)
    ensures
        same == (a@ == b@),
{
    let left = a.to_owned();
    let right = b.to_owned();
    left == right
}

/// The last character boundary of `bytes` at or before `at`.
pub open spec fn floor_boundary(bytes: Seq<u8>, at: int) -> int
    decreases at,
{
    if at <= 0 {
        0
    } else if is_char_boundary(bytes, at) {
        at
    } else {
        floor_boundary(bytes, at - 1)
    }
}

/// How many bytes of its UTF-8 form a text keeps when it is cut to at most
/// `limit` bytes: `limit`, or all of them where they are fewer, or fewer
/// than `limit` where a character would be cut in two.
pub open spec fn clip_point(text: Seq<char>, limit: nat) -> int {
    let bytes = encode_utf8(text);
    floor_boundary(
        bytes,
        if limit < bytes.len() {
            limit as int
        } else {
            bytes.len() as int
        },
    )
}

/// The longest start of `text` whose UTF-8 form holds at most `limit` bytes
/// and no part of a character.
pub open spec fn clip_spec(text: Seq<char>, limit: nat) -> Seq<char> {
    decode_utf8(encode_utf8(text).take(clip_point(text, limit)))
}

/// A text that is not longer than the limit is not cut.
pub proof fn lemma_clip_keeps_short_text(text: Seq<char>, limit: nat)
    requires
        encode_utf8(text).len() <= limit,
    ensures
        clip_spec(text, limit) == text,
{
    broadcast use vstd::utf8::encode_utf8_valid_utf8;
    broadcast use vstd::utf8::is_char_boundary_start_end_of_seq;
    broadcast use vstd::utf8::encode_utf8_decode_utf8;

    let bytes = encode_utf8(text);
    assert(bytes.take(bytes.len() as int) =~= bytes);
}

/// Cuts `text` to at most `limit` bytes, at a character boundary.
pub fn clip(text: &str, limit: usize) -> (start: &str)
    ensures
        start@ == clip_spec(text@, limit as nat),
        encode_utf8(start@) == encode_utf8(text@).take(clip_point(text@, limit as nat)),
        encode_utf8(start@).len() <= limit,
{
    broadcast use vstd::utf8::encode_utf8_valid_utf8;
    broadcast use vstd::utf8::encode_utf8_decode_utf8;

    let ghost bytes = text.spec_bytes();
    let length = text.as_bytes().len();
    let mut at: usize = if limit < length {
        limit
    } else {
        length
    };
    while at > 0 && !text.is_char_boundary(at)
        invariant
            bytes == encode_utf8(text@),
            at <= bytes.len(),
            at <= limit,
            floor_boundary(bytes, at as int) == clip_point(text@, limit as nat),
        decreases at,
    {
        at -= 1;
    }
    let (start, _) = text.split_at(at);
    start
}

/// Whether `p` is a prefix of what is left of `s` from position `at` on.
pub fn has_prefix_at(s: &Vec<char>, at: usize, p: &Vec<char>) -> (b: bool)
    requires
        at <= s.len(),
    ensures
        b == p@.is_prefix_of(s@.skip(at as int)),
{
    if p.len() > s.len() - at {
        return false;
    }
    let mut i: usize = 0;
    while i < p.len()
        invariant
            at <= s.len(),
            p.len() <= s.len() - at,
            i <= p.len(),
            forall|k: int| 0 <= k < i ==> p@[k] == s@[at + k],
        decreases p.len() - i,
    {
        if p[i] != s[at + i] {
            return false;
        }
        i += 1;
    }
    true
}

/// Whether `part` occurs in `s`.
pub open spec fn contains_text(s: Seq<char>, part: Seq<char>) -> bool {
    exists|i: int| 0 <= i <= s.len() && part.is_prefix_of(#[trigger] s.skip(i))
}

/// Whether `part` occurs in `s`.
pub fn contains_chars(s: &Vec<char>, part: &Vec<char>) -> (found: bool)
    ensures
        found == contains_text(s@, part@),
{
    let mut i: usize = 0;
    while i < s.len()
        invariant
            i <= s.len(),
            forall|k: int| 0 <= k < i ==> !part@.is_prefix_of(#[trigger] s@.skip(k)),
        decreases s.len() - i,
    {
        if has_prefix_at(s, i, part) {
            return true;
        }
        i += 1;
    }
    has_prefix_at(s, i, part)
}

} // verus!
