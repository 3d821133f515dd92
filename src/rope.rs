//! The calls into ropey that the buffer makes, with what ropey documents of
//! them. Ropey is built without its CR and Unicode line features, so a line
//! ends at each `'\n'` and nowhere else.
use crate::text::{line_start, lines_of};
use ropey::Rope;
use vstd::prelude::*;

verus! {

#[verifier::external_type_specification]
#[verifier::external_body]
pub struct ExRope(Rope);

/// The characters that a rope holds.
pub uninterp spec fn rope_text(r: Rope) -> Seq<char>;

/// Relies on ropey::Rope::new: a rope that holds no text.
#[verifier::external_body]
pub(crate) fn rope_new() -> (r: Rope)
    ensures
        rope_text(r) == Seq::<char>::empty(),
{
    Rope::new()
}

/// Relies on ropey::Rope::from_str: a rope that holds the given text.
#[verifier::external_body]
pub(crate) fn rope_from_str(s: &str) -> (r: Rope)
    ensures
        rope_text(r) == s@,
{
    Rope::from_str(s)
}

/// Relies on ropey::Rope::len_chars: the number of characters.
#[verifier::external_body]
pub(crate) fn rope_len_chars(r: &Rope) -> (n: usize)
    ensures
        n == rope_text(*r).len(),
{
    r.len_chars()
}

/// Relies on ropey::Rope::len_lines: one more than the number of line breaks.
#[verifier::external_body]
pub(crate) fn rope_len_lines(r: &Rope) -> (n: usize)
    ensures
        n == lines_of(rope_text(*r)).len(),
{
    r.len_lines()
}

/// Relies on ropey::Rope::line_to_char: the index of the first character of
/// a line.
#[verifier::external_body]
pub(crate) fn rope_line_to_char(r: &Rope, line: usize) -> (n: usize)
    requires
        line < lines_of(rope_text(*r)).len(),
    ensures
        n == line_start(lines_of(rope_text(*r)), line as nat),
{
    r.line_to_char(line)
}

/// Relies on ropey::Rope::line and ropey::RopeSlice::len_chars: the number
/// of characters of a line, its line break included.
#[verifier::external_body]
pub(crate) fn rope_line_len_chars(r: &Rope, line: usize) -> (n: usize)
    requires
        line < lines_of(rope_text(*r)).len(),
    ensures
        n == lines_of(rope_text(*r))[line as int].len() + if line + 1 < lines_of(
            rope_text(*r),
        ).len() {
            1int
        } else {
            0int
        },
{
    r.line(line).len_chars()
}

/// Relies on ropey::Rope::char: the character at an index.
#[verifier::external_body]
pub(crate) fn rope_char(r: &Rope, idx: usize) -> (c: char)
    requires
        idx < rope_text(*r).len(),
    ensures
        c == rope_text(*r)[idx as int],
{
    r.char(idx)
}

/// Relies on ropey::Rope::insert_char: the character goes in before index
/// `idx`.
#[verifier::external_body]
pub(crate) fn rope_insert_char(r: &mut Rope, idx: usize, c: char)
    requires
        idx <= rope_text(*old(r)).len(),
    ensures
        rope_text(*final(r)) == rope_text(*old(r)).insert(idx as int, c),
{
    r.insert_char(idx, c)
}

/// Relies on ropey::Rope::remove: the characters of `start..end` go.
#[verifier::external_body]
pub(crate) fn rope_remove(r: &mut Rope, start: usize, end: usize)
    requires
        start <= end <= rope_text(*old(r)).len(),
    ensures
        rope_text(*final(r)) == rope_text(*old(r)).subrange(0, start as int) + rope_text(
            *old(r),
        ).subrange(end as int, rope_text(*old(r)).len() as int),
{
    r.remove(start..end)
}

/// Relies on ropey's `Display` for `Rope` (through `to_string`): the text
/// that the rope holds.
#[verifier::external_body]
pub(crate) fn rope_to_string(r: &Rope) -> (s: String)
    ensures
        s@ == rope_text(*r),
{
    r.to_string()
}

} // verus!
