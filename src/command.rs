//! The pieces of the command line: splitting it into words, comparing a
//! word, and building strings from characters.
use vstd::prelude::*;

verus! {

/// The characters that `char::is_whitespace` accepts: Unicode's
/// White_Space property.
pub open spec fn is_blank(c: char) -> bool {
    ('\u{9}' <= c && c <= '\u{d}') || c == ' ' || c == '\u{85}' || c == '\u{a0}' || c
        == '\u{1680}' || ('\u{2000}' <= c && c <= '\u{200a}') || c == '\u{2028}' || c
        == '\u{2029}' || c == '\u{202f}' || c == '\u{205f}' || c == '\u{3000}'
}

/// The words of a text: its longest runs of characters that are not blank,
/// in order.
pub open spec fn words(s: Seq<char>) -> Seq<Seq<char>>
    decreases s.len(),
{
    if s.len() == 0 {
        Seq::empty()
    } else {
        let prev = words(s.drop_last());
        let c = s.last();
        if is_blank(c) {
            prev
        } else if s.len() >= 2 && !is_blank(s[s.len() - 2]) {
            prev.update(prev.len() - 1, prev.last().push(c))
        } else {
            prev.push(seq![c])
        }
    }
}

/// Whether `c` is white space.
pub fn is_blank_char(c: char) -> (r: bool)
    ensures
        r == is_blank(c),
{
    ('\u{9}' <= c && c <= '\u{d}') || c == ' ' || c == '\u{85}' || c == '\u{a0}' || c
        == '\u{1680}' || ('\u{2000}' <= c && c <= '\u{200a}') || c == '\u{2028}' || c
        == '\u{2029}' || c == '\u{202f}' || c == '\u{205f}' || c == '\u{3000}'
}

/// Splits a text into its words.
pub fn split_words(s: &str) -> (ws: Vec<Vec<char>>)
    ensures
        ws.len() == words(s@).len(),
        forall|k: int| 0 <= k < ws.len() ==> (#[trigger] ws[k])@ == words(s@)[k],
{
    let n = s.unicode_len();
    let mut out: Vec<Vec<char>> = Vec::new();
    let mut prev_blank = true;
    let mut i: usize = 0;
    while i < n
        invariant
            n == s@.len(),
            i <= n,
            out.len() == words(s@.subrange(0, i as int)).len(),
            forall|k: int|
                0 <= k < out.len() ==> (#[trigger] out[k])@ == words(s@.subrange(0, i as int))[k],
            prev_blank == (i == 0 || is_blank(s@[i - 1])),
            !prev_blank ==> out.len() > 0,
        decreases n - i,
    {
        let c = s.get_char(i);
        let ghost before = words(s@.subrange(0, i as int));
        let ghost p = s@.subrange(0, i as int + 1);
        assert(p.drop_last() =~= s@.subrange(0, i as int));
        assert(p.last() == c);
        if is_blank_char(c) {
            prev_blank = true;
        } else if !prev_blank {
            assert(p[p.len() - 2] == s@[i - 1]);
            let mut last = out.pop().unwrap();
            last.push(c);
            out.push(last);
            prev_blank = false;
            assert(words(p) == before.update(before.len() - 1, before.last().push(c)));
        } else {
            let mut w: Vec<char> = Vec::new();
            w.push(c);
            assert(w@ =~= seq![c]);
            out.push(w);
            prev_blank = false;
        }
        i = i + 1;
    }
    assert(s@.subrange(0, n as int) =~= s@);
    out
}

/// Whether a word is the given text.
pub fn chars_eq(w: &Vec<char>, t: &str) -> (r: bool)
    ensures
        r == (w@ == t@),
{
    let n = t.unicode_len();
    if w.len() != n {
        return false;
    }
    let mut i: usize = 0;
    while i < n
        invariant
            n == t@.len(),
            n == w@.len(),
            i <= n,
            forall|j: int| 0 <= j < i ==> w@[j] == t@[j],
        decreases n - i,
    {
        if w[i] != t.get_char(i) {
            return false;
        }
        i = i + 1;
    }
    assert(w@ =~= t@);
    true
}

/// Relies on String::push: the character is appended.
#[verifier::external_body]
pub(crate) fn string_push(s: &mut String, c: char)
    ensures
        final(s)@ == old(s)@.push(c),
{
    s.push(c)
}

/// Relies on String::pop: the last character is removed and returned.
#[verifier::external_body]
pub(crate) fn string_pop(s: &mut String) -> (r: Option<char>)
    ensures
        old(s)@.len() == 0 ==> r is None && final(s)@ == old(s)@,
        old(s)@.len() > 0 ==> r == Some(old(s)@.last()) && final(s)@ == old(s)@.drop_last(),
{
    s.pop()
}

/// The string of the given characters.
pub fn string_of(v: &Vec<char>) -> (s: String)
    ensures
        s@ == v@,
{
    let mut s = String::new();
    let mut i: usize = 0;
    while i < v.len()
        invariant
            i <= v.len(),
            s@ == v@.subrange(0, i as int),
        decreases v.len() - i,
    {
        string_push(&mut s, v[i]);
        i = i + 1;
        assert(s@ =~= v@.subrange(0, i as int));
    }
    assert(v@.subrange(0, v.len() as int) =~= v@);
    s
}

/// `a` followed by `b`.
pub fn concat(a: &str, b: &str) -> (s: String)
    ensures
        s@ == a@ + b@,
{
    let mut s = a.to_string();
    s.append(b);
    s
}

} // verus!
