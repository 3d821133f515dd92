//! The document as a sequence of lines, and how it relates to the flat
//! sequence of characters that holds it (lines joined by `'\n'`).
use vstd::prelude::*;

verus! {

/// A line holds no line feed.
pub open spec fn is_plain(l: Seq<char>) -> bool {
    forall|j: int| 0 <= j < l.len() ==> l[j] != '\n'
}

/// Every line of `ls` is plain.
pub open spec fn all_plain(ls: Seq<Seq<char>>) -> bool {
    forall|i: int| 0 <= i < ls.len() ==> is_plain(#[trigger] ls[i])
}

/// The lines of a text: split at every line feed, so that `n` line feeds
/// give `n + 1` lines, and a text that ends with a line feed has an empty
/// last line.
pub open spec fn lines_of(s: Seq<char>) -> Seq<Seq<char>>
    decreases s.len(),
{
    if s.len() == 0 {
        seq![Seq::empty()]
    } else {
        let prev = lines_of(s.drop_last());
        if s.last() == '\n' {
            prev.push(Seq::empty())
        } else {
            prev.update(prev.len() - 1, prev.last().push(s.last()))
        }
    }
}

/// The text of a sequence of lines: the lines with a line feed between
/// each two of them.
pub open spec fn join_lines(ls: Seq<Seq<char>>) -> Seq<char>
    decreases ls.len(),
{
    if ls.len() == 0 {
        Seq::empty()
    } else if ls.len() == 1 {
        ls[0]
    } else {
        join_lines(ls.drop_last()) + seq!['\n'] + ls.last()
    }
}

/// Index in the joined text of the first character of line `i`.
pub open spec fn line_start(ls: Seq<Seq<char>>, i: nat) -> nat
    decreases i,
{
    if i == 0 {
        0
    } else {
        line_start(ls, (i - 1) as nat) + ls[i - 1].len() + 1
    }
}

/// The text before line `r`, with the line feed that ends line `r - 1`.
pub open spec fn text_before(ls: Seq<Seq<char>>, r: int) -> Seq<char> {
    if r <= 0 {
        Seq::empty()
    } else {
        join_lines(ls.subrange(0, r)) + seq!['\n']
    }
}

/// The text after line `r`, with the line feed that ends line `r`.
pub open spec fn text_after(ls: Seq<Seq<char>>, r: int) -> Seq<char> {
    if r + 1 >= ls.len() {
        Seq::empty()
    } else {
        seq!['\n'] + join_lines(ls.subrange(r + 1, ls.len() as int))
    }
}

/// `ls` with line `r` split in two at column `col`.
pub open spec fn split_line_at(ls: Seq<Seq<char>>, r: int, col: int) -> Seq<Seq<char>> {
    ls.subrange(0, r) + seq![ls[r].subrange(0, col), ls[r].subrange(col, ls[r].len() as int)]
        + ls.subrange(r + 1, ls.len() as int)
}

/// `ls` with line `r` appended to line `r - 1`.
pub open spec fn join_with_previous(ls: Seq<Seq<char>>, r: int) -> Seq<Seq<char>> {
    ls.subrange(0, r - 1) + seq![ls[r - 1] + ls[r]] + ls.subrange(r + 1, ls.len() as int)
}

/// A text has at least one line, and none of its lines holds a line feed.
pub proof fn lemma_lines_shape(s: Seq<char>)
    ensures
        lines_of(s).len() >= 1,
        all_plain(lines_of(s)),
    decreases s.len(),
{
    if s.len() > 0 {
        lemma_lines_shape(s.drop_last());
        let prev = lines_of(s.drop_last());
        let cur = lines_of(s);
        if s.last() != '\n' {
            assert forall|i: int| 0 <= i < cur.len() implies is_plain(#[trigger] cur[i]) by {
                if i == prev.len() - 1 {
                    assert(is_plain(prev[i]));
                    assert(cur[i] == prev[i].push(s.last()));
                }
            }
        } else {
            assert forall|i: int| 0 <= i < cur.len() implies is_plain(#[trigger] cur[i]) by {
                if i < prev.len() {
                    assert(cur[i] == prev[i]);
                }
            }
        }
    }
}

/// Joining the lines of a text gives the text back.
pub proof fn lemma_join_lines_of(s: Seq<char>)
    ensures
        join_lines(lines_of(s)) == s,
    decreases s.len(),
{
    if s.len() > 0 {
        let t = s.drop_last();
        lemma_join_lines_of(t);
        lemma_lines_shape(t);
        let prev = lines_of(t);
        let cur = lines_of(s);
        if s.last() == '\n' {
            assert(cur.drop_last() =~= prev);
            assert(join_lines(cur) =~= s);
        } else {
            if prev.len() == 1 {
                assert(join_lines(cur) =~= s);
            } else {
                assert(cur.drop_last() =~= prev.drop_last());
                assert(join_lines(prev) == join_lines(prev.drop_last()) + seq!['\n'] + prev.last());
                assert(cur.last() == prev.last().push(s.last()));
                assert(s =~= t.push(s.last()));
                assert(join_lines(cur) =~= s);
            }
        }
    }
}

/// Appending text without line feeds extends the last line.
pub proof fn lemma_lines_append_plain(a: Seq<char>, b: Seq<char>)
    requires
        is_plain(b),
    ensures
        lines_of(a + b) == lines_of(a).update(
            lines_of(a).len() - 1,
            lines_of(a).last() + b,
        ),
    decreases b.len(),
{
    lemma_lines_shape(a);
    let la = lines_of(a);
    if b.len() == 0 {
        assert(a + b =~= a);
        assert(la.last() + b =~= la.last());
        assert(la.update(la.len() - 1, la.last() + b) =~= la);
    } else {
        let b0 = b.drop_last();
        assert(is_plain(b0));
        lemma_lines_append_plain(a, b0);
        assert((a + b).drop_last() =~= a + b0);
        assert((a + b).last() == b.last());
        assert(b.last() != '\n');
        assert(la.last() + b0 + seq![b.last()] =~= la.last() + b);
        let p0 = la.update(la.len() - 1, la.last() + b0);
        assert(lines_of(a + b0) == p0);
        assert(p0.len() == la.len());
        assert(p0.last() == la.last() + b0);
        assert(lines_of(a + b) == p0.update(p0.len() - 1, p0.last().push(b.last())));
        assert((la.last() + b0).push(b.last()) =~= la.last() + b);
        assert(lines_of(a + b) =~= la.update(la.len() - 1, la.last() + b));
    }
}

/// Splitting the text of plain lines gives the lines back.
pub proof fn lemma_lines_of_join(ls: Seq<Seq<char>>)
    requires
        ls.len() >= 1,
        all_plain(ls),
    ensures
        lines_of(join_lines(ls)) == ls,
    decreases ls.len(),
{
    if ls.len() == 1 {
        let e = Seq::<char>::empty();
        assert(is_plain(ls[0]));
        lemma_lines_append_plain(e, ls[0]);
        assert(e + ls[0] =~= ls[0]);
        assert(lines_of(e) == seq![e]);
        assert(lines_of(join_lines(ls)) =~= ls);
    } else {
        let d = ls.drop_last();
        assert(all_plain(d)) by {
            assert forall|i: int| 0 <= i < d.len() implies is_plain(#[trigger] d[i]) by {
                assert(d[i] == ls[i]);
            }
        }
        lemma_lines_of_join(d);
        let j = join_lines(d) + seq!['\n'];
        assert(j.drop_last() =~= join_lines(d));
        assert(lines_of(j) == d.push(Seq::empty()));
        assert(is_plain(ls.last()));
        lemma_lines_append_plain(j, ls.last());
        assert(Seq::<char>::empty() + ls.last() =~= ls.last());
        assert(lines_of(join_lines(ls)) =~= ls);
    }
}

/// The text of lines splits at the line feed that ends line `k - 1`.
pub proof fn lemma_join_split(ls: Seq<Seq<char>>, k: int)
    requires
        0 < k < ls.len(),
    ensures
        join_lines(ls) == join_lines(ls.subrange(0, k)) + seq!['\n'] + join_lines(
            ls.subrange(k, ls.len() as int),
        ),
    decreases ls.len(),
{
    let n = ls.len() as int;
    let tail = ls.subrange(k, n);
    if k == n - 1 {
        assert(ls.subrange(0, k) =~= ls.drop_last());
        assert(join_lines(tail) == ls.last());
    } else {
        let d = ls.drop_last();
        lemma_join_split(d, k);
        assert(d.subrange(0, k) =~= ls.subrange(0, k));
        assert(tail.drop_last() =~= d.subrange(k, n - 1));
        assert(tail.last() == ls.last());
        assert(join_lines(ls) =~= join_lines(ls.subrange(0, k)) + seq!['\n'] + join_lines(tail));
    }
}

/// The text before line `r` is as long as the start index of line `r`.
pub proof fn lemma_before_len(ls: Seq<Seq<char>>, r: int)
    requires
        0 <= r <= ls.len(),
    ensures
        text_before(ls, r).len() == line_start(ls, r as nat),
    decreases r,
{
    if r >= 1 {
        lemma_before_len(ls, r - 1);
        lemma_before_step(ls, r);
    }
}

/// The text before line `r` is the text before line `r - 1`, line `r - 1`,
/// and a line feed.
pub proof fn lemma_before_step(ls: Seq<Seq<char>>, r: int)
    requires
        1 <= r <= ls.len(),
    ensures
        text_before(ls, r) == text_before(ls, r - 1) + ls[r - 1] + seq!['\n'],
{
    let p = ls.subrange(0, r);
    if r == 1 {
        assert(join_lines(p) == ls[0]);
        assert(text_before(ls, r) =~= text_before(ls, r - 1) + ls[r - 1] + seq!['\n']);
    } else {
        assert(p.drop_last() =~= ls.subrange(0, r - 1));
        assert(text_before(ls, r) =~= text_before(ls, r - 1) + ls[r - 1] + seq!['\n']);
    }
}

/// The text of lines is the text before line `r`, line `r`, and the text
/// after it.
pub proof fn lemma_join_around(ls: Seq<Seq<char>>, r: int)
    requires
        0 <= r < ls.len(),
    ensures
        join_lines(ls) == text_before(ls, r) + ls[r] + text_after(ls, r),
        text_before(ls, r).len() == line_start(ls, r as nat),
{
    let n = ls.len() as int;
    lemma_before_len(ls, r);
    if r > 0 {
        lemma_join_split(ls, r);
    }
    let rest = ls.subrange(r, n);
    if r + 1 < n {
        lemma_join_split(rest, 1);
        assert(rest.subrange(0, 1) =~= seq![ls[r]]);
        assert(rest.subrange(1, rest.len() as int) =~= ls.subrange(r + 1, n));
        assert(join_lines(rest) == ls[r] + text_after(ls, r));
    } else {
        assert(join_lines(rest) == ls[r]);
    }
    if r == 0 {
        assert(rest =~= ls);
    }
    assert(join_lines(ls) =~= text_before(ls, r) + ls[r] + text_after(ls, r));
}

/// Replacing line `r` by a plain line changes the text only there.
pub proof fn lemma_edit_line(ls: Seq<Seq<char>>, r: int, x: Seq<char>)
    requires
        0 <= r < ls.len(),
        all_plain(ls),
        is_plain(x),
    ensures
        join_lines(ls.update(r, x)) == text_before(ls, r) + x + text_after(ls, r),
        lines_of(join_lines(ls.update(r, x))) == ls.update(r, x),
{
    let n = ls.len() as int;
    let m = ls.update(r, x);
    lemma_join_around(m, r);
    assert(m.subrange(0, r) =~= ls.subrange(0, r));
    assert(m.subrange(r + 1, n) =~= ls.subrange(r + 1, n));
    assert(text_before(m, r) == text_before(ls, r));
    assert(text_after(m, r) == text_after(ls, r));
    assert(all_plain(m)) by {
        assert forall|i: int| 0 <= i < m.len() implies is_plain(#[trigger] m[i]) by {
            if i != r {
                assert(m[i] == ls[i]);
            }
        }
    }
    lemma_lines_of_join(m);
}

/// Splitting line `r` at `col` puts a line feed into the text there.
pub proof fn lemma_split_line(ls: Seq<Seq<char>>, r: int, col: int)
    requires
        0 <= r < ls.len(),
        0 <= col <= ls[r].len(),
        all_plain(ls),
    ensures
        join_lines(split_line_at(ls, r, col)) == text_before(ls, r) + ls[r].subrange(0, col)
            + seq!['\n'] + ls[r].subrange(col, ls[r].len() as int) + text_after(ls, r),
        lines_of(join_lines(split_line_at(ls, r, col))) == split_line_at(ls, r, col),
{
    let n = ls.len() as int;
    let l = ls[r];
    let m = split_line_at(ls, r, col);
    assert(m.len() == n + 1);
    assert(m[r] == l.subrange(0, col));
    assert(m[r + 1] == l.subrange(col, l.len() as int));
    lemma_join_around(m, r + 1);
    lemma_before_step(m, r + 1);
    assert(m.subrange(0, r) =~= ls.subrange(0, r));
    assert(m.subrange(r + 2, n + 1) =~= ls.subrange(r + 1, n));
    assert(text_before(m, r) == text_before(ls, r));
    assert(text_after(m, r + 1) == text_after(ls, r));
    assert(is_plain(l));
    assert(all_plain(m)) by {
        assert forall|i: int| 0 <= i < m.len() implies is_plain(#[trigger] m[i]) by {
            if i < r {
                assert(m[i] == ls[i]);
            } else if i > r + 1 {
                assert(m[i] == ls[i - 1]);
            }
        }
    }
    lemma_lines_of_join(m);
    assert(join_lines(m) =~= text_before(ls, r) + l.subrange(0, col) + seq!['\n'] + l.subrange(
        col,
        l.len() as int,
    ) + text_after(ls, r));
}

/// Joining line `r` onto line `r - 1` takes the line feed between them out
/// of the text.
pub proof fn lemma_join_previous(ls: Seq<Seq<char>>, r: int)
    requires
        1 <= r < ls.len(),
        all_plain(ls),
    ensures
        join_lines(join_with_previous(ls, r)) == text_before(ls, r - 1) + ls[r - 1] + ls[r]
            + text_after(ls, r),
        lines_of(join_lines(join_with_previous(ls, r))) == join_with_previous(ls, r),
{
    let n = ls.len() as int;
    let m = join_with_previous(ls, r);
    assert(m.len() == n - 1);
    assert(m[r - 1] == ls[r - 1] + ls[r]);
    lemma_join_around(m, r - 1);
    assert(m.subrange(0, r - 1) =~= ls.subrange(0, r - 1));
    assert(m.subrange(r, n - 1) =~= ls.subrange(r + 1, n));
    assert(text_before(m, r - 1) == text_before(ls, r - 1));
    assert(text_after(m, r - 1) == text_after(ls, r));
    assert(is_plain(ls[r - 1]) && is_plain(ls[r]));
    assert(all_plain(m)) by {
        assert forall|i: int| 0 <= i < m.len() implies is_plain(#[trigger] m[i]) by {
            if i < r - 1 {
                assert(m[i] == ls[i]);
            } else if i > r - 1 {
                assert(m[i] == ls[i + 1]);
            }
        }
    }
    lemma_lines_of_join(m);
    assert(join_lines(m) =~= text_before(ls, r - 1) + ls[r - 1] + ls[r] + text_after(ls, r));
}

/// Inserting a character into the text at column `col` of line `r`
/// inserts it into that line; a line feed splits the line.
pub proof fn lemma_insert_in_line(ls: Seq<Seq<char>>, r: int, col: int, c: char)
    requires
        0 <= r < ls.len(),
        0 <= col <= ls[r].len(),
        all_plain(ls),
    ensures
        lines_of(join_lines(ls).insert(line_start(ls, r as nat) + col, c)) == if c == '\n' {
            split_line_at(ls, r, col)
        } else {
            ls.update(r, ls[r].insert(col, c))
        },
{
    let l = ls[r];
    lemma_join_around(ls, r);
    let t = join_lines(ls).insert(line_start(ls, r as nat) + col, c);
    if c == '\n' {
        lemma_split_line(ls, r, col);
        assert(t =~= join_lines(split_line_at(ls, r, col)));
    } else {
        let x = l.insert(col, c);
        assert(is_plain(l));
        assert(is_plain(x)) by {
            assert forall|j: int| 0 <= j < x.len() implies x[j] != '\n' by {
                if j < col {
                    assert(x[j] == l[j]);
                } else if j > col {
                    assert(x[j] == l[j - 1]);
                }
            }
        }
        lemma_edit_line(ls, r, x);
        assert(t =~= join_lines(ls.update(r, x)));
    }
}

} // verus!
