//! The document: a rope of text, the file it is bound to, and whether it
//! changed since it was loaded or saved.
use crate::rope::{
    rope_char, rope_from_str, rope_insert_char, rope_len_chars, rope_len_lines,
    rope_line_len_chars, rope_line_to_char, rope_new, rope_remove, rope_text, rope_to_string,
};
use crate::text::{
    all_plain, is_plain, join_lines, join_with_previous, lemma_before_step, lemma_edit_line,
    lemma_insert_in_line, lemma_join_around, lemma_join_lines_of, lemma_join_previous,
    lemma_lines_shape, lines_of, split_line_at, text_after, text_before,
};
use ropey::Rope;
use vstd::prelude::*;

verus! {

pub struct Buffer {
    /// The text.
    pub rope: Rope,
    /// The file that `:w` writes to, once one is known.
    pub filename: Option<String>,
    /// The text changed since it was loaded or last saved.
    pub dirty: bool,
}

impl Buffer {
    /// The characters of the document.
    pub open spec fn text(&self) -> Seq<char> {
        rope_text(self.rope)
    }

    /// The lines of the document, without their line breaks.
    pub open spec fn lines(&self) -> Seq<Seq<char>> {
        lines_of(self.text())
    }

    /// The name of the bound file, as characters.
    pub open spec fn file_name(&self) -> Option<Seq<char>> {
        match self.filename {
            Some(f) => Some(f@),
            None => None,
        }
    }

    /// The document has at least one line, none holds a line break, and
    /// its text is its lines joined by line breaks.
    pub proof fn lemma_shape(&self)
        ensures
            self.lines().len() >= 1,
            all_plain(self.lines()),
            join_lines(self.lines()) == self.text(),
    {
        lemma_lines_shape(self.text());
        lemma_join_lines_of(self.text());
    }

    /// Saving writes the lines joined by line breaks, and loading that text
    /// gives the same lines back.
    pub proof fn lemma_save_then_reload(&self)
        ensures
            join_lines(self.lines()) == self.text(),
            lines_of(join_lines(self.lines())) == self.lines(),
    {
        self.lemma_shape();
    }

    /// An empty buffer with no file.
    pub fn new() -> (b: Buffer)
        ensures
            b.text() == Seq::<char>::empty(),
            b.lines() == seq![Seq::<char>::empty()],
            b.filename.is_none(),
            !b.dirty,
    {
        Buffer { rope: rope_new(), filename: None, dirty: false }
    }

    /// The buffer of a file, given what reading it gave: `None` when the
    /// file does not exist, which gives an empty buffer bound to that name.
    pub fn from_file(filename: &str, contents: Option<&str>) -> (b: Buffer)
        ensures
            b.text() == match contents {
                Some(c) => c@,
                None => Seq::<char>::empty(),
            },
            b.file_name() == Some(filename@),
            !b.dirty,
    {
        let rope = match contents {
            Some(c) => rope_from_str(c),
            None => rope_new(),
        };
        Buffer { rope, filename: Some(filename.to_string()), dirty: false }
    }

    /// The text to write to the file: the lines joined by line breaks.
    pub fn contents(&self) -> (s: String)
        ensures
            s@ == self.text(),
            s@ == join_lines(self.lines()),
    {
        proof {
            self.lemma_shape();
        }
        rope_to_string(&self.rope)
    }

    /// Number of characters.
    pub fn len_chars(&self) -> (n: usize)
        ensures
            n == self.text().len(),
    {
        rope_len_chars(&self.rope)
    }

    /// Number of lines.
    pub fn len_lines(&self) -> (n: usize)
        ensures
            n == self.lines().len(),
            n >= 1,
    {
        proof {
            self.lemma_shape();
        }
        rope_len_lines(&self.rope)
    }

    /// Number of characters of a line, its line break left out.
    pub fn line_len(&self, index: usize) -> (n: usize)
        requires
            index < self.lines().len(),
        ensures
            n == self.lines()[index as int].len(),
    {
        let total = rope_len_lines(&self.rope);
        let with_break = rope_line_len_chars(&self.rope, index);
        if index + 1 < total {
            with_break - 1
        } else {
            with_break
        }
    }

    /// The characters of a line, its line break left out.
    pub fn line(&self, index: usize) -> (l: Vec<char>)
        requires
            index < self.lines().len(),
        ensures
            l@ == self.lines()[index as int],
    {
        let ghost ls = self.lines();
        proof {
            self.lemma_shape();
            lemma_join_around(ls, index as int);
        }
        let start = rope_line_to_char(&self.rope, index);
        let len = self.line_len(index);
        let total = rope_len_chars(&self.rope);
        let mut out: Vec<char> = Vec::new();
        let mut j: usize = 0;
        while j < len
            invariant
                ls == self.lines(),
                index < ls.len(),
                total == self.text().len(),
                self.text() == text_before(ls, index as int) + ls[index as int] + text_after(
                    ls,
                    index as int,
                ),
                start == text_before(ls, index as int).len(),
                len == ls[index as int].len(),
                j <= len,
                out@ == ls[index as int].subrange(0, j as int),
            decreases len - j,
        {
            let c = rope_char(&self.rope, start + j);
            out.push(c);
            j = j + 1;
            assert(out@ =~= ls[index as int].subrange(0, j as int));
        }
        assert(out@ =~= ls[index as int]);
        out
    }

    /// Inserts `c` into line `line` before column `col`. A line feed splits
    /// the line there.
    pub fn insert_char(&mut self, line: usize, col: usize, c: char)
        requires
            line < old(self).lines().len(),
            col <= old(self).lines()[line as int].len(),
        ensures
            final(self).lines() == if c == '\n' {
                split_line_at(old(self).lines(), line as int, col as int)
            } else {
                old(self).lines().update(
                    line as int,
                    old(self).lines()[line as int].insert(col as int, c),
                )
            },
            final(self).dirty,
            final(self).filename == old(self).filename,
    {
        let ghost ls = self.lines();
        proof {
            self.lemma_shape();
            lemma_join_around(ls, line as int);
        }
        // the text's length is a usize, which bounds the index below
        let _total = rope_len_chars(&self.rope);
        let start = rope_line_to_char(&self.rope, line);
        rope_insert_char(&mut self.rope, start + col, c);
        self.dirty = true;
        proof {
            lemma_insert_in_line(ls, line as int, col as int, c);
        }
    }

    /// Backspace inside a line: removes the character left of column `col`.
    /// Nothing changes when `col` is 0.
    pub fn delete_char(&mut self, line: usize, col: usize)
        requires
            line < old(self).lines().len(),
            col <= old(self).lines()[line as int].len(),
        ensures
            col == 0 ==> *final(self) == *old(self),
            col > 0 ==> final(self).lines() == old(self).lines().update(
                line as int,
                old(self).lines()[line as int].remove(col - 1),
            ),
            col > 0 ==> final(self).dirty,
            final(self).filename == old(self).filename,
    {
        if col > 0 {
            let ghost ls = self.lines();
            let ghost l = ls[line as int];
            proof {
                self.lemma_shape();
                lemma_join_around(ls, line as int);
            }
            // the text's length is a usize, which bounds the indices below
            let _total = rope_len_chars(&self.rope);
            let start = rope_line_to_char(&self.rope, line);
            rope_remove(&mut self.rope, start + col - 1, start + col);
            self.dirty = true;
            proof {
                let x = l.remove(col - 1);
                assert(is_plain(l));
                assert(is_plain(x)) by {
                    assert forall|j: int| 0 <= j < x.len() implies x[j] != '\n' by {
                        if j < col - 1 {
                            assert(x[j] == l[j]);
                        } else {
                            assert(x[j] == l[j + 1]);
                        }
                    }
                }
                lemma_edit_line(ls, line as int, x);
                assert(self.text() =~= join_lines(ls.update(line as int, x)));
            }
        }
    }

    /// Splits line `line` in two at column `col`.
    pub fn insert_new_line(&mut self, line: usize, col: usize)
        requires
            line < old(self).lines().len(),
            col <= old(self).lines()[line as int].len(),
        ensures
            final(self).lines() == split_line_at(old(self).lines(), line as int, col as int),
            final(self).dirty,
            final(self).filename == old(self).filename,
    {
        self.insert_char(line, col, '\n');
    }

    /// Backspace at the start of a line: appends line `line` to the line
    /// before it and returns the length that line had. Nothing changes on
    /// the first line, and 0 is returned.
    pub fn join_with_previous_line(&mut self, line: usize) -> (prev_len: usize)
        requires
            line < old(self).lines().len(),
        ensures
            line == 0 ==> prev_len == 0 && *final(self) == *old(self),
            line > 0 ==> prev_len == old(self).lines()[line - 1].len(),
            line > 0 ==> final(self).lines() == join_with_previous(old(self).lines(), line as int),
            line > 0 ==> final(self).dirty,
            final(self).filename == old(self).filename,
    {
        if line == 0 {
            return 0;
        }
        let ghost ls = self.lines();
        proof {
            self.lemma_shape();
            lemma_join_around(ls, line as int);
            lemma_before_step(ls, line as int);
        }
        let prev_len = self.line_len(line - 1);
        let end = rope_line_to_char(&self.rope, line);
        rope_remove(&mut self.rope, end - 1, end);
        self.dirty = true;
        proof {
            lemma_join_previous(ls, line as int);
            assert(self.text() =~= join_lines(join_with_previous(ls, line as int)));
        }
        prev_len
    }
}

} // verus!
