//! What the display shows after each keystroke: the visible rows with the
//! selection marked, the status line, and where and how to draw the cursor.
use crate::command::{concat, string_push};
use crate::editor::{ordered_range, Editor, Mode};
use vstd::prelude::*;

verus! {

/// How the terminal should draw the cursor.
#[derive(Clone, Copy, Debug, PartialEq, Eq, Structural)]
pub enum CursorShape {
    Block,
    Bar,
}

/// One row of the text area.
pub enum ScreenRow {
    /// Below the end of the document.
    Filler,
    /// Below the end of an empty document: the welcome line, as shown.
    Message(String),
    /// A line of the document, cut to the screen's width, with whether each
    /// character is in the selection.
    Text { chars: Vec<char>, highlighted: Vec<bool> },
}

pub open spec fn digit(d: nat) -> char {
    "0123456789"@[d as int]
}

/// The decimal digits of `n`.
pub open spec fn digits(n: nat) -> Seq<char>
    decreases n,
{
    if n < 10 {
        seq![digit(n)]
    } else {
        digits(n / 10).push(digit(n % 10))
    }
}

pub open spec fn spaces(n: nat) -> Seq<char> {
    Seq::new(n, |i: int| ' ')
}

pub open spec fn welcome_text() -> Seq<char> {
    "Vim-like Editor - v0.0.1"@
}

/// The welcome line on a screen `cols` wide: a tilde, then the text
/// centred in what is left.
pub open spec fn welcome_row(cols: int) -> Seq<char> {
    let pad: int = if cols > welcome_text().len() {
        (cols - welcome_text().len()) / 2
    } else {
        0
    };
    "~"@ + spaces(pad as nat) + welcome_text()
}

/// Position (`col`, `row`) lies in the selection from `s` to `e`, both
/// ends included.
pub open spec fn in_selection(s: (usize, usize), e: (usize, usize), col: int, row: int) -> bool {
    (s.1 < row || (s.1 == row && s.0 <= col)) && (row < e.1 || (row == e.1 && col <= e.0))
}

/// Position (`col`, `row`) is shown selected.
pub open spec fn highlighted_at(e: Editor, col: int, row: int) -> bool {
    e.mode is Visual && {
        let (s, t) = ordered_range(e.mode->anchor, (e.cx, e.row() as usize));
        in_selection(s, t, col, row)
    }
}

pub open spec fn mode_name(m: Mode) -> Seq<char> {
    match m {
        Mode::Normal => "-- NORMAL --"@,
        Mode::Insert => "-- INSERT --"@,
        Mode::Visual { .. } => "-- VISUAL --"@,
        Mode::Command { .. } => ""@,
    }
}

/// The left part of the status line: the command line in Command mode,
/// else the status message, or when that is empty the mode, the file name
/// and a mark for unsaved changes.
pub open spec fn status_left(e: Editor) -> Seq<char> {
    let shown = if e.mode is Command {
        e.mode->text@
    } else {
        e.status_msg@
    };
    if shown.len() > 0 {
        shown
    } else {
        mode_name(e.mode) + " \""@ + match e.buffer.file_name() {
            Some(n) => n,
            None => "[No Name]"@,
        } + "\""@ + if e.buffer.dirty {
            " [+]"@
        } else {
            ""@
        }
    }
}

/// The right part of the status line: the cursor's column and line, from
/// 1, and the number of lines.
pub open spec fn status_right(e: Editor) -> Seq<char> {
    digits((e.cx + 1) as nat) + ":"@ + digits((e.row() + 1) as nat) + " -- "@ + digits(
        (e.row() + 1) as nat,
    ) + "/"@ + digits(e.lines().len())
}

/// The status line: its left part, cut to leave a space before the right
/// part, padded so that the right part ends at the screen's edge.
pub open spec fn status_line(e: Editor) -> Seq<char> {
    let left = status_left(e);
    let right = status_right(e);
    let cols = e.screen_cols as int;
    let avail: int = if cols > right.len() + 1 {
        cols - right.len() - 1
    } else {
        0
    };
    let left_len: int = if left.len() < avail {
        left.len() as int
    } else {
        avail
    };
    let pad: int = if cols > left_len + right.len() {
        cols - left_len - right.len()
    } else {
        0
    };
    left.subrange(0, left_len) + spaces(pad as nat) + right
}

/// The decimal digits of `n`.
pub fn decimal(n: u128) -> (s: String)
    ensures
        s@ == digits(n as nat),
    decreases n,
{
    proof {
        reveal_strlit("0123456789");
    }
    if n < 10 {
        let mut s = String::new();
        string_push(&mut s, "0123456789".get_char(n as usize));
        s
    } else {
        let mut s = decimal(n / 10);
        string_push(&mut s, "0123456789".get_char((n % 10) as usize));
        s
    }
}

/// `n` spaces.
pub fn spaces_string(n: usize) -> (s: String)
    ensures
        s@ == spaces(n as nat),
{
    let mut s = String::new();
    let mut i: usize = 0;
    while i < n
        invariant
            i <= n,
            s@ == spaces(i as nat),
        decreases n - i,
    {
        string_push(&mut s, ' ');
        i = i + 1;
        assert(s@ =~= spaces(i as nat));
    }
    s
}

impl Editor {
    /// Block in Normal and Visual mode, bar in Insert and Command mode.
    pub fn cursor_shape(&self) -> (r: CursorShape)
        ensures
            r == if self.mode is Normal || self.mode is Visual {
                CursorShape::Block
            } else {
                CursorShape::Bar
            },
    {
        match &self.mode {
            Mode::Normal => CursorShape::Block,
            Mode::Visual { .. } => CursorShape::Block,
            _ => CursorShape::Bar,
        }
    }

    /// Where the terminal cursor goes, as (column, screen row): after the
    /// command line on the status row in Command mode, at the cursor
    /// otherwise.
    pub fn cursor_position(&self) -> (p: (usize, usize))
        requires
            self.inv(),
        ensures
            self.mode is Command ==> p == (
                if self.mode->text@.len() < self.screen_cols - 1 {
                    self.mode->text@.len() as usize
                } else {
                    (self.screen_cols - 1) as usize
                },
                self.screen_rows,
            ),
            !(self.mode is Command) ==> p == (self.cx, self.cy),
    {
        match &self.mode {
            Mode::Command { text } => {
                let len = text.as_str().unicode_len();
                let x = if len < self.screen_cols - 1 {
                    len
                } else {
                    self.screen_cols - 1
                };
                (x, self.screen_rows)
            },
            _ => (self.cx, self.cy),
        }
    }

    /// Screen row `y` of the text area.
    pub fn screen_row(&self, y: usize) -> (r: ScreenRow)
        requires
            self.inv(),
            y < self.screen_rows,
        ensures
            ({
                let n = self.lines().len();
                let fr = y + self.row_offset;
                &&& fr >= n ==> if n == 1 && self.lines()[0].len() == 0 && y
                    == self.screen_rows / 3 {
                    r is Message && r->Message_0@ == welcome_row(self.screen_cols as int)
                } else {
                    r is Filler
                }
                &&& fr < n ==> {
                    let line = self.lines()[fr];
                    let w = if line.len() < self.screen_cols {
                        line.len() as int
                    } else {
                        self.screen_cols as int
                    };
                    &&& r is Text
                    &&& r->chars@ == line.subrange(0, w)
                    &&& r->highlighted@.len() == w
                    &&& forall|i: int|
                        0 <= i < w ==> r->highlighted@[i] == highlighted_at(*self, i, fr)
                }
            }),
    {
        let n = self.buffer.len_lines();
        if y >= n - self.row_offset {
            if n == 1 && self.buffer.line_len(0) == 0 && y == self.screen_rows / 3 {
                proof {
                    reveal_strlit("Vim-like Editor - v0.0.1");
                }
                let welcome = "Vim-like Editor - v0.0.1";
                let wlen = welcome.unicode_len();
                let pad = self.screen_cols.saturating_sub(wlen) / 2;
                let mut row = "~".to_string();
                let gap = spaces_string(pad);
                row.append(gap.as_str());
                row.append(welcome);
                return ScreenRow::Message(row);
            }
            return ScreenRow::Filler;
        }
        let fr = y + self.row_offset;
        let line = self.buffer.line(fr);
        let w = if line.len() < self.screen_cols {
            line.len()
        } else {
            self.screen_cols
        };
        let selection = self.get_selection_range();
        let mut chars: Vec<char> = Vec::new();
        let mut highlighted: Vec<bool> = Vec::new();
        let mut i: usize = 0;
        while i < w
            invariant
                w <= line.len(),
                i <= w,
                line@ == self.lines()[fr as int],
                fr == y + self.row_offset,
                self.mode is Visual ==> selection == Some(
                    ordered_range(self.mode->anchor, (self.cx, self.row() as usize)),
                ),
                !(self.mode is Visual) ==> selection is None,
                chars@ == line@.subrange(0, i as int),
                highlighted@.len() == i,
                forall|j: int|
                    0 <= j < i ==> highlighted@[j] == highlighted_at(*self, j, fr as int),
            decreases w - i,
        {
            let on = match selection {
                Some(((start_x, start_y), (end_x, end_y))) => (start_y < fr || (start_y == fr
                    && start_x <= i)) && (fr < end_y || (fr == end_y && i <= end_x)),
                None => false,
            };
            chars.push(line[i]);
            highlighted.push(on);
            i = i + 1;
            assert(chars@ =~= line@.subrange(0, i as int));
        }
        ScreenRow::Text { chars, highlighted }
    }

    /// The status line, as wide as the screen.
    pub fn status_bar(&self) -> (s: String)
        requires
            self.inv(),
        ensures
            s@ == status_line(*self),
    {
        let shown = match &self.mode {
            Mode::Command { text } => text.clone(),
            _ => self.status_msg.clone(),
        };
        let left = if shown.as_str().unicode_len() > 0 {
            shown
        } else {
            let mode_str = match &self.mode {
                Mode::Normal => "-- NORMAL --",
                Mode::Insert => "-- INSERT --",
                Mode::Visual { .. } => "-- VISUAL --",
                Mode::Command { .. } => "",
            };
            let mut l = concat(mode_str, " \"");
            match &self.buffer.filename {
                Some(f) => l.append(f.as_str()),
                None => l.append("[No Name]"),
            }
            l.append("\"");
            if self.buffer.dirty {
                l.append(" [+]");
            }
            proof {
                reveal_strlit("");
            }
            assert(l@ =~= status_left(*self));
            l
        };
        assert(left@ == status_left(*self));
        let row = self.file_row();
        let n = self.buffer.len_lines();
        let row_str = decimal(row as u128 + 1);
        let total = decimal(n as u128);
        let mut right = decimal(self.cx as u128 + 1);
        right.append(":");
        right.append(row_str.as_str());
        right.append(" -- ");
        right.append(row_str.as_str());
        right.append("/");
        right.append(total.as_str());
        assert(right@ =~= status_right(*self));
        let right_len = right.as_str().unicode_len();
        let left_total = left.as_str().unicode_len();
        let avail = self.screen_cols.saturating_sub(right_len.saturating_add(1));
        let left_len = if left_total < avail {
            left_total
        } else {
            avail
        };
        let pad = self.screen_cols.saturating_sub(left_len + right_len);
        let mut out = left.as_str().substring_char(0, left_len).to_string();
        let gap = spaces_string(pad);
        out.append(gap.as_str());
        out.append(right.as_str());
        assert(out@ =~= status_line(*self));
        out
    }
}

} // verus!
