//! The editor session: cursor, viewport, mode and status line around a
//! buffer, and what each keystroke does to them.
use crate::buffer::Buffer;
use crate::command::{chars_eq, concat, split_words, string_of, string_pop, string_push, words};
use crate::text::{join_with_previous, split_line_at};
use vstd::prelude::*;

verus! {

/// A key, as the input source reports it.
#[derive(Clone, Copy, Debug, PartialEq, Eq, Structural)]
pub enum Key {
    Char(char),
    Left,
    Right,
    Up,
    Down,
    Enter,
    Esc,
    Backspace,
    Other,
}

/// One keystroke: the key, and whether Control and no other modifier was
/// held.
#[derive(Clone, Copy, Debug, PartialEq, Eq, Structural)]
pub struct KeyPress {
    pub code: Key,
    pub ctrl: bool,
}

/// The active mode, with what it needs: the fixed end of a selection, or the
/// command line typed so far (its leading colon included).
pub enum Mode {
    Normal,
    Insert,
    Visual { anchor: (usize, usize) },
    Command { text: String },
}

/// What the session loop has to do after a keystroke.
#[derive(Clone, Copy, Debug, PartialEq, Eq, Structural)]
pub enum Outcome {
    /// Read the next key.
    Continue,
    /// End the session.
    Quit,
    /// Write the buffer's text to its file, then report how that went
    /// through `Editor::finish_save`, which also says whether to quit.
    Save { quit_after: bool },
}

pub struct Editor {
    /// Cursor column.
    pub cx: usize,
    /// Cursor row on the screen.
    pub cy: usize,
    /// Rows of text on the screen (the status line not counted).
    pub screen_rows: usize,
    pub screen_cols: usize,
    pub buffer: Buffer,
    /// The line of the document at the top of the screen.
    pub row_offset: usize,
    pub status_msg: String,
    pub mode: Mode,
}

pub open spec fn is_left(k: KeyPress) -> bool {
    k.code == Key::Char('h') || k.code == Key::Left
}

pub open spec fn is_right(k: KeyPress) -> bool {
    k.code == Key::Char('l') || k.code == Key::Right
}

pub open spec fn is_up(k: KeyPress) -> bool {
    k.code == Key::Char('k') || k.code == Key::Up
}

pub open spec fn is_down(k: KeyPress) -> bool {
    k.code == Key::Char('j') || k.code == Key::Down
}

pub open spec fn is_half_page_down(k: KeyPress) -> bool {
    k.code == Key::Char('d') && k.ctrl
}

pub open spec fn is_half_page_up(k: KeyPress) -> bool {
    k.code == Key::Char('u') && k.ctrl
}

/// The largest column the cursor may take on a line of `len` characters:
/// on the last character, or one past it in Insert mode.
pub open spec fn col_limit(insert: bool, len: int) -> int {
    if insert {
        len
    } else if len > 0 {
        len - 1
    } else {
        0
    }
}

pub open spec fn clamp_col(cx: int, insert: bool, len: int) -> int {
    if cx > col_limit(insert, len) {
        col_limit(insert, len)
    } else {
        cx
    }
}

/// The column that clamping leaves in mode `m` on a line of `len`
/// characters: Command mode keeps the column, but on an empty line.
pub open spec fn mode_clamp(m: Mode, cx: int, len: int) -> int {
    if m is Command {
        if len == 0 {
            0
        } else {
            cx
        }
    } else {
        clamp_col(cx, m is Insert, len)
    }
}

/// Column after a horizontal motion on a line of `len` characters.
pub open spec fn moved_col(cx: int, len: int, k: KeyPress) -> int {
    if is_left(k) {
        if cx > 0 {
            cx - 1
        } else {
            cx
        }
    } else if is_right(k) {
        if cx < col_limit(false, len) {
            cx + 1
        } else {
            cx
        }
    } else {
        cx
    }
}

/// Screen row and scroll offset after a vertical motion, in a document of
/// `n` lines shown on `rows` screen rows. A step moves the cursor on the
/// screen and scrolls only at its edge; a half page scrolls by `rows / 2`
/// as far as the document allows and moves the cursor on the screen by the
/// amount actually scrolled.
pub open spec fn moved_rows(cy: int, off: int, rows: int, n: int, k: KeyPress) -> (int, int) {
    if is_up(k) {
        if cy > 0 {
            (cy - 1, off)
        } else if off > 0 {
            (cy, off - 1)
        } else {
            (cy, off)
        }
    } else if is_down(k) {
        if cy + off < n - 1 {
            if cy < rows - 1 {
                (cy + 1, off)
            } else {
                (cy, off + 1)
            }
        } else {
            (cy, off)
        }
    } else if is_half_page_down(k) {
        let new_off = if off + rows / 2 < n - 1 {
            off + rows / 2
        } else {
            n - 1
        };
        let dy = new_off - off;
        (
            if cy >= dy {
                cy - dy
            } else {
                0
            },
            new_off,
        )
    } else if is_half_page_up(k) {
        let new_off = if off >= rows / 2 {
            off - rows / 2
        } else {
            0
        };
        let dy = off - new_off;
        (
            if cy + dy <= rows - 1 {
                cy + dy
            } else {
                rows - 1
            },
            new_off,
        )
    } else {
        (cy, off)
    }
}

pub open spec fn insert_banner() -> Seq<char> {
    "-- INSERT --"@
}

pub open spec fn visual_banner() -> Seq<char> {
    "-- VISUAL --"@
}

impl Editor {
    pub open spec fn lines(&self) -> Seq<Seq<char>> {
        self.buffer.lines()
    }

    /// The cursor's line in the document.
    pub open spec fn row(&self) -> int {
        self.cy + self.row_offset
    }

    pub open spec fn cur_len(&self) -> int {
        self.lines()[self.row()].len() as int
    }

    /// Length of the cursor's line; 0 below the end of the document.
    pub open spec fn cursor_line_len(&self) -> int {
        if self.row() < self.lines().len() {
            self.cur_len()
        } else {
            0
        }
    }

    pub open spec fn in_insert(&self) -> bool {
        self.mode is Insert
    }

    /// The cursor is on the screen, on a line of the document, and at a
    /// column that the mode allows on that line.
    pub open spec fn inv(&self) -> bool {
        &&& self.screen_rows >= 1
        &&& self.screen_cols >= 1
        &&& self.cy < self.screen_rows
        &&& self.row() < self.lines().len()
        &&& self.cx <= col_limit(self.in_insert(), self.cur_len())
    }

    /// The cursor's line in the document.
    pub fn file_row(&self) -> (r: usize)
        requires
            self.row() < self.lines().len(),
        ensures
            r == self.row(),
    {
        // the line count is a usize, which bounds the sum
        let _count = self.buffer.len_lines();
        self.cy + self.row_offset
    }

    /// Pulls the cursor column back to what the mode allows on its line. A
    /// cursor below the end of the document counts as on an empty line.
    pub fn clamp_cursor_to_line(&mut self)
        ensures
            *final(self) == (Editor {
                cx: mode_clamp(old(self).mode, old(self).cx as int, old(self).cursor_line_len())
                    as usize,
                ..*old(self)
            }),
    {
        let n = self.buffer.len_lines();
        let len = if self.row_offset >= n || self.cy >= n - self.row_offset {
            0
        } else {
            self.buffer.line_len(self.cy + self.row_offset)
        };
        match &self.mode {
            Mode::Insert => {
                if self.cx > len {
                    self.cx = len;
                }
            },
            Mode::Command { .. } => {},
            _ => {
                let max_cx = if len > 0 {
                    len - 1
                } else {
                    0
                };
                if self.cx > max_cx {
                    self.cx = max_cx;
                }
            },
        }
        if len == 0 && self.cx > 0 {
            self.cx = 0;
        }
    }

    /// Brings the cursor back onto the document after it got shorter: onto
    /// its last line, with the scroll offset at most that line.
    pub fn scroll_check(&mut self)
        ensures
            final(self).row() < final(self).lines().len(),
            final(self).cy <= old(self).cy,
            old(self).row() < old(self).lines().len() ==> *final(self) == *old(self),
            old(self).row() >= old(self).lines().len() ==> final(self).row()
                == old(self).lines().len() - 1,
            final(self).row_offset == if old(self).row_offset < old(self).lines().len() {
                old(self).row_offset as int
            } else {
                old(self).lines().len() - 1
            },
            (*final(self) == Editor {
                cy: final(self).cy,
                row_offset: final(self).row_offset,
                ..*old(self)
            }),
    {
        let n = self.buffer.len_lines();
        if self.row_offset >= n || self.cy >= n - self.row_offset {
            self.cy = (n - 1).saturating_sub(self.row_offset);
        }
        if self.row_offset > n - 1 {
            self.row_offset = n - 1;
        }
    }

    /// Applies a motion key to the cursor and the scroll offset; other keys
    /// leave them.
    pub fn move_cursor(&mut self, event: KeyPress)
        requires
            old(self).inv(),
        ensures
            (final(self).cy as int, final(self).row_offset as int) == moved_rows(
                old(self).cy as int,
                old(self).row_offset as int,
                old(self).screen_rows as int,
                old(self).lines().len() as int,
                event,
            ),
            final(self).cx == moved_col(old(self).cx as int, old(self).cur_len(), event),
            final(self).cy < final(self).screen_rows,
            final(self).row() < final(self).lines().len(),
            (*final(self) == Editor {
                cx: final(self).cx,
                cy: final(self).cy,
                row_offset: final(self).row_offset,
                ..*old(self)
            }),
    {
        let n = self.buffer.len_lines();
        let code = event.code;
        if code == Key::Char('h') || code == Key::Left {
            if self.cx > 0 {
                self.cx = self.cx - 1;
            }
        } else if code == Key::Char('l') || code == Key::Right {
            let row = self.file_row();
            let len = self.buffer.line_len(row);
            let max_cx = if len > 0 {
                len - 1
            } else {
                0
            };
            if self.cx < max_cx {
                self.cx = self.cx + 1;
            }
        } else if code == Key::Char('k') || code == Key::Up {
            if self.cy > 0 {
                self.cy = self.cy - 1;
            } else if self.row_offset > 0 {
                self.row_offset = self.row_offset - 1;
            }
        } else if code == Key::Char('j') || code == Key::Down {
            if self.cy + self.row_offset < n - 1 {
                if self.cy < self.screen_rows - 1 {
                    self.cy = self.cy + 1;
                } else {
                    self.row_offset = self.row_offset + 1;
                }
            }
        } else if code == Key::Char('d') && event.ctrl {
            let wanted = self.row_offset.saturating_add(self.screen_rows / 2);
            let new_offset = if wanted < n - 1 {
                wanted
            } else {
                n - 1
            };
            let dy = new_offset - self.row_offset;
            self.row_offset = new_offset;
            self.cy = self.cy.saturating_sub(dy);
        } else if code == Key::Char('u') && event.ctrl {
            let new_offset = self.row_offset.saturating_sub(self.screen_rows / 2);
            let dy = self.row_offset - new_offset;
            self.row_offset = new_offset;
            let moved = self.cy + dy;
            self.cy = if moved < self.screen_rows - 1 {
                moved
            } else {
                self.screen_rows - 1
            };
        }
    }
}

/// The cursor after a keystroke of Normal or Visual mode: moved as the key
/// says, its column clamped for the mode that follows; the document and the
/// screen are left as they were.
pub open spec fn motion_post(o: Editor, f: Editor, k: KeyPress) -> bool {
    let (cy, off) = moved_rows(
        o.cy as int,
        o.row_offset as int,
        o.screen_rows as int,
        o.lines().len() as int,
        k,
    );
    &&& f.buffer == o.buffer
    &&& f.screen_rows == o.screen_rows
    &&& f.screen_cols == o.screen_cols
    &&& f.cy == cy
    &&& f.row_offset == off
    &&& f.cx == clamp_col(moved_col(o.cx as int, o.cur_len(), k), f.in_insert(), f.cur_len())
}

/// A keystroke in Normal mode: `i`, `v` and `:` enter Insert, Visual (the
/// cursor becomes the anchor) and Command mode; other keys move the cursor
/// or do nothing. The status line is kept on entering Command mode, shows
/// the banner on entering Insert or Visual mode, and is cleared otherwise.
pub open spec fn normal_post(o: Editor, f: Editor, k: KeyPress) -> bool {
    &&& motion_post(o, f, k)
    &&& if k.code == Key::Char('i') {
        f.mode is Insert && f.status_msg@ == insert_banner()
    } else if k.code == Key::Char('v') {
        &&& f.mode is Visual
        &&& f.mode->anchor == (o.cx, o.row() as usize)
        &&& f.status_msg@ == visual_banner()
    } else if k.code == Key::Char(':') {
        f.mode is Command && f.mode->text@ == ":"@ && f.status_msg == o.status_msg
    } else {
        f.mode is Normal && f.status_msg@ == Seq::<char>::empty()
    }
}

/// A keystroke in Visual mode: Escape goes back to Normal mode, motion keys
/// move the cursor, other keys do nothing. The status line is cleared.
pub open spec fn visual_post(o: Editor, f: Editor, k: KeyPress) -> bool {
    &&& motion_post(o, f, k)
    &&& if k.code == Key::Esc {
        f.mode is Normal
    } else {
        f.mode == o.mode
    }
    &&& f.status_msg@ == Seq::<char>::empty()
}

impl Editor {
    /// Handles a keystroke in Normal mode.
    pub fn process_normal_keypress(&mut self, event: KeyPress) -> (r: Outcome)
        requires
            old(self).inv(),
            old(self).mode is Normal,
        ensures
            r == Outcome::Continue,
            final(self).inv(),
            normal_post(*old(self), *final(self), event),
    {
        if event.code != Key::Char(':') {
            self.status_msg = String::new();
        }
        match event.code {
            Key::Char('i') => {
                self.mode = Mode::Insert;
                self.status_msg = "-- INSERT --".to_string();
            },
            Key::Char('v') => {
                let row = self.file_row();
                self.mode = Mode::Visual { anchor: (self.cx, row) };
                self.status_msg = "-- VISUAL --".to_string();
            },
            Key::Char(':') => {
                self.mode = Mode::Command { text: ":".to_string() };
            },
            _ => {
                self.move_cursor(event);
            },
        }
        self.clamp_cursor_to_line();
        self.scroll_check();
        Outcome::Continue
    }

    /// Handles a keystroke in Visual mode.
    pub fn process_visual_keypress(&mut self, event: KeyPress) -> (r: Outcome)
        requires
            old(self).inv(),
            old(self).mode is Visual,
        ensures
            r == Outcome::Continue,
            final(self).inv(),
            visual_post(*old(self), *final(self), event),
    {
        self.status_msg = String::new();
        match event.code {
            Key::Esc => {
                self.mode = Mode::Normal;
            },
            _ => {
                self.move_cursor(event);
            },
        }
        self.clamp_cursor_to_line();
        self.scroll_check();
        Outcome::Continue
    }
}

/// Only the cursor, the scroll offset and the buffer's text and dirty flag
/// may differ between `o` and `f`; the file name stays.
pub open spec fn same_but_text_and_cursor(o: Editor, f: Editor) -> bool {
    &&& f.buffer.filename == o.buffer.filename
    &&& (f == Editor {
        cx: f.cx,
        cy: f.cy,
        row_offset: f.row_offset,
        buffer: f.buffer,
        status_msg: f.status_msg,
        ..o
    })
}

/// Enter in Insert mode: the line splits at the cursor, and the cursor goes
/// to the start of the new line, scrolling at the bottom of the screen.
pub open spec fn newline_post(o: Editor, f: Editor) -> bool {
    &&& same_but_text_and_cursor(o, f)
    &&& f.lines() == split_line_at(o.lines(), o.row(), o.cx as int)
    &&& f.buffer.dirty
    &&& f.cx == 0
    &&& if o.cy + 1 < o.screen_rows {
        f.cy == o.cy + 1 && f.row_offset == o.row_offset
    } else {
        f.cy == o.cy && f.row_offset == o.row_offset + 1
    }
}

/// Typing a character in Insert mode: it goes in at the cursor, which moves
/// past it. A line feed acts as Enter.
pub open spec fn insert_char_post(o: Editor, f: Editor, c: char) -> bool {
    if c == '\n' {
        newline_post(o, f)
    } else {
        &&& same_but_text_and_cursor(o, f)
        &&& f.lines() == o.lines().update(o.row(), o.lines()[o.row()].insert(o.cx as int, c))
        &&& f.buffer.dirty
        &&& f.cx == o.cx + 1
        &&& f.cy == o.cy
        &&& f.row_offset == o.row_offset
    }
}

/// Backspace in Insert mode: removes the character left of the cursor; at
/// the start of a line, joins the line to the one above and puts the cursor
/// at the join; at the start of the document, does nothing.
pub open spec fn delete_post(o: Editor, f: Editor) -> bool {
    if o.cx == 0 {
        if o.row() > 0 {
            &&& same_but_text_and_cursor(o, f)
            &&& f.lines() == join_with_previous(o.lines(), o.row())
            &&& f.buffer.dirty
            &&& f.cx == o.lines()[o.row() - 1].len()
            &&& if o.cy > 0 {
                f.cy == o.cy - 1 && f.row_offset == o.row_offset
            } else {
                f.cy == o.cy && f.row_offset == o.row_offset - 1
            }
        } else {
            f == o
        }
    } else {
        &&& same_but_text_and_cursor(o, f)
        &&& f.lines() == o.lines().update(o.row(), o.lines()[o.row()].remove(o.cx - 1))
        &&& f.buffer.dirty
        &&& f.cx == o.cx - 1
        &&& f.cy == o.cy
        &&& f.row_offset == o.row_offset
    }
}

/// A keystroke in Insert mode: Escape goes back to Normal mode and pulls
/// the cursor onto the last character; a character, Enter and Backspace
/// edit; other keys do nothing. The status line is cleared.
pub open spec fn insert_post(o: Editor, f: Editor, k: KeyPress) -> bool {
    &&& f.status_msg@ == Seq::<char>::empty()
    &&& match k.code {
        Key::Esc => {
            &&& f.mode is Normal
            &&& f.cx == clamp_col(o.cx as int, false, o.cur_len())
            &&& f.cy == o.cy
            &&& f.row_offset == o.row_offset
            &&& f.buffer == o.buffer
            &&& f.screen_rows == o.screen_rows
            &&& f.screen_cols == o.screen_cols
        },
        Key::Char(c) => insert_char_post(o, f, c),
        Key::Enter => newline_post(o, f),
        Key::Backspace => delete_post(o, Editor { status_msg: o.status_msg, ..f }),
        _ => (f == Editor { status_msg: f.status_msg, ..o }),
    }
}

impl Editor {
    /// Splits the line at the cursor (Enter in Insert mode).
    pub fn insert_new_line(&mut self)
        requires
            old(self).inv(),
            old(self).mode is Insert,
        ensures
            final(self).inv(),
            newline_post(*old(self), *final(self)),
            final(self).status_msg == old(self).status_msg,
    {
        let row = self.file_row();
        self.buffer.insert_new_line(row, self.cx);
        // the new line count is a usize, which bounds the scroll offset below
        let _count = self.buffer.len_lines();
        self.cx = 0;
        if self.cy < self.screen_rows - 1 {
            self.cy = self.cy + 1;
        } else {
            self.row_offset = self.row_offset + 1;
        }
    }

    /// Types a character at the cursor (Insert mode).
    pub fn insert_char(&mut self, c: char)
        requires
            old(self).inv(),
            old(self).mode is Insert,
        ensures
            final(self).inv(),
            insert_char_post(*old(self), *final(self), c),
            final(self).status_msg == old(self).status_msg,
    {
        if c == '\n' {
            self.insert_new_line();
            return;
        }
        let row = self.file_row();
        self.buffer.insert_char(row, self.cx, c);
        // the new line length is a usize, which bounds the column below
        let _len = self.buffer.line_len(row);
        self.cx = self.cx + 1;
    }

    /// Backspace at the cursor (Insert mode).
    pub fn delete_char(&mut self)
        requires
            old(self).inv(),
            old(self).mode is Insert,
        ensures
            final(self).inv(),
            delete_post(*old(self), *final(self)),
            final(self).status_msg == old(self).status_msg,
    {
        let row = self.file_row();
        if self.cx == 0 {
            if row > 0 {
                let prev_len = self.buffer.join_with_previous_line(row);
                if self.cy > 0 {
                    self.cy = self.cy - 1;
                } else {
                    self.row_offset = self.row_offset - 1;
                }
                self.cx = prev_len;
            }
        } else {
            self.buffer.delete_char(row, self.cx);
            self.cx = self.cx - 1;
        }
    }

    /// Handles a keystroke in Insert mode.
    pub fn process_insert_keypress(&mut self, event: KeyPress) -> (r: Outcome)
        requires
            old(self).inv(),
            old(self).mode is Insert,
        ensures
            r == Outcome::Continue,
            final(self).inv(),
            insert_post(*old(self), *final(self), event),
    {
        match event.code {
            Key::Esc => {
                self.mode = Mode::Normal;
                self.clamp_cursor_to_line();
            },
            Key::Char(c) => {
                self.insert_char(c);
            },
            Key::Enter => {
                self.insert_new_line();
            },
            Key::Backspace => {
                self.delete_char();
            },
            _ => {},
        }
        self.status_msg = String::new();
        Outcome::Continue
    }
}

pub open spec fn no_write_msg() -> Seq<char> {
    "No write since last change (use :q! to override)"@
}

pub open spec fn no_file_msg() -> Seq<char> {
    "No filename specified. Use :w <filename>"@
}

pub open spec fn unknown_msg(command: Seq<char>) -> Seq<char> {
    "Unknown command: "@ + command
}

pub open spec fn saved_msg(name: Seq<char>) -> Seq<char> {
    "Saved file: "@ + name
}

pub open spec fn save_error_msg(reason: Seq<char>) -> Seq<char> {
    "Could not save file: "@ + reason
}

/// Running a command line. Its first word decides: `:q` quits unless the
/// buffer is dirty, `:q!` quits, `:w` and `:wq` bind the buffer to the file
/// named by the second word if there is one and ask for a save when the
/// buffer has a file (`:wq` to quit after it); without a file `:wq` on a
/// clean buffer quits, and otherwise the missing name is reported. Any
/// other command is reported as unknown. Only the status line and the
/// buffer's file name change.
pub open spec fn command_post(o: Editor, f: Editor, command: Seq<char>, r: Outcome) -> bool {
    let ws = words(command);
    let same_but_status = (f == Editor { status_msg: f.status_msg, ..o });
    if ws.len() == 0 {
        r == Outcome::Continue && f == o
    } else if ws[0] == ":q"@ {
        if o.buffer.dirty {
            r == Outcome::Continue && same_but_status && f.status_msg@ == no_write_msg()
        } else {
            r == Outcome::Quit && f == o
        }
    } else if ws[0] == ":q!"@ {
        r == Outcome::Quit && f == o
    } else if ws[0] == ":w"@ || ws[0] == ":wq"@ {
        let quit = ws[0] == ":wq"@;
        let name = if ws.len() > 1 {
            Some(ws[1])
        } else {
            o.buffer.file_name()
        };
        &&& f.buffer.file_name() == name
        &&& (f.buffer == Buffer { filename: f.buffer.filename, ..o.buffer })
        &&& (f == Editor { buffer: f.buffer, status_msg: f.status_msg, ..o })
        &&& if name is Some {
            r == Outcome::Save { quit_after: quit } && f.status_msg == o.status_msg
        } else if quit && !o.buffer.dirty {
            r == Outcome::Quit && f.status_msg == o.status_msg
        } else {
            r == Outcome::Continue && f.status_msg@ == no_file_msg()
        }
    } else {
        r == Outcome::Continue && same_but_status && f.status_msg@ == unknown_msg(command)
    }
}

/// A keystroke in Command mode: Enter leaves the mode and runs the command
/// line, Escape leaves it, a character is appended, Backspace removes the
/// last character or, on the colon alone, leaves the mode. Leaving without
/// running keeps the status line as it was.
pub open spec fn command_mode_post(o: Editor, f: Editor, k: KeyPress, r: Outcome) -> bool {
    let text = o.mode->text@;
    match k.code {
        Key::Enter => f.mode is Normal && command_post(
            Editor { mode: f.mode, ..o },
            f,
            text,
            r,
        ),
        Key::Esc => r == Outcome::Continue && f.mode is Normal && (f == Editor { mode: f.mode, ..o }),
        Key::Char(c) => {
            &&& r == Outcome::Continue
            &&& f.mode is Command
            &&& f.mode->text@ == text.push(c)
            &&& (f == Editor { mode: f.mode, ..o })
        },
        Key::Backspace => {
            &&& r == Outcome::Continue
            &&& if text.len() > 1 {
                &&& f.mode is Command
                &&& f.mode->text@ == text.drop_last()
                &&& (f == Editor { mode: f.mode, ..o })
            } else {
                f.mode is Normal && (f == Editor { mode: f.mode, ..o })
            }
        },
        _ => r == Outcome::Continue && f == o,
    }
}

/// A keystroke in whatever mode is active.
pub open spec fn keypress_post(o: Editor, f: Editor, k: KeyPress, r: Outcome) -> bool {
    match o.mode {
        Mode::Normal => r == Outcome::Continue && normal_post(o, f, k),
        Mode::Insert => r == Outcome::Continue && insert_post(o, f, k),
        Mode::Visual { .. } => r == Outcome::Continue && visual_post(o, f, k),
        Mode::Command { .. } => command_mode_post(o, f, k, r),
    }
}

impl Editor {
    /// Runs a command line.
    pub fn execute_command(&mut self, command: &str) -> (r: Outcome)
        ensures
            command_post(*old(self), *final(self), command@, r),
    {
        let parts = split_words(command);
        if parts.len() == 0 {
            return Outcome::Continue;
        }
        let head = &parts[0];
        if chars_eq(head, ":q") {
            if self.buffer.dirty {
                self.status_msg = "No write since last change (use :q! to override)".to_string();
                Outcome::Continue
            } else {
                Outcome::Quit
            }
        } else if chars_eq(head, ":q!") {
            Outcome::Quit
        } else if chars_eq(head, ":w") || chars_eq(head, ":wq") {
            let quit = chars_eq(head, ":wq");
            if parts.len() > 1 {
                self.buffer.filename = Some(string_of(&parts[1]));
            }
            if self.buffer.filename.is_some() {
                Outcome::Save { quit_after: quit }
            } else if quit && !self.buffer.dirty {
                Outcome::Quit
            } else {
                self.status_msg = "No filename specified. Use :w <filename>".to_string();
                Outcome::Continue
            }
        } else {
            self.status_msg = concat("Unknown command: ", command);
            Outcome::Continue
        }
    }

    /// Reports how the save that a command asked for went: `error` is `None`
    /// when the text was written to the buffer's file. A save that worked
    /// makes the buffer clean; one that failed is reported, and quits only
    /// when it was to quit and the buffer was clean.
    pub fn finish_save(&mut self, quit_after: bool, error: Option<String>) -> (r: Outcome)
        requires
            old(self).buffer.filename is Some,
        ensures
            final(self).buffer.text() == old(self).buffer.text(),
            final(self).buffer.filename == old(self).buffer.filename,
            (*final(self) == Editor {
                buffer: final(self).buffer,
                status_msg: final(self).status_msg,
                ..*old(self)
            }),
            error is None ==> !final(self).buffer.dirty && final(self).status_msg@ == saved_msg(
                old(self).buffer.filename->0@,
            ) && r == if quit_after {
                Outcome::Quit
            } else {
                Outcome::Continue
            },
            error is Some ==> final(self).buffer == old(self).buffer && final(self).status_msg@
                == save_error_msg(error->0@) && r == if quit_after && !old(self).buffer.dirty {
                Outcome::Quit
            } else {
                Outcome::Continue
            },
    {
        match error {
            None => {
                self.buffer.dirty = false;
                let name = match &self.buffer.filename {
                    Some(f) => f.as_str(),
                    None => "",
                };
                self.status_msg = concat("Saved file: ", name);
                if quit_after {
                    Outcome::Quit
                } else {
                    Outcome::Continue
                }
            },
            Some(e) => {
                self.status_msg = concat("Could not save file: ", e.as_str());
                if quit_after && !self.buffer.dirty {
                    Outcome::Quit
                } else {
                    Outcome::Continue
                }
            },
        }
    }

    /// Handles a keystroke in Command mode.
    pub fn process_command_keypress(&mut self, event: KeyPress) -> (r: Outcome)
        requires
            old(self).inv(),
            old(self).mode is Command,
        ensures
            final(self).inv(),
            command_mode_post(*old(self), *final(self), event, r),
    {
        let mut text = match &self.mode {
            Mode::Command { text } => text.clone(),
            _ => String::new(),
        };
        match event.code {
            Key::Enter => {
                self.mode = Mode::Normal;
                self.execute_command(text.as_str())
            },
            Key::Esc => {
                self.mode = Mode::Normal;
                Outcome::Continue
            },
            Key::Char(c) => {
                string_push(&mut text, c);
                self.mode = Mode::Command { text };
                Outcome::Continue
            },
            Key::Backspace => {
                if text.as_str().unicode_len() > 1 {
                    string_pop(&mut text);
                    self.mode = Mode::Command { text };
                } else {
                    self.mode = Mode::Normal;
                }
                Outcome::Continue
            },
            _ => Outcome::Continue,
        }
    }

    /// Handles a keystroke in whatever mode is active.
    pub fn process_keypress(&mut self, event: KeyPress) -> (r: Outcome)
        requires
            old(self).inv(),
        ensures
            final(self).inv(),
            final(self).cx <= col_limit(final(self).in_insert(), final(self).cur_len()),
            final(self).row() < final(self).lines().len(),
            final(self).row_offset < final(self).lines().len(),
            keypress_post(*old(self), *final(self), event, r),
    {
        if matches!(self.mode, Mode::Normal) {
            self.process_normal_keypress(event)
        } else if matches!(self.mode, Mode::Insert) {
            self.process_insert_keypress(event)
        } else if matches!(self.mode, Mode::Visual { .. }) {
            self.process_visual_keypress(event)
        } else {
            self.process_command_keypress(event)
        }
    }
}

pub open spec fn help_msg() -> Seq<char> {
    "HELP: :q = quit"@
}

pub open spec fn no_name_msg() -> Seq<char> {
    "[No Name]"@
}

pub open spec fn loaded_msg(name: Seq<char>) -> Seq<char> {
    "Loaded file: "@ + name
}

/// Position `a` comes before position `b` (column, line) in the document.
pub open spec fn pos_before(a: (usize, usize), b: (usize, usize)) -> bool {
    a.1 < b.1 || (a.1 == b.1 && a.0 < b.0)
}

/// The selection from `anchor` to `cursor`, its first position first.
pub open spec fn ordered_range(anchor: (usize, usize), cursor: (usize, usize)) -> (
    (usize, usize),
    (usize, usize),
) {
    if pos_before(cursor, anchor) {
        (cursor, anchor)
    } else {
        (anchor, cursor)
    }
}

impl Editor {
    /// A session on `buffer` in a terminal of `cols` columns and `rows`
    /// rows, the last of which is the status line. The cursor starts at
    /// the top left in Normal mode.
    pub fn new(buffer: Buffer, cols: usize, rows: usize) -> (e: Editor)
        requires
            cols >= 1,
            rows >= 2,
        ensures
            e.inv(),
            e.cx == 0 && e.cy == 0 && e.row_offset == 0,
            e.screen_rows == rows - 1,
            e.screen_cols == cols,
            e.buffer == buffer,
            e.mode is Normal,
            e.status_msg@ == match buffer.filename {
                Some(name) => loaded_msg(name@),
                None => if buffer.text().len() > 0 {
                    no_name_msg()
                } else {
                    help_msg()
                },
            },
    {
        proof {
            buffer.lemma_shape();
        }
        let status_msg = match &buffer.filename {
            Some(name) => concat("Loaded file: ", name.as_str()),
            None => if buffer.len_chars() > 0 {
                "[No Name]".to_string()
            } else {
                "HELP: :q = quit".to_string()
            },
        };
        Editor {
            cx: 0,
            cy: 0,
            screen_rows: rows - 1,
            screen_cols: cols,
            buffer,
            row_offset: 0,
            status_msg,
            mode: Mode::Normal,
        }
    }

    /// The selection of Visual mode, from the anchor to the cursor, first
    /// position first; none in the other modes.
    pub fn get_selection_range(&self) -> (r: Option<((usize, usize), (usize, usize))>)
        requires
            self.row() < self.lines().len(),
        ensures
            !(self.mode is Visual) ==> r is None,
            self.mode is Visual ==> r == Some(
                ordered_range(self.mode->anchor, (self.cx, self.row() as usize)),
            ),
            r is Some ==> !pos_before((r->0).1, (r->0).0),
    {
        match &self.mode {
            Mode::Visual { anchor } => {
                let start_pos = *anchor;
                let end_pos = (self.cx, self.file_row());
                if end_pos.1 < start_pos.1 || (end_pos.1 == start_pos.1 && end_pos.0 < start_pos.0) {
                    Some((end_pos, start_pos))
                } else {
                    Some((start_pos, end_pos))
                }
            },
            _ => None,
        }
    }
}

/// Escape in Normal mode changes nothing but clearing the status line, so a
/// second Escape changes nothing at all.
pub proof fn lemma_escape_in_normal_idempotent(o: Editor, f1: Editor, f2: Editor)
    requires
        o.inv(),
        o.mode is Normal,
        normal_post(o, f1, KeyPress { code: Key::Esc, ctrl: false }),
        normal_post(f1, f2, KeyPress { code: Key::Esc, ctrl: false }),
    ensures
        (f1 == Editor { status_msg: f1.status_msg, ..o }),
        f1.status_msg@ == Seq::<char>::empty(),
        (f2 == Editor { status_msg: f2.status_msg, ..f1 }),
        f2.status_msg@ == f1.status_msg@,
{
}

/// Backspace with the cursor at the first column of the first line leaves
/// the document and the cursor as they were, in every mode.
pub proof fn lemma_backspace_at_origin(o: Editor, f: Editor, ctrl: bool, r: Outcome)
    requires
        o.inv(),
        o.cx == 0,
        o.row() == 0,
        keypress_post(o, f, KeyPress { code: Key::Backspace, ctrl }, r),
    ensures
        f.buffer == o.buffer,
        f.cx == o.cx,
        f.cy == o.cy,
        f.row_offset == o.row_offset,
{
}

} // verus!
