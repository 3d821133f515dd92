use modal_editor::buffer::Buffer;
use modal_editor::command::{chars_eq, split_words, string_of};
use modal_editor::editor::{Editor, Key, KeyPress, Mode, Outcome};
use modal_editor::render::{decimal, spaces_string, CursorShape, ScreenRow};

fn press(code: Key) -> KeyPress {
    KeyPress { code, ctrl: false }
}

fn ch(c: char) -> KeyPress {
    press(Key::Char(c))
}

fn ctrl(c: char) -> KeyPress {
    KeyPress { code: Key::Char(c), ctrl: true }
}

fn chars(s: &str) -> Vec<char> {
    s.chars().collect()
}

fn lines(b: &Buffer) -> Vec<String> {
    (0..b.len_lines()).map(|i| b.line(i).into_iter().collect()).collect()
}

fn editor_on(text: &str, cols: usize, rows: usize) -> Editor {
    Editor::new(Buffer::from_file("notes.txt", Some(text)), cols, rows)
}

fn type_str(e: &mut Editor, s: &str) {
    for c in s.chars() {
        assert_eq!(e.process_keypress(ch(c)), Outcome::Continue);
    }
}

#[test]
fn empty_buffer_has_one_empty_line() {
    let b = Buffer::new();
    assert_eq!(b.len_lines(), 1);
    assert_eq!(b.line_len(0), 0);
    assert_eq!(b.len_chars(), 0);
    assert!(b.filename.is_none());
    assert!(!b.dirty);
}

#[test]
fn type_two_lines_into_empty_buffer() {
    let mut e = Editor::new(Buffer::new(), 80, 24);
    e.process_keypress(ch('i'));
    assert!(matches!(e.mode, Mode::Insert));
    type_str(&mut e, "hi");
    e.process_keypress(press(Key::Enter));
    type_str(&mut e, "x");
    assert_eq!((e.cx, e.cy), (1, 1));
    e.process_keypress(press(Key::Esc));
    assert!(matches!(e.mode, Mode::Normal));
    assert_eq!(lines(&e.buffer), vec!["hi", "x"]);
    assert_eq!((e.cx, e.cy + e.row_offset), (0, 1));
    assert!(e.buffer.dirty);
}

#[test]
fn backspace_twice_in_middle_of_line() {
    let mut e = editor_on("abc", 80, 24);
    e.cx = 2;
    e.process_keypress(ch('i'));
    e.process_keypress(press(Key::Backspace));
    e.process_keypress(press(Key::Backspace));
    assert_eq!(lines(&e.buffer), vec!["c"]);
    assert_eq!((e.cx, e.cy), (0, 0));
}

#[test]
fn quit_on_dirty_buffer_is_refused_and_forced_quit_works() {
    let mut e = editor_on("abc", 80, 24);
    e.process_keypress(ch('i'));
    type_str(&mut e, "z");
    e.process_keypress(press(Key::Esc));
    e.process_keypress(ch(':'));
    e.process_keypress(ch('q'));
    assert_eq!(e.process_keypress(press(Key::Enter)), Outcome::Continue);
    assert_eq!(e.status_msg, "No write since last change (use :q! to override)");
    assert!(matches!(e.mode, Mode::Normal));
    e.process_keypress(ch(':'));
    e.process_keypress(ch('q'));
    e.process_keypress(ch('!'));
    assert_eq!(e.process_keypress(press(Key::Enter)), Outcome::Quit);
}

#[test]
fn quit_on_clean_buffer() {
    let mut e = editor_on("abc", 80, 24);
    assert_eq!(e.execute_command(":q"), Outcome::Quit);
}

#[test]
fn visual_selection_is_ordered() {
    let mut e = editor_on("abcd\nefgh\nijkl", 80, 24);
    e.process_keypress(ch('v'));
    assert!(matches!(e.mode, Mode::Visual { anchor: (0, 0) }));
    e.process_keypress(ch('j'));
    e.process_keypress(ch('l'));
    e.process_keypress(ch('l'));
    assert_eq!(e.get_selection_range(), Some(((0, 0), (2, 1))));
}

#[test]
fn visual_selection_swaps_when_cursor_is_above_anchor() {
    let mut e = editor_on("abcd\nefgh\nijkl", 80, 24);
    e.process_keypress(ch('j'));
    e.process_keypress(ch('j'));
    e.process_keypress(ch('l'));
    e.process_keypress(ch('v'));
    assert!(matches!(e.mode, Mode::Visual { anchor: (1, 2) }));
    e.process_keypress(ch('k'));
    e.process_keypress(ch('l'));
    e.process_keypress(ch('l'));
    assert_eq!(e.get_selection_range(), Some(((3, 1), (1, 2))));
    e.process_keypress(press(Key::Esc));
    assert_eq!(e.get_selection_range(), None);
}

#[test]
fn selection_on_one_line_swaps_by_column() {
    let mut e = editor_on("abcd", 80, 24);
    e.cx = 3;
    e.process_keypress(ch('v'));
    e.process_keypress(ch('h'));
    e.process_keypress(ch('h'));
    assert_eq!(e.get_selection_range(), Some(((1, 0), (3, 0))));
}

#[test]
fn repeated_escape_in_normal_mode_changes_nothing() {
    let mut e = editor_on("abc\ndef", 80, 24);
    e.process_keypress(ch('j'));
    e.process_keypress(ch('l'));
    e.process_keypress(press(Key::Esc));
    let state = (e.cx, e.cy, e.row_offset, lines(&e.buffer), e.status_msg.clone());
    e.process_keypress(press(Key::Esc));
    e.process_keypress(press(Key::Esc));
    assert!(matches!(e.mode, Mode::Normal));
    assert_eq!((e.cx, e.cy, e.row_offset, lines(&e.buffer), e.status_msg.clone()), state);
}

#[test]
fn backspace_at_start_of_document_does_nothing() {
    let mut e = editor_on("abc\ndef", 80, 24);
    e.process_keypress(ch('i'));
    e.process_keypress(press(Key::Backspace));
    assert_eq!(lines(&e.buffer), vec!["abc", "def"]);
    assert_eq!((e.cx, e.cy, e.row_offset), (0, 0, 0));
    assert!(!e.buffer.dirty);
}

#[test]
fn backspace_at_line_start_joins_lines() {
    let mut e = editor_on("ab\ncd", 80, 24);
    e.process_keypress(ch('j'));
    e.process_keypress(ch('i'));
    e.process_keypress(press(Key::Backspace));
    assert_eq!(lines(&e.buffer), vec!["abcd"]);
    assert_eq!((e.cx, e.cy), (2, 0));
}

#[test]
fn save_then_reload_gives_same_lines() {
    for text in ["one\ntwo\n", "one\ntwo", "", "\n\n", "a\r\nb"] {
        let b = Buffer::from_file("f.txt", Some(text));
        let saved = b.contents();
        assert_eq!(saved, text);
        let reloaded = Buffer::from_file("f.txt", Some(saved.as_str()));
        assert_eq!(lines(&reloaded), lines(&b));
    }
}

#[test]
fn trailing_line_feed_gives_final_empty_line() {
    let with = Buffer::from_file("f", Some("a\nb\n"));
    let without = Buffer::from_file("f", Some("a\nb"));
    assert_eq!(lines(&with), vec!["a", "b", ""]);
    assert_eq!(lines(&without), vec!["a", "b"]);
}

#[test]
fn missing_file_gives_empty_buffer_bound_to_name() {
    let b = Buffer::from_file("new.txt", None);
    assert_eq!(lines(&b), vec![""]);
    assert_eq!(b.filename.as_deref(), Some("new.txt"));
    let mut e = Editor::new(b, 80, 24);
    assert_eq!(e.status_msg, "Loaded file: new.txt");
    assert_eq!(e.execute_command(":w"), Outcome::Save { quit_after: false });
}

#[test]
fn buffer_edits() {
    let mut b = Buffer::from_file("f", Some("hello\nworld"));
    b.insert_char(0, 5, '!');
    assert_eq!(lines(&b), vec!["hello!", "world"]);
    assert!(b.dirty);
    b.delete_char(1, 1);
    assert_eq!(lines(&b), vec!["hello!", "orld"]);
    b.delete_char(1, 0);
    assert_eq!(lines(&b), vec!["hello!", "orld"]);
    b.insert_new_line(0, 2);
    assert_eq!(lines(&b), vec!["he", "llo!", "orld"]);
    assert_eq!(b.join_with_previous_line(2), 4);
    assert_eq!(lines(&b), vec!["he", "llo!orld"]);
    assert_eq!(b.join_with_previous_line(0), 0);
    b.insert_char(1, 0, '\n');
    assert_eq!(lines(&b), vec!["he", "", "llo!orld"]);
    assert_eq!(b.contents(), "he\n\nllo!orld");
    assert_eq!(b.line_len(2), 8);
    assert_eq!(b.line(0), chars("he"));
}

#[test]
fn normal_mode_cursor_stays_on_last_character() {
    let mut e = editor_on("abc\n\nxy", 80, 24);
    for _ in 0..5 {
        e.process_keypress(ch('l'));
    }
    assert_eq!(e.cx, 2);
    e.process_keypress(press(Key::Down));
    assert_eq!((e.cx, e.cy), (0, 1));
    e.process_keypress(press(Key::Down));
    e.process_keypress(press(Key::Right));
    e.process_keypress(press(Key::Right));
    assert_eq!((e.cx, e.cy), (1, 2));
    e.process_keypress(press(Key::Down));
    assert_eq!(e.cy, 2);
    e.process_keypress(press(Key::Left));
    e.process_keypress(press(Key::Left));
    assert_eq!(e.cx, 0);
}

#[test]
fn insert_mode_allows_one_past_end_and_escape_pulls_back() {
    let mut e = editor_on("abc", 80, 24);
    e.cx = 2;
    e.process_keypress(ch('i'));
    type_str(&mut e, "d");
    assert_eq!(e.cx, 3);
    assert_eq!(lines(&e.buffer), vec!["abdc"]);
    e.process_keypress(press(Key::Esc));
    assert_eq!(e.cx, 3);
    let mut f = editor_on("ab", 80, 24);
    f.cx = 1;
    f.process_keypress(ch('i'));
    type_str(&mut f, "X");
    f.process_keypress(press(Key::Esc));
    assert_eq!(lines(&f.buffer), vec!["aXb"]);
    assert_eq!(f.cx, 2);
}

#[test]
fn escape_from_insert_at_end_of_line_moves_cursor_left() {
    let mut e = editor_on("", 80, 24);
    e.process_keypress(ch('i'));
    type_str(&mut e, "ab");
    assert_eq!(e.cx, 2);
    e.process_keypress(press(Key::Esc));
    assert_eq!(e.cx, 1);
}

fn numbered(n: usize) -> String {
    (0..n).map(|i| format!("line{}", i)).collect::<Vec<_>>().join("\n")
}

#[test]
fn moving_down_scrolls_at_bottom_edge() {
    // 4 text rows on a 5-row terminal
    let mut e = editor_on(&numbered(6), 80, 5);
    assert_eq!(e.screen_rows, 4);
    for _ in 0..3 {
        e.process_keypress(ch('j'));
    }
    assert_eq!((e.cy, e.row_offset), (3, 0));
    e.process_keypress(ch('j'));
    assert_eq!((e.cy, e.row_offset), (3, 1));
    e.process_keypress(ch('j'));
    e.process_keypress(ch('j'));
    assert_eq!((e.cy, e.row_offset), (3, 2));
    for _ in 0..3 {
        e.process_keypress(ch('k'));
    }
    assert_eq!((e.cy, e.row_offset), (0, 2));
    e.process_keypress(ch('k'));
    assert_eq!((e.cy, e.row_offset), (0, 1));
}

#[test]
fn half_page_down_and_up_keep_absolute_row() {
    let mut e = editor_on(&numbered(20), 80, 11);
    assert_eq!(e.screen_rows, 10);
    e.process_keypress(ch('j'));
    e.process_keypress(ch('j'));
    e.process_keypress(ch('j'));
    e.process_keypress(ch('j'));
    e.process_keypress(ch('j'));
    e.process_keypress(ch('j'));
    assert_eq!((e.cy, e.row_offset), (6, 0));
    e.process_keypress(ctrl('d'));
    assert_eq!((e.cy, e.row_offset), (1, 5));
    e.process_keypress(ctrl('u'));
    assert_eq!((e.cy, e.row_offset), (6, 0));
}

#[test]
fn half_page_down_stops_at_last_line() {
    let mut e = editor_on(&numbered(7), 80, 11);
    e.process_keypress(ch('j'));
    e.process_keypress(ch('j'));
    e.process_keypress(ctrl('d'));
    assert_eq!((e.cy, e.row_offset), (0, 5));
    e.process_keypress(ctrl('d'));
    assert_eq!((e.cy, e.row_offset), (0, 6));
    assert_eq!(e.cy + e.row_offset, 6);
    e.process_keypress(ctrl('u'));
    assert_eq!((e.cy, e.row_offset), (5, 1));
    e.process_keypress(ctrl('u'));
    assert_eq!((e.cy, e.row_offset), (6, 0));
}

#[test]
fn half_page_up_at_top_does_nothing() {
    let mut e = editor_on(&numbered(3), 80, 11);
    e.process_keypress(ctrl('u'));
    assert_eq!((e.cy, e.row_offset), (0, 0));
    e.process_keypress(ch('d'));
    assert_eq!((e.cy, e.row_offset), (0, 0));
}

#[test]
fn enter_at_bottom_edge_scrolls() {
    let mut e = editor_on("a\nb\nc", 80, 3);
    e.process_keypress(ch('j'));
    e.process_keypress(ch('i'));
    assert_eq!(e.cy, 1);
    e.process_keypress(press(Key::Enter));
    assert_eq!((e.cx, e.cy, e.row_offset), (0, 1, 1));
    assert_eq!(lines(&e.buffer), vec!["a", "", "b", "c"]);
    e.process_keypress(press(Key::Backspace));
    assert_eq!((e.cx, e.cy, e.row_offset), (0, 0, 1));
    assert_eq!(lines(&e.buffer), vec!["a", "b", "c"]);
}

#[test]
fn write_without_file_name_is_reported() {
    let mut e = Editor::new(Buffer::new(), 80, 24);
    assert_eq!(e.execute_command(":w"), Outcome::Continue);
    assert_eq!(e.status_msg, "No filename specified. Use :w <filename>");
}

#[test]
fn write_with_name_binds_file_and_save_reports() {
    let mut e = Editor::new(Buffer::new(), 80, 24);
    e.process_keypress(ch('i'));
    type_str(&mut e, "x");
    e.process_keypress(press(Key::Esc));
    assert_eq!(e.execute_command(":w  out.txt "), Outcome::Save { quit_after: false });
    assert_eq!(e.buffer.filename.as_deref(), Some("out.txt"));
    assert_eq!(e.buffer.contents(), "x");
    assert_eq!(e.finish_save(false, None), Outcome::Continue);
    assert!(!e.buffer.dirty);
    assert_eq!(e.status_msg, "Saved file: out.txt");
}

#[test]
fn write_quit_saves_then_quits() {
    let mut e = editor_on("abc", 80, 24);
    assert_eq!(e.execute_command(":wq"), Outcome::Save { quit_after: true });
    assert_eq!(e.finish_save(true, None), Outcome::Quit);
}

#[test]
fn failed_save_is_reported_and_keeps_running_when_dirty() {
    let mut e = editor_on("abc", 80, 24);
    e.buffer.dirty = true;
    let r = e.finish_save(true, Some("permission denied".to_string()));
    assert_eq!(r, Outcome::Continue);
    assert_eq!(e.status_msg, "Could not save file: permission denied");
    assert!(e.buffer.dirty);
    let mut f = editor_on("abc", 80, 24);
    assert_eq!(f.finish_save(true, Some("disk full".to_string())), Outcome::Quit);
}

#[test]
fn write_quit_without_file() {
    let mut clean = Editor::new(Buffer::new(), 80, 24);
    assert_eq!(clean.execute_command(":wq"), Outcome::Quit);
    let mut dirty = Editor::new(Buffer::new(), 80, 24);
    dirty.buffer.dirty = true;
    assert_eq!(dirty.execute_command(":wq"), Outcome::Continue);
    assert_eq!(dirty.status_msg, "No filename specified. Use :w <filename>");
}

#[test]
fn unknown_command_is_reported() {
    let mut e = editor_on("abc", 80, 24);
    assert_eq!(e.execute_command(":foo bar"), Outcome::Continue);
    assert_eq!(e.status_msg, "Unknown command: :foo bar");
    let mut f = editor_on("abc", 80, 24);
    assert_eq!(f.execute_command("   "), Outcome::Continue);
    assert_eq!(f.status_msg, "Loaded file: notes.txt");
}

#[test]
fn command_line_editing() {
    let mut e = editor_on("abc", 80, 24);
    e.process_keypress(ch(':'));
    e.process_keypress(ch('w'));
    e.process_keypress(ch('x'));
    e.process_keypress(press(Key::Backspace));
    match &e.mode {
        Mode::Command { text } => assert_eq!(text, ":w"),
        _ => panic!("expected command mode"),
    }
    assert_eq!(e.cursor_position(), (2, 23));
    assert_eq!(e.cursor_shape(), CursorShape::Bar);
    e.process_keypress(press(Key::Backspace));
    e.process_keypress(press(Key::Backspace));
    assert!(matches!(e.mode, Mode::Normal));
    e.process_keypress(ch(':'));
    e.process_keypress(press(Key::Esc));
    assert!(matches!(e.mode, Mode::Normal));
    assert_eq!(e.status_msg, "Loaded file: notes.txt");
}

#[test]
fn status_survives_command_mode_and_clears_on_next_key() {
    let mut e = editor_on("abc", 80, 24);
    e.process_keypress(ch(':'));
    e.process_keypress(ch('x'));
    e.process_keypress(press(Key::Enter));
    assert_eq!(e.status_msg, "Unknown command: :x");
    e.process_keypress(ch(':'));
    assert_eq!(e.status_msg, "Unknown command: :x");
    assert!(e.status_bar().starts_with(": "));
    e.process_keypress(press(Key::Backspace));
    assert!(matches!(e.mode, Mode::Normal));
    assert_eq!(e.status_msg, "Unknown command: :x");
    e.process_keypress(ch('l'));
    assert_eq!(e.status_msg, "");
}

#[test]
fn new_editor_status_messages() {
    let e = Editor::new(Buffer::new(), 80, 24);
    assert_eq!(e.status_msg, "HELP: :q = quit");
    assert_eq!((e.screen_rows, e.screen_cols), (23, 80));
    assert_eq!(e.cursor_shape(), CursorShape::Block);
}

#[test]
fn status_bar_layout() {
    let mut e = editor_on("abc\ndef", 30, 24);
    e.process_keypress(ch('j'));
    e.process_keypress(ch('l'));
    assert_eq!(e.status_bar(), "-- NORMAL -- \"notes 2:2 -- 2/2");
    e.process_keypress(ch('i'));
    assert_eq!(e.status_bar(), "-- INSERT --        2:2 -- 2/2");
    let wide = e.status_bar();
    assert_eq!(wide.chars().count(), 30);
}

#[test]
fn status_bar_shows_dirty_mark_and_no_name() {
    let mut e = Editor::new(Buffer::new(), 40, 24);
    e.status_msg = String::new();
    e.buffer.dirty = true;
    assert_eq!(e.status_bar(), "-- NORMAL -- \"[No Name]\" [+]  1:1 -- 1/1");
}

#[test]
fn screen_rows_show_text_filler_and_welcome() {
    let e = Editor::new(Buffer::new(), 40, 10);
    assert_eq!(e.screen_rows, 9);
    match e.screen_row(3) {
        ScreenRow::Message(m) => assert_eq!(m, "~        Vim-like Editor - v0.0.1"),
        _ => panic!("expected the welcome line"),
    }
    assert!(matches!(e.screen_row(2), ScreenRow::Filler));
    match e.screen_row(0) {
        ScreenRow::Text { chars, highlighted } => {
            assert!(chars.is_empty());
            assert!(highlighted.is_empty());
        }
        _ => panic!("expected a text row"),
    }
    let f = editor_on("abcdef\nxyz", 4, 10);
    match f.screen_row(0) {
        ScreenRow::Text { chars, .. } => assert_eq!(chars, vec!['a', 'b', 'c', 'd']),
        _ => panic!("expected a text row"),
    }
    assert!(matches!(f.screen_row(3), ScreenRow::Filler));
}

#[test]
fn screen_rows_mark_the_selection() {
    let mut e = editor_on("abcd\nefgh\nijkl", 80, 24);
    e.cx = 2;
    e.process_keypress(ch('v'));
    e.process_keypress(ch('j'));
    e.process_keypress(ch('h'));
    match e.screen_row(0) {
        ScreenRow::Text { highlighted, .. } => {
            assert_eq!(highlighted, vec![false, false, true, true])
        }
        _ => panic!("expected a text row"),
    }
    match e.screen_row(1) {
        ScreenRow::Text { highlighted, .. } => {
            assert_eq!(highlighted, vec![true, true, false, false])
        }
        _ => panic!("expected a text row"),
    }
    match e.screen_row(2) {
        ScreenRow::Text { highlighted, .. } => assert_eq!(highlighted, vec![false; 4]),
        _ => panic!("expected a text row"),
    }
}

#[test]
fn words_and_helpers() {
    let ws = split_words("  :w \t file.txt  ");
    assert_eq!(ws, vec![chars(":w"), chars("file.txt")]);
    assert!(split_words(" \u{3000} ").is_empty());
    assert!(chars_eq(&chars(":wq"), ":wq"));
    assert!(!chars_eq(&chars(":w"), ":wq"));
    assert_eq!(string_of(&chars("héllo")), "héllo");
    assert_eq!(decimal(0), "0");
    assert_eq!(decimal(1234), "1234");
    assert_eq!(spaces_string(3), "   ");
}

#[test]
fn unrecognized_keys_do_nothing() {
    let mut e = editor_on("abc\ndef", 80, 24);
    e.process_keypress(ch('l'));
    e.process_keypress(press(Key::Other));
    e.process_keypress(ch('z'));
    assert_eq!((e.cx, e.cy), (1, 0));
    assert!(matches!(e.mode, Mode::Normal));
    e.process_keypress(ch('v'));
    e.process_keypress(ch('i'));
    assert!(matches!(e.mode, Mode::Visual { .. }));
    assert_eq!(lines(&e.buffer), vec!["abc", "def"]);
}

#[test]
fn clamp_follows_the_mode() {
    let mut e = editor_on("abc\n", 80, 24);
    e.cx = 5;
    e.mode = Mode::Command { text: ":".to_string() };
    e.clamp_cursor_to_line();
    assert_eq!(e.cx, 5);
    e.mode = Mode::Insert;
    e.clamp_cursor_to_line();
    assert_eq!(e.cx, 3);
    e.mode = Mode::Normal;
    e.clamp_cursor_to_line();
    assert_eq!(e.cx, 2);
    e.cy = 1;
    e.cx = 4;
    e.mode = Mode::Command { text: ":".to_string() };
    e.clamp_cursor_to_line();
    assert_eq!(e.cx, 0);
    e.cy = 7;
    e.cx = 4;
    e.mode = Mode::Insert;
    e.clamp_cursor_to_line();
    assert_eq!(e.cx, 0);
}

#[test]
fn backspace_at_origin_in_normal_mode_moves_nothing() {
    let mut e = editor_on("abc\ndef", 80, 24);
    e.process_keypress(press(Key::Backspace));
    assert_eq!(lines(&e.buffer), vec!["abc", "def"]);
    assert_eq!((e.cx, e.cy, e.row_offset), (0, 0, 0));
    assert!(matches!(e.mode, Mode::Normal));
}
