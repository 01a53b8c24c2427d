use selah::ui::notes::NoteEditorState;

fn editor(text: Option<&str>) -> NoteEditorState {
    NoteEditorState::new("John".to_string(), 3, 16, text)
}

#[test]
fn new_empty_has_one_blank_line() {
    let e = editor(None);
    assert_eq!(e.lines, vec![""]);
    assert_eq!(e.cursor_row, 0);
    assert_eq!(e.cursor_col, 0);
}

#[test]
fn new_with_existing_text() {
    let e = editor(Some("line1\nline2"));
    assert_eq!(e.lines, vec!["line1", "line2"]);
}

#[test]
fn insert_char_at_start() {
    let mut e = editor(None);
    e.insert_char('A');
    assert_eq!(e.lines[0], "A");
    assert_eq!(e.cursor_col, 1);
}

#[test]
fn insert_newline_splits_line() {
    let mut e = editor(Some("hello"));
    e.cursor_col = 3;
    e.insert_newline();
    assert_eq!(e.lines, vec!["hel", "lo"]);
    assert_eq!(e.cursor_row, 1);
    assert_eq!(e.cursor_col, 0);
}

#[test]
fn delete_char_within_line() {
    let mut e = editor(Some("abc"));
    e.cursor_col = 2;
    e.delete_char();
    assert_eq!(e.lines[0], "ac");
    assert_eq!(e.cursor_col, 1);
}

#[test]
fn delete_char_merges_lines() {
    let mut e = editor(Some("ab\ncd"));
    e.cursor_row = 1;
    e.cursor_col = 0;
    e.delete_char();
    assert_eq!(e.lines, vec!["abcd"]);
    assert_eq!(e.cursor_row, 0);
    assert_eq!(e.cursor_col, 2);
}

#[test]
fn cursor_movement() {
    let mut e = editor(Some("abc\ndef"));
    e.cursor_col = 1;
    e.move_cursor_right();
    assert_eq!(e.cursor_col, 2);
    e.move_cursor_left();
    assert_eq!(e.cursor_col, 1);
    e.move_cursor_down(80);
    assert_eq!(e.cursor_row, 1);
    assert_eq!(e.cursor_col, 1);
    e.move_cursor_up(80);
    assert_eq!(e.cursor_row, 0);
}

#[test]
fn to_text_joins_lines() {
    let e = editor(Some("line1\nline2\nline3"));
    assert_eq!(e.to_text(), "line1\nline2\nline3");
}

#[test]
fn new_splits_like_str_lines() {
    let e = editor(Some("a\r\nb\n\nc\n"));
    assert_eq!(e.lines, vec!["a", "b", "", "c"]);
    let e = editor(Some(""));
    assert_eq!(e.lines, vec![""]);
    let e = editor(Some("x\r"));
    assert_eq!(e.lines, vec!["x\r"]);
}

#[test]
fn wrapped_cursor_moves_within_line() {
    let mut e = editor(Some("abcdefghij\nxy"));
    e.cursor_col = 7;
    e.move_cursor_up(4);
    assert_eq!((e.cursor_row, e.cursor_col), (0, 3));
    e.move_cursor_down(4);
    assert_eq!((e.cursor_row, e.cursor_col), (0, 7));
    e.move_cursor_down(4);
    assert_eq!((e.cursor_row, e.cursor_col), (0, 10));
    e.move_cursor_down(4);
    assert_eq!((e.cursor_row, e.cursor_col), (1, 2));
    e.move_cursor_up(4);
    assert_eq!((e.cursor_row, e.cursor_col), (0, 10));
}

#[test]
fn typing_then_backspace_restores_text() {
    let mut e = editor(Some("héllo"));
    e.cursor_col = 2;
    e.insert_char('ü');
    assert_eq!(e.lines[0], "héüllo");
    e.delete_char();
    assert_eq!(e.lines[0], "héllo");
    e.insert_newline();
    e.delete_char();
    assert_eq!(e.lines, vec!["héllo"]);
    assert_eq!(e.cursor_col, 2);
}

#[test]
fn insert_past_line_end_appends() {
    let mut e = editor(Some("ab"));
    e.cursor_col = 9;
    e.insert_char('c');
    assert_eq!(e.lines[0], "abc");
    assert_eq!(e.cursor_col, 10);
}
