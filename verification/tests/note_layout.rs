use selah::ui::note_layout::{layout, CursorMark};
use selah::ui::notes::NoteEditorState;

fn rows(lines: &[&str], row: usize, col: usize, w: usize) -> (Vec<(String, CursorMark)>, usize) {
    let lines: Vec<String> = lines.iter().map(|s| s.to_string()).collect();
    let (v, c) = layout(&lines, row, col, w);
    (v.into_iter().map(|r| (r.text, r.cursor)).collect(), c)
}

#[test]
fn lines_wrap_at_the_width() {
    let (v, c) = rows(&["abcdef", ""], 0, 2, 4);
    assert_eq!(
        v,
        vec![
            ("abcd".to_string(), CursorMark::On(2)),
            ("ef".to_string(), CursorMark::Absent),
            (String::new(), CursorMark::Absent),
        ]
    );
    assert_eq!(c, 0);

    let (v, c) = rows(&["abcdef", ""], 1, 0, 4);
    assert_eq!(v[2], (String::new(), CursorMark::After));
    assert_eq!(c, 2);
}

#[test]
fn cursor_at_line_end() {
    // Inside a partly filled last row the cursor follows the text.
    let (v, c) = rows(&["abcdef"], 0, 6, 4);
    assert_eq!(v, vec![("abcd".to_string(), CursorMark::Absent), ("ef".to_string(), CursorMark::After)]);
    assert_eq!(c, 1);

    // A line that fills its last row exactly: the last row is drawn empty
    // with the cursor after it.
    let (v, c) = rows(&["abcd"], 0, 4, 2);
    assert_eq!(v, vec![("ab".to_string(), CursorMark::Absent), (String::new(), CursorMark::After)]);
    assert_eq!(c, 1);

    // A cursor a whole row past the end gets a row of its own.
    let (v, c) = rows(&["abc"], 0, 7, 2);
    assert_eq!(
        v,
        vec![
            ("ab".to_string(), CursorMark::Absent),
            ("c".to_string(), CursorMark::Absent),
            (String::new(), CursorMark::After),
        ]
    );
    assert_eq!(c, 2);
}

#[test]
fn window_follows_the_cursor() {
    let mut e = NoteEditorState::new("John".to_string(), 3, 16, Some("a\nb\nc\nd\ne"));
    let v = e.visible_rows(10, 2);
    assert_eq!(e.last_width, 10);
    assert_eq!(e.scroll_offset, 0);
    assert_eq!(v.len(), 2);
    assert_eq!(v[0].text, "a");
    assert_eq!(v[0].cursor, CursorMark::On(0));

    e.cursor_row = 4;
    let v = e.visible_rows(10, 2);
    assert_eq!(e.scroll_offset, 3);
    assert_eq!(v.iter().map(|r| r.text.clone()).collect::<Vec<_>>(), vec!["d", "e"]);

    e.cursor_row = 1;
    e.visible_rows(10, 2);
    assert_eq!(e.scroll_offset, 1);
    assert_eq!(e.title(), " Note: John 3:16 ");
}
