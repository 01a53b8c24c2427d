use selah::bible::types::SearchResult;
use selah::config::bookmarks::BookmarkEntry;
use selah::config::highlights::{HighlightColor, HighlightEntry};
use selah::config::notes::NoteEntry;
use selah::reader::{list_delete_key, list_nav_key, picker_key, quit_key, Key, ListAction, QuitAction};
use selah::text::{first_chars, preview, verse_reference};
use selah::ui::bookmarks::{bookmark_labels, bookmarks_hint};
use selah::ui::highlight_list::highlight_labels;
use selah::ui::layout::ListState;
use selah::ui::note_list::note_labels;
use selah::ui::search::hit_labels;
use selah::ui::translation::picker_label;

#[test]
fn list_keys_move_open_and_close() {
    let mut l = ListState::new();
    assert_eq!(list_nav_key(&mut l, 3, Key::Char('j')), ListAction::Stay);
    assert_eq!(l.selected(), Some(0));
    list_nav_key(&mut l, 3, Key::Down);
    list_nav_key(&mut l, 3, Key::Down);
    list_nav_key(&mut l, 3, Key::Down);
    assert_eq!(l.selected(), Some(2));
    list_nav_key(&mut l, 3, Key::Up);
    assert_eq!(l.selected(), Some(1));
    assert_eq!(list_nav_key(&mut l, 3, Key::Enter), ListAction::Open(1));
    assert_eq!(list_nav_key(&mut l, 1, Key::Enter), ListAction::Stay);
    assert_eq!(list_nav_key(&mut l, 3, Key::Esc), ListAction::Close);

    let mut empty = ListState::new();
    list_nav_key(&mut empty, 0, Key::Char('j'));
    assert_eq!(empty.selected(), None);
}

#[test]
fn deleting_keeps_a_valid_selection() {
    let mut l = ListState::new();
    l.select(Some(2));
    assert_eq!(list_delete_key(&mut l, 3, Key::Char('d'), false), ListAction::Delete(2));
    assert_eq!(l.selected(), Some(1));
    l.select(Some(0));
    assert_eq!(list_delete_key(&mut l, 1, Key::Char('d'), false), ListAction::Delete(0));
    assert_eq!(l.selected(), None);
    l.select(Some(5));
    assert_eq!(list_delete_key(&mut l, 2, Key::Char('d'), true), ListAction::Stay);
    assert_eq!(l.selected(), Some(5));
}

#[test]
fn picker_and_quit_keys() {
    let mut l = ListState::new();
    assert_eq!(picker_key(&mut l, 21, Key::Char('v')), ListAction::Close);
    assert_eq!(picker_key(&mut l, 21, Key::Char('k')), ListAction::Stay);
    assert_eq!(quit_key(Key::Char('y')), QuitAction::Quit);
    assert_eq!(quit_key(Key::Enter), QuitAction::Quit);
    assert_eq!(quit_key(Key::Char('q')), QuitAction::Close);
    assert_eq!(quit_key(Key::Char('x')), QuitAction::Stay);
}

#[test]
fn list_labels() {
    let hit = SearchResult {
        book: "John".to_string(),
        book_num: 43,
        chapter: 3,
        verse: 16,
        text: "For God so loved the world, that he gave his only begotten Son, that whosoever".to_string(),
    };
    let (r, p) = hit_labels(&hit);
    assert_eq!(r, "John 3:16 \u{2014} ");
    assert_eq!(p, "For God so loved the world, that he gave his only begotten S\u{2026}");

    let b = BookmarkEntry {
        book: "Genesis".to_string(),
        chapter: 1,
        verse: 1,
        snippet: Some("In the beginning".to_string()),
        note: None,
        created_at: 0,
    };
    assert_eq!(bookmark_labels(&b), ("Genesis 1:1 \u{2014} ".to_string(), "In the beginning".to_string()));
    let bare = BookmarkEntry { snippet: None, ..b };
    assert_eq!(bookmark_labels(&bare).1, "");
    assert_eq!(bookmarks_hint(true), " No bookmarks \u{2014} press b to add one");

    let h = HighlightEntry { book: "Psalms".to_string(), chapter: 23, verse: 1, color: HighlightColor::Green, created_at: 0 };
    assert_eq!(highlight_labels(&h), ("Psalms 23:1".to_string(), " \u{2014} green".to_string()));

    let n = NoteEntry {
        book: "Ruth".to_string(),
        chapter: 1,
        verse: 16,
        text: "Whither thou goest\r\nI will go".to_string(),
        created_at: 0,
        updated_at: 0,
    };
    assert_eq!(note_labels(&n).1, "Whither thou goest");
    let empty = NoteEntry { text: String::new(), ..n };
    assert_eq!(note_labels(&empty).1, "");

    assert_eq!(picker_label(0, "KJV"), "\u{2713} KJV \u{2014} King James Version (English)");
    assert_eq!(picker_label(0, "kjv"), "  KJV \u{2014} King James Version (English)");
    assert_eq!(picker_label(1, "KJV"), "  AMP \u{2014} Amplified Bible (English) [soon]");
}

#[test]
fn text_cuts() {
    assert_eq!(preview("abcdef", 3), "abc\u{2026}");
    assert_eq!(preview("abc", 3), "abc");
    assert_eq!(first_chars("\u{e9}t\u{e9}", 2), "\u{e9}t");
    assert_eq!(verse_reference("Jude", 1, 25), "Jude 1:25");
}
