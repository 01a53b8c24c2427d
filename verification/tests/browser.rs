use rusqlite::Connection;
use selah::bible::db::build_fts;
use selah::bible::resolver::FetchResult;
use selah::bible::types::Verse;
use selah::config::session::SessionState;
use selah::ui::browser::chapter_from_read;
use selah::ui::browser::{panel_title, BrowserState, MouseInput, MouseKind, Panel, StatusFlash};
use selah::ui::layout::Rect;
use selah::ui::theme::ThemeName;

/// A small KJV database: the first verses of Genesis 1 and 2 and of John 3.
fn test_db() -> Connection {
    let conn = Connection::open_in_memory().unwrap();
    conn.execute_batch(
        "CREATE TABLE t_kjv (b INTEGER, c INTEGER, v INTEGER, t TEXT);
         INSERT INTO t_kjv VALUES (1, 1, 1, 'In the beginning God created the heaven and the earth.');
         INSERT INTO t_kjv VALUES (1, 1, 2, 'And the earth was without form, and void; and darkness was upon the face of the deep. And the Spirit of God moved upon the face of the waters.');
         INSERT INTO t_kjv VALUES (1, 1, 3, 'And God said, Let there be light: and there was light.');
         INSERT INTO t_kjv VALUES (1, 2, 1, 'Thus the heavens and the earth were finished, and all the host of them.');
         INSERT INTO t_kjv VALUES (43, 3, 16, 'For God so loved the world, that he gave his only begotten Son, that whosoever believeth in him should not perish, but have everlasting life.');",
    )
    .unwrap();
    build_fts(&conn, "kjv").unwrap();
    conn
}

#[test]
fn panel_next_follows_reading_flow() {
    assert_eq!(Panel::Books.next(), Panel::Chapters);
    assert_eq!(Panel::Chapters.next(), Panel::Verses);
    assert_eq!(Panel::Verses.next(), Panel::Scripture);
    assert_eq!(Panel::Scripture.next(), Panel::Scripture);
}

#[test]
fn panel_prev_follows_reading_flow() {
    assert_eq!(Panel::Books.prev(), Panel::Books);
    assert_eq!(Panel::Chapters.prev(), Panel::Books);
    assert_eq!(Panel::Verses.prev(), Panel::Chapters);
    assert_eq!(Panel::Scripture.prev(), Panel::Verses);
}

#[test]
fn move_down_in_books_updates_indices() {
    let conn = test_db();
    let session = SessionState::default();
    let mut state = BrowserState::new(&conn, &session);

    assert_eq!(state.selected_book_idx, 0);
    state.move_down();
    assert_eq!(state.selected_book_idx, 1);

    state.move_up();
    assert_eq!(state.selected_book_idx, 0);

    // Can't go above first item
    state.move_up();
    assert_eq!(state.selected_book_idx, 0);
}

#[test]
fn jk_in_verses_deselects_at_top() {
    let conn = test_db();
    let session = SessionState::default();
    let mut state = BrowserState::new(&conn, &session);

    state.active_panel = Panel::Verses;
    state.load_chapter(&conn);
    state.verse_list.select(Some(0));
    state.selected_verse = 1;

    // k at verse 1 deselects (back to full chapter view)
    state.move_up();
    assert_eq!(state.verse_list.selected(), None);
    assert_eq!(state.active_panel, Panel::Verses);
}

#[test]
fn focus_next_loads_chapter_when_entering_verses() {
    let conn = test_db();
    let session = SessionState::default();
    let mut state = BrowserState::new(&conn, &session);

    state.active_panel = Panel::Chapters;
    state.current_chapter = None;

    state.focus_next(&conn);
    assert_eq!(state.active_panel, Panel::Verses);
    assert!(state.current_chapter.is_some());
}

#[test]
fn focus_next_loads_chapter_when_entering_scripture() {
    let conn = test_db();
    let session = SessionState::default();
    let mut state = BrowserState::new(&conn, &session);

    state.active_panel = Panel::Verses;
    state.current_chapter = None;

    state.focus_next(&conn);
    assert_eq!(state.active_panel, Panel::Scripture);
    assert!(state.current_chapter.is_some());
}

#[test]
fn focus_prev_walks_back_through_reading_flow() {
    let conn = test_db();
    let session = SessionState::default();
    let mut state = BrowserState::new(&conn, &session);

    state.active_panel = Panel::Scripture;
    state.focus_prev();
    assert_eq!(state.active_panel, Panel::Verses);

    state.focus_prev();
    assert_eq!(state.active_panel, Panel::Chapters);

    state.focus_prev();
    assert_eq!(state.active_panel, Panel::Books);

    state.focus_prev();
    assert_eq!(state.active_panel, Panel::Books);
}

#[test]
fn new_loads_saved_chapter_and_clamps_position() {
    let conn = test_db();
    let session = SessionState {
        book_index: 200,
        chapter: 99,
        scroll_position: 7,
        active_panel: 2,
        theme: ThemeName::Gospel,
        translation: "KJV".to_string(),
        highlights_visible: true,
    };
    let state = BrowserState::new(&conn, &session);
    assert_eq!(state.selected_book_idx, 65);
    assert_eq!(state.selected_chapter, 22);
    assert_eq!(state.chapter_list.selected(), Some(21));
    assert_eq!(state.active_panel, Panel::Scripture);
    assert_eq!(state.scripture_scroll, 7);
    assert!(state.current_chapter.is_none());

    let zero = SessionState { chapter: 0, ..SessionState::default() };
    let state = BrowserState::new(&conn, &zero);
    assert_eq!(state.selected_chapter, 1);
    let ch = state.current_chapter.as_ref().unwrap();
    assert_eq!(ch.book, "Genesis");
    assert_eq!(ch.chapter, 1);
    assert_eq!(ch.verses.len(), 3);
    assert_eq!(ch.verses[0].translation, "KJV");
}

#[test]
fn session_round_trip_restores_position() {
    let conn = test_db();
    let mut state = BrowserState::new(&conn, &SessionState::default());
    state.jump_to_verse(&conn, 43, 3, 16);
    state.scripture_scroll = 4;
    let saved = state.to_session(ThemeName::Midnight);
    assert_eq!(saved.book_index, 42);
    assert_eq!(saved.chapter, 3);
    assert_eq!(saved.active_panel, 2);
    assert_eq!(saved.theme, ThemeName::Midnight);

    let restored = BrowserState::new(&conn, &saved);
    assert_eq!(restored.selected_book_idx, 42);
    assert_eq!(restored.selected_chapter, 3);
    assert_eq!(restored.active_panel, Panel::Scripture);
    assert_eq!(restored.scripture_scroll, 4);
    assert_eq!(restored.translation, "KJV");
}

#[test]
fn jump_selects_verse_in_scripture_panel() {
    let conn = test_db();
    let mut state = BrowserState::new(&conn, &SessionState::default());
    state.jump_to_verse(&conn, 43, 3, 16);
    assert_eq!(state.selected_book_idx, 42);
    assert_eq!(state.book_list.selected(), Some(42));
    assert_eq!(state.chapter_list.selected(), Some(2));
    assert_eq!(state.verse_list.selected(), Some(15));
    assert_eq!(state.selected_verse, 16);
    assert_eq!(state.active_panel, Panel::Scripture);
    let ch = state.current_chapter.as_ref().unwrap();
    assert_eq!(ch.book, "John");
    assert_eq!(ch.verses.len(), 1);

    state.jump_to_verse(&conn, 0, 2, 0);
    assert_eq!(state.selected_book_idx, 0);
    assert_eq!(state.selected_verse, 0);
    assert_eq!(state.verse_list.selected(), None);
}

#[test]
fn moving_in_chapters_and_verses() {
    let conn = test_db();
    let mut state = BrowserState::new(&conn, &SessionState::default());
    state.active_panel = Panel::Chapters;
    state.move_down();
    assert_eq!(state.selected_chapter, 2);
    state.move_up();
    assert_eq!(state.selected_chapter, 1);

    state.active_panel = Panel::Verses;
    state.move_down();
    assert_eq!(state.selected_verse, 1);
    state.move_down();
    state.move_down();
    assert_eq!(state.selected_verse, 3);
    // Past the last verse nothing moves.
    state.move_down();
    assert_eq!(state.selected_verse, 3);

    state.active_panel = Panel::Scripture;
    state.move_up();
    assert_eq!(state.scripture_scroll, 0);
    state.move_down();
    assert_eq!(state.scripture_scroll, 1);
}

#[test]
fn clicks_select_books_chapters_and_verses() {
    let conn = test_db();
    let mut state = BrowserState::new(&conn, &SessionState::default());
    state.books_rect = Rect::new(0, 0, 20, 30);
    state.chapters_rect = Rect::new(20, 0, 10, 15);
    state.verses_rect = Rect::new(20, 15, 10, 15);
    state.scripture_rect = Rect::new(30, 0, 50, 30);

    // Row 3 of the books list is the third book (the border takes row 0).
    state.handle_mouse(MouseInput { kind: MouseKind::LeftDown, column: 5, row: 3 }, &conn);
    assert_eq!(state.active_panel, Panel::Books);
    assert_eq!(state.selected_book_idx, 2);
    assert_eq!(state.selected_chapter, 1);
    assert!(state.current_chapter.is_none());

    state.handle_mouse(MouseInput { kind: MouseKind::LeftDown, column: 5, row: 1 }, &conn);
    assert_eq!(state.selected_book_idx, 0);

    state.handle_mouse(MouseInput { kind: MouseKind::LeftDown, column: 22, row: 2 }, &conn);
    assert_eq!(state.active_panel, Panel::Chapters);
    assert_eq!(state.selected_chapter, 2);
    assert_eq!(state.current_chapter.as_ref().unwrap().verses.len(), 1);

    state.handle_mouse(MouseInput { kind: MouseKind::LeftDown, column: 22, row: 1 }, &conn);
    assert_eq!(state.selected_chapter, 1);

    state.handle_mouse(MouseInput { kind: MouseKind::LeftDown, column: 22, row: 18 }, &conn);
    assert_eq!(state.active_panel, Panel::Verses);
    assert_eq!(state.selected_verse, 3);

    // A click below the last verse selects nothing new.
    state.handle_mouse(MouseInput { kind: MouseKind::LeftDown, column: 22, row: 25 }, &conn);
    assert_eq!(state.selected_verse, 3);

    state.handle_mouse(MouseInput { kind: MouseKind::ScrollDown, column: 40, row: 5 }, &conn);
    assert_eq!(state.active_panel, Panel::Scripture);
    assert_eq!(state.scripture_scroll, 1);

    state.handle_mouse(MouseInput { kind: MouseKind::ScrollDown, column: 5, row: 5 }, &conn);
    assert_eq!(state.active_panel, Panel::Books);
    assert_eq!(state.selected_book_idx, 1);

    // Outside every panel nothing happens.
    state.handle_mouse(MouseInput { kind: MouseKind::LeftDown, column: 100, row: 100 }, &conn);
    assert_eq!(state.active_panel, Panel::Books);
}

#[test]
fn status_bar_text_and_flash_expiry() {
    let conn = test_db();
    let mut state = BrowserState::new(&conn, &SessionState::default());
    assert_eq!(
        state.status_text(false, "Slate"),
        " q: quit | t: theme | /: search | b: bookmark | r: random | v: version \u{2502} KJV \u{2502} Slate"
    );
    assert_eq!(state.status_text(true, "Slate"), " press q again to quit \u{2502} KJV \u{2502} Slate");

    state.show_flash("Bookmarked Genesis 1:1".to_string(), 1000);
    assert_eq!(state.status_text(false, "Slate"), " Bookmarked Genesis 1:1 \u{2502} KJV \u{2502} Slate");
    state.expire_flash(3000);
    assert!(state.status_flash.is_some());
    state.expire_flash(3001);
    assert!(state.status_flash.is_none());
}

#[test]
fn scripture_shows_selected_verse_or_whole_chapter() {
    let conn = test_db();
    let mut state = BrowserState::new(&conn, &SessionState::default());
    assert_eq!(state.scripture_range(), (0, 3));
    state.verse_list.select(Some(1));
    assert_eq!(state.scripture_range(), (1, 2));
    state.verse_list.select(Some(9));
    assert_eq!(state.scripture_range(), (0, 0));
    state.current_chapter = None;
    assert_eq!(state.scripture_range(), (0, 0));
}

#[test]
fn fetched_chapter_replaces_loading_state() {
    let conn = test_db();
    let mut state = BrowserState::new(&conn, &SessionState::default());
    state.loading = true;
    let verses = vec![Verse {
        book: "John".to_string(),
        book_num: 43,
        chapter: 3,
        verse: 16,
        text: "For God so loved the world".to_string(),
        translation: "NIV".to_string(),
    }];
    state.apply_fetch(42, 3, FetchResult::Ready(verses), 10);
    assert!(!state.loading);
    let ch = state.current_chapter.as_ref().unwrap();
    assert_eq!(ch.book, "John");
    assert_eq!(ch.chapter, 3);

    state.loading = true;
    state.apply_fetch(42, 3, FetchResult::Error("Fetch failed".to_string()), 20);
    assert!(!state.loading);
    match &state.status_flash {
        Some(StatusFlash { message, shown_at_ms }) => {
            assert_eq!(message, "Fetch failed");
            assert_eq!(*shown_at_ms, 20);
        }
        None => panic!("expected a status message"),
    }

    state.apply_fetch(42, 3, FetchResult::Ready(Vec::new()), 30);
    assert!(state.current_chapter.is_none());
}

#[test]
fn panel_titles_mark_the_active_panel() {
    assert_eq!(panel_title("Books", true), " [*] Books ");
    assert_eq!(panel_title("Verses", false), " [ ] Verses ");
}

#[test]
fn load_without_table_shows_error() {
    let conn = test_db();
    let mut state = BrowserState::new(&conn, &SessionState::default());
    state.translation = "ASV".to_string();
    state.load_chapter(&conn);
    assert!(state.current_chapter.is_none());
    assert!(state.verse_list.selected().is_none());
    assert_eq!(state.selected_verse, 0);
    assert_eq!(state.scripture_scroll, 0);
    let f = state.status_flash.as_ref().unwrap();
    assert_eq!(f.message, "Translation ASV is not in the offline database");
}

#[test]
fn load_with_table_keeps_status() {
    let conn = test_db();
    let mut state = BrowserState::new(&conn, &SessionState::default());
    state.load_chapter(&conn);
    assert!(state.current_chapter.is_some());
    assert!(state.status_flash.is_none());
}

#[test]
fn verses_panel_round_trips_through_session() {
    let conn = test_db();
    let mut state = BrowserState::new(&conn, &SessionState::default());
    state.active_panel = Panel::Verses;
    let saved = state.to_session(ThemeName::Slate);
    assert_eq!(saved.active_panel, 3);
    assert!(saved.highlights_visible);
    let restored = BrowserState::new(&conn, &saved);
    assert_eq!(restored.active_panel, Panel::Verses);
    assert_eq!(Panel::Scripture.index(), 2);
    assert_eq!(Panel::from_index(2), Panel::Scripture);
}

#[test]
fn flash_clears_after_two_seconds() {
    let conn = test_db();
    let mut state = BrowserState::new(&conn, &SessionState::default());
    state.show_flash("Bookmarked John 3:16".to_string(), 10_000);
    state.expire_flash(12_000);
    assert!(state.status_flash.is_some());
    state.expire_flash(12_500);
    assert!(state.status_flash.is_none());
}

#[test]
fn chapter_from_read_covers_each_outcome() {
    let (c, failed) = chapter_from_read(None, 0, 1);
    assert!(c.is_none() && failed);
    let (c, failed) = chapter_from_read(Some(Vec::new()), 0, 1);
    assert!(c.is_none() && !failed);
    let v = Verse {
        book: "John".to_string(),
        book_num: 43,
        chapter: 3,
        verse: 16,
        text: "For God so loved the world".to_string(),
        translation: "KJV".to_string(),
    };
    let (c, failed) = chapter_from_read(Some(vec![v]), 42, 3);
    assert!(!failed);
    let ch = c.unwrap();
    assert_eq!(ch.book, "John");
    assert_eq!(ch.chapter, 3);
    assert_eq!(ch.verses.len(), 1);
    assert_eq!(ch.verses[0].verse, 16);
}
