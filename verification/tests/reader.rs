use selah::bible::resolver::{FetchRequest, FetchResult, ResolveStep};
use selah::bible::types::Verse;
use selah::reader::apply_step;
use selah::reader::tick_interval_ms;
use rusqlite::Connection;
use selah::bible::db::build_fts;
use selah::config::providers::ProvidersConfig;
use selah::config::session::SessionState;
use selah::reader::{App, AppMode, Key};
use selah::ui::browser::{BrowserState, MouseInput, MouseKind, OverlayKind, Panel};
use selah::ui::layout::Rect;
use selah::ui::theme::ThemeName;

fn test_db() -> Connection {
    let conn = Connection::open_in_memory().unwrap();
    conn.execute_batch(
        "CREATE TABLE t_kjv (b INTEGER, c INTEGER, v INTEGER, t TEXT);
         INSERT INTO t_kjv VALUES (1, 1, 1, 'In the beginning God created the heaven and the earth.');
         INSERT INTO t_kjv VALUES (1, 1, 2, 'And the earth was without form, and void; and darkness was upon the face of the deep. And the Spirit of God moved upon the face of the waters.');
         INSERT INTO t_kjv VALUES (1, 1, 3, 'And God said, Let there be light: and there was light.');
         INSERT INTO t_kjv VALUES (43, 3, 16, 'For God so loved the world, that he gave his only begotten Son, that whosoever believeth in him should not perish, but have everlasting life.');",
    )
    .unwrap();
    build_fts(&conn, "kjv").unwrap();
    conn
}

fn reader() -> App {
    let (app, fetch) = App::from_parts(
        test_db(),
        SessionState::default(),
        Vec::new(),
        Vec::new(),
        Vec::new(),
        ProvidersConfig::default(),
        None,
        true,
        0,
    );
    assert!(fetch.is_none());
    app
}

fn browser(app: &App) -> &BrowserState {
    match &app.mode {
        AppMode::Browser(s) => s,
        AppMode::Banner(_) => panic!("expected the reader"),
    }
}

fn browser_mut(app: &mut App) -> &mut BrowserState {
    match &mut app.mode {
        AppMode::Browser(s) => s,
        AppMode::Banner(_) => panic!("expected the reader"),
    }
}

fn flash(app: &App) -> String {
    browser(app).status_flash.as_ref().map(|f| f.message.clone()).unwrap_or_default()
}

#[test]
fn splash_ends_on_key_and_opens_reader() {
    let (mut app, _) = App::from_parts(
        test_db(),
        SessionState::default(),
        Vec::new(),
        Vec::new(),
        Vec::new(),
        ProvidersConfig::default(),
        None,
        false,
        0,
    );
    assert!(matches!(app.mode, AppMode::Banner(_)));
    app.tick(0);
    assert!(matches!(app.mode, AppMode::Banner(_)));
    app.on_key(Key::Char('x'), false, 0);
    match &app.mode {
        AppMode::Banner(b) => assert!(b.done),
        AppMode::Browser(_) => panic!("the splash screen ends at the next tick"),
    }
    assert!(app.tick(0).is_none());
    let state = browser(&app);
    assert_eq!(state.selected_book_idx, 0);
    assert_eq!(state.current_chapter.as_ref().unwrap().verses.len(), 3);
}

#[test]
fn quit_dialog_confirms_and_cancels() {
    let mut app = reader();
    app.on_key(Key::Char('q'), false, 0);
    assert!(matches!(browser(&app).overlay, Some(OverlayKind::QuitConfirm)));
    app.on_key(Key::Char('n'), false, 0);
    assert!(browser(&app).overlay.is_none());
    assert!(!app.should_quit);

    app.on_key(Key::Char('q'), false, 0);
    app.on_key(Key::Char('x'), false, 0);
    assert!(matches!(browser(&app).overlay, Some(OverlayKind::QuitConfirm)));
    app.on_key(Key::Char('y'), false, 0);
    assert!(app.should_quit);
}

#[test]
fn ctrl_c_quits_at_once() {
    let mut app = reader();
    app.on_key(Key::Char('c'), true, 0);
    assert!(app.should_quit);
}

#[test]
fn theme_key_cycles_and_help_key_opens_menu() {
    let mut app = reader();
    app.on_key(Key::Char('t'), false, 0);
    assert_eq!(app.theme_name, ThemeName::Midnight);
    assert_eq!(app.session_to_save().theme, ThemeName::Midnight);

    app.on_key(Key::Char('?'), false, 0);
    let tab = |app: &App| match &browser(app).overlay {
        Some(OverlayKind::Help(h)) => (h.active_tab, h.scroll),
        _ => panic!("expected the help menu"),
    };
    assert_eq!(tab(&app), (0, 0));
    app.on_key(Key::Char('j'), false, 0);
    app.on_key(Key::Char('j'), false, 0);
    assert_eq!(tab(&app), (0, 2));
    app.on_key(Key::Char('k'), false, 0);
    assert_eq!(tab(&app), (0, 1));
    app.on_key(Key::Tab, false, 0);
    assert_eq!(tab(&app), (1, 0));
    app.on_key(Key::Char('h'), false, 0);
    app.on_key(Key::Char('h'), false, 0);
    assert_eq!(tab(&app), (3, 0));
    app.on_key(Key::Char('l'), false, 0);
    assert_eq!(tab(&app), (0, 0));

    // A click on a tab title switches to it once the tab bar was drawn.
    if let Some(OverlayKind::Help(h)) = &mut browser_mut(&mut app).overlay {
        h.place_tabs(Rect::new(10, 5, 60, 2));
    }
    app.on_mouse(MouseInput { kind: MouseKind::LeftDown, column: 42, row: 5 }, 0);
    assert_eq!(tab(&app), (2, 0));
    app.on_key(Key::Esc, false, 0);
    assert!(browser(&app).overlay.is_none());
}

#[test]
fn bookmark_key_adds_current_verse_once() {
    let mut app = reader();
    let e = app.on_key(Key::Char('b'), false, 0);
    assert!(e.save_bookmarks);
    assert_eq!(app.bookmarks.len(), 1);
    let b = &app.bookmarks[0];
    assert_eq!(b.book, "Genesis");
    assert_eq!((b.chapter, b.verse), (1, 1));
    assert_eq!(b.snippet.as_deref(), Some("In the beginning God created the heaven and the earth."));
    assert_eq!(flash(&app), "Bookmarked Genesis 1:1");

    let e = app.on_key(Key::Char('b'), false, 5);
    assert!(!e.save_bookmarks);
    assert_eq!(app.bookmarks.len(), 1);

    // The second verse's snippet is cut at 60 characters.
    app.on_key(Key::Char('l'), false, 0);
    app.on_key(Key::Char('l'), false, 0);
    app.on_key(Key::Char('j'), false, 0);
    app.on_key(Key::Char('j'), false, 0);
    assert_eq!(browser(&app).selected_verse, 2);
    app.on_key(Key::Char('b'), false, 0);
    assert_eq!(app.bookmarks.len(), 2);
    assert_eq!(
        app.bookmarks[1].snippet.as_deref(),
        Some("And the earth was without form, and void; and darkness was u")
    );
}

#[test]
fn bookmark_list_jumps_and_deletes() {
    let mut app = reader();
    browser_mut(&mut app).jump_to_verse(&test_db(), 43, 3, 16);
    app.on_key(Key::Char('b'), false, 0);
    browser_mut(&mut app).jump_to_verse(&test_db(), 1, 1, 0);
    app.on_key(Key::Char('B'), false, 0);
    match &browser(&app).overlay {
        Some(OverlayKind::Bookmarks(l)) => assert_eq!(l.list_state.selected(), Some(0)),
        _ => panic!("expected the bookmark list"),
    }
    app.on_key(Key::Enter, false, 0);
    let state = browser(&app);
    assert!(state.overlay.is_none());
    assert_eq!(state.selected_book_idx, 42);
    assert_eq!(state.selected_verse, 16);

    app.on_key(Key::Char('B'), false, 0);
    let e = app.on_key(Key::Char('d'), false, 0);
    assert!(e.save_bookmarks);
    assert!(app.bookmarks.is_empty());
    match &browser(&app).overlay {
        Some(OverlayKind::Bookmarks(l)) => assert_eq!(l.list_state.selected(), None),
        _ => panic!("the list stays open"),
    }
    app.on_key(Key::Esc, false, 0);
    assert!(browser(&app).overlay.is_none());
}

#[test]
fn highlight_keys_need_a_selected_verse() {
    let mut app = reader();
    let e = app.on_key(Key::Char('H'), false, 0);
    assert!(!e.save_highlights);
    assert!(app.highlights.is_empty());

    browser_mut(&mut app).jump_to_verse(&test_db(), 43, 3, 16);
    let e = app.on_key(Key::Char('H'), false, 0);
    assert!(e.save_highlights);
    assert_eq!(app.highlights.len(), 1);
    assert_eq!(flash(&app), "Highlighted John 3:16 (yellow)");
    assert_eq!(app.highlight_map.len(), 1);

    app.on_key(Key::Char('g'), false, 0);
    assert!(!app.highlights_visible);
    assert_eq!(flash(&app), "Highlights off");
    app.on_key(Key::Char('g'), false, 0);
    assert!(app.highlights_visible);
    assert_eq!(flash(&app), "Highlights on");

    app.on_key(Key::Char('G'), false, 0);
    let e = app.on_key(Key::Char('d'), false, 0);
    assert!(e.save_highlights);
    assert!(app.highlights.is_empty());
    assert_eq!(app.highlight_map.len(), 0);
}

#[test]
fn search_finds_and_jumps() {
    let mut app = reader();
    app.on_key(Key::Char('/'), false, 0);
    for c in "lo".chars() {
        app.on_key(Key::Char(c), false, 0);
    }
    match &browser(&app).overlay {
        Some(OverlayKind::Search(s)) => {
            assert_eq!(s.query, "lo");
            assert!(s.results.is_empty());
            assert_eq!(s.hint(), " Type 3+ characters to search");
        }
        _ => panic!("expected the search"),
    }
    for c in "ved".chars() {
        app.on_key(Key::Char(c), false, 0);
    }
    match &browser(&app).overlay {
        Some(OverlayKind::Search(s)) => {
            assert_eq!(s.query, "loved");
            assert_eq!(s.results.len(), 1);
            assert_eq!(s.list_state.selected(), Some(0));
        }
        _ => panic!("expected the search"),
    }
    app.on_key(Key::Backspace, false, 0);
    match &browser(&app).overlay {
        Some(OverlayKind::Search(s)) => {
            // Whole words match: "love" does not find "loved".
            assert_eq!(s.query, "love");
            assert!(s.results.is_empty());
            assert_eq!(s.list_state.selected(), None);
            assert_eq!(s.hint(), " No results");
        }
        _ => panic!("expected the search"),
    }
    // Enter without a selected hit keeps the search open.
    app.on_key(Key::Enter, false, 0);
    assert!(browser(&app).overlay.is_some());
    app.on_key(Key::Char('d'), false, 0);
    app.on_key(Key::Enter, false, 0);
    let state = browser(&app);
    assert!(state.overlay.is_none());
    assert_eq!(state.selected_book_idx, 42);
    assert_eq!(state.selected_chapter, 3);
    assert_eq!(state.selected_verse, 16);
    assert_eq!(state.active_panel, Panel::Scripture);
}

#[test]
fn picker_switches_to_translation_needing_the_cache() {
    let mut app = reader();
    app.on_key(Key::Char('v'), false, 0);
    match &browser(&app).overlay {
        Some(OverlayKind::Translation(p)) => assert_eq!(p.list_state.selected(), Some(0)),
        _ => panic!("expected the picker"),
    }
    app.on_key(Key::Char('j'), false, 0);
    let e = app.on_key(Key::Enter, false, 42);
    assert!(e.fetch.is_none());
    let state = browser(&app);
    assert_eq!(state.translation, "AMP");
    assert!(state.current_chapter.is_none());
    assert_eq!(flash(&app), "Cache not available");

    app.on_key(Key::Char('v'), false, 0);
    app.on_key(Key::Char('v'), false, 0);
    assert!(browser(&app).overlay.is_none());
}

#[test]
fn notes_are_written_and_deleted() {
    let mut app = reader();
    app.on_key(Key::Char('n'), false, 0);
    assert!(browser(&app).overlay.is_none());

    browser_mut(&mut app).jump_to_verse(&test_db(), 1, 1, 3);
    app.on_key(Key::Char('n'), false, 0);
    for c in "Light".chars() {
        app.on_key(Key::Char(c), false, 0);
    }
    let e = app.on_key(Key::Char('s'), true, 0);
    assert!(e.save_notes);
    assert!(browser(&app).overlay.is_none());
    assert_eq!(app.notes.len(), 1);
    assert_eq!(app.notes[0].text, "Light");
    assert_eq!((app.notes[0].chapter, app.notes[0].verse), (1, 3));

    // Editing an existing note starts from its text; a blank text deletes it.
    app.on_key(Key::Char('n'), false, 0);
    for _ in 0..5 {
        app.on_key(Key::Right, false, 0);
    }
    for _ in 0..5 {
        app.on_key(Key::Backspace, false, 0);
    }
    let e = app.on_key(Key::Char('s'), true, 0);
    assert!(e.save_notes);
    assert!(app.notes.is_empty());

    app.on_key(Key::Char('n'), false, 0);
    app.on_key(Key::Char('x'), false, 0);
    app.on_key(Key::Esc, false, 0);
    assert!(app.notes.is_empty());

    app.on_key(Key::Char('n'), false, 0);
    app.on_key(Key::Char('x'), false, 0);
    app.on_key(Key::Char('s'), true, 0);
    app.on_key(Key::Char('N'), false, 0);
    let e = app.on_key(Key::Char('d'), false, 0);
    assert!(e.save_notes);
    assert!(app.notes.is_empty());
}

#[test]
fn mouse_is_ignored_under_an_overlay() {
    let mut app = reader();
    {
        let state = browser_mut(&mut app);
        state.books_rect = Rect::new(0, 0, 20, 30);
    }
    app.on_key(Key::Char('q'), false, 0);
    app.on_mouse(MouseInput { kind: MouseKind::LeftDown, column: 2, row: 4 }, 0);
    assert_eq!(browser(&app).selected_book_idx, 0);
    app.on_key(Key::Esc, false, 0);
    app.on_mouse(MouseInput { kind: MouseKind::LeftDown, column: 2, row: 4 }, 0);
    assert_eq!(browser(&app).selected_book_idx, 3);
}

#[test]
fn random_key_jumps_somewhere_in_the_database() {
    let mut app = reader();
    app.on_key(Key::Char('r'), false, 7);
    let state = browser(&app);
    assert_eq!(state.active_panel, Panel::Scripture);
    assert!(flash(&app).starts_with("\u{2192} "));
    assert!(state.selected_verse >= 1);
}

#[test]
fn session_to_save_follows_the_reader() {
    let mut app = reader();
    browser_mut(&mut app).jump_to_verse(&test_db(), 43, 3, 16);
    let s = app.session_to_save();
    assert_eq!(s.book_index, 42);
    assert_eq!(s.chapter, 3);
    assert_eq!(s.active_panel, 2);
    assert_eq!(s.translation, "KJV");
}

#[test]
fn tick_interval_follows_the_mode() {
    let app = reader();
    assert_eq!(tick_interval_ms(&app.mode), 50);
    let (splash, _) = App::from_parts(
        test_db(),
        SessionState::default(),
        Vec::new(),
        Vec::new(),
        Vec::new(),
        ProvidersConfig::default(),
        None,
        false,
        0,
    );
    assert_eq!(tick_interval_ms(&splash.mode), 16);
}

#[test]
fn highlight_visibility_persists_in_session() {
    let session = SessionState { highlights_visible: false, ..SessionState::default() };
    let (mut app, _) = App::from_parts(
        test_db(),
        session,
        Vec::new(),
        Vec::new(),
        Vec::new(),
        ProvidersConfig::default(),
        None,
        true,
        0,
    );
    assert!(!app.highlights_visible);
    assert!(!app.session_to_save().highlights_visible);
    app.on_key(Key::Char('g'), false, 5);
    assert!(app.highlights_visible);
    assert!(app.session_to_save().highlights_visible);
}

#[test]
fn apply_step_follows_the_step() {
    let mut app = reader();
    let req = FetchRequest {
        api_key: "k".to_string(),
        version_id: 12,
        usfm: "GEN.1".to_string(),
        book_num: 1,
        chapter: 1,
        translation_upper: "ASV".to_string(),
        book_idx: 0,
    };
    let fetch = apply_step(browser_mut(&mut app), ResolveStep::Fetch(req), 5);
    assert_eq!(fetch.unwrap().version_id, 12);
    assert!(browser(&app).loading);
    assert!(browser(&app).current_chapter.is_none());

    let fetch = apply_step(
        browser_mut(&mut app),
        ResolveStep::Finished(FetchResult::Error("No API key configured".to_string())),
        9,
    );
    assert!(fetch.is_none());
    assert!(!browser(&app).loading);
    assert_eq!(flash(&app), "No API key configured");
    assert_eq!(browser(&app).status_flash.as_ref().unwrap().shown_at_ms, 9);
}

#[test]
fn drawn_verse_is_jumped_to() {
    let mut app = reader();
    let v = Verse {
        book: "John".to_string(),
        book_num: 43,
        chapter: 3,
        verse: 16,
        text: "For God so loved the world".to_string(),
        translation: "KJV".to_string(),
    };
    let mut state = match std::mem::replace(&mut app.mode, AppMode::Banner(selah::ui::banner::BannerState::new())) {
        AppMode::Browser(s) => s,
        AppMode::Banner(_) => panic!("expected the reader"),
    };
    let fetch = app.take_drawn(&mut state, Some(v), 7);
    assert!(fetch.is_none());
    assert_eq!(state.selected_book_idx, 42);
    assert_eq!(state.selected_chapter, 3);
    assert_eq!(state.selected_verse, 16);
    assert_eq!(state.active_panel, Panel::Scripture);
    assert_eq!(state.status_flash.as_ref().unwrap().message, "\u{2192} John 3:16");
    let before = state.selected_verse;
    let fetch = app.take_drawn(&mut state, None, 8);
    assert!(fetch.is_none());
    assert_eq!(state.selected_verse, before);
}
