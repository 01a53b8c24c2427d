use selah::config::bookmarks::{add, remove, BookmarkEntry};
use selah::config::highlights::{build_map, toggle, toggle_at, HighlightColor, HighlightEntry};
use selah::config::notes::{find, remove as remove_note, upsert, upsert_at, NoteEntry};
use selah::config::providers::{apply_env_key, ProviderConfig, ProviderKind, ProvidersConfig};
use selah::config::session::SessionState;
use selah::ui::theme::ThemeName;

fn entry(book: &str, chapter: u32, verse: u32) -> BookmarkEntry {
    BookmarkEntry {
        book: book.to_string(),
        chapter,
        verse,
        snippet: Some("test snippet".to_string()),
        note: None,
        created_at: 0,
    }
}

#[test]
fn add_deduplicates() {
    let mut bookmarks = vec![];
    add(&mut bookmarks, entry("John", 3, 16));
    add(&mut bookmarks, entry("John", 3, 16));
    assert_eq!(bookmarks.len(), 1);
}

#[test]
fn add_different_verses_keeps_both() {
    let mut bookmarks = vec![];
    add(&mut bookmarks, entry("John", 3, 16));
    add(&mut bookmarks, entry("John", 3, 17));
    assert_eq!(bookmarks.len(), 2);
}

#[test]
fn remove_by_index() {
    let mut bookmarks = vec![entry("John", 3, 16), entry("Romans", 8, 28)];
    remove(&mut bookmarks, 0);
    assert_eq!(bookmarks.len(), 1);
    assert_eq!(bookmarks[0].book, "Romans");
}

#[test]
fn add_reports_change_and_remove_ignores_bad_index() {
    let mut bookmarks = vec![];
    assert!(add(&mut bookmarks, entry("John", 3, 16)));
    assert!(!add(&mut bookmarks, entry("John", 3, 16)));
    assert!(!remove(&mut bookmarks, 5));
    assert_eq!(bookmarks.len(), 1);
    assert!(remove(&mut bookmarks, 0));
    assert!(bookmarks.is_empty());
}

#[test]
fn color_next_cycles_through_all() {
    assert_eq!(HighlightColor::Yellow.next(), Some(HighlightColor::Green));
    assert_eq!(HighlightColor::Green.next(), Some(HighlightColor::Blue));
    assert_eq!(HighlightColor::Blue.next(), Some(HighlightColor::Pink));
    assert_eq!(HighlightColor::Pink.next(), Some(HighlightColor::Orange));
    assert_eq!(HighlightColor::Orange.next(), None);
}

#[test]
fn color_labels() {
    assert_eq!(HighlightColor::Yellow.label(), "yellow");
    assert_eq!(HighlightColor::Orange.label(), "orange");
}

#[test]
fn toggle_adds_yellow_when_no_highlight() {
    let mut highlights = vec![];
    let result = toggle(&mut highlights, "John", 3, 16);
    assert_eq!(result, Some(HighlightColor::Yellow));
    assert_eq!(highlights.len(), 1);
    assert_eq!(highlights[0].color, HighlightColor::Yellow);
}

#[test]
fn toggle_advances_color() {
    let mut highlights = vec![HighlightEntry {
        book: "John".to_string(),
        chapter: 3,
        verse: 16,
        color: HighlightColor::Yellow,
        created_at: 0,
    }];
    let result = toggle(&mut highlights, "John", 3, 16);
    assert_eq!(result, Some(HighlightColor::Green));
    assert_eq!(highlights.len(), 1);
}

#[test]
fn toggle_removes_on_orange() {
    let mut highlights = vec![HighlightEntry {
        book: "John".to_string(),
        chapter: 3,
        verse: 16,
        color: HighlightColor::Orange,
        created_at: 0,
    }];
    let result = toggle(&mut highlights, "John", 3, 16);
    assert_eq!(result, None);
    assert!(highlights.is_empty());
}

#[test]
fn toggle_six_times_returns_to_start() {
    let mut highlights = vec![HighlightEntry {
        book: "Romans".to_string(),
        chapter: 8,
        verse: 28,
        color: HighlightColor::Blue,
        created_at: 7,
    }];
    let expected = [
        Some(HighlightColor::Yellow),
        Some(HighlightColor::Green),
        Some(HighlightColor::Blue),
        Some(HighlightColor::Pink),
        Some(HighlightColor::Orange),
        None,
    ];
    for (i, want) in expected.iter().enumerate() {
        assert_eq!(toggle_at(&mut highlights, "John", 3, 16, 100 + i as u64), *want);
    }
    assert_eq!(highlights.len(), 1);
    assert_eq!(highlights[0].book, "Romans");
    assert_eq!(highlights[0].color, HighlightColor::Blue);
}

#[test]
fn toggle_stamps_new_highlights() {
    let mut highlights = vec![];
    toggle_at(&mut highlights, "John", 3, 16, 4242);
    assert_eq!(highlights[0].created_at, 4242);
    toggle_at(&mut highlights, "John", 3, 16, 9999);
    assert_eq!(highlights[0].created_at, 4242);
}

#[test]
fn build_map_creates_correct_hashmap() {
    let highlights = vec![
        HighlightEntry {
            book: "John".to_string(),
            chapter: 3,
            verse: 16,
            color: HighlightColor::Yellow,
            created_at: 0,
        },
        HighlightEntry {
            book: "Romans".to_string(),
            chapter: 8,
            verse: 28,
            color: HighlightColor::Blue,
            created_at: 0,
        },
    ];
    let map = build_map(&highlights);
    assert_eq!(map.len(), 2);
    assert_eq!(
        map.get(&("John".to_string(), 3, 16)),
        Some(&HighlightColor::Yellow)
    );
    assert_eq!(
        map.get(&("Romans".to_string(), 8, 28)),
        Some(&HighlightColor::Blue)
    );
}

#[test]
fn build_map_later_entry_wins() {
    let highlights = vec![
        HighlightEntry { book: "John".to_string(), chapter: 3, verse: 16, color: HighlightColor::Yellow, created_at: 0 },
        HighlightEntry { book: "John".to_string(), chapter: 3, verse: 16, color: HighlightColor::Pink, created_at: 0 },
    ];
    let map = build_map(&highlights);
    assert_eq!(map.len(), 1);
    assert_eq!(map.color_of("John", 3, 16), Some(HighlightColor::Pink));
    assert_eq!(map.color_of("John", 3, 17), None);
}

fn note(book: &str, chapter: u32, verse: u32, text: &str) -> NoteEntry {
    NoteEntry {
        book: book.to_string(),
        chapter,
        verse,
        text: text.to_string(),
        created_at: 0,
        updated_at: 0,
    }
}

#[test]
fn upsert_creates_new() {
    let mut notes = vec![];
    upsert(&mut notes, "John", 3, 16, "My note");
    assert_eq!(notes.len(), 1);
    assert_eq!(notes[0].text, "My note");
}

#[test]
fn upsert_updates_existing() {
    let mut notes = vec![note("John", 3, 16, "Old note")];
    upsert(&mut notes, "John", 3, 16, "New note");
    assert_eq!(notes.len(), 1);
    assert_eq!(notes[0].text, "New note");
}

#[test]
fn upsert_keeps_creation_time() {
    let mut notes = vec![];
    upsert_at(&mut notes, "John", 3, 16, "a", 10);
    upsert_at(&mut notes, "John", 3, 16, "b", 20);
    assert_eq!(notes[0].created_at, 10);
    assert_eq!(notes[0].updated_at, 20);
    assert_eq!(find(&notes, "John", 3, 16).unwrap().text, "b");
}

#[test]
fn remove_deletes_by_verse() {
    let mut notes = vec![note("John", 3, 16, "Note 1"), note("Romans", 8, 28, "Note 2")];
    remove_note(&mut notes, "John", 3, 16);
    assert_eq!(notes.len(), 1);
    assert_eq!(notes[0].book, "Romans");
}

#[test]
fn find_returns_matching_note() {
    let notes = vec![note("John", 3, 16, "Found it")];
    let result = find(&notes, "John", 3, 16);
    assert!(result.is_some());
    assert_eq!(result.unwrap().text, "Found it");
}

#[test]
fn find_returns_none_when_missing() {
    let notes = vec![note("John", 3, 16, "Found it")];
    let result = find(&notes, "Romans", 8, 28);
    assert!(result.is_none());
}

#[test]
fn empty_config_has_no_providers() {
    let config = ProvidersConfig::default();
    assert!(config.providers.is_empty());
}

#[test]
fn active_provider_returns_enabled() {
    let config = ProvidersConfig {
        providers: vec![ProviderConfig {
            kind: ProviderKind::YouVersion,
            app_key: "key".to_string(),
            enabled: true,
        }],
    };
    assert!(config.active_provider(ProviderKind::YouVersion).is_some());
}

#[test]
fn active_provider_skips_disabled() {
    let config = ProvidersConfig {
        providers: vec![ProviderConfig {
            kind: ProviderKind::YouVersion,
            app_key: "key".to_string(),
            enabled: false,
        }],
    };
    assert!(config.active_provider(ProviderKind::YouVersion).is_none());
}

#[test]
fn youversion_key_returns_key() {
    let config = ProvidersConfig {
        providers: vec![ProviderConfig {
            kind: ProviderKind::YouVersion,
            app_key: "my-secret-key".to_string(),
            enabled: true,
        }],
    };
    assert_eq!(config.youversion_key(), Some("my-secret-key"));
}

#[test]
fn env_var_fallback_creates_provider() {
    let mut config = ProvidersConfig::default();
    assert!(!config.has_youversion());

    config.providers.push(ProviderConfig {
        kind: ProviderKind::YouVersion,
        app_key: "env-key-456".to_string(),
        enabled: true,
    });
    assert!(config.has_youversion());
    assert_eq!(config.youversion_key(), Some("env-key-456"));
}

#[test]
fn env_key_is_added_only_when_missing() {
    let mut config = ProvidersConfig::default();
    assert!(!apply_env_key(&mut config, Some(String::new())));
    assert!(!apply_env_key(&mut config, None));
    assert!(apply_env_key(&mut config, Some("env-key".to_string())));
    assert_eq!(config.youversion_key(), Some("env-key"));
    assert!(!apply_env_key(&mut config, Some("other".to_string())));
    assert_eq!(config.providers.len(), 1);
    assert_eq!(ProviderKind::YouVersion.label(), "YouVersion Platform");
}

#[test]
fn disabled_provider_blocks_env_key() {
    let mut config = ProvidersConfig {
        providers: vec![ProviderConfig { kind: ProviderKind::YouVersion, app_key: "k".to_string(), enabled: false }],
    };
    assert!(!apply_env_key(&mut config, Some("env".to_string())));
    assert!(!config.has_youversion());
}

#[test]
fn default_session_starts_at_genesis() {
    let s = SessionState::default();
    assert_eq!(s.book_index, 0);
    assert_eq!(s.chapter, 1);
    assert_eq!(s.scroll_position, 0);
    assert_eq!(s.active_panel, 0);
    assert_eq!(s.theme, ThemeName::Slate);
    assert_eq!(s.translation, "KJV");
}
