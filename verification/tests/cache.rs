use selah::bible::resolver::resolve_listed;
use selah::api::cache::{books_json, chapter_key, verse_key, CacheDb};
use selah::api::youversion::YvVersion;
use selah::bible::books::book_name;
use selah::bible::resolver::{ChapterResolver, plan_fetch, ResolveStep, FetchResult};
use selah::bible::types::Verse;
use selah::config::bookmarks::now_unix;

fn now() -> i64 {
    now_unix() as i64
}

fn make_verses(book_num: u32, chapter: u32, count: u32) -> Vec<Verse> {
    (1..=count)
        .map(|v| Verse {
            book: book_name(book_num).to_string(),
            book_num,
            chapter,
            verse: v,
            text: format!("Verse {v} text"),
            translation: "TEST".to_string(),
        })
        .collect()
}

#[test]
fn test_store_and_retrieve_chapter() {
    let cache = CacheDb::open_in_memory().unwrap();
    let verses = make_verses(1, 1, 3);
    cache.store_chapter(1, 1, 1, &verses);

    let result = cache.get_chapter(1, 1, 1).expect("should return cached chapter");
    assert_eq!(result.len(), 3);
    assert_eq!(result[0].verse, 1);
    assert_eq!(result[0].text, "Verse 1 text");
    assert_eq!(result[0].book, "Genesis");
    assert_eq!(result[2].verse, 3);
}

#[test]
fn test_expired_chapter_returns_none() {
    let cache = CacheDb::open_in_memory().unwrap();
    let old_ts = now() - (91 * 24 * 60 * 60);
    cache.conn().execute(
        "INSERT INTO cached_verses (version_id, book_num, chapter, verse, text, translation, fetched_at)
         VALUES (?1, ?2, ?3, ?4, ?5, ?6, ?7)",
        (1, 1, 1, 1, "Old verse", "TEST", old_ts),
    ).unwrap();

    assert!(cache.get_chapter(1, 1, 1).is_none());
}

#[test]
fn test_store_and_retrieve_versions() {
    let cache = CacheDb::open_in_memory().unwrap();
    let versions = vec![
        YvVersion {
            id: 1,
            abbreviation: "KJV".to_string(),
            localized_title: "King James Version".to_string(),
            language_tag: "en".to_string(),
            copyright: Some("Public Domain".to_string()),
            books: vec!["GEN".to_string(), "EXO".to_string()],
        },
    ];
    cache.store_versions(&versions);

    let result = cache.get_versions();
    assert_eq!(result.len(), 1);
    assert_eq!(result[0].version_id, 1);
    assert_eq!(result[0].abbreviation, "KJV");
    assert_eq!(result[0].title, "King James Version");
    assert_eq!(result[0].language_tag, "en");
    assert_eq!(result[0].copyright, Some("Public Domain".to_string()));
    assert_eq!(result[0].books, vec!["GEN", "EXO"]);
}

#[test]
fn test_evict_expired() {
    let cache = CacheDb::open_in_memory().unwrap();
    let old_ts = now() - (91 * 24 * 60 * 60);

    cache.conn().execute(
        "INSERT INTO cached_verses (version_id, book_num, chapter, verse, text, translation, fetched_at)
         VALUES (?1, ?2, ?3, ?4, ?5, ?6, ?7)",
        (1, 1, 1, 1, "Old verse", "TEST", old_ts),
    ).unwrap();

    let fresh = make_verses(1, 2, 1);
    cache.store_chapter(1, 1, 2, &fresh);

    cache.conn().execute(
        "INSERT INTO cached_versions (version_id, abbreviation, title, language_tag, copyright, books_json, fetched_at)
         VALUES (?1, ?2, ?3, ?4, ?5, ?6, ?7)",
        (99, "OLD", "Old Version", "en", None::<String>, "[]", old_ts),
    ).unwrap();

    cache.store_versions(&[YvVersion {
        id: 100,
        abbreviation: "NEW".to_string(),
        localized_title: "New Version".to_string(),
        language_tag: "en".to_string(),
        copyright: None,
        books: vec![],
    }]);

    cache.evict_expired();

    let verse_count: i64 = cache.conn().query_row(
        "SELECT COUNT(*) FROM cached_verses WHERE version_id = 1 AND chapter = 1",
        [], |row| row.get(0),
    ).unwrap();
    assert_eq!(verse_count, 0);

    let fresh_count: i64 = cache.conn().query_row(
        "SELECT COUNT(*) FROM cached_verses WHERE version_id = 1 AND chapter = 2",
        [], |row| row.get(0),
    ).unwrap();
    assert_eq!(fresh_count, 1);

    let version_count: i64 = cache.conn().query_row(
        "SELECT COUNT(*) FROM cached_versions WHERE version_id = 99",
        [], |row| row.get(0),
    ).unwrap();
    assert_eq!(version_count, 0);

    let fresh_version_count: i64 = cache.conn().query_row(
        "SELECT COUNT(*) FROM cached_versions WHERE version_id = 100",
        [], |row| row.get(0),
    ).unwrap();
    assert_eq!(fresh_version_count, 1);
}

#[test]
fn test_is_fresh() {
    let fresh_ts = now() - (89 * 24 * 60 * 60);
    assert!(CacheDb::is_fresh(fresh_ts));

    let stale_ts = now() - (91 * 24 * 60 * 60);
    assert!(!CacheDb::is_fresh(stale_ts));
}

#[test]
fn freshness_boundary_and_cutoff() {
    assert!(selah::api::cache::is_fresh_at(1_000_000_000, 1_000_000_000 - 7_775_999));
    assert!(!selah::api::cache::is_fresh_at(1_000_000_000, 1_000_000_000 - 7_776_000));
    assert_eq!(CacheDb::eviction_cutoff(10_000_000), 10_000_000 - 7_776_000);
    assert_eq!(CacheDb::eviction_cutoff(i64::MIN), i64::MIN);
}

#[test]
fn stale_versions_are_hidden() {
    let cache = CacheDb::open_in_memory().unwrap();
    cache.store_versions_at(&[YvVersion {
        id: 5,
        abbreviation: "ASV".to_string(),
        localized_title: "American Standard Version".to_string(),
        language_tag: "en".to_string(),
        copyright: None,
        books: vec!["GEN".to_string()],
    }], now() - 100 * 24 * 60 * 60);
    assert!(cache.get_versions().is_empty());
}

#[test]
fn poll_no_pending_returns_none() {
    let mut resolver = ChapterResolver::new();
    assert!(resolver.poll().is_none());
}

#[test]
fn is_loading_initially_false() {
    let resolver = ChapterResolver::new();
    assert!(!resolver.is_loading());
}

#[test]
fn poll_reports_finished_fetch() {
    let mut resolver = ChapterResolver::new();
    let (tx, rx) = std::sync::mpsc::channel();
    resolver.start_fetch(rx, 42, 3);
    assert!(resolver.is_loading());
    assert!(resolver.poll().is_none());
    assert!(resolver.is_loading());
    tx.send(Ok(make_verses(43, 3, 2))).unwrap();
    match resolver.poll() {
        Some((42, 3, FetchResult::Ready(v))) => assert_eq!(v.len(), 2),
        _ => panic!("expected the fetched chapter"),
    }
    assert!(!resolver.is_loading());
}

#[test]
fn poll_reports_vanished_fetch() {
    let mut resolver = ChapterResolver::new();
    let (tx, rx) = std::sync::mpsc::channel::<Result<Vec<Verse>, String>>();
    resolver.start_fetch(rx, 7, 9);
    drop(tx);
    match resolver.poll() {
        Some((0, 0, FetchResult::Error(m))) => assert_eq!(m, "Fetch failed"),
        _ => panic!("expected a failure"),
    }
    assert!(!resolver.is_loading());
}

#[test]
fn plan_fetch_needs_a_key() {
    match plan_fetch(3034, None, None, "asv", 43, 3) {
        ResolveStep::Finished(FetchResult::Error(m)) => assert_eq!(m, "No API key configured"),
        _ => panic!("expected an error"),
    }
    match plan_fetch(3034, None, Some("k"), "asv", 43, 3) {
        ResolveStep::Fetch(req) => {
            assert_eq!(req.usfm, "JHN.3");
            assert_eq!(req.translation_upper, "ASV");
            assert_eq!(req.book_idx, 42);
            assert_eq!(req.api_key, "k");
        }
        _ => panic!("expected a fetch"),
    }
}

#[test]
fn tables_sql_creates_both_tables() {
    let sql = CacheDb::tables_sql();
    assert!(sql.contains("CREATE TABLE IF NOT EXISTS cached_verses"));
    assert!(sql.contains("CREATE TABLE IF NOT EXISTS cached_versions"));
    let conn = rusqlite::Connection::open_in_memory().unwrap();
    CacheDb::init_tables(&conn).unwrap();
    let cache = CacheDb::from_connection(conn).unwrap();
    let tables: i64 = cache
        .conn()
        .query_row(
            "SELECT COUNT(*) FROM sqlite_master WHERE type = 'table' AND name LIKE 'cached_%'",
            [],
            |row| row.get(0),
        )
        .unwrap();
    assert_eq!(tables, 2);
}

#[test]
fn resolve_listed_names_a_missing_translation() {
    match resolve_listed(None, None, Some("k"), "asv", 43, 3) {
        ResolveStep::Finished(FetchResult::Error(m)) => {
            assert_eq!(m, "Translation 'asv' not found \u{2014} sync versions first")
        }
        _ => panic!("expected the not-found error"),
    }
    match resolve_listed(Some(12), None, None, "asv", 43, 3) {
        ResolveStep::Finished(FetchResult::Error(m)) => assert_eq!(m, "No API key configured"),
        _ => panic!("expected the missing-key error"),
    }
    let cached = make_verses(43, 3, 2);
    match resolve_listed(Some(12), Some(cached), None, "asv", 43, 3) {
        ResolveStep::Finished(FetchResult::Ready(v)) => assert_eq!(v.len(), 2),
        _ => panic!("expected the cached chapter"),
    }
    match resolve_listed(Some(12), None, Some("k"), "asv", 43, 3) {
        ResolveStep::Fetch(req) => {
            assert_eq!(req.version_id, 12);
            assert_eq!(req.usfm, "JHN.3");
            assert_eq!(req.translation_upper, "ASV");
        }
        _ => panic!("expected a fetch"),
    }
}

#[test]
fn cache_keys_and_book_lists() {
    let v = make_verses(43, 3, 2);
    assert_eq!(chapter_key(7, 43, 3), (7, 43, 3));
    assert_eq!(verse_key(7, 43, 3, &v[1]), (7, 43, 3, 2));
    let books = vec!["GEN".to_string(), "EXO".to_string()];
    assert_eq!(books_json(&books), "[\"GEN\",\"EXO\"]");
}
