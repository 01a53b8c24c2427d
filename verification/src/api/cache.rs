//! Local SQLite cache of chapters and translation lists fetched from the
//! YouVersion API. Entries older than 90 days count as missing and can be
//! evicted.
use vstd::prelude::*;
use vstd::string::*;

use rusqlite::Connection;

use crate::api::youversion::YvVersion;
use crate::bible::books::book_name;
use crate::bible::books::spec_book_name_of;
use crate::bible::db::execute_batch;
use crate::bible::types::Verse;
use crate::config::bookmarks::now_unix;

verus! {

/// How long a cached entry stays fresh, in seconds (90 days).
pub const CACHE_TTL_SECS: i64 = 7776000;

/// The statements that create the cache tables when they are missing.
pub const CACHE_TABLES_SQL: &'static str = "CREATE TABLE IF NOT EXISTS cached_verses (
        version_id INTEGER NOT NULL,
        book_num INTEGER NOT NULL,
        chapter INTEGER NOT NULL,
        verse INTEGER NOT NULL,
        text TEXT NOT NULL,
        translation TEXT NOT NULL,
        fetched_at INTEGER NOT NULL,
        PRIMARY KEY (version_id, book_num, chapter, verse)
    );
    CREATE TABLE IF NOT EXISTS cached_versions (
        version_id INTEGER PRIMARY KEY,
        abbreviation TEXT NOT NULL,
        title TEXT NOT NULL,
        language_tag TEXT NOT NULL,
        copyright TEXT,
        books_json TEXT NOT NULL,
        fetched_at INTEGER NOT NULL
    );";

/// A translation as the cache keeps it.
pub struct CachedVersion {
    pub version_id: u32,
    pub abbreviation: String,
    pub title: String,
    pub language_tag: String,
    pub copyright: Option<String>,
    pub books: Vec<String>,
}

/// The cache database.
pub struct CacheDb {
    conn: Connection,
}

/// One cached verse row: verse number, text, translation and fetch time.
pub type CachedVerseRow = (u32, String, String, i64);

/// One cached translation row: id, abbreviation, title, language tag,
/// copyright, book list as JSON and fetch time.
pub type CachedVersionRow = (u32, String, String, String, Option<String>, String, i64);

/// Opens a fresh database in memory.
///
/// Trusted: calls `Connection::open_in_memory`; nothing is claimed about
/// success.
#[verifier::external_body]
fn open_memory_connection() -> (r: Result<Connection, rusqlite::Error>) {
    Connection::open_in_memory()
}

/// Reads the cached verse rows that `sql` selects for one chapter.
///
/// Trusted: calls `Connection::prepare` and `Statement::query_map`; the rows
/// come from the database, so nothing is claimed about them.
#[verifier::external_body]
fn query_cached_verse_rows(
    conn: &Connection,
    sql: &str,
    key: (u32, u32, u32),
) -> (r: Result<Vec<Result<CachedVerseRow, rusqlite::Error>>, rusqlite::Error>) {
    let mut stmt = conn.prepare(sql)?;
    let rows = stmt.query_map(key, |row| {
        Ok((row.get(0)?, row.get(1)?, row.get(2)?, row.get(3)?))
    })?;
    Ok(rows.collect())
}

/// Reads every cached translation row that `sql` selects.
///
/// Trusted: calls `Connection::prepare` and `Statement::query_map`; the rows
/// come from the database, so nothing is claimed about them.
#[verifier::external_body]
fn query_cached_version_rows(conn: &Connection, sql: &str) -> (r: Result<
    Vec<Result<CachedVersionRow, rusqlite::Error>>,
    rusqlite::Error,
>) {
    let mut stmt = conn.prepare(sql)?;
    let rows = stmt.query_map([], |row| {
        Ok((row.get(0)?, row.get(1)?, row.get(2)?, row.get(3)?, row.get(4)?, row.get(5)?, row.get(6)?))
    })?;
    Ok(rows.collect())
}

/// Runs the verse insert `sql` with one verse's values.
///
/// Trusted: calls `Connection::execute`; its effect depends on the database,
/// so nothing is claimed about the result.
#[verifier::external_body]
fn execute_verse_insert(
    conn: &Connection,
    sql: &str,
    ids: (u32, u32, u32, u32),
    text: &str,
    translation: &str,
    fetched_at: i64,
) -> (r: Result<usize, rusqlite::Error>) {
    conn.execute(sql, (ids.0, ids.1, ids.2, ids.3, text, translation, fetched_at))
}

/// Runs the translation insert `sql` with one translation's values.
///
/// Trusted: calls `Connection::execute`; its effect depends on the database,
/// so nothing is claimed about the result.
#[verifier::external_body]
fn execute_version_insert(
    conn: &Connection,
    sql: &str,
    version_id: u32,
    texts: (&str, &str, &str),
    copyright: &Option<String>,
    books_json: &str,
    fetched_at: i64,
) -> (r: Result<usize, rusqlite::Error>) {
    conn.execute(sql, (version_id, texts.0, texts.1, texts.2, copyright, books_json, fetched_at))
}

/// Runs `sql` with one integer parameter.
///
/// Trusted: calls `Connection::execute`; its effect depends on the database,
/// so nothing is claimed about the result.
#[verifier::external_body]
fn execute_with_i64(conn: &Connection, sql: &str, param: i64) -> (r: Result<usize, rusqlite::Error>) {
    conn.execute(sql, (param,))
}

/// What `serde_json::from_str::<Vec<String>>` gives for `text`: the list,
/// or nothing when the text is not a JSON array of strings.
pub uninterp spec fn json_string_list(text: Seq<char>) -> Option<Seq<Seq<char>>>;

/// What `serde_json::to_string` writes for a list of strings, or nothing
/// when it fails.
pub uninterp spec fn json_of_string_list(items: Seq<Seq<char>>) -> Option<Seq<char>>;

/// Views of a list of strings.
pub open spec fn strings_view(v: Seq<String>) -> Seq<Seq<char>> {
    v.map_values(|s: String| s@)
}

/// Parses a JSON array of strings.
///
/// Trusted: calls `serde_json::from_str::<Vec<String>>`; its outcome, the
/// list or a failure, is named by `json_string_list`, a function of the
/// text alone.
#[verifier::external_body]
fn parse_string_list(text: &str) -> (r: Option<Vec<String>>)
    ensures
        match r {
            Some(v) => json_string_list(text@) == Some(strings_view(v@)),
            None => json_string_list(text@) is None,
        },
{
    serde_json::from_str::<Vec<String>>(text).ok()
}

/// Writes a list of strings as a JSON array.
///
/// Trusted: calls `serde_json::to_string`; its outcome, the text or a
/// failure, is named by `json_of_string_list`, a function of the list
/// alone.
#[verifier::external_body]
fn string_list_to_json(items: &Vec<String>) -> (r: Option<String>)
    ensures
        match r {
            Some(s) => json_of_string_list(strings_view(items@)) == Some(s@),
            None => json_of_string_list(strings_view(items@)) is None,
        },
{
    serde_json::to_string(items).ok()
}

/// The key a cached chapter is stored under: translation id, book number
/// and chapter, in the order the queries bind them.
pub fn chapter_key(version_id: u32, book_num: u32, chapter: u32) -> (k: (u32, u32, u32))
    ensures
        k == (version_id, book_num, chapter),
{
    (version_id, book_num, chapter)
}

/// The key a cached verse `v` of a chapter is stored under: translation id,
/// book number, chapter and verse number.
pub fn verse_key(version_id: u32, book_num: u32, chapter: u32, v: &Verse) -> (k: (u32, u32, u32, u32))
    ensures
        k == (version_id, book_num, chapter, v.verse),
{
    (version_id, book_num, chapter, v.verse)
}

/// The book list of a translation as the cache stores it: the JSON array
/// of its books, or empty text when it cannot be written.
pub fn books_json(books: &Vec<String>) -> (s: String)
    ensures
        match json_of_string_list(strings_view(books@)) {
            Some(j) => s@ == j,
            None => s@ == Seq::<char>::empty(),
        },
{
    match string_list_to_json(books) {
        Some(s) => s,
        None => String::new(),
    }
}

/// Whether an entry fetched at `fetched_at` is still fresh at time `now`.
pub open spec fn spec_is_fresh_at(now: int, fetched_at: int) -> bool {
    now - fetched_at < CACHE_TTL_SECS
}

/// Whether an entry fetched at `fetched_at` is still fresh at time `now`:
/// less than 90 days old.
pub fn is_fresh_at(now: i64, fetched_at: i64) -> (r: bool)
    ensures
        r == spec_is_fresh_at(now as int, fetched_at as int),
{
    (now as i128) - (fetched_at as i128) < (CACHE_TTL_SECS as i128)
}

/// The current time as the cache stamps entries: the clock's seconds, held
/// to the largest `i64`.
fn cache_now() -> (t: i64)
    ensures
        t >= 0,
{
    let now = now_unix();
    if now <= 9223372036854775807u64 {
        now as i64
    } else {
        9223372036854775807i64
    }
}

/// View of a cached verse row.
pub open spec fn cached_row_view(r: CachedVerseRow) -> (u32, Seq<char>, Seq<char>, i64) {
    (r.0, r.1@, r.2@, r.3)
}

/// The rows that were read without error, in order.
pub open spec fn ok_cached_rows(rows: Seq<Result<CachedVerseRow, rusqlite::Error>>) -> Seq<
    (u32, Seq<char>, Seq<char>, i64),
>
    decreases rows.len(),
{
    if rows.len() == 0 {
        Seq::empty()
    } else {
        let rest = ok_cached_rows(rows.drop_last());
        match rows.last() {
            Ok(r) => rest.push(cached_row_view(r)),
            Err(_) => rest,
        }
    }
}

/// The cached chapter that the rows `rows` give at time `now`: missing when
/// no row was read or the first one is stale.
pub open spec fn spec_cached_chapter(rows: Seq<(u32, Seq<char>, Seq<char>, i64)>, now: int) -> Option<
    Seq<(u32, Seq<char>, Seq<char>, i64)>,
> {
    if rows.len() == 0 || !spec_is_fresh_at(now, rows[0].3 as int) {
        None
    } else {
        Some(rows)
    }
}

/// A verse rebuilt from a cached row of chapter `chapter` of book `book_num`.
pub open spec fn verse_matches_cached(
    v: Verse,
    row: (u32, Seq<char>, Seq<char>, i64),
    book_num: u32,
    chapter: u32,
) -> bool {
    &&& v.book@ == spec_book_name_of(book_num as int)
    &&& v.book_num == book_num
    &&& v.chapter == chapter
    &&& v.verse == row.0
    &&& v.text@ == row.1
    &&& v.translation@ == row.2
}

/// `r` is what the rows `rows`, read for chapter `chapter` of book
/// `book_num`, give at time `now`: nothing when no row was read without
/// error or the first such row is stale, otherwise every such row as a verse.
pub open spec fn chapter_read(
    r: Option<Vec<Verse>>,
    rows: Seq<Result<CachedVerseRow, rusqlite::Error>>,
    book_num: u32,
    chapter: u32,
    now: int,
) -> bool {
    match spec_cached_chapter(ok_cached_rows(rows), now) {
        None => r is None,
        Some(good) => r matches Some(v) && v.len() == good.len() && forall|i: int|
            0 <= i < v.len() ==> verse_matches_cached(#[trigger] v@[i], good[i], book_num, chapter),
    }
}

/// Rebuilds a cached chapter from the rows read at time `now`: `None` when
/// no row was read or the first row is stale, otherwise every row as a verse.
pub fn chapter_from_cached_rows(
    rows: Vec<Result<CachedVerseRow, rusqlite::Error>>,
    book_num: u32,
    chapter: u32,
    now: i64,
) -> (r: Option<Vec<Verse>>)
    ensures
        match spec_cached_chapter(ok_cached_rows(rows@), now as int) {
            None => r is None,
            Some(good) => r matches Some(v) && v.len() == good.len() && forall|i: int|
                0 <= i < v.len() ==> verse_matches_cached(#[trigger] v@[i], good[i], book_num, chapter),
        },
{
    let ghost all = rows@;
    let mut rows = rows;
    let mut out: Vec<Verse> = Vec::new();
    let mut first_fetched: Option<i64> = None;
    let ghost mut k: int = 0;
    while rows.len() > 0
        invariant
            0 <= k <= all.len(),
            rows@ == all.subrange(k, all.len() as int),
            out.len() == ok_cached_rows(all.subrange(0, k)).len(),
            first_fetched is None <==> out.len() == 0,
            first_fetched matches Some(f) ==> f == ok_cached_rows(all.subrange(0, k))[0].3,
            forall|i: int|
                0 <= i < out.len() ==> verse_matches_cached(
                    #[trigger] out@[i],
                    ok_cached_rows(all.subrange(0, k))[i],
                    book_num,
                    chapter,
                ),
        decreases rows.len(),
    {
        let r = rows.remove(0);
        proof {
            assert(r == all[k]);
            assert(all.subrange(0, k + 1).drop_last() =~= all.subrange(0, k));
            assert(all.subrange(0, k + 1).last() == all[k]);
            assert(rows@ =~= all.subrange(k + 1, all.len() as int));
        }
        match r {
            Ok(row) => {
                let (verse, text, translation, fetched_at) = row;
                if first_fetched.is_none() {
                    first_fetched = Some(fetched_at);
                }
                out.push(
                    Verse {
                        book: String::from_str(book_name(book_num)),
                        book_num,
                        chapter,
                        verse,
                        text,
                        translation,
                    },
                );
            },
            Err(_) => {},
        }
        proof {
            k = k + 1;
        }
    }
    assert(all.subrange(0, all.len() as int) =~= all);
    match first_fetched {
        None => None,
        Some(f) => {
            if is_fresh_at(now, f) {
                Some(out)
            } else {
                None
            }
        },
    }
}

/// View of a cached translation row.
pub open spec fn version_row_fresh(r: CachedVersionRow, now: int) -> bool {
    spec_is_fresh_at(now, r.6 as int)
}

/// A cached translation rebuilt from its row: the book list is the parsed
/// JSON, or empty when it does not parse.
pub open spec fn version_matches_row(v: CachedVersion, r: CachedVersionRow) -> bool {
    &&& v.version_id == r.0
    &&& v.abbreviation@ == r.1@
    &&& v.title@ == r.2@
    &&& v.language_tag@ == r.3@
    &&& v.copyright == r.4
    &&& strings_view(v.books@) == match json_string_list(r.5@) {
        Some(l) => l,
        None => Seq::empty(),
    }
}

/// The fresh rows among those read without error, in order.
pub open spec fn fresh_version_rows(rows: Seq<Result<CachedVersionRow, rusqlite::Error>>, now: int) -> Seq<
    CachedVersionRow,
>
    decreases rows.len(),
{
    if rows.len() == 0 {
        Seq::empty()
    } else {
        let rest = fresh_version_rows(rows.drop_last(), now);
        match rows.last() {
            Ok(r) => if version_row_fresh(r, now) {
                rest.push(r)
            } else {
                rest
            },
            Err(_) => rest,
        }
    }
}

/// `v` is the list of cached translations that the rows `rows` give at
/// time `now`: one for each fresh row read without error, in order.
pub open spec fn versions_read(v: Seq<CachedVersion>, rows: Seq<Result<CachedVersionRow, rusqlite::Error>>, now: int) -> bool {
    &&& v.len() == fresh_version_rows(rows, now).len()
    &&& forall|i: int| 0 <= i < v.len() ==> version_matches_row(#[trigger] v[i], fresh_version_rows(rows, now)[i])
}

/// The cached translations that the rows `rows` give at time `now`: the
/// fresh rows, in order.
pub fn versions_from_rows(rows: Vec<Result<CachedVersionRow, rusqlite::Error>>, now: i64) -> (v: Vec<
    CachedVersion,
>)
    ensures
        v.len() == fresh_version_rows(rows@, now as int).len(),
        forall|i: int|
            0 <= i < v.len() ==> version_matches_row(
                #[trigger] v@[i],
                fresh_version_rows(rows@, now as int)[i],
            ),
{
    let ghost all = rows@;
    let mut rows = rows;
    let mut out: Vec<CachedVersion> = Vec::new();
    let ghost mut k: int = 0;
    while rows.len() > 0
        invariant
            0 <= k <= all.len(),
            rows@ == all.subrange(k, all.len() as int),
            out.len() == fresh_version_rows(all.subrange(0, k), now as int).len(),
            forall|i: int|
                0 <= i < out.len() ==> version_matches_row(
                    #[trigger] out@[i],
                    fresh_version_rows(all.subrange(0, k), now as int)[i],
                ),
        decreases rows.len(),
    {
        let r = rows.remove(0);
        proof {
            assert(r == all[k]);
            assert(all.subrange(0, k + 1).drop_last() =~= all.subrange(0, k));
            assert(all.subrange(0, k + 1).last() == all[k]);
            assert(rows@ =~= all.subrange(k + 1, all.len() as int));
        }
        match r {
            Ok(row) => {
                let ghost rv = row;
                let (version_id, abbreviation, title, language_tag, copyright, books_json, fetched_at) =
                    row;
                if is_fresh_at(now, fetched_at) {
                    let books = match parse_string_list(books_json.as_str()) {
                        Some(b) => b,
                        None => {
                            let empty: Vec<String> = Vec::new();
                            assert(strings_view(empty@) =~= Seq::<Seq<char>>::empty());
                            empty
                        },
                    };
                    out.push(
                        CachedVersion {
                            version_id,
                            abbreviation,
                            title,
                            language_tag,
                            copyright,
                            books,
                        },
                    );
                }
            },
            Err(_) => {},
        }
        proof {
            k = k + 1;
        }
    }
    assert(all.subrange(0, all.len() as int) =~= all);
    out
}

impl CacheDb {
    /// The statements that create the cache tables: `CACHE_TABLES_SQL`.
    pub fn tables_sql() -> (s: &'static str)
        ensures
            s@ == CACHE_TABLES_SQL@,
    {
        CACHE_TABLES_SQL
    }

    /// Creates the cache tables in `conn` when they are missing.
    pub fn init_tables(conn: &Connection) -> (r: Result<(), rusqlite::Error>) {
        execute_batch(conn, Self::tables_sql())
    }

    /// The database a cache works on.
    pub closed spec fn connection(&self) -> Connection {
        self.conn
    }

    /// A cache over the open database `conn`, with its tables created.
    pub fn from_connection(conn: Connection) -> (r: Result<Self, rusqlite::Error>)
        ensures
            r matches Ok(c) ==> c.connection() == conn,
    {
        match Self::init_tables(&conn) {
            Ok(()) => Ok(CacheDb { conn }),
            Err(e) => Err(e),
        }
    }

    /// A cache held in memory.
    pub fn open_in_memory() -> (r: Result<Self, rusqlite::Error>) {
        match open_memory_connection() {
            Ok(conn) => Self::from_connection(conn),
            Err(e) => Err(e),
        }
    }

    /// The underlying database.
    pub fn conn(&self) -> (r: &Connection)
        ensures
            *r == self.connection(),
    {
        &self.conn
    }

    /// The cached verses of one chapter of translation `version_id`, in verse
    /// order, or `None` when nothing is cached or the entry is stale.
    ///
    /// The rows come from the database and freshness from the clock; the
    /// verses are rebuilt as `chapter_from_cached_rows` says.
    pub fn get_chapter(&self, version_id: u32, book_num: u32, chapter: u32) -> (r: Option<Vec<Verse>>)
        ensures
            exists|rows: Seq<Result<CachedVerseRow, rusqlite::Error>>, now: int|
                #[trigger] chapter_read(r, rows, book_num, chapter, now),
            r matches Some(v) ==> v.len() > 0 && forall|i: int|
                0 <= i < v.len() ==> (#[trigger] v@[i]).book_num == book_num && v@[i].chapter
                    == chapter && v@[i].book@ == spec_book_name_of(book_num as int),
    {
        let sql = "SELECT verse, text, translation, fetched_at FROM cached_verses
             WHERE version_id = ?1 AND book_num = ?2 AND chapter = ?3
             ORDER BY verse";
        match query_cached_verse_rows(&self.conn, sql, chapter_key(version_id, book_num, chapter)) {
            Ok(rows) => {
                let now = cache_now();
                let r = chapter_from_cached_rows(rows, book_num, chapter, now);
                assert(chapter_read(r, rows@, book_num, chapter, now as int));
                proof {
                    if r is Some {
                        let v = r->0;
                        let good = spec_cached_chapter(ok_cached_rows(rows@), now as int)->0;
                        assert forall|i: int| 0 <= i < v.len() implies (#[trigger] v@[i]).book_num == book_num && v@[i].chapter
                            == chapter && v@[i].book@ == spec_book_name_of(book_num as int) by {
                            assert(verse_matches_cached(v@[i], good[i], book_num, chapter));
                        }
                    }
                }
                r
            },
            Err(_) => {
                let ghost none: Seq<Result<CachedVerseRow, rusqlite::Error>> = Seq::empty();
                assert(ok_cached_rows(none) =~= Seq::empty());
                assert(chapter_read(None, none, book_num, chapter, 0));
                None
            },
        }
    }

    /// Stores the verses of one chapter, stamped with time `now`, replacing
    /// what was cached for the same verses.
    pub fn store_chapter_at(&self, version_id: u32, book_num: u32, chapter: u32, verses: &[Verse], now: i64) {
        let sql = "INSERT OR REPLACE INTO cached_verses
                 (version_id, book_num, chapter, verse, text, translation, fetched_at)
                 VALUES (?1, ?2, ?3, ?4, ?5, ?6, ?7)";
        let mut i: usize = 0;
        while i < verses.len()
            invariant
                i <= verses.len(),
            decreases verses.len() - i,
        {
            let v = &verses[i];
            let _ = execute_verse_insert(
                &self.conn,
                sql,
                verse_key(version_id, book_num, chapter, v),
                v.text.as_str(),
                v.translation.as_str(),
                now,
            );
            i = i + 1;
        }
    }

    /// Stores the verses of one chapter, stamped with the current time.
    pub fn store_chapter(&self, version_id: u32, book_num: u32, chapter: u32, verses: &[Verse]) {
        let now = cache_now();
        self.store_chapter_at(version_id, book_num, chapter, verses, now);
    }

    /// The cached translations that are still fresh.
    ///
    /// The rows come from the database and freshness from the clock; the
    /// list is rebuilt as `versions_from_rows` says.
    pub fn get_versions(&self) -> (r: Vec<CachedVersion>)
        ensures
            exists|rows: Seq<Result<CachedVersionRow, rusqlite::Error>>, now: int|
                #[trigger] versions_read(r@, rows, now),
    {
        let sql = "SELECT version_id, abbreviation, title, language_tag, copyright, books_json, fetched_at
             FROM cached_versions";
        match query_cached_version_rows(&self.conn, sql) {
            Ok(rows) => {
                let now = cache_now();
                let r = versions_from_rows(rows, now);
                assert(versions_read(r@, rows@, now as int));
                r
            },
            Err(_) => {
                let r: Vec<CachedVersion> = Vec::new();
                let ghost none: Seq<Result<CachedVersionRow, rusqlite::Error>> = Seq::empty();
                assert(versions_read(r@, none, 0));
                r
            },
        }
    }

    /// Stores the translations `versions`, stamped with time `now`, replacing
    /// what was cached for the same ids.
    pub fn store_versions_at(&self, versions: &[YvVersion], now: i64) {
        let sql = "INSERT OR REPLACE INTO cached_versions
                 (version_id, abbreviation, title, language_tag, copyright, books_json, fetched_at)
                 VALUES (?1, ?2, ?3, ?4, ?5, ?6, ?7)";
        let mut i: usize = 0;
        while i < versions.len()
            invariant
                i <= versions.len(),
            decreases versions.len() - i,
        {
            let v = &versions[i];
            let books_json = books_json(&v.books);
            let _ = execute_version_insert(
                &self.conn,
                sql,
                v.id,
                (v.abbreviation.as_str(), v.localized_title.as_str(), v.language_tag.as_str()),
                &v.copyright,
                books_json.as_str(),
                now,
            );
            i = i + 1;
        }
    }

    /// Stores the translations `versions`, stamped with the current time.
    pub fn store_versions(&self, versions: &[YvVersion]) {
        let now = cache_now();
        self.store_versions_at(versions, now);
    }

    /// Whether an entry fetched at `fetched_at` is still fresh now.
    pub fn is_fresh(fetched_at: i64) -> (r: bool)
        ensures
            exists|now: i64| r == spec_is_fresh_at(now as int, fetched_at as int),
    {
        let now = cache_now();
        is_fresh_at(now, fetched_at)
    }

    /// The oldest fetch time that is still fresh at time `now`.
    pub fn eviction_cutoff(now: i64) -> (c: i64)
        ensures
            now >= i64::MIN + CACHE_TTL_SECS ==> c == now - CACHE_TTL_SECS,
            now < i64::MIN + CACHE_TTL_SECS ==> c == i64::MIN,
    {
        if now >= i64::MIN + CACHE_TTL_SECS {
            now - CACHE_TTL_SECS
        } else {
            i64::MIN
        }
    }

    /// Deletes every entry fetched before `eviction_cutoff(now)`.
    pub fn evict_expired_at(&self, now: i64) {
        let cutoff = Self::eviction_cutoff(now);
        let _ = execute_with_i64(&self.conn, "DELETE FROM cached_verses WHERE fetched_at < ?1", cutoff);
        let _ = execute_with_i64(&self.conn, "DELETE FROM cached_versions WHERE fetched_at < ?1", cutoff);
    }

    /// Deletes every entry that is no longer fresh.
    pub fn evict_expired(&self) {
        let now = cache_now();
        self.evict_expired_at(now);
    }
}

/// Eviction only removes stale entries: an entry older than the cutoff is
/// not fresh, so every fresh entry survives eviction at the same moment.
pub proof fn lemma_eviction_keeps_fresh(now: i64, fetched_at: i64)
    requires
        now >= i64::MIN + CACHE_TTL_SECS,
    ensures
        fetched_at < CacheDb::spec_cutoff(now) ==> !spec_is_fresh_at(now as int, fetched_at as int),
        spec_is_fresh_at(now as int, fetched_at as int) ==> fetched_at >= CacheDb::spec_cutoff(now),
{
}

impl CacheDb {
    /// The cutoff `eviction_cutoff` computes, when it does not saturate.
    pub open spec fn spec_cutoff(now: i64) -> int {
        now - CACHE_TTL_SECS
    }
}

} // verus!
