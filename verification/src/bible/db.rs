//! Queries on the bundled Bible database: one table `t_<code>` per
//! translation with columns book `b`, chapter `c`, verse `v` and text `t`,
//! and an FTS5 index `t_<code>_fts` over the text.
use vstd::prelude::*;
use vstd::string::*;

use rusqlite::Connection;

use crate::bible::books::book_name;
use crate::bible::books::spec_book_name_of;
use crate::bible::types::SearchResult;
use crate::bible::types::Verse;
use crate::text::extend_str;
use crate::text::lowercase_of;
use crate::text::push_decimal;
use crate::text::string_from_chars;
use crate::text::to_lowercase;
use crate::text::to_uppercase;
use crate::text::uppercase_of;

verus! {

/// An open SQLite database.
#[verifier::external_type_specification]
#[verifier::external_body]
pub struct ExConnection(Connection);

/// An error reported by SQLite.
#[verifier::external_type_specification]
#[verifier::external_body]
pub struct ExSqliteError(rusqlite::Error);

/// One verse row: book number, chapter, verse and text.
pub type VerseRow = (u32, u32, u32, String);

/// Runs a batch of SQL statements.
///
/// Trusted: calls `Connection::execute_batch`; what it does depends on the
/// database, so nothing is claimed about the result.
#[verifier::external_body]
pub(crate) fn execute_batch(conn: &Connection, sql: &str) -> (r: Result<(), rusqlite::Error>) {
    conn.execute_batch(sql)
}

/// Prepares `sql` and runs it with the numeric parameters `params`, reading
/// every row as a verse row.
///
/// Trusted: calls `Connection::prepare` and `Statement::query_map`; the rows
/// come from the database, so nothing is claimed about them.
#[verifier::external_body]
pub(crate) fn query_verse_rows(conn: &Connection, sql: &str, params: &[u32]) -> (r: Result<
    Vec<Result<VerseRow, rusqlite::Error>>,
    rusqlite::Error,
>) {
    let mut stmt = conn.prepare(sql)?;
    let rows = stmt.query_map(rusqlite::params_from_iter(params.iter()), |row| {
        Ok((row.get(0)?, row.get(1)?, row.get(2)?, row.get(3)?))
    })?;
    Ok(rows.collect())
}

/// Prepares `sql` and runs it with the text parameter `param`, reading every
/// row as a verse row.
///
/// Trusted: calls `Connection::prepare` and `Statement::query_map`; the rows
/// come from the database, so nothing is claimed about them.
#[verifier::external_body]
pub(crate) fn query_verse_rows_text(conn: &Connection, sql: &str, param: &str) -> (r: Result<
    Vec<Result<VerseRow, rusqlite::Error>>,
    rusqlite::Error,
>) {
    let mut stmt = conn.prepare(sql)?;
    let rows = stmt.query_map([param], |row| {
        Ok((row.get(0)?, row.get(1)?, row.get(2)?, row.get(3)?))
    })?;
    Ok(rows.collect())
}

/// Prepares `sql` and reads the first row it returns for the numeric
/// parameters `params` as a verse row.
///
/// Trusted: calls `Connection::prepare` and `Statement::query_row`; the row
/// comes from the database, so nothing is claimed about it.
#[verifier::external_body]
pub(crate) fn query_first_verse_row(conn: &Connection, sql: &str, params: &[u32]) -> (r: Result<
    VerseRow,
    rusqlite::Error,
>) {
    let mut stmt = conn.prepare(sql)?;
    stmt.query_row(rusqlite::params_from_iter(params.iter()), |row| {
        Ok((row.get(0)?, row.get(1)?, row.get(2)?, row.get(3)?))
    })
}

/// Name of the table that holds translation `translation`.
pub open spec fn spec_verse_table(translation: Seq<char>) -> Seq<char> {
    "t_"@ + lowercase_of(translation)
}

/// Name of the table that holds translation `translation`: `t_` and the
/// code in lower case.
pub fn verse_table(translation: &str) -> (t: String)
    ensures
        t@ == spec_verse_table(translation@),
{
    let lower = to_lowercase(translation);
    let mut out: Vec<char> = Vec::new();
    extend_str(&mut out, "t_");
    extend_str(&mut out, lower.as_str());
    string_from_chars(out.as_slice())
}

/// The statements that create and fill the full-text index of a translation.
pub open spec fn spec_fts_sql(table: Seq<char>) -> Seq<char> {
    let fts = table + "_fts"@;
    "CREATE VIRTUAL TABLE IF NOT EXISTS "@ + fts + " USING fts5(t, content='"@ + table
        + "', content_rowid='rowid');INSERT INTO "@ + fts + "("@ + fts + ") VALUES('rebuild');"@
}

/// The statements that create and fill the full-text index of the table `table`.
pub fn fts_sql(table: &str) -> (s: String)
    ensures
        s@ == spec_fts_sql(table@),
{
    let mut out: Vec<char> = Vec::new();
    extend_str(&mut out, "CREATE VIRTUAL TABLE IF NOT EXISTS ");
    extend_str(&mut out, table);
    extend_str(&mut out, "_fts");
    extend_str(&mut out, " USING fts5(t, content='");
    extend_str(&mut out, table);
    extend_str(&mut out, "', content_rowid='rowid');INSERT INTO ");
    extend_str(&mut out, table);
    extend_str(&mut out, "_fts");
    extend_str(&mut out, "(");
    extend_str(&mut out, table);
    extend_str(&mut out, "_fts");
    extend_str(&mut out, ") VALUES('rebuild');");
    proof {
        let t = table@;
        assert(out@ =~= spec_fts_sql(t));
    }
    string_from_chars(out.as_slice())
}

/// Builds the full-text index of translation `translation`.
pub fn build_fts(conn: &Connection, translation: &str) -> (r: Result<(), rusqlite::Error>) {
    let table = verse_table(translation);
    let sql = fts_sql(table.as_str());
    execute_batch(conn, sql.as_str())
}

/// Query for the verses of one chapter, in verse order.
pub open spec fn spec_chapter_sql(table: Seq<char>) -> Seq<char> {
    "SELECT b, c, v, t FROM "@ + table + " WHERE b = ?1 AND c = ?2 ORDER BY v"@
}

/// Query for one verse.
pub open spec fn spec_verse_sql(table: Seq<char>) -> Seq<char> {
    "SELECT b, c, v, t FROM "@ + table + " WHERE b = ?1 AND c = ?2 AND v = ?3"@
}

/// Query for one verse chosen at random.
pub open spec fn spec_random_sql(table: Seq<char>) -> Seq<char> {
    "SELECT b, c, v, t FROM "@ + table + " ORDER BY RANDOM() LIMIT 1"@
}

/// Full-text query, best matches first, at most 50.
pub open spec fn spec_search_sql(table: Seq<char>) -> Seq<char> {
    let fts = table + "_fts"@;
    "SELECT "@ + table + ".b, "@ + table + ".c, "@ + table + ".v, "@ + table + ".t FROM "@ + fts
        + " JOIN "@ + table + " ON "@ + table + ".rowid = "@ + fts + ".rowid WHERE "@ + fts
        + " MATCH ?1 ORDER BY "@ + fts + ".rank LIMIT 50"@
}

fn sql_around(head: &str, table: &str, tail: &str) -> (s: String)
    ensures
        s@ == head@ + table@ + tail@,
{
    let mut out: Vec<char> = Vec::new();
    extend_str(&mut out, head);
    extend_str(&mut out, table);
    extend_str(&mut out, tail);
    string_from_chars(out.as_slice())
}

/// Query for the verses of one chapter of `table`.
pub fn chapter_sql(table: &str) -> (s: String)
    ensures
        s@ == spec_chapter_sql(table@),
{
    sql_around("SELECT b, c, v, t FROM ", table, " WHERE b = ?1 AND c = ?2 ORDER BY v")
}

/// Query for one verse of `table`.
pub fn verse_sql(table: &str) -> (s: String)
    ensures
        s@ == spec_verse_sql(table@),
{
    sql_around("SELECT b, c, v, t FROM ", table, " WHERE b = ?1 AND c = ?2 AND v = ?3")
}

/// Query for a random verse of `table`.
pub fn random_sql(table: &str) -> (s: String)
    ensures
        s@ == spec_random_sql(table@),
{
    sql_around("SELECT b, c, v, t FROM ", table, " ORDER BY RANDOM() LIMIT 1")
}

/// Full-text query on `table`.
pub fn search_sql(table: &str) -> (s: String)
    ensures
        s@ == spec_search_sql(table@),
{
    let mut out: Vec<char> = Vec::new();
    extend_str(&mut out, "SELECT ");
    extend_str(&mut out, table);
    extend_str(&mut out, ".b, ");
    extend_str(&mut out, table);
    extend_str(&mut out, ".c, ");
    extend_str(&mut out, table);
    extend_str(&mut out, ".v, ");
    extend_str(&mut out, table);
    extend_str(&mut out, ".t FROM ");
    extend_str(&mut out, table);
    extend_str(&mut out, "_fts");
    extend_str(&mut out, " JOIN ");
    extend_str(&mut out, table);
    extend_str(&mut out, " ON ");
    extend_str(&mut out, table);
    extend_str(&mut out, ".rowid = ");
    extend_str(&mut out, table);
    extend_str(&mut out, "_fts");
    extend_str(&mut out, ".rowid WHERE ");
    extend_str(&mut out, table);
    extend_str(&mut out, "_fts");
    extend_str(&mut out, " MATCH ?1 ORDER BY ");
    extend_str(&mut out, table);
    extend_str(&mut out, "_fts");
    extend_str(&mut out, ".rank LIMIT 50");
    proof {
        assert(out@ =~= spec_search_sql(table@));
    }
    string_from_chars(out.as_slice())
}

/// The verse that row `row` of translation `translation` describes.
pub open spec fn verse_matches_row(
    v: Verse,
    row: (u32, u32, u32, Seq<char>),
    translation: Seq<char>,
) -> bool {
    &&& v.book@ == spec_book_name_of(row.0 as int)
    &&& v.book_num == row.0
    &&& v.chapter == row.1
    &&& v.verse == row.2
    &&& v.text@ == row.3
    &&& v.translation@ == uppercase_of(translation)
}

/// View of a verse row.
pub open spec fn row_view(r: VerseRow) -> (u32, u32, u32, Seq<char>) {
    (r.0, r.1, r.2, r.3@)
}

/// The rows that were read without error, in order.
pub open spec fn ok_rows(rows: Seq<Result<VerseRow, rusqlite::Error>>) -> Seq<(u32, u32, u32, Seq<char>)>
    decreases rows.len(),
{
    if rows.len() == 0 {
        Seq::empty()
    } else {
        let rest = ok_rows(rows.drop_last());
        match rows.last() {
            Ok(r) => rest.push(row_view(r)),
            Err(_) => rest,
        }
    }
}

/// The verse that a row describes, for translation `translation`
/// (translation code in upper case, book name from the book number).
pub fn verse_from_row(row: VerseRow, translation: &str) -> (v: Verse)
    ensures
        verse_matches_row(v, row_view(row), translation@),
{
    let (b, c, vn, t) = row;
    Verse {
        book: String::from_str(book_name(b)),
        book_num: b,
        chapter: c,
        verse: vn,
        text: t,
        translation: to_uppercase(translation),
    }
}

/// The verses of the rows that were read without error, in order.
pub fn verses_from_rows(rows: Vec<Result<VerseRow, rusqlite::Error>>, translation: &str) -> (v: Vec<
    Verse,
>)
    ensures
        v.len() == ok_rows(rows@).len(),
        forall|i: int|
            0 <= i < v.len() ==> verse_matches_row(#[trigger] v@[i], ok_rows(rows@)[i], translation@),
{
    let ghost all = rows@;
    let mut out: Vec<Verse> = Vec::new();
    let mut rows = rows;
    let ghost mut k: int = 0;
    while rows.len() > 0
        invariant
            0 <= k <= all.len(),
            rows@ == all.subrange(k, all.len() as int),
            out.len() == ok_rows(all.subrange(0, k)).len(),
            forall|i: int|
                0 <= i < out.len() ==> verse_matches_row(
                    #[trigger] out@[i],
                    ok_rows(all.subrange(0, k))[i],
                    translation@,
                ),
        decreases rows.len(),
    {
        let r = rows.remove(0);
        proof {
            assert(r == all[k]);
            assert(all.subrange(0, k + 1).drop_last() =~= all.subrange(0, k));
            assert(all.subrange(0, k + 1).last() == all[k]);
            assert(rows@ =~= all.subrange(k + 1, all.len() as int));
        }
        match r {
            Ok(row) => {
                out.push(verse_from_row(row, translation));
            },
            Err(_) => {},
        }
        proof {
            k = k + 1;
        }
    }
    assert(all.subrange(0, all.len() as int) =~= all);
    out
}

/// The parameters of the chapter query: the book number, then the chapter.
pub fn chapter_params(book_num: u32, chapter: u32) -> (p: [u32; 2])
    ensures
        p@ == seq![book_num, chapter],
{
    let p = [book_num, chapter];
    assert(p@ =~= seq![book_num, chapter]);
    p
}

/// The parameters of the verse query: the book number, the chapter, then
/// the verse.
pub fn verse_params(book_num: u32, chapter: u32, verse: u32) -> (p: [u32; 3])
    ensures
        p@ == seq![book_num, chapter, verse],
{
    let p = [book_num, chapter, verse];
    assert(p@ =~= seq![book_num, chapter, verse]);
    p
}

/// `v` are the verses of the rows `rows` that were read without error, in
/// order, for translation `translation`.
pub open spec fn verses_read(v: Seq<Verse>, rows: Seq<Result<VerseRow, rusqlite::Error>>, translation: Seq<char>) -> bool {
    &&& v.len() == ok_rows(rows).len()
    &&& forall|i: int| 0 <= i < v.len() ==> verse_matches_row(#[trigger] v[i], ok_rows(rows)[i], translation)
}

/// The verses of one chapter of translation `translation`, in verse order,
/// or `None` when the query cannot run (for instance when the translation
/// has no table).
///
/// What rows come back depends on the database; every verse returned is one
/// the query read, described as `verses_from_rows` says.
pub fn read_chapter_verses(conn: &Connection, translation: &str, book_num: u32, chapter: u32) -> (r: Option<
    Vec<Verse>,
>)
    ensures
        r matches Some(v) ==> exists|rows: Seq<Result<VerseRow, rusqlite::Error>>|
            #[trigger] verses_read(v@, rows, translation@),
{
    let table = verse_table(translation);
    let sql = chapter_sql(table.as_str());
    let params = chapter_params(book_num, chapter);
    match query_verse_rows(conn, sql.as_str(), &params) {
        Ok(rows) => {
            let ghost rs = rows@;
            let v = verses_from_rows(rows, translation);
            assert(verses_read(v@, rs, translation@));
            let r = Some(v);
            assert(r matches Some(w) && verses_read(w@, rs, translation@));
            r
        },
        Err(_) => None,
    }
}

/// The verses of one chapter of translation `translation`, in verse order.
///
/// What rows come back depends on the database; every verse returned is one
/// the query read, described as `verses_from_rows` says. When the query
/// cannot run (for instance when the translation has no table) the result
/// is empty.
pub fn get_chapter(conn: &Connection, translation: &str, book_num: u32, chapter: u32) -> (v: Vec<
    Verse,
>)
    ensures
        exists|rows: Seq<Result<VerseRow, rusqlite::Error>>| #[trigger] verses_read(v@, rows, translation@),
        forall|i: int|
            0 <= i < v.len() ==> (#[trigger] v@[i]).translation@ == uppercase_of(translation@)
                && v@[i].book@ == spec_book_name_of(v@[i].book_num as int),
{
    match read_chapter_verses(conn, translation, book_num, chapter) {
        Some(v) => {
            proof {
                let rows = choose|rows: Seq<Result<VerseRow, rusqlite::Error>>| #[trigger] verses_read(v@, rows, translation@);
                assert forall|i: int| 0 <= i < v.len() implies (#[trigger] v@[i]).translation@ == uppercase_of(translation@)
                    && v@[i].book@ == spec_book_name_of(v@[i].book_num as int) by {
                    assert(verse_matches_row(v@[i], ok_rows(rows)[i], translation@));
                }
            }
            v
        },
        None => {
            let v: Vec<Verse> = Vec::new();
            let ghost none: Seq<Result<VerseRow, rusqlite::Error>> = Seq::empty();
            assert(ok_rows(none) =~= Seq::empty());
            assert(verses_read(v@, none, translation@));
            v
        },
    }
}

/// One verse of translation `translation`, if the database has it.
pub fn get_verse(conn: &Connection, translation: &str, book_num: u32, chapter: u32, verse: u32) -> (r:
    Option<Verse>)
    ensures
        r matches Some(v) ==> v.translation@ == uppercase_of(translation@) && v.book@
            == spec_book_name_of(v.book_num as int),
{
    let table = verse_table(translation);
    let sql = verse_sql(table.as_str());
    let params = verse_params(book_num, chapter, verse);
    match query_first_verse_row(conn, sql.as_str(), &params) {
        Ok(row) => Some(verse_from_row(row, translation)),
        Err(_) => None,
    }
}

/// The search hit that a row describes.
pub fn search_result_from_row(row: VerseRow) -> (s: SearchResult)
    ensures
        s.book@ == spec_book_name_of(row.0 as int),
        s.book_num == row.0,
        s.chapter == row.1,
        s.verse == row.2,
        s.text@ == row.3@,
{
    let (b, c, vn, t) = row;
    SearchResult {
        book: String::from_str(book_name(b)),
        book_num: b,
        chapter: c,
        verse: vn,
        text: t,
    }
}

/// The search hit that row `row` describes.
pub open spec fn hit_matches_row(h: SearchResult, row: (u32, u32, u32, Seq<char>)) -> bool {
    &&& h.book@ == spec_book_name_of(row.0 as int)
    &&& h.book_num == row.0
    &&& h.chapter == row.1
    &&& h.verse == row.2
    &&& h.text@ == row.3
}

/// `hits` are the rows `rows` that were read without error, each as a
/// search hit, in order.
pub open spec fn hits_read(hits: Seq<SearchResult>, rows: Seq<Result<VerseRow, rusqlite::Error>>) -> bool {
    &&& hits.len() == ok_rows(rows).len()
    &&& forall|i: int| 0 <= i < hits.len() ==> hit_matches_row(#[trigger] hits[i], ok_rows(rows)[i])
}

/// The search hits of the rows that were read without error, in order.
pub fn hits_from_rows(rows: Vec<Result<VerseRow, rusqlite::Error>>) -> (hits: Vec<SearchResult>)
    ensures
        hits_read(hits@, rows@),
{
    let ghost all = rows@;
    let mut rows = rows;
    let mut hits: Vec<SearchResult> = Vec::new();
    let ghost mut k: int = 0;
    while rows.len() > 0
        invariant
            0 <= k <= all.len(),
            rows@ == all.subrange(k, all.len() as int),
            hits_read(hits@, all.subrange(0, k)),
        decreases rows.len(),
    {
        let r = rows.remove(0);
        proof {
            assert(r == all[k]);
            assert(all.subrange(0, k + 1).drop_last() =~= all.subrange(0, k));
            assert(all.subrange(0, k + 1).last() == all[k]);
            assert(rows@ =~= all.subrange(k + 1, all.len() as int));
        }
        match r {
            Ok(row) => {
                let h = search_result_from_row(row);
                hits.push(h);
            },
            Err(_) => {},
        }
        proof {
            k = k + 1;
            let ok = ok_rows(all.subrange(0, k));
            assert forall|i: int| 0 <= i < hits.len() implies hit_matches_row(#[trigger] hits@[i], ok[i]) by {}
        }
    }
    assert(all.subrange(0, all.len() as int) =~= all);
    hits
}

/// Full-text search of translation `translation`, best matches first, at
/// most 50. Queries shorter than three bytes give no results. For longer
/// ones the hits are the rows the index query read without error, in the
/// order it gave them (none when the query cannot run).
pub fn search(conn: &Connection, query: &str, translation: &str) -> (r: Vec<SearchResult>)
    ensures
        query.spec_bytes().len() < 3 ==> r.len() == 0,
        query.spec_bytes().len() >= 3 ==> exists|rows: Seq<Result<VerseRow, rusqlite::Error>>|
            #[trigger] hits_read(r@, rows),
        forall|i: int|
            0 <= i < r.len() ==> (#[trigger] r@[i]).book@ == spec_book_name_of(r@[i].book_num as int),
{
    if query.len() < 3 {
        let hits: Vec<SearchResult> = Vec::new();
        let ghost none: Seq<Result<VerseRow, rusqlite::Error>> = Seq::empty();
        assert(ok_rows(none) =~= Seq::empty());
        assert(hits_read(hits@, none));
        return hits;
    }
    let table = verse_table(translation);
    let sql = search_sql(table.as_str());
    match query_verse_rows_text(conn, sql.as_str(), query) {
        Ok(rows) => {
            let ghost rs = rows@;
            let hits = hits_from_rows(rows);
            proof {
                assert(hits_read(hits@, rs));
                assert forall|i: int| 0 <= i < hits.len() implies (#[trigger] hits@[i]).book@ == spec_book_name_of(
                    hits@[i].book_num as int,
                ) by {
                    assert(hit_matches_row(hits@[i], ok_rows(rs)[i]));
                }
            }
            hits
        },
        Err(_) => {
            let hits: Vec<SearchResult> = Vec::new();
            let ghost none: Seq<Result<VerseRow, rusqlite::Error>> = Seq::empty();
            assert(ok_rows(none) =~= Seq::empty());
            assert(hits_read(hits@, none));
            hits
        },
    }
}

/// A verse of translation `translation` chosen at random by the database.
pub fn get_random_verse(conn: &Connection, translation: &str) -> (r: Option<Verse>)
    ensures
        r matches Some(v) ==> v.translation@ == uppercase_of(translation@) && v.book@
            == spec_book_name_of(v.book_num as int),
{
    let table = verse_table(translation);
    let sql = random_sql(table.as_str());
    let params: [u32; 0] = [];
    match query_first_verse_row(conn, sql.as_str(), &params) {
        Ok(row) => Some(verse_from_row(row, translation)),
        Err(_) => None,
    }
}

} // verus!
