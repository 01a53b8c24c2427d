//! A verse chosen at random.
use vstd::prelude::*;

use rusqlite::Connection;

use crate::bible::books::spec_book_name_of;
use crate::bible::db;
use crate::bible::types::Verse;
use crate::text::entry_reference;
use crate::text::extend_str;
use crate::text::spec_entry_reference;
use crate::text::string_from_chars;
use crate::text::uppercase_of;

verus! {

/// A verse of translation `translation` chosen at random.
pub fn random_verse(conn: &Connection, translation: &str) -> (r: Option<Verse>)
    ensures
        r matches Some(v) ==> v.translation@ == uppercase_of(translation@) && v.book@
            == spec_book_name_of(v.book_num as int),
{
    db::get_random_verse(conn, translation)
}

/// A verse as one line of text: its reference, a dash and its text.
pub fn verse_line(v: &Verse) -> (r: String)
    ensures
        r@ == spec_entry_reference(v.book@, v.chapter, v.verse) + v.text@,
{
    let head = entry_reference(v.book.as_str(), v.chapter, v.verse);
    let mut out: Vec<char> = Vec::new();
    extend_str(&mut out, head.as_str());
    extend_str(&mut out, v.text.as_str());
    string_from_chars(out.as_slice())
}

} // verus!
