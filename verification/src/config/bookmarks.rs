//! Bookmarks: one entry per verse, kept in the order they were added.
use vstd::prelude::*;

verus! {

/// A bookmarked verse.
pub struct BookmarkEntry {
    pub book: String,
    pub chapter: u32,
    pub verse: u32,
    pub snippet: Option<String>,
    pub note: Option<String>,
    pub created_at: u64,
}

/// Whether `e` marks verse `chapter:verse` of `book`.
pub open spec fn marks_verse(e: BookmarkEntry, book: Seq<char>, chapter: u32, verse: u32) -> bool {
    e.book@ == book && e.chapter == chapter && e.verse == verse
}

/// Whether some entry of `s` marks the same verse as `e`.
pub open spec fn has_bookmark(s: Seq<BookmarkEntry>, e: BookmarkEntry) -> bool {
    exists|i: int| 0 <= i < s.len() && marks_verse(#[trigger] s[i], e.book@, e.chapter, e.verse)
}

/// No two entries of `s` mark the same verse.
pub open spec fn unique_verses(s: Seq<BookmarkEntry>) -> bool {
    forall|i: int, j: int|
        0 <= i < j < s.len() ==> !marks_verse(#[trigger] s[i], s[j].book@, s[j].chapter, #[trigger] s[j].verse)
}

/// The list after adding `e`: unchanged if its verse is already marked,
/// otherwise `e` appended.
pub open spec fn spec_add(s: Seq<BookmarkEntry>, e: BookmarkEntry) -> Seq<BookmarkEntry> {
    if has_bookmark(s, e) {
        s
    } else {
        s.push(e)
    }
}

/// Adds `entry` unless its verse is already bookmarked. Returns whether the
/// list changed (and so needs saving).
pub fn add(bookmarks: &mut Vec<BookmarkEntry>, entry: BookmarkEntry) -> (added: bool)
    ensures
        added == !has_bookmark(old(bookmarks)@, entry),
        final(bookmarks)@ == spec_add(old(bookmarks)@, entry),
        unique_verses(old(bookmarks)@) ==> unique_verses(final(bookmarks)@),
{
    let mut i: usize = 0;
    while i < bookmarks.len()
        invariant
            i <= bookmarks.len(),
            forall|k: int|
                0 <= k < i ==> !marks_verse(
                    #[trigger] bookmarks@[k],
                    entry.book@,
                    entry.chapter,
                    entry.verse,
                ),
        decreases bookmarks.len() - i,
    {
        let b = &bookmarks[i];
        if b.book == entry.book && b.chapter == entry.chapter && b.verse == entry.verse {
            assert(marks_verse(bookmarks@[i as int], entry.book@, entry.chapter, entry.verse));
            return false;
        }
        i = i + 1;
    }
    let ghost before = bookmarks@;
    bookmarks.push(entry);
    proof {
        let s = bookmarks@;
        if unique_verses(before) {
            assert forall|i: int, j: int|
                0 <= i < j < s.len() implies !marks_verse(#[trigger] s[i], s[j].book@, s[j].chapter, #[trigger] s[j].verse) by {
                if j == before.len() as int {
                    assert(!marks_verse(before[i], entry.book@, entry.chapter, entry.verse));
                } else {
                    assert(s[i] == before[i] && s[j] == before[j]);
                }
            }
        }
    }
    true
}

/// Removes the entry at `index`, if there is one. Returns whether the list
/// changed (and so needs saving).
pub fn remove(bookmarks: &mut Vec<BookmarkEntry>, index: usize) -> (removed: bool)
    ensures
        removed == (index < old(bookmarks).len()),
        removed ==> final(bookmarks)@ == old(bookmarks)@.remove(index as int),
        !removed ==> final(bookmarks)@ == old(bookmarks)@,
{
    if index < bookmarks.len() {
        bookmarks.remove(index);
        true
    } else {
        false
    }
}

/// Adding a verse that is already bookmarked changes nothing, so adding the
/// same verse twice leaves a single entry for it.
pub proof fn lemma_add_idempotent(s: Seq<BookmarkEntry>, e: BookmarkEntry, f: BookmarkEntry)
    requires
        f.book@ == e.book@,
        f.chapter == e.chapter,
        f.verse == e.verse,
    ensures
        spec_add(spec_add(s, e), f) == spec_add(s, e),
        has_bookmark(spec_add(s, e), f),
{
    let t = spec_add(s, e);
    if !has_bookmark(s, e) {
        assert(marks_verse(t[s.len() as int], f.book@, f.chapter, f.verse));
    } else {
        let i = choose|i: int| 0 <= i < s.len() && marks_verse(s[i], e.book@, e.chapter, e.verse);
        assert(marks_verse(t[i], f.book@, f.chapter, f.verse));
    }
}

/// Adding a verse keeps every earlier bookmark in place.
pub proof fn lemma_add_keeps_existing(s: Seq<BookmarkEntry>, e: BookmarkEntry)
    ensures
        spec_add(s, e).len() >= s.len(),
        forall|i: int| 0 <= i < s.len() ==> #[trigger] spec_add(s, e)[i] == s[i],
{
}

/// Seconds since the Unix epoch, or 0 if the clock reads earlier than it.
///
/// Trusted: reads `SystemTime::now()`; the value depends on the moment of the
/// call, so nothing is claimed about it.
#[verifier::external_body]
pub fn now_unix() -> (t: u64) {
    std::time::SystemTime::now().duration_since(std::time::UNIX_EPOCH).map(|d| d.as_secs()).unwrap_or(0)
}

} // verus!
