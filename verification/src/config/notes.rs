//! Verse notes: at most one note per verse, created or replaced by
//! `upsert` and dropped by `remove`.
use vstd::prelude::*;

use crate::config::bookmarks::now_unix;
use crate::config::highlights::VerseKey;

verus! {

/// A note attached to a verse.
pub struct NoteEntry {
    pub book: String,
    pub chapter: u32,
    pub verse: u32,
    pub text: String,
    pub created_at: u64,
    pub updated_at: u64,
}

/// Mathematical view of a note.
pub struct NoteView {
    pub book: Seq<char>,
    pub chapter: u32,
    pub verse: u32,
    pub text: Seq<char>,
    pub created_at: u64,
    pub updated_at: u64,
}

impl View for NoteEntry {
    type V = NoteView;

    open spec fn view(&self) -> NoteView {
        NoteView {
            book: self.book@,
            chapter: self.chapter,
            verse: self.verse,
            text: self.text@,
            created_at: self.created_at,
            updated_at: self.updated_at,
        }
    }
}

/// The verse a note is on.
pub open spec fn note_key(n: NoteView) -> VerseKey {
    (n.book, n.chapter, n.verse)
}

/// Views of a list of notes.
pub open spec fn note_views(s: Seq<NoteEntry>) -> Seq<NoteView> {
    s.map_values(|n: NoteEntry| n@)
}

/// Index of the first note at or after `i` on verse `k`.
pub open spec fn note_pos_from(s: Seq<NoteView>, k: VerseKey, i: int) -> Option<int>
    decreases s.len() - i,
{
    if i < 0 || i >= s.len() {
        None
    } else if note_key(s[i]) == k {
        Some(i)
    } else {
        note_pos_from(s, k, i + 1)
    }
}

/// Index of the first note on verse `k`.
pub open spec fn note_pos(s: Seq<NoteView>, k: VerseKey) -> Option<int> {
    note_pos_from(s, k, 0)
}

/// The first note on verse `k`, if any.
pub open spec fn spec_find(s: Seq<NoteView>, k: VerseKey) -> Option<NoteView> {
    match note_pos(s, k) {
        Some(i) => Some(s[i]),
        None => None,
    }
}

/// No two notes are on the same verse.
pub open spec fn unique_notes(s: Seq<NoteView>) -> bool {
    forall|i: int, j: int|
        0 <= i < j < s.len() ==> note_key(#[trigger] s[i]) != note_key(#[trigger] s[j])
}

/// The list after writing `text` on verse `k` at time `now`: the first note
/// on the verse gets the new text and update time; without one, a new note
/// is appended.
pub open spec fn spec_upsert(s: Seq<NoteView>, k: VerseKey, text: Seq<char>, now: u64) -> Seq<
    NoteView,
> {
    match note_pos(s, k) {
        Some(i) => s.update(i, NoteView { text: text, updated_at: now, ..s[i] }),
        None => s.push(
            NoteView {
                book: k.0,
                chapter: k.1,
                verse: k.2,
                text: text,
                created_at: now,
                updated_at: now,
            },
        ),
    }
}

/// The list without any note on verse `k`, the others kept in order.
pub open spec fn spec_remove(s: Seq<NoteView>, k: VerseKey) -> Seq<NoteView>
    decreases s.len(),
{
    if s.len() == 0 {
        s
    } else if note_key(s[0]) == k {
        spec_remove(s.drop_first(), k)
    } else {
        seq![s[0]] + spec_remove(s.drop_first(), k)
    }
}

/// Removing the note of verse `k` keeps exactly the notes on other verses,
/// in their order: the old list without the notes whose verse is `k`.
pub proof fn lemma_remove_keeps_other_verses(s: Seq<NoteView>, k: VerseKey)
    ensures
        spec_remove(s, k) == s.filter(|n: NoteView| note_key(n) != k),
    decreases s.len(),
{
    let pred = |n: NoteView| note_key(n) != k;
    if s.len() > 0 {
        lemma_remove_keeps_other_verses(s.drop_first(), k);
        let head = seq![s[0]];
        assert(s =~= head + s.drop_first());
        Seq::filter_distributes_over_add(head, s.drop_first(), pred);
        let none = Seq::<NoteView>::empty();
        assert(none.push(s[0]) =~= head);
        none.lemma_filter_push(s[0], pred);
        assert(none.filter(pred) =~= none) by {
            reveal(Seq::filter);
        }
    }
}

proof fn lemma_note_pos_from(s: Seq<NoteView>, k: VerseKey, i: int)
    requires
        0 <= i,
    ensures
        note_pos_from(s, k, i) matches Some(j) ==> i <= j < s.len() && note_key(s[j]) == k
            && forall|m: int| i <= m < j ==> note_key(#[trigger] s[m]) != k,
        note_pos_from(s, k, i) is None ==> forall|m: int|
            i <= m < s.len() ==> note_key(#[trigger] s[m]) != k,
    decreases s.len() - i,
{
    if i < s.len() && note_key(s[i]) != k {
        lemma_note_pos_from(s, k, i + 1);
    }
}

proof fn lemma_note_pos_is(s: Seq<NoteView>, k: VerseKey, j: int)
    requires
        0 <= j < s.len(),
        note_key(s[j]) == k,
        forall|m: int| 0 <= m < j ==> note_key(#[trigger] s[m]) != k,
    ensures
        note_pos(s, k) == Some(j),
{
    lemma_note_pos_from(s, k, 0);
    match note_pos(s, k) {
        Some(i) => {
            if i < j {
                assert(note_key(s[i]) != k);
            }
            if i > j {
                assert(note_key(s[j]) != k);
            }
        },
        None => {
            assert(note_key(s[j]) != k);
        },
    }
}

fn find_index(notes: &[NoteEntry], book: &str, chapter: u32, verse: u32) -> (r: Option<usize>)
    ensures
        match r {
            Some(i) => note_pos(note_views(notes@), (book@, chapter, verse)) == Some(i as int),
            None => note_pos(note_views(notes@), (book@, chapter, verse)) is None,
        },
{
    let ghost s = note_views(notes@);
    let ghost k = (book@, chapter, verse);
    let mut i: usize = 0;
    while i < notes.len()
        invariant
            i <= notes.len(),
            s == note_views(notes@),
            k == (book@, chapter, verse),
            note_pos(s, k) == note_pos_from(s, k, i as int),
        decreases notes.len() - i,
    {
        let n = &notes[i];
        assert(s[i as int] == notes@[i as int]@);
        if crate::text::string_eq_str(&n.book, book) && n.chapter == chapter && n.verse == verse {
            return Some(i);
        }
        i = i + 1;
    }
    None
}

/// The note on verse `book chapter:verse`, if there is one.
pub fn find<'a>(notes: &'a [NoteEntry], book: &str, chapter: u32, verse: u32) -> (r: Option<
    &'a NoteEntry,
>)
    ensures
        match r {
            Some(n) => spec_find(note_views(notes@), (book@, chapter, verse)) == Some(n@),
            None => spec_find(note_views(notes@), (book@, chapter, verse)) is None,
        },
{
    proof {
        lemma_note_pos_from(note_views(notes@), (book@, chapter, verse), 0);
    }
    match find_index(notes, book, chapter, verse) {
        Some(i) => {
            assert(note_views(notes@)[i as int] == notes@[i as int]@);
            Some(&notes[i])
        },
        None => None,
    }
}

/// Writes `text` on verse `book chapter:verse` at time `now`: replaces the
/// text of its note, or adds a new note.
pub fn upsert_at(
    notes: &mut Vec<NoteEntry>,
    book: &str,
    chapter: u32,
    verse: u32,
    text: &str,
    now: u64,
)
    ensures
        note_views(final(notes)@) == spec_upsert(
            note_views(old(notes)@),
            (book@, chapter, verse),
            text@,
            now,
        ),
{
    let ghost s = note_views(notes@);
    proof {
        lemma_note_pos_from(s, (book@, chapter, verse), 0);
    }
    match find_index(notes.as_slice(), book, chapter, verse) {
        Some(i) => {
            assert(s[i as int] == notes@[i as int]@);
            let mut e = notes.remove(i);
            e.text = String::from_str(text);
            e.updated_at = now;
            notes.insert(i, e);
            assert(note_views(notes@) =~= s.update(
                i as int,
                NoteView { text: text@, updated_at: now, ..s[i as int] },
            ));
        },
        None => {
            notes.push(
                NoteEntry {
                    book: String::from_str(book),
                    chapter,
                    verse,
                    text: String::from_str(text),
                    created_at: now,
                    updated_at: now,
                },
            );
            assert(note_views(notes@) =~= s.push(
                NoteView {
                    book: book@,
                    chapter,
                    verse,
                    text: text@,
                    created_at: now,
                    updated_at: now,
                },
            ));
        },
    }
}

/// Writes `text` on verse `book chapter:verse`, stamped with the current
/// time: replaces the text of its note, or adds a new note.
pub fn upsert(notes: &mut Vec<NoteEntry>, book: &str, chapter: u32, verse: u32, text: &str)
    ensures
        exists|now: u64|
            note_views(final(notes)@) == spec_upsert(
                note_views(old(notes)@),
                (book@, chapter, verse),
                text@,
                now,
            ),
{
    let now = now_unix();
    upsert_at(notes, book, chapter, verse, text, now);
}

/// Removes every note on verse `book chapter:verse`, keeping the others in
/// order.
pub fn remove(notes: &mut Vec<NoteEntry>, book: &str, chapter: u32, verse: u32)
    ensures
        note_views(final(notes)@) == spec_remove(note_views(old(notes)@), (book@, chapter, verse)),
{
    let ghost k = (book@, chapter, verse);
    let ghost total = spec_remove(note_views(notes@), k);
    let mut kept: Vec<NoteEntry> = Vec::new();
    while notes.len() > 0
        invariant
            k == (book@, chapter, verse),
            note_views(kept@) + spec_remove(note_views(notes@), k) == total,
        decreases notes.len(),
    {
        let ghost before = note_views(notes@);
        let n = notes.remove(0);
        assert(note_views(notes@) =~= before.drop_first());
        assert(before[0] == n@);
        if crate::text::string_eq_str(&n.book, book) && n.chapter == chapter && n.verse == verse {
        } else {
            assert(note_views(kept@.push(n)) =~= note_views(kept@).push(n@));
            assert(note_views(kept@).push(n@) + spec_remove(before.drop_first(), k) =~= note_views(
                kept@,
            ) + (seq![n@] + spec_remove(before.drop_first(), k)));
            kept.push(n);
        }
    }
    assert(note_views(kept@) + spec_remove(note_views(notes@), k) =~= note_views(kept@));
    *notes = kept;
}

/// After writing a note, looking the verse up gives back the written text.
pub proof fn lemma_find_after_upsert(s: Seq<NoteView>, k: VerseKey, text: Seq<char>, now: u64)
    ensures
        spec_find(spec_upsert(s, k, text, now), k) matches Some(n) && n.text == text
            && note_key(n) == k,
{
    lemma_note_pos_from(s, k, 0);
    let t = spec_upsert(s, k, text, now);
    match note_pos(s, k) {
        Some(i) => {
            assert forall|m: int| 0 <= m < i implies note_key(#[trigger] t[m]) != k by {
                assert(t[m] == s[m]);
            }
            lemma_note_pos_is(t, k, i);
        },
        None => {
            assert forall|m: int| 0 <= m < s.len() implies note_key(#[trigger] t[m]) != k by {
                assert(t[m] == s[m]);
            }
            lemma_note_pos_is(t, k, s.len() as int);
        },
    }
}

/// Writing a note keeps at most one note per verse.
pub proof fn lemma_upsert_keeps_unique(s: Seq<NoteView>, k: VerseKey, text: Seq<char>, now: u64)
    requires
        unique_notes(s),
    ensures
        unique_notes(spec_upsert(s, k, text, now)),
{
    lemma_note_pos_from(s, k, 0);
    let t = spec_upsert(s, k, text, now);
    assert forall|i: int, j: int| 0 <= i < j < t.len() implies note_key(#[trigger] t[i]) != note_key(
        #[trigger] t[j],
    ) by {
        if j < s.len() {
            assert(note_key(t[i]) == note_key(s[i]));
            assert(note_key(t[j]) == note_key(s[j]));
        } else {
            assert(t[i] == s[i]);
        }
    }
}

/// Writing a note on one verse leaves the note of every other verse as it was.
pub proof fn lemma_upsert_other_verse(
    s: Seq<NoteView>,
    k: VerseKey,
    text: Seq<char>,
    now: u64,
    other: VerseKey,
)
    requires
        other != k,
    ensures
        spec_find(spec_upsert(s, k, text, now), other) == spec_find(s, other),
{
    lemma_note_pos_from(s, k, 0);
    lemma_note_pos_from(s, other, 0);
    let t = spec_upsert(s, k, text, now);
    lemma_note_pos_from(t, other, 0);
    match note_pos(s, other) {
        Some(i) => {
            assert(note_key(t[i]) == note_key(s[i]));
            assert forall|m: int| 0 <= m < i implies note_key(#[trigger] t[m]) != other by {
                assert(note_key(t[m]) == note_key(s[m]));
            }
            lemma_note_pos_is(t, other, i);
            if let Some(p) = note_pos(s, k) {
                assert(p != i);
            }
        },
        None => {
            if let Some(j) = note_pos(t, other) {
                assert(note_key(t[j]) == other);
                if j < s.len() {
                    assert(note_key(t[j]) == note_key(s[j]));
                }
            }
        },
    }
}

proof fn lemma_remove_has_no_key(s: Seq<NoteView>, k: VerseKey)
    ensures
        forall|i: int| 0 <= i < spec_remove(s, k).len() ==> note_key(#[trigger] spec_remove(s, k)[i]) != k,
        forall|i: int| 0 <= i < spec_remove(s, k).len() ==> s.contains(#[trigger] spec_remove(s, k)[i]),
    decreases s.len(),
{
    if s.len() > 0 {
        lemma_remove_has_no_key(s.drop_first(), k);
        let r = spec_remove(s.drop_first(), k);
        if note_key(s[0]) != k {
            let t = seq![s[0]] + r;
            assert forall|i: int| 0 <= i < t.len() implies s.contains(#[trigger] t[i]) by {
                if i == 0 {
                    assert(s[0] == t[0]);
                } else {
                    assert(t[i] == r[i - 1]);
                    let m = choose|m: int| 0 <= m < s.drop_first().len() && s.drop_first()[m] == r[i - 1];
                    assert(s[m + 1] == t[i]);
                }
            }
            assert forall|i: int| 0 <= i < t.len() implies note_key(#[trigger] t[i]) != k by {
                if i > 0 {
                    assert(t[i] == r[i - 1]);
                }
            }
        } else {
            assert forall|i: int| 0 <= i < r.len() implies s.contains(#[trigger] r[i]) by {
                let m = choose|m: int| 0 <= m < s.drop_first().len() && s.drop_first()[m] == r[i];
                assert(s[m + 1] == r[i]);
            }
        }
    }
}

/// After removing the notes of a verse, looking it up finds nothing, and
/// every note left was there before.
pub proof fn lemma_find_after_remove(s: Seq<NoteView>, k: VerseKey)
    ensures
        spec_find(spec_remove(s, k), k) is None,
        forall|i: int| 0 <= i < spec_remove(s, k).len() ==> s.contains(#[trigger] spec_remove(s, k)[i]),
{
    lemma_remove_has_no_key(s, k);
    lemma_note_pos_from(spec_remove(s, k), k, 0);
}

} // verus!
