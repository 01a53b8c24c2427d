//! The note list overlay.
use vstd::prelude::*;

use crate::config::notes::NoteEntry;
use crate::text::chars_of;
use crate::text::entry_reference;
use crate::text::preview;
use crate::text::spec_entry_reference;
use crate::text::spec_preview;
use crate::ui::layout::ListState;
use crate::ui::notes::split_lines;

verus! {

/// Selection in the note list.
pub struct NoteListState {
    pub list_state: ListState,
}

impl Default for NoteListState {
    /// Nothing selected.
    fn default() -> (s: Self)
        ensures
            s.list_state == (ListState { selected: None, offset: 0 }),
    {
        NoteListState { list_state: ListState::new() }
    }
}

/// The hint under the note list.
pub open spec fn spec_notes_hint(empty: bool) -> Seq<char> {
    if empty {
        " No notes \u{2014} press n on a verse to add one"@
    } else {
        " j/k: navigate  Enter: jump  d: delete  Esc: close"@
    }
}

/// The hint under the note list, for a list that is `empty` or not.
pub fn notes_hint(empty: bool) -> (r: &'static str)
    ensures
        r@ == spec_notes_hint(empty),
{
    if empty {
        " No notes \u{2014} press n on a verse to add one"
    } else {
        " j/k: navigate  Enter: jump  d: delete  Esc: close"
    }
}

/// The first line of a text, as `str::lines` gives it (nothing for an
/// empty text).
pub open spec fn first_line(text: Seq<char>) -> Seq<char> {
    if split_lines(text).len() > 0 {
        split_lines(text)[0]
    } else {
        Seq::empty()
    }
}

/// How a note is listed: its reference, and a preview of at most 40
/// characters of its first line.
pub fn note_labels(n: &NoteEntry) -> (r: (String, String))
    ensures
        r.0@ == spec_entry_reference(n.book@, n.chapter, n.verse),
        r.1@ == spec_preview(first_line(n.text@), 40),
{
    let lines = crate::ui::notes::split_lines_exec(&chars_of(n.text.as_str()));
    let first: String = if lines.len() > 0 {
        lines[0].clone()
    } else {
        String::new()
    };
    proof {
        assert(crate::ui::notes::lines_of(lines@).len() == lines@.len());
        if lines.len() > 0 {
            assert(crate::ui::notes::lines_of(lines@)[0] == lines@[0]@);
        }
    }
    (entry_reference(n.book.as_str(), n.chapter, n.verse), preview(first.as_str(), 40))
}

} // verus!
