//! The highlight list overlay.
use vstd::prelude::*;

use crate::config::highlights::spec_color_label;
use crate::config::highlights::HighlightEntry;
use crate::text::spec_verse_reference;
use crate::text::string_from_chars;
use crate::text::verse_reference;
use crate::ui::layout::ListState;

verus! {

/// Selection in the highlight list.
pub struct HighlightListState {
    pub list_state: ListState,
}

impl Default for HighlightListState {
    /// Nothing selected.
    fn default() -> (s: Self)
        ensures
            s.list_state == (ListState { selected: None, offset: 0 }),
    {
        HighlightListState { list_state: ListState::new() }
    }
}

/// The hint under the highlight list.
pub open spec fn spec_highlights_hint(empty: bool) -> Seq<char> {
    if empty {
        " No highlights \u{2014} press H on a verse to add one"@
    } else {
        " j/k: navigate  Enter: jump  d: delete  Esc: close"@
    }
}

/// The hint under the highlight list, for a list that is `empty` or not.
pub fn highlights_hint(empty: bool) -> (r: &'static str)
    ensures
        r@ == spec_highlights_hint(empty),
{
    if empty {
        " No highlights \u{2014} press H on a verse to add one"
    } else {
        " j/k: navigate  Enter: jump  d: delete  Esc: close"
    }
}

/// How a highlight is listed: its reference, and a dash with its colour.
pub fn highlight_labels(h: &HighlightEntry) -> (r: (String, String))
    ensures
        r.0@ == spec_verse_reference(h.book@, h.chapter, h.verse),
        r.1@ == " \u{2014} "@ + spec_color_label(h.color),
{
    let mut out: Vec<char> = Vec::new();
    crate::text::extend_str(&mut out, " \u{2014} ");
    crate::text::extend_str(&mut out, h.color.label());
    (verse_reference(h.book.as_str(), h.chapter, h.verse), string_from_chars(out.as_slice()))
}

} // verus!
