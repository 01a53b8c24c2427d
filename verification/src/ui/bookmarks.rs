//! The bookmark list overlay.
use vstd::prelude::*;

use crate::config::bookmarks::BookmarkEntry;
use crate::text::entry_reference;
use crate::text::preview;
use crate::text::spec_entry_reference;
use crate::text::spec_preview;
use crate::ui::layout::ListState;

verus! {

/// Selection in the bookmark list.
pub struct BookmarkListState {
    pub list_state: ListState,
}

impl Default for BookmarkListState {
    /// Nothing selected.
    fn default() -> (s: Self)
        ensures
            s.list_state == (ListState { selected: None, offset: 0 }),
    {
        BookmarkListState { list_state: ListState::new() }
    }
}

/// The hint under the bookmark list.
pub open spec fn spec_bookmarks_hint(empty: bool) -> Seq<char> {
    if empty {
        " No bookmarks \u{2014} press b to add one"@
    } else {
        " j/k: navigate  Enter: jump  d: delete  Esc: close"@
    }
}

/// The hint under the bookmark list, for a list that is `empty` or not.
pub fn bookmarks_hint(empty: bool) -> (r: &'static str)
    ensures
        r@ == spec_bookmarks_hint(empty),
{
    if empty {
        " No bookmarks \u{2014} press b to add one"
    } else {
        " j/k: navigate  Enter: jump  d: delete  Esc: close"
    }
}

/// How a bookmark is listed: its reference, and a preview of at most 40
/// characters of its snippet (nothing without one).
pub fn bookmark_labels(b: &BookmarkEntry) -> (r: (String, String))
    ensures
        r.0@ == spec_entry_reference(b.book@, b.chapter, b.verse),
        r.1@ == spec_preview(
            match &b.snippet {
                Some(s) => s@,
                None => Seq::<char>::empty(),
            },
            40,
        ),
{
    let snippet: &str = match &b.snippet {
        Some(s) => s.as_str(),
        None => "",
    };
    proof {
        reveal_strlit("");
    }
    (entry_reference(b.book.as_str(), b.chapter, b.verse), preview(snippet, 40))
}

} // verus!
