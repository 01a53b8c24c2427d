//! The search overlay: the query typed so far, its hits and the selected hit.
use vstd::prelude::*;
use vstd::string::*;

use crate::bible::types::SearchResult;
use crate::text::entry_reference;
use crate::text::preview;
use crate::text::spec_entry_reference;
use crate::text::spec_preview;
use crate::ui::layout::ListState;

verus! {

/// State of the search overlay.
pub struct SearchState {
    pub query: String,
    pub results: Vec<SearchResult>,
    pub list_state: ListState,
}

impl Default for SearchState {
    /// An empty query with no hits and nothing selected.
    fn default() -> (s: Self)
        ensures
            s.query@ == Seq::<char>::empty(),
            s.results@.len() == 0,
            s.list_state == (ListState { selected: None, offset: 0 }),
    {
        SearchState { query: String::new(), results: Vec::new(), list_state: ListState::new() }
    }
}

/// Number of UTF-8 bytes of a text, as `str::len` reports it.
pub open spec fn byte_len(s: Seq<char>) -> usize {
    vstd::utf8::encode_utf8(s).len() as usize
}

/// The hint above the hits: how to start, that nothing was found, or how
/// to move through the hits.
pub open spec fn spec_search_hint(query: Seq<char>, n_results: nat) -> Seq<char> {
    if byte_len(query) < 3 {
        " Type 3+ characters to search"@
    } else if n_results == 0 {
        " No results"@
    } else {
        " \u{2191}/\u{2193} navigate  Enter: jump  Esc: close"@
    }
}

impl SearchState {
    /// The hint shown above the hits.
    pub fn hint(&self) -> (r: &'static str)
        ensures
            r@ == spec_search_hint(self.query@, self.results@.len()),
    {
        if self.query.as_str().len() < 3 {
            " Type 3+ characters to search"
        } else if self.results.len() == 0 {
            " No results"
        } else {
            " \u{2191}/\u{2193} navigate  Enter: jump  Esc: close"
        }
    }
}

/// How a hit is listed: its reference, and a preview of at most 60
/// characters of its text.
pub fn hit_labels(hit: &SearchResult) -> (r: (String, String))
    ensures
        r.0@ == spec_entry_reference(hit.book@, hit.chapter, hit.verse),
        r.1@ == spec_preview(hit.text@, 60),
{
    (entry_reference(hit.book.as_str(), hit.chapter, hit.verse), preview(hit.text.as_str(), 60))
}

} // verus!
