//! Plain records for verses, chapters and search hits.
use vstd::prelude::*;

verus! {

/// One verse of one translation.
pub struct Verse {
    pub book: String,
    pub book_num: u32,
    pub chapter: u32,
    pub verse: u32,
    pub text: String,
    pub translation: String,
}

/// A chapter of one book with its verses in order.
pub struct Chapter {
    pub book: String,
    pub chapter: u32,
    pub verses: Vec<Verse>,
}

/// One full-text search hit.
pub struct SearchResult {
    pub book: String,
    pub book_num: u32,
    pub chapter: u32,
    pub verse: u32,
    pub text: String,
}

} // verus!
