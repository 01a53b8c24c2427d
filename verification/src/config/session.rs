//! The reading position and preferences restored at the next start.
use vstd::prelude::*;
use vstd::string::*;

use crate::ui::theme::ThemeName;

verus! {

/// Where the reader left off.
pub struct SessionState {
    pub book_index: usize,
    pub chapter: u32,
    pub scroll_position: u16,
    pub active_panel: u8,
    pub theme: ThemeName,
    pub translation: String,
    /// Whether highlighted verses show their colours.
    pub highlights_visible: bool,
}

impl Default for SessionState {
    /// Genesis 1 in the KJV, books panel, default theme, highlights shown.
    fn default() -> (s: Self)
        ensures
            s.book_index == 0,
            s.chapter == 1,
            s.scroll_position == 0,
            s.active_panel == 0,
            s.theme == ThemeName::Slate,
            s.translation@ == "KJV"@,
            s.highlights_visible,
    {
        SessionState {
            book_index: 0,
            chapter: 1,
            scroll_position: 0,
            active_panel: 0,
            theme: ThemeName::Slate,
            translation: String::from_str("KJV"),
            highlights_visible: true,
        }
    }
}

} // verus!
