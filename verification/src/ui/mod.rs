//! Screen state of the reader: panels, editor, splash screen, overlays and
//! themes. Drawing them on the terminal happens at the application's edge.
pub mod banner;
pub mod bookmarks;
pub mod browser;
pub mod help;
pub mod highlight_list;
pub mod layout;
pub mod note_layout;
pub mod note_list;
pub mod notes;
pub mod search;
pub mod settings;
pub mod theme;
pub mod translation;
