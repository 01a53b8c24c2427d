//! The reader's saved data: bookmarks, highlights, notes, API providers and
//! the last session. Each module keeps the in-memory rules; reading and
//! writing the JSON files happens at the application's edge.
pub mod bookmarks;
pub mod highlights;
pub mod notes;
pub mod providers;
pub mod session;
