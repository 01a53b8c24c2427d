//! Online translations: the YouVersion API and its local cache.
pub mod youversion;
pub mod cache;
