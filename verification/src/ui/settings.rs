//! State of the settings overlay.
use vstd::prelude::*;

verus! {

/// Whether the settings overlay is showing or editing the API key.
pub enum SettingsMode {
    View,
    EditingKey(String),
}

/// State of the settings overlay.
pub struct SettingsState {
    pub mode: SettingsMode,
    pub sync_status: Option<String>,
}

impl Default for SettingsState {
    fn default() -> (s: Self)
        ensures
            s.mode is View,
            s.sync_status is None,
    {
        Self { mode: SettingsMode::View, sync_status: None }
    }
}

} // verus!
