//! Application settings: the persisted document the desktop shell keeps.
//! The runner core never reads or writes it; it only receives resolved paths
//! as plain arguments.

use vstd::prelude::*;
use vstd::string::StringExecFns;

verus! {

/// One entry of the ordered list of recently opened productions.
#[derive(Clone, Debug)]
pub struct RecentProduction {
    pub id: String,
    pub name: String,
    pub path: String,
    pub last_opened: String,
}

/// Persisted application settings.
#[derive(Clone, Debug)]
pub struct AppSettings {
    pub theme: String,
    pub default_output_dir: String,
    pub default_preset: String,
    pub colmap_path: Option<String>,
    pub brush_path: Option<String>,
    pub recent_productions: Vec<RecentProduction>,
}

impl Default for AppSettings {
    /// Fresh settings: system theme, balanced preset, everything else empty.
    fn default() -> (s: AppSettings)
        ensures
            s.theme@ == "system"@,
            s.default_output_dir@.len() == 0,
            s.default_preset@ == "balanced"@,
            s.colmap_path is None,
            s.brush_path is None,
            s.recent_productions@.len() == 0,
    {
        AppSettings {
            theme: String::from_str("system"),
            default_output_dir: String::new(),
            default_preset: String::from_str("balanced"),
            colmap_path: None,
            brush_path: None,
            recent_productions: Vec::new(),
        }
    }
}

} // verus!
