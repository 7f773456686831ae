//! Project settings as the admin client shows them.

use vstd::prelude::*;
use crate::database::query::opt_view;
use crate::flows::opt_json;
use crate::json::{Json, JsonValue};

verus! {

/// The project settings as the API returns them.
#[derive(Debug)]
pub struct Settings {
    pub id: Option<i64>,
    pub project_name: Option<String>,
    pub project_url: Option<String>,
    pub project_color: Option<String>,
    pub project_logo: Option<String>,
    pub public_foreground: Option<String>,
    pub public_background: Option<String>,
    pub public_note: Option<String>,
    pub default_language: Option<String>,
    pub default_appearance: Option<String>,
    pub custom_css: Option<String>,
    pub module_bar: Option<JsonValue>,
    pub project_descriptor: Option<String>,
    pub mapbox_key: Option<String>,
}

impl Settings {
    /// Whether no setting is set.
    pub open spec fn is_unset(&self) -> bool {
        &&& self.id is None
        &&& self.project_name is None
        &&& self.project_url is None
        &&& self.project_color is None
        &&& self.project_logo is None
        &&& self.public_foreground is None
        &&& self.public_background is None
        &&& self.public_note is None
        &&& self.default_language is None
        &&& self.default_appearance is None
        &&& self.custom_css is None
        &&& self.module_bar is None
        &&& self.project_descriptor is None
        &&& self.mapbox_key is None
    }

    /// The project's name, `Nexus` when unset.
    pub fn display_name(&self) -> (r: &str)
        ensures
            r@ == (match opt_view(self.project_name) {
                Some(n) => n,
                None => "Nexus"@,
            }),
    {
        match &self.project_name {
            Some(n) => n.as_str(),
            None => "Nexus",
        }
    }

    /// The project's colour, `#6644FF` when unset.
    pub fn theme_color(&self) -> (r: &str)
        ensures
            r@ == (match opt_view(self.project_color) {
                Some(c) => c,
                None => "#6644FF"@,
            }),
    {
        match &self.project_color {
            Some(c) => c.as_str(),
            None => "#6644FF",
        }
    }
}

impl Default for Settings {
    fn default() -> (r: Settings)
        ensures
            r.is_unset(),
    {
        Settings {
            id: None,
            project_name: None,
            project_url: None,
            project_color: None,
            project_logo: None,
            public_foreground: None,
            public_background: None,
            public_note: None,
            default_language: None,
            default_appearance: None,
            custom_css: None,
            module_bar: None,
            project_descriptor: None,
            mapbox_key: None,
        }
    }
}

/// The settings the client has loaded.
pub struct SettingsStore {
    pub settings: Settings,
    pub loading: bool,
}

impl SettingsStore {
    /// A store with no setting set, not loading.
    pub fn new() -> (r: SettingsStore)
        ensures
            r.settings.is_unset(),
            !r.loading,
    {
        SettingsStore { settings: Settings::default(), loading: false }
    }
}

} // verus!
