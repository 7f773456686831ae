//! What the server tells about the project it serves.

use vstd::prelude::*;
use crate::json::JsonValue;

verus! {

/// The project's branding and defaults, as `/server/info` reports them;
/// members not named here are kept in `extra`.
#[derive(Debug)]
pub struct ProjectInfo {
    pub project_name: Option<String>,
    pub project_color: Option<String>,
    pub project_logo: Option<String>,
    pub public_foreground: Option<String>,
    pub public_background: Option<String>,
    pub public_note: Option<String>,
    pub default_language: Option<String>,
    pub extra: Vec<(String, JsonValue)>,
}

/// The server information document.
#[derive(Debug)]
pub struct ServerInfo {
    pub project: Option<ProjectInfo>,
}

/// The server information the client has loaded.
pub struct ServerStore {
    pub info: Option<ServerInfo>,
    pub loading: bool,
}

impl ServerStore {
    /// A store with nothing loaded, not loading.
    pub fn new() -> (r: ServerStore)
        ensures
            r.info is None,
            !r.loading,
    {
        ServerStore { info: None, loading: false }
    }

    /// Ends a fetch: information that arrived replaces what was loaded, a
    /// failed fetch leaves it as it was; the store is no longer loading.
    pub fn finish_fetch(&mut self, fetched: Option<ServerInfo>)
        ensures
            match fetched {
                Some(i) => final(self).info == Some(i),
                None => final(self).info == old(self).info,
            },
            !final(self).loading,
    {
        match fetched {
            Some(i) => {
                self.info = Some(i);
            },
            None => {},
        }
        self.loading = false;
    }
}

} // verus!
