//! The shared application state: the configuration store, built once at
//! startup from the per-user configuration directory and reused by every
//! command.

use vstd::prelude::*;
use crate::config_store::ConfigStore;
use crate::error::AppResult;
use crate::text::is_blank;

verus! {

/// The state every command shares.
#[derive(Debug, Clone)]
pub struct AppState {
    /// The configuration store.
    pub config_store: ConfigStore,
}

impl AppState {
    /// Builds the state for a per-user configuration directory.
    pub fn try_new(config_dir: &str) -> (r: AppResult<AppState>)
        ensures
            match r {
                Ok(st) => !is_blank(config_dir@) && st.config_store.path@ == config_dir@
                    + "/config.json"@,
                Err(e) => is_blank(config_dir@) && e is ConfigPath,
            },
    {
        let config_store = ConfigStore::initialize(config_dir)?;
        Ok(AppState { config_store })
    }

    /// The shared configuration store.
    pub fn config_store(&self) -> (r: &ConfigStore)
        ensures
            r.path@ == self.config_store.path@,
    {
        &self.config_store
    }
}

} // verus!
