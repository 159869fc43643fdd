//! The configuration store's logic: the location of the record under the
//! per-user configuration directory, and the encoding and decoding of the
//! one persisted record. The caller owns the file itself and hands over its
//! contents (or their absence); an absent record yields the zero-value
//! default, while a present but undecodable record surfaces as an error,
//! never as a silent default.

use vstd::prelude::*;
use vstd::string::*;
use crate::codec::{decode_record, encode_record, spec_decode, spec_encode};
use crate::config::AppConfig;
use crate::error::{AppError, AppResult};
use crate::text::{blank, is_blank};

verus! {

/// The store: it knows where the record lives and how it is encoded.
#[derive(Debug, Clone)]
pub struct ConfigStore {
    /// The file path of the persisted record.
    pub path: String,
}

impl ConfigStore {
    /// Builds the store for a per-user configuration directory: the record
    /// lives in `config.json` inside it. A blank directory is refused.
    pub fn initialize(config_dir: &str) -> (r: AppResult<ConfigStore>)
        ensures
            match r {
                Ok(store) => !is_blank(config_dir@) && store.path@ == config_dir@
                    + "/config.json"@,
                Err(e) => is_blank(config_dir@) && e is ConfigPath,
            },
    {
        if blank(config_dir) {
            return Err(
                AppError::ConfigPath(String::from_str("no configuration directory available")),
            );
        }
        let mut path = String::from_str(config_dir);
        path.append("/config.json");
        Ok(ConfigStore { path })
    }

    /// Where the record lives.
    pub fn path(&self) -> (r: &String)
        ensures
            r@ == self.path@,
    {
        &self.path
    }

    /// Decodes the store's contents: an absent record is not an error and
    /// yields nothing; a present record either decodes to the configuration
    /// it encodes or is rejected as corrupt.
    pub fn load(&self, raw: Option<&str>) -> (r: AppResult<Option<AppConfig>>)
        ensures
            match raw {
                None => r matches Ok(c) && c is None,
                Some(s) => match spec_decode(s@) {
                    Some(t) => r matches Ok(c) && (c matches Some(cfg) && cfg.proton@ == t.0
                        && cfg.prefix@ == t.1 && cfg.game@ == t.2),
                    None => r matches Err(e) && e is Serialization,
                },
            },
    {
        match raw {
            None => Ok(None),
            Some(s) => match decode_record(s) {
                Some((p, q, g)) => Ok(Some(AppConfig { proton: p, prefix: q, game: g })),
                None => Err(
                    AppError::Serialization(
                        String::from_str("stored configuration is not a valid record"),
                    ),
                ),
            },
        }
    }

    /// Like `load`, but an absent record yields the zero-value default with
    /// three empty strings — never an error.
    pub fn load_or_default(&self, raw: Option<&str>) -> (r: AppResult<AppConfig>)
        ensures
            match raw {
                None => r matches Ok(c) && c.proton@ == Seq::<char>::empty() && c.prefix@
                    == Seq::<char>::empty() && c.game@ == Seq::<char>::empty(),
                Some(s) => match spec_decode(s@) {
                    Some(t) => r matches Ok(c) && c.proton@ == t.0 && c.prefix@ == t.1 && c.game@
                        == t.2,
                    None => r matches Err(e) && e is Serialization,
                },
            },
    {
        match self.load(raw)? {
            Some(c) => Ok(c),
            None => Ok(AppConfig::default()),
        }
    }

    /// Encodes the record for persisting: the returned text overwrites the
    /// whole file at `path`.
    pub fn save(&self, config: &AppConfig) -> (r: String)
        ensures
            r@ == spec_encode(config.proton@, config.prefix@, config.game@),
    {
        encode_record(config.proton.as_str(), config.prefix.as_str(), config.game.as_str())
    }
}

} // verus!
