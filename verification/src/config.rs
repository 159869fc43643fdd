//! The configuration data model: the persisted record (`AppConfig`), the
//! launch request (`GameLaunchConfig`) with its optional compositor settings
//! (`GamescopeConfig`), and the validator that every launch runs first.

use vstd::prelude::*;
use vstd::string::*;
use crate::error::{AppError, AppResult, ConfigField, ValidationError};
use crate::path::has_parent;
use crate::text::{blank, is_blank};

verus! {

/// The durable, user-editable configuration record: the compatibility-layer
/// path, the prefix directory, and the game executable path. An absent store
/// yields this record with three empty strings.
#[derive(Debug, Clone)]
pub struct AppConfig {
    /// Path of the compatibility-layer (Proton) entry point.
    pub proton: String,
    /// Path of the compatibility prefix (the per-game sandbox directory).
    pub prefix: String,
    /// Path of the game executable.
    pub game: String,
}

impl Default for AppConfig {
    /// The zero-value record: three empty strings.
    fn default() -> (r: AppConfig)
        ensures
            r.proton@ == Seq::<char>::empty(),
            r.prefix@ == Seq::<char>::empty(),
            r.game@ == Seq::<char>::empty(),
    {
        AppConfig { proton: String::new(), prefix: String::new(), game: String::new() }
    }
}

/// The compositor (Gamescope) settings that may wrap a launch. Width and
/// height only take effect together; either alone is treated as absent.
#[derive(Debug, Clone)]
pub struct GamescopeConfig {
    /// Whether the compositor is requested at all.
    pub enabled: bool,
    /// Output width in pixels; absent means the game's native resolution.
    pub width: Option<u32>,
    /// Output height in pixels; absent means the game's native resolution.
    pub height: Option<u32>,
    /// Whether to enable the FSR upscaler.
    pub use_fsr: bool,
    /// The upscaler mode, one of `"fsr1"` to `"fsr4"`; an absent or
    /// unrecognized mode falls back to the first.
    pub fsr_mode: Option<String>,
    /// Upscaler sharpness, 0 (softest) to 10 (sharpest).
    pub fsr_sharpness: Option<u32>,
    /// Fullscreen display.
    pub fullscreen: bool,
    /// Borderless window.
    pub borderless: bool,
    /// Vertical synchronisation.
    pub vsync: bool,
    /// Frame-rate cap; absent means uncapped.
    pub fps_limit: Option<u32>,
}

/// Everything one launch attempt needs: the three core paths and the
/// optional compositor settings.
#[derive(Debug, Clone)]
pub struct GameLaunchConfig {
    /// Path of the compatibility-layer (Proton) entry point.
    pub proton: String,
    /// Path of the compatibility prefix.
    pub prefix: String,
    /// Path of the game executable.
    pub game: String,
    /// Compositor settings; the compositor is used only when these are
    /// present, enabled, and the compositor binary is available.
    pub gamescope: Option<GamescopeConfig>,
}

/// What the validator decides for a given launch configuration: the first
/// empty-or-whitespace core field in the fixed order compat layer, prefix,
/// executable; then an executable path without a parent component; otherwise
/// acceptance.
pub open spec fn spec_validate(c: &GameLaunchConfig) -> Result<(), ValidationError> {
    if is_blank(c.proton@) {
        Err(ValidationError::EmptyField(ConfigField::CompatLayer))
    } else if is_blank(c.prefix@) {
        Err(ValidationError::EmptyField(ConfigField::Prefix))
    } else if is_blank(c.game@) {
        Err(ValidationError::EmptyField(ConfigField::Executable))
    } else if !has_parent(c.game@) {
        Err(ValidationError::UnresolvableDirectory)
    } else {
        Ok(())
    }
}

impl AppConfig {
    /// Whether all three core fields are filled in (none empty or
    /// whitespace-only).
    pub fn is_complete(&self) -> (b: bool)
        ensures
            b == (!is_blank(self.proton@) && !is_blank(self.prefix@) && !is_blank(self.game@)),
    {
        !(blank(self.proton.as_str()) || blank(self.prefix.as_str()) || blank(self.game.as_str()))
    }

    /// Turns the persisted record into a launch request without compositor
    /// settings, validating it first.
    pub fn into_launch_config(self) -> (r: AppResult<GameLaunchConfig>)
        ensures
            match r {
                Ok(l) => {
                    &&& l.proton@ == self.proton@
                    &&& l.prefix@ == self.prefix@
                    &&& l.game@ == self.game@
                    &&& l.gamescope is None
                    &&& spec_validate(&l) is Ok
                },
                Err(e) => {
                    &&& e matches AppError::Validation(v)
                    &&& Err::<(), ValidationError>(v) == spec_validate(
                        &GameLaunchConfig {
                            proton: self.proton,
                            prefix: self.prefix,
                            game: self.game,
                            gamescope: None,
                        },
                    )
                },
            },
    {
        let launch = GameLaunchConfig {
            proton: self.proton,
            prefix: self.prefix,
            game: self.game,
            gamescope: None,
        };
        match launch.validate() {
            Ok(()) => Ok(launch),
            Err(e) => Err(AppError::Validation(e)),
        }
    }
}

impl GameLaunchConfig {
    /// Rejects a configuration with an empty or whitespace-only core field
    /// (reporting the first such field in the fixed order), or an executable
    /// path without a parent directory component; accepts everything else.
    /// Pure check: no side effects, no coercion of invalid input.
    pub fn validate(&self) -> (r: Result<(), ValidationError>)
        ensures
            r == spec_validate(self),
    {
        if blank(self.proton.as_str()) {
            return Err(ValidationError::EmptyField(ConfigField::CompatLayer));
        }
        if blank(self.prefix.as_str()) {
            return Err(ValidationError::EmptyField(ConfigField::Prefix));
        }
        if blank(self.game.as_str()) {
            return Err(ValidationError::EmptyField(ConfigField::Executable));
        }
        if crate::path::parent_of(self.game.as_str()).is_none() {
            return Err(ValidationError::UnresolvableDirectory);
        }
        Ok(())
    }
}

/// Any configuration with an empty or whitespace-only core field fails
/// validation with `EmptyField`, naming the first such field in the fixed
/// order: compat layer, then prefix, then executable.
pub proof fn lemma_validate_empty_fields(c: GameLaunchConfig)
    requires
        is_blank(c.proton@) || is_blank(c.prefix@) || is_blank(c.game@),
    ensures
        spec_validate(&c) is Err,
        is_blank(c.proton@) ==> spec_validate(&c) == Err::<(), ValidationError>(
            ValidationError::EmptyField(ConfigField::CompatLayer),
        ),
        !is_blank(c.proton@) && is_blank(c.prefix@) ==> spec_validate(&c) == Err::<
            (),
            ValidationError,
        >(ValidationError::EmptyField(ConfigField::Prefix)),
        !is_blank(c.proton@) && !is_blank(c.prefix@) && is_blank(c.game@) ==> spec_validate(&c)
            == Err::<(), ValidationError>(ValidationError::EmptyField(ConfigField::Executable)),
{
}

/// Any configuration whose core fields are filled in but whose executable
/// path has no parent component (a bare file name with no separator) fails
/// validation with `UnresolvableDirectory`.
pub proof fn lemma_validate_unresolvable_directory(c: GameLaunchConfig)
    requires
        !is_blank(c.proton@),
        !is_blank(c.prefix@),
        !is_blank(c.game@),
        !has_parent(c.game@),
    ensures
        spec_validate(&c) == Err::<(), ValidationError>(ValidationError::UnresolvableDirectory),
{
}

} // verus!
