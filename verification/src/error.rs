//! The error taxonomy of the launcher: recoverable configuration problems,
//! terminal spawn failures, store problems, and per-process operation
//! failures. Every error flattens to a human-readable message for the caller.

use vstd::prelude::*;
use vstd::string::*;

verus! {

/// The three core configuration fields, in the order the validator checks
/// them.
#[derive(Clone, Copy, Debug, PartialEq, Eq, Structural)]
pub enum ConfigField {
    CompatLayer,
    Prefix,
    Executable,
}

/// Why a launch configuration was rejected before anything was spawned.
#[derive(Clone, Copy, Debug, PartialEq, Eq, Structural)]
pub enum ValidationError {
    /// The named field is empty or whitespace-only; the field is the first
    /// failing one in the fixed order compat layer, prefix, executable.
    EmptyField(ConfigField),
    /// The executable path has no parent directory component.
    UnresolvableDirectory,
}

/// All errors the library reports.
#[derive(Debug)]
pub enum AppError {
    /// The configuration store's location is unavailable.
    ConfigPath(String),
    /// The launch configuration was rejected; nothing was spawned.
    Validation(ValidationError),
    /// The OS refused to create the child process; carries the OS error text.
    Spawn(String),
    /// The stored configuration exists but cannot be decoded.
    Serialization(String),
    /// A process-table operation failed.
    Process(String),
}

pub type AppResult<T> = Result<T, AppError>;

/// The message for each validation failure.
pub open spec fn spec_validation_message(e: ValidationError) -> Seq<char> {
    match e {
        ValidationError::EmptyField(ConfigField::CompatLayer) => "Compatibility layer path must not be empty"@,
        ValidationError::EmptyField(ConfigField::Prefix) => "Prefix directory must not be empty"@,
        ValidationError::EmptyField(ConfigField::Executable) => "Game executable path must not be empty"@,
        ValidationError::UnresolvableDirectory => "Cannot resolve the game's directory"@,
    }
}

/// The message for each library error.
pub open spec fn spec_app_error_message(e: AppError) -> Seq<char> {
    match e {
        AppError::ConfigPath(s) => "Config path unavailable: "@ + s@,
        AppError::Validation(v) => spec_validation_message(v),
        AppError::Spawn(s) => s@,
        AppError::Serialization(s) => "Invalid stored configuration: "@ + s@,
        AppError::Process(s) => "Process operation failed: "@ + s@,
    }
}

impl ValidationError {
    /// The human-readable message for this validation failure.
    pub fn user_message(&self) -> (r: String)
        ensures
            r@ == spec_validation_message(*self),
    {
        match self {
            ValidationError::EmptyField(ConfigField::CompatLayer) => String::from_str(
                "Compatibility layer path must not be empty",
            ),
            ValidationError::EmptyField(ConfigField::Prefix) => String::from_str(
                "Prefix directory must not be empty",
            ),
            ValidationError::EmptyField(ConfigField::Executable) => String::from_str(
                "Game executable path must not be empty",
            ),
            ValidationError::UnresolvableDirectory => String::from_str(
                "Cannot resolve the game's directory",
            ),
        }
    }
}

impl AppError {
    /// The human-readable message for this error.
    pub fn user_message(&self) -> (r: String)
        ensures
            r@ == spec_app_error_message(*self),
    {
        match self {
            AppError::ConfigPath(s) => {
                let mut r = String::from_str("Config path unavailable: ");
                r.append(s.as_str());
                r
            },
            AppError::Validation(v) => v.user_message(),
            AppError::Spawn(s) => String::from_str(s.as_str()),
            AppError::Serialization(s) => {
                let mut r = String::from_str("Invalid stored configuration: ");
                r.append(s.as_str());
                r
            },
            AppError::Process(s) => {
                let mut r = String::from_str("Process operation failed: ");
                r.append(s.as_str());
                r
            },
        }
    }
}

} // verus!
