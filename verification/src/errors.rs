//! Error taxonomy of the pipeline.
//!
//! A `ConfigError` is fatal: it aborts the run before any file is touched.
//! A `SkipReason` is recoverable: the single file is skipped and the run
//! continues.

use vstd::prelude::*;

verus! {

/// A fatal configuration error: the run aborts before any file is processed.
#[derive(Clone, Copy, Debug, PartialEq, Eq, Structural)]
pub enum ConfigError {
    /// The requested optimisation level is outside `0..=9`.
    InvalidOptLevel,
    /// No file argument was given.
    MissingFileArgument,
    /// The first argument was a Windows-style help request (`/?`).
    WindowsStyleArgs,
    /// The requested minimum logging level is outside `0..=4`.
    InvalidLogLevel,
}

/// A recoverable condition: the affected file is skipped, the run continues.
#[derive(Clone, Copy, Debug, PartialEq, Eq, Structural)]
pub enum SkipReason {
    /// The file name ends in none of `.png`, `.jpg`, `.jpeg`.
    UnsupportedExtension,
    /// The sniffed content type disagrees with the extension-implied type.
    TypeMismatch,
    /// The path could not be canonicalised (for instance, it does not exist).
    CanonicalizationFailure,
}

impl SkipReason {
    /// A human-readable description of why the file is skipped.
    pub fn message(&self) -> (r: &'static str)
        ensures
            *self == SkipReason::UnsupportedExtension ==> r@ == "unknown file extension"@,
            *self == SkipReason::TypeMismatch ==> r@ == "the file's content does not match its extension"@,
            *self == SkipReason::CanonicalizationFailure ==> r@ == "the path cannot be canonicalised"@,
    {
        match self {
            SkipReason::UnsupportedExtension => "unknown file extension",
            SkipReason::TypeMismatch => "the file's content does not match its extension",
            SkipReason::CanonicalizationFailure => "the path cannot be canonicalised",
        }
    }
}

impl ConfigError {
    /// A human-readable description of the error.
    pub fn message(&self) -> (r: &'static str)
        ensures
            *self == ConfigError::InvalidOptLevel ==> r@ == "Invalid range, opt_level must be between 0 and 9 inclusive."@,
            *self == ConfigError::MissingFileArgument ==> r@ == "File argument is required but is missing. Run me with --help for assistance."@,
            *self == ConfigError::WindowsStyleArgs ==> r@ == "Sorry, I don't support Windows-style CLI args yet. Try using -h or --help instead."@,
            *self == ConfigError::InvalidLogLevel ==> r@ == "Unknown/unsupported minimum_logging_level"@,
    {
        match self {
            ConfigError::InvalidOptLevel => "Invalid range, opt_level must be between 0 and 9 inclusive.",
            ConfigError::MissingFileArgument => "File argument is required but is missing. Run me with --help for assistance.",
            ConfigError::WindowsStyleArgs => "Sorry, I don't support Windows-style CLI args yet. Try using -h or --help instead.",
            ConfigError::InvalidLogLevel => "Unknown/unsupported minimum_logging_level",
        }
    }
}

} // verus!
