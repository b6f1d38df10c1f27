//! Logging-level selection.
//!
//! The pipeline logs through an external sink that accepts leveled
//! messages. Which minimum severity that sink is opened with is decided
//! here; installing the sink itself is left to the application.

use vstd::prelude::*;

use crate::errors::ConfigError;

verus! {

/// A minimum logging severity, from most to least verbose.
#[derive(Clone, Copy, Debug, PartialEq, Eq, Structural)]
pub enum LogLevel {
    Trace,
    Debug,
    Info,
    Warn,
    Error,
}

/// Maps a numeric minimum logging level to a severity: `0` is the most
/// verbose (trace), `4` the least (error). Fails if and only if the
/// number is outside `0..=4`.
pub fn log_level_for(minimum_logging_level: u8) -> (r: Result<LogLevel, ConfigError>)
    ensures
        r is Ok <==> minimum_logging_level <= 4,
        minimum_logging_level == 0 ==> r == Ok::<LogLevel, ConfigError>(LogLevel::Trace),
        minimum_logging_level == 1 ==> r == Ok::<LogLevel, ConfigError>(LogLevel::Debug),
        minimum_logging_level == 2 ==> r == Ok::<LogLevel, ConfigError>(LogLevel::Info),
        minimum_logging_level == 3 ==> r == Ok::<LogLevel, ConfigError>(LogLevel::Warn),
        minimum_logging_level == 4 ==> r == Ok::<LogLevel, ConfigError>(LogLevel::Error),
        r matches Err(e) ==> e == ConfigError::InvalidLogLevel,
{
    match minimum_logging_level {
        0 => Ok(LogLevel::Trace),
        1 => Ok(LogLevel::Debug),
        2 => Ok(LogLevel::Info),
        3 => Ok(LogLevel::Warn),
        4 => Ok(LogLevel::Error),
        _ => Err(ConfigError::InvalidLogLevel),
    }
}

} // verus!
