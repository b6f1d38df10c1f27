//! A verified core for a lossless image-optimisation pipeline.
//!
//! The library maps an optimisation level to the exact argument lists of
//! three external compression tools, classifies input files by extension
//! and sniffed content type, and plans the per-file tool invocations.
//! All I/O (content sniffing, path canonicalisation, process spawning)
//! is left to the surrounding application; the logic here is pure and
//! carries full functional contracts.

pub mod classify;
pub mod errors;
pub mod logging;
pub mod pipeline;
pub mod profile;

pub use errors::ConfigError;
pub use errors::SkipReason;
