//! The error taxonomy for configuration operations.

use vstd::prelude::*;
use vstd::string::*;

verus! {

/// Why a configuration operation failed: no home directory could be
/// resolved, the given URL failed validation, or a filesystem or JSON
/// step went wrong.
#[derive(Debug)]
pub enum ConfigError {
    MissingHomeDir,
    InvalidUrl(String),
    Io(String),
    Json(String),
}

/// The human-readable text of an error, as `message` returns it.
pub open spec fn message_of(e: &ConfigError) -> Seq<char> {
    match e {
        ConfigError::MissingHomeDir => "missing user home directory"@,
        ConfigError::InvalidUrl(d) => "invalid url: "@ + d@,
        ConfigError::Io(d) => "io error: "@ + d@,
        ConfigError::Json(d) => "json error: "@ + d@,
    }
}

impl ConfigError {
    /// The descriptive string that crosses the boundary to the caller.
    pub fn message(&self) -> (r: String)
        ensures
            r@ == message_of(self),
    {
        match self {
            ConfigError::MissingHomeDir => String::from_str("missing user home directory"),
            ConfigError::InvalidUrl(d) => String::from_str("invalid url: ").concat(d.as_str()),
            ConfigError::Io(d) => String::from_str("io error: ").concat(d.as_str()),
            ConfigError::Json(d) => String::from_str("json error: ").concat(d.as_str()),
        }
    }
}

} // verus!
