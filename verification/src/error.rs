//! Error types for this crate.

use vstd::prelude::*;

use crate::text::starts_with;

verus! {

#[verifier::external_type_specification]
#[verifier::external_body]
pub struct ExIoError(std::io::Error);

/// All errors that can occur while locating, reading or querying a
/// configuration.
#[derive(Debug)]
pub enum ConfigError {
    /// No configuration file was found in any of the searched paths.
    NotFound(String),
    /// The file could not be read from disk.
    Io {
        /// Path of the file that could not be read.
        path: String,
        /// Underlying I/O error.
        source: std::io::Error,
    },
    /// The file content could not be parsed.
    Parse {
        /// Path of the file that failed to parse.
        path: String,
        /// Human-readable description of the parse failure.
        message: String,
    },
    /// A required key was not found in the config.
    KeyNotFound(String),
    /// The requested section was not found.
    SectionNotFound(String),
    /// A feature required to handle this format is not enabled.
    FeatureNotEnabled {
        /// The Cargo feature that must be enabled.
        feature: &'static str,
    },
    /// Generic / unexpected error.
    Other(String),
}

/// Convenience alias used throughout the crate.
pub type Result<T, E = ConfigError> = std::result::Result<T, E>;

/// `Display` of an I/O error: the operating system's description of it.
#[verifier::external_body]
fn io_error_text(e: &std::io::Error) -> String {
    e.to_string()
}

/// The message of an error, for every variant but [`ConfigError::Io`],
/// whose message ends with the operating system's text for the I/O error.
pub open spec fn error_message(e: ConfigError) -> Seq<char> {
    match e {
        ConfigError::NotFound(s) => "no configuration file found for '"@ + s@ + "'"@,
        ConfigError::Io { path, .. } => "I/O error reading '"@ + path@ + "': "@,
        ConfigError::Parse { path, message } => "parse error in '"@ + path@ + "': "@ + message@,
        ConfigError::KeyNotFound(s) => "key not found: '"@ + s@ + "'"@,
        ConfigError::SectionNotFound(s) => "section not found: '"@ + s@ + "'"@,
        ConfigError::FeatureNotEnabled { feature } => "feature '"@ + feature@
            + "' is not enabled; recompile with `--features "@ + feature@ + "`"@,
        ConfigError::Other(s) => s@,
    }
}

impl ConfigError {
    /// The human-readable message of this error.
    pub fn message(&self) -> (r: String)
        ensures
            self is Io ==> starts_with(r@, error_message(*self)),
            !(self is Io) ==> r@ == error_message(*self),
    {
        match self {
            ConfigError::NotFound(s) => {
                let mut r = String::from_str("no configuration file found for '");
                r.append(s.as_str());
                r.append("'");
                r
            },
            ConfigError::Io { path, source } => {
                let mut r = String::from_str("I/O error reading '");
                r.append(path.as_str());
                r.append("': ");
                let ghost head = r@;
                let t = io_error_text(source);
                r.append(t.as_str());
                assert(r@.subrange(0, head.len() as int) =~= head);
                r
            },
            ConfigError::Parse { path, message } => {
                let mut r = String::from_str("parse error in '");
                r.append(path.as_str());
                r.append("': ");
                r.append(message.as_str());
                r
            },
            ConfigError::KeyNotFound(s) => {
                let mut r = String::from_str("key not found: '");
                r.append(s.as_str());
                r.append("'");
                r
            },
            ConfigError::SectionNotFound(s) => {
                let mut r = String::from_str("section not found: '");
                r.append(s.as_str());
                r.append("'");
                r
            },
            ConfigError::FeatureNotEnabled { feature } => {
                let mut r = String::from_str("feature '");
                r.append(feature);
                r.append("' is not enabled; recompile with `--features ");
                r.append(feature);
                r.append("`");
                r
            },
            ConfigError::Other(s) => s.clone(),
        }
    }
}

} // verus!
