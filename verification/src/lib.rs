//! # config-get
//!
//! Cross-platform configuration file locator and reader.
//!
//! This crate holds the verified core: the data model of a configuration,
//! the parsers that fill it from `.env`, `.ini`, `.toml`, `.json` and
//! `.yml`/`.yaml` text, format detection, the ordered search for
//! configuration files, and the reader that answers lookups. Every function
//! carries a contract that Verus checks.

pub mod colors;
pub mod config;
pub mod config_get;
pub mod discovery;
pub mod error;
pub mod format;
pub mod laws;
pub mod node;
pub mod parsers;
pub mod path;
pub mod pattern;
pub mod remote;
pub mod status;
pub mod table;
pub mod text;
pub mod value;

pub use config_get::ConfigGet;
pub use config_get::ConfigGetBuilder;
pub use discovery::SearchEnv;
pub use error::{ConfigError, Result};
pub use format::Format;
pub use value::ConfigMap;
