//! Supported file formats and their detection from file names.

use vstd::prelude::*;

use crate::path::{extension, extension_of, file_name, path_file_name};
use crate::text::{ends_with, has_prefix, has_suffix, same_text, starts_with};

verus! {

/// Supported configuration file formats.
#[derive(Debug, Clone, Copy, PartialEq, Eq, Hash, Structural)]
pub enum Format {
    /// Shell-style `KEY=VALUE` / dotenv files (`.env`)
    Env,
    /// Windows-style `.ini` files with `[sections]`
    Ini,
    /// TOML files
    Toml,
    /// JSON files
    Json,
    /// YAML files (`.yml` / `.yaml`)
    Yaml,
}

/// The format that a file name denotes: a dotenv file when the name is
/// `.env`, starts with `.env.` or ends with `.env`; otherwise the format of
/// its extension (`ini`, `toml`, `json`, `yml` or `yaml`), if any.
pub open spec fn format_of_name(name: Seq<char>) -> Option<Format> {
    if name == ".env"@ || starts_with(name, ".env."@) || ends_with(name, ".env"@) {
        Some(Format::Env)
    } else {
        match extension_of(name) {
            Some(e) => if e == "ini"@ {
                Some(Format::Ini)
            } else if e == "toml"@ {
                Some(Format::Toml)
            } else if e == "json"@ {
                Some(Format::Json)
            } else if e == "yml"@ || e == "yaml"@ {
                Some(Format::Yaml)
            } else {
                None
            },
            None => None,
        }
    }
}

/// The format of a path: that of its file name, none without one.
pub open spec fn format_of_path(path: Seq<char>) -> Option<Format> {
    match path_file_name(path) {
        Some(n) => format_of_name(n),
        None => None,
    }
}

/// The label of a format.
pub open spec fn format_label(f: Format) -> Seq<char> {
    match f {
        Format::Env => "env"@,
        Format::Ini => "ini"@,
        Format::Toml => "toml"@,
        Format::Json => "json"@,
        Format::Yaml => "yaml"@,
    }
}

/// The candidate file names for `stem`, in the order they are checked:
/// `.env`, then `<stem>.ini`, `.toml`, `.json`, `.yml` and `.yaml`.
pub open spec fn candidate_names(stem: Seq<char>) -> Seq<Seq<char>> {
    seq![
        ".env"@,
        stem + ".ini"@,
        stem + ".toml"@,
        stem + ".json"@,
        stem + ".yml"@,
        stem + ".yaml"@,
    ]
}

impl Format {
    /// Detect the format of a file from its name.
    pub fn from_file_name(name: &str) -> (r: Option<Self>)
        ensures
            r == format_of_name(name@),
    {
        if same_text(name, ".env") || has_prefix(name, ".env.") || has_suffix(name, ".env") {
            return Some(Format::Env);
        }
        match extension(name) {
            Some(e) => {
                let e = e.as_str();
                if same_text(e, "ini") {
                    Some(Format::Ini)
                } else if same_text(e, "toml") {
                    Some(Format::Toml)
                } else if same_text(e, "json") {
                    Some(Format::Json)
                } else if same_text(e, "yml") || same_text(e, "yaml") {
                    Some(Format::Yaml)
                } else {
                    None
                }
            },
            None => None,
        }
    }

    /// Detect format from file extension.
    ///
    /// Returns `None` if the extension is unrecognised.
    pub fn from_path(path: &str) -> (r: Option<Self>)
        ensures
            r == format_of_path(path@),
    {
        match file_name(path) {
            Some(n) => Self::from_file_name(n.as_str()),
            None => None,
        }
    }

    /// Human-readable label for this format.
    pub fn as_str(self) -> (r: &'static str)
        ensures
            r@ == format_label(self),
    {
        match self {
            Format::Env => "env",
            Format::Ini => "ini",
            Format::Toml => "toml",
            Format::Json => "json",
            Format::Yaml => "yaml",
        }
    }

    /// Returns the canonical file names checked for each format, in priority order.
    pub fn candidates(stem: &str) -> (r: Vec<String>)
        ensures
            r@.len() == 6,
            forall|i: int| 0 <= i < 6 ==> #[trigger] r@[i]@ == candidate_names(stem@)[i],
    {
        let mut r: Vec<String> = Vec::new();
        r.push(String::from_str(".env"));
        r.push(String::from_str(stem).concat(".ini"));
        r.push(String::from_str(stem).concat(".toml"));
        r.push(String::from_str(stem).concat(".json"));
        r.push(String::from_str(stem).concat(".yml"));
        r.push(String::from_str(stem).concat(".yaml"));
        r
    }
}

} // verus!
