//! [`ConfigGet`], the configuration reader, and its builder.
//!
//! Reading files and probing the file system happen outside this crate's
//! verified code; the reader here takes the text of a file and the results
//! of such probes as plain values.

use indexmap::IndexMap;
use vstd::prelude::*;

use crate::discovery::{opt_text, search_dirs, search_dirs_spec, SearchEnv};
use crate::error::{ConfigError, Result};
use crate::format::{format_label, format_of_path, Format};
use crate::parsers::{dotenv_outline, env_map_with_keys, env_plain_values, format_outcome, parse_content};
use crate::path::{file_name, join, path_file_name, path_join, stem, stem_of};
use crate::table::{entries, has_key, lookup};
use crate::text::{concat, find_char, first_index, lemma_first_index};
use crate::value::{empty_model, holds_key, lookup_in, ConfigMap, ConfigMapModel};

verus! {

/// Cross-platform configuration file reader.
///
/// `ConfigGet` exposes a unified API for reading values regardless of the
/// underlying format.
#[derive(Debug)]
pub struct ConfigGet {
    stem: String,
    config_dir: String,
    data: ConfigMap,
    loaded_from: Option<String>,
}

/// Fluent builder for [`ConfigGet`].
#[derive(Debug)]
pub struct ConfigGetBuilder {
    stem: String,
    config_dir: String,
    explicit_path: Option<String>,
    auto_load: bool,
    create: bool,
}

/// The next thing that building a [`ConfigGet`] does.
#[derive(Debug)]
pub enum BuildAction {
    /// Nothing more: the configuration is ready.
    Finish,
    /// Load the file at this path.
    Load(String),
    /// Search the candidate paths for an existing file, then decide again.
    Search,
    /// Create an empty `.env` file and record it as the source.
    CreateDefault,
    /// Stop with this error.
    Fail(ConfigError),
}

/// The stem of the file that `path` names: that of its file name, or empty.
pub open spec fn file_stem_text(path: Seq<char>) -> Seq<char> {
    match path_file_name(path) {
        Some(n) => stem_of(n),
        None => Seq::empty(),
    }
}

/// The message of the error for a file whose format is not recognised.
pub open spec fn unrecognised_message() -> Seq<char> {
    "unrecognised file extension"@
}

/// Loading `content` from `path` succeeds with the map model `m`: the format
/// of `path` is known, and its parser gives `m` (for dotenv, `dotenvy`
/// accepts the text and `m` holds the pairs it read, with their keys in
/// order, and for plain `KEY=value` lines the values as written).
pub open spec fn loads_to(path: Seq<char>, content: Seq<char>, m: ConfigMapModel) -> bool {
    match format_of_path(path) {
        None => false,
        Some(Format::Env) => dotenv_outline(content) matches Ok(keys) && env_map_with_keys(m, keys) && env_plain_values(m, content),
        Some(f) => format_outcome(f, content) == Ok::<ConfigMapModel, Seq<char>>(m),
    }
}

/// Loading `content` from `path` fails with `e`: a parse error naming
/// `path`, whose message says that the format is unknown, or is the
/// parser's message.
pub open spec fn load_fails_with(path: Seq<char>, content: Seq<char>, e: ConfigError) -> bool {
    match format_of_path(path) {
        None => e matches ConfigError::Parse { path: p, message } && p@ == path && message@ == unrecognised_message(),
        Some(Format::Env) => dotenv_outline(content) matches Err(msg) && e matches ConfigError::Parse { path: p, message } && p@ == path && message@ == msg,
        Some(f) => format_outcome(f, content) matches Err(msg) && e matches ConfigError::Parse { path: p, message } && p@ == path && message@ == msg,
    }
}

/// The paths `dir/name` for every directory and, within it, every name.
pub open spec fn paths_under(dirs: Seq<Seq<char>>, names: Seq<Seq<char>>) -> Seq<Seq<char>>
    decreases dirs.len(),
{
    if dirs.len() == 0 {
        Seq::empty()
    } else {
        paths_under(dirs.drop_last(), names) + names.map_values(|n: Seq<char>| path_join(dirs.last(), n))
    }
}

/// The file names searched for a single format, in order: `.env`, or
/// `<stem>.ini`, `.toml`, `.json`, and for YAML `<stem>.yml` then
/// `<stem>.yaml`.
pub open spec fn format_files(stem: Seq<char>, format: Format) -> Seq<Seq<char>> {
    match format {
        Format::Env => seq![".env"@],
        Format::Ini => seq![stem + ".ini"@],
        Format::Toml => seq![stem + ".toml"@],
        Format::Json => seq![stem + ".json"@],
        Format::Yaml => seq![stem + ".yml"@, stem + ".yaml"@],
    }
}

/// What looking up a command-line key gives: a key holding a `.` is first
/// read as `section.key`, split at its first `.`, and then as a flat key;
/// any other key is a flat key.
pub open spec fn dotted_lookup(m: ConfigMapModel, key: Seq<char>) -> Option<Seq<char>> {
    let i = first_index(key, '.');
    if i >= 0 {
        match lookup_in(m.1, key.subrange(0, i), key.subrange(i + 1, key.len() as int)) {
            Some(v) => Some(v),
            None => lookup(m.0, key),
        }
    } else {
        lookup(m.0, key)
    }
}

/// The views of a vector of strings.
pub open spec fn texts(v: Seq<String>) -> Seq<Seq<char>> {
    v.map_values(|s: String| s@)
}

/// The paths `dir/name` for every directory of `dirs` and, within it,
/// every name of `names`.
fn paths_in(dirs: &Vec<String>, names: &Vec<String>) -> (r: Vec<String>)
    ensures
        texts(r@) == paths_under(texts(dirs@), texts(names@)),
{
    let ghost ds = texts(dirs@);
    let ghost ns = texts(names@);
    let mut out: Vec<String> = Vec::new();
    let mut i: usize = 0;
    assert(ds.take(0) =~= Seq::<Seq<char>>::empty());
    assert(texts(out@) =~= Seq::<Seq<char>>::empty());
    while i < dirs.len()
        invariant
            i <= dirs@.len(),
            ds == texts(dirs@),
            ns == texts(names@),
            texts(out@) == paths_under(ds.take(i as int), ns),
        decreases dirs@.len() - i,
    {
        assert(ds.take(i + 1).drop_last() =~= ds.take(i as int));
        assert(ds.take(i + 1).last() == dirs@[i as int]@);
        let ghost base = texts(out@);
        let mut j: usize = 0;
        while j < names.len()
            invariant
                j <= names@.len(),
                i < dirs@.len(),
                ns == texts(names@),
                texts(out@) == base + ns.take(j as int).map_values(|n: Seq<char>| path_join(dirs@[i as int]@, n)),
            decreases names@.len() - j,
        {
            let p = join(dirs[i].as_str(), names[j].as_str());
            let ghost before = texts(out@);
            out.push(p);
            assert(ns.take(j + 1) =~= ns.take(j as int).push(ns[j as int]));
            assert(texts(out@) =~= before.push(path_join(dirs@[i as int]@, ns[j as int])));
            assert(texts(out@) =~= base + ns.take(j + 1).map_values(|n: Seq<char>| path_join(dirs@[i as int]@, n)));
            j = j + 1;
        }
        assert(ns.take(names@.len() as int) =~= ns);
        i = i + 1;
    }
    assert(ds.take(dirs@.len() as int) =~= ds);
    out
}

impl ConfigGetBuilder {
    /// The stem being configured.
    pub closed spec fn stem_view(&self) -> Seq<char> {
        self.stem@
    }

    /// The sub-directory searched under each root.
    pub closed spec fn dir_view(&self) -> Seq<char> {
        self.config_dir@
    }

    /// The explicit path to load, if one was given.
    pub closed spec fn path_view(&self) -> Option<Seq<char>> {
        opt_text(self.explicit_path)
    }

    /// Whether building loads the configuration.
    pub closed spec fn auto_load_view(&self) -> bool {
        self.auto_load
    }

    /// Whether building creates an empty `.env` when nothing is found.
    pub closed spec fn create_view(&self) -> bool {
        self.create
    }

    fn new(stem: &str) -> (r: Self)
        ensures
            r.stem_view() == stem@,
            r.dir_view() == stem@,
            r.path_view() is None,
            r.auto_load_view(),
            !r.create_view(),
    {
        let stem = String::from_str(stem);
        let config_dir = stem.clone();
        ConfigGetBuilder { stem, config_dir, explicit_path: None, auto_load: true, create: false }
    }

    /// Set the sub-directory appended to each search root (default: same as stem).
    pub fn config_dir(self, dir: &str) -> (r: Self)
        ensures
            r.dir_view() == dir@,
            r.stem_view() == self.stem_view(),
            r.path_view() == self.path_view(),
            r.auto_load_view() == self.auto_load_view(),
            r.create_view() == self.create_view(),
    {
        let mut b = self;
        b.config_dir = String::from_str(dir);
        b
    }

    /// Load from an explicit path rather than auto-discovering.
    pub fn path(self, p: &str) -> (r: Self)
        ensures
            r.path_view() == Some(p@),
            r.stem_view() == self.stem_view(),
            r.dir_view() == self.dir_view(),
            r.auto_load_view() == self.auto_load_view(),
            r.create_view() == self.create_view(),
    {
        let mut b = self;
        b.explicit_path = Some(String::from_str(p));
        b
    }

    /// Whether to load when building (default: `true`).
    pub fn auto_load(self, v: bool) -> (r: Self)
        ensures
            r.auto_load_view() == v,
            r.stem_view() == self.stem_view(),
            r.dir_view() == self.dir_view(),
            r.path_view() == self.path_view(),
            r.create_view() == self.create_view(),
    {
        let mut b = self;
        b.auto_load = v;
        b
    }

    /// Create an empty `.env` file if no config is found (default: `false`).
    pub fn create(self, v: bool) -> (r: Self)
        ensures
            r.create_view() == v,
            r.stem_view() == self.stem_view(),
            r.dir_view() == self.dir_view(),
            r.path_view() == self.path_view(),
            r.auto_load_view() == self.auto_load_view(),
    {
        let mut b = self;
        b.create = v;
        b
    }

    /// The configuration that building starts from: nothing loaded yet.
    pub fn start(&self) -> (r: ConfigGet)
        ensures
            r.stem_view() == self.stem_view(),
            r.dir_view() == self.dir_view(),
            r.data_view() == empty_model(),
            r.source() is None,
    {
        ConfigGet {
            stem: self.stem.clone(),
            config_dir: self.config_dir.clone(),
            data: ConfigMap::new(),
            loaded_from: None,
        }
    }

    /// What building does next. `searched` is `None` before the candidate
    /// paths were searched, and then the first existing one, if any.
    ///
    /// Without auto-loading, nothing is loaded. With an explicit path, that
    /// path is loaded. Otherwise the candidates are searched; the first
    /// existing one is loaded, and when there is none an empty `.env` is
    /// created if asked, else building fails with
    /// [`ConfigError::NotFound`] naming the stem.
    pub fn next_action(&self, searched: Option<Option<String>>) -> (r: BuildAction)
        ensures
            !self.auto_load_view() ==> r is Finish,
            self.auto_load_view() && self.path_view() is Some ==> (r matches BuildAction::Load(p) && Some(p@)
                == self.path_view()),
            self.auto_load_view() && self.path_view() is None ==> match searched {
                None => r is Search,
                Some(Some(p)) => r matches BuildAction::Load(q) && q@ == p@,
                Some(None) => if self.create_view() {
                    r is CreateDefault
                } else {
                    r matches BuildAction::Fail(ConfigError::NotFound(s)) && s@ == self.stem_view()
                },
            },
    {
        if !self.auto_load {
            return BuildAction::Finish;
        }
        match &self.explicit_path {
            Some(p) => BuildAction::Load(p.clone()),
            None => match searched {
                None => BuildAction::Search,
                Some(Some(p)) => BuildAction::Load(p),
                Some(None) => if self.create {
                    BuildAction::CreateDefault
                } else {
                    BuildAction::Fail(ConfigError::NotFound(self.stem.clone()))
                },
            },
        }
    }
}

impl ConfigGet {
    /// The stem this configuration is for.
    pub closed spec fn stem_view(&self) -> Seq<char> {
        self.stem@
    }

    /// The sub-directory searched under each root.
    pub closed spec fn dir_view(&self) -> Seq<char> {
        self.config_dir@
    }

    /// The loaded entries.
    pub closed spec fn data_view(&self) -> ConfigMapModel {
        self.data@
    }

    /// The path the configuration was loaded from, if any.
    pub closed spec fn source(&self) -> Option<Seq<char>> {
        opt_text(self.loaded_from)
    }

    /// Create a builder for `stem`.
    pub fn builder(stem: &str) -> (r: ConfigGetBuilder)
        ensures
            r.stem_view() == stem@,
            r.dir_view() == stem@,
            r.path_view() is None,
            r.auto_load_view(),
            !r.create_view(),
    {
        ConfigGetBuilder::new(stem)
    }

    /// The configuration for the file at `path` before it is loaded: its stem
    /// and sub-directory are the file's stem (empty without a file name).
    pub fn for_path(path: &str) -> (r: ConfigGet)
        ensures
            r.stem_view() == file_stem_text(path@),
            r.dir_view() == file_stem_text(path@),
            r.data_view() == empty_model(),
            r.source() is None,
    {
        let s = match file_name(path) {
            Some(n) => stem(n.as_str()),
            None => String::new(),
        };
        ConfigGet { stem: s.clone(), config_dir: s, data: ConfigMap::new(), loaded_from: None }
    }

    /// The error for a file whose format is not recognised.
    pub fn unrecognised(path: &str) -> (r: ConfigError)
        ensures
            r matches ConfigError::Parse { path: p, message } && p@ == path@ && message@
                == unrecognised_message(),
    {
        ConfigError::Parse {
            path: String::from_str(path),
            message: String::from_str("unrecognised file extension"),
        }
    }

    /// (Re)load the configuration from `content`, the text of the file at
    /// `path`. On success the entries are replaced and `path` becomes the
    /// source; on error nothing changes.
    pub fn load_content(&mut self, path: &str, content: &str) -> (r: Result<()>)
        ensures
            r is Ok ==> loads_to(path@, content@, final(self).data_view()) && final(self).source() == Some(
                path@,
            ) && final(self).stem_view() == old(self).stem_view() && final(self).dir_view() == old(
                self,
            ).dir_view(),
            r matches Err(e) ==> load_fails_with(path@, content@, e) && *final(self) == *old(self),
    {
        let format = match Format::from_path(path) {
            Some(f) => f,
            None => return Err(Self::unrecognised(path)),
        };
        match parse_content(format, path, content) {
            Ok(m) => {
                self.data = m;
                self.loaded_from = Some(String::from_str(path));
                Ok(())
            },
            Err(e) => Err(e),
        }
    }

    /// Load directly from `content`, the text of the file at `path`.
    pub fn from_content(path: &str, content: &str) -> (r: Result<Self>)
        ensures
            r matches Ok(c) ==> loads_to(path@, content@, c.data_view()) && c.source() == Some(path@)
                && c.stem_view() == file_stem_text(path@) && c.dir_view() == file_stem_text(path@),
            r matches Err(e) ==> load_fails_with(path@, content@, e),
    {
        let mut cfg = Self::for_path(path);
        match cfg.load_content(path, content) {
            Ok(()) => Ok(cfg),
            Err(e) => Err(e),
        }
    }

    /// Record `path` as where the configuration came from, leaving the
    /// entries as they are (used when an empty file was created for it).
    pub fn set_loaded_from(&mut self, path: String)
        ensures
            final(self).source() == Some(path@),
            final(self).data_view() == old(self).data_view(),
            final(self).stem_view() == old(self).stem_view(),
            final(self).dir_view() == old(self).dir_view(),
    {
        self.loaded_from = Some(path);
    }

    /// The stem this configuration is for.
    pub fn stem(&self) -> (r: &str)
        ensures
            r@ == self.stem_view(),
    {
        self.stem.as_str()
    }

    /// The sub-directory searched under each root.
    pub fn config_dir(&self) -> (r: &str)
        ensures
            r@ == self.dir_view(),
    {
        self.config_dir.as_str()
    }

    // ── discovery ─────────────────────────────────────────────────────────

    /// Return the list of candidate paths that would be searched, in order:
    /// for each search directory, each candidate file name.
    pub fn search_paths(stem: &str, config_dir: &str, env: &SearchEnv) -> (r: Vec<String>)
        ensures
            texts(r@) == paths_under(search_dirs_spec(*env, config_dir@), crate::format::candidate_names(stem@)),
    {
        let names = Format::candidates(stem);
        let dirs = search_dirs(config_dir, env);
        assert(texts(names@) =~= crate::format::candidate_names(stem@));
        assert(texts(dirs@) =~= search_dirs_spec(*env, config_dir@));
        paths_in(&dirs, &names)
    }

    /// The file names searched for when only `format` is wanted.
    pub fn format_file_names(stem: &str, format: Format) -> (r: Vec<String>)
        ensures
            texts(r@) == format_files(stem@, format),
    {
        let mut v: Vec<String> = Vec::new();
        match format {
            Format::Env => v.push(String::from_str(".env")),
            Format::Ini => v.push(concat(stem, ".ini")),
            Format::Toml => v.push(concat(stem, ".toml")),
            Format::Json => v.push(concat(stem, ".json")),
            Format::Yaml => {
                v.push(concat(stem, ".yml"));
                v.push(concat(stem, ".yaml"));
            },
        }
        assert(texts(v@) =~= format_files(stem@, format));
        v
    }

    /// The paths searched when only `format` is wanted: for each search
    /// directory, that format's file names.
    pub fn format_search_paths(stem: &str, config_dir: &str, format: Format, env: &SearchEnv) -> (r: Vec<String>)
        ensures
            texts(r@) == paths_under(search_dirs_spec(*env, config_dir@), format_files(stem@, format)),
    {
        let names = Self::format_file_names(stem, format);
        let dirs = search_dirs(config_dir, env);
        assert(texts(dirs@) =~= search_dirs_spec(*env, config_dir@));
        paths_in(&dirs, &names)
    }

    /// The error when no file of `format` exists: [`ConfigError::NotFound`]
    /// naming `<stem> (<format>)`.
    pub fn format_not_found(stem: &str, format: Format) -> (r: ConfigError)
        ensures
            r matches ConfigError::NotFound(s) && s@ == stem@ + " ("@ + format_label(format) + ")"@,
    {
        let mut s = String::from_str(stem);
        s.append(" (");
        s.append(format.as_str());
        s.append(")");
        ConfigError::NotFound(s)
    }

    /// Where an empty configuration is created: `.env` in the first search
    /// directory, or an error when there is none.
    pub fn default_config_path(dirs: &Vec<String>) -> (r: Result<String>)
        ensures
            dirs@.len() > 0 ==> (r matches Ok(p) && p@ == path_join(dirs@[0]@, ".env"@)),
            dirs@.len() == 0 ==> (r matches Err(ConfigError::Other(m)) && m@
                == "could not determine a directory to create config in"@),
    {
        if dirs.len() == 0 {
            return Err(
                ConfigError::Other(
                    String::from_str("could not determine a directory to create config in"),
                ),
            );
        }
        Ok(join(dirs[0].as_str(), ".env"))
    }

    /// The text written to a newly created empty configuration.
    pub fn default_config_text() -> (r: &'static str)
        ensures
            r@ == "# config-get generated empty config\n"@,
    {
        "# config-get generated empty config\n"
    }

    // ── getters ───────────────────────────────────────────────────────────

    /// Look up a flat key, returning `None` if absent.
    pub fn get(&self, key: &str) -> (r: Option<&str>)
        ensures
            match r {
                Some(v) => lookup(self.data_view().0, key@) == Some(v@),
                None => lookup(self.data_view().0, key@) is None,
            },
    {
        self.data.get_flat(key)
    }

    /// Look up a flat key with a default fallback value.
    pub fn get_or<'a>(&'a self, key: &str, fallback: &'a str) -> (r: &'a str)
        ensures
            r@ == match lookup(self.data_view().0, key@) {
                Some(v) => v,
                None => fallback@,
            },
    {
        match self.get(key) {
            Some(v) => v,
            None => fallback,
        }
    }

    /// Look up a flat key, returning `Err` if absent.
    pub fn require(&self, key: &str) -> (r: Result<&str>)
        ensures
            match lookup(self.data_view().0, key@) {
                Some(v) => r matches Ok(x) && x@ == v,
                None => r matches Err(ConfigError::KeyNotFound(k)) && k@ == key@,
            },
    {
        match self.get(key) {
            Some(v) => Ok(v),
            None => Err(ConfigError::KeyNotFound(String::from_str(key))),
        }
    }

    /// Look up `key` inside `section`, returning `None` if absent.
    pub fn get_in(&self, section: &str, key: &str) -> (r: Option<&str>)
        ensures
            match r {
                Some(v) => lookup_in(self.data_view().1, section@, key@) == Some(v@),
                None => lookup_in(self.data_view().1, section@, key@) is None,
            },
    {
        self.data.get_in_section(section, key)
    }

    /// Look up a command-line key: `section.key` (split at the first `.`)
    /// inside that section, falling back to the whole key as a flat key;
    /// a key without a `.` is a flat key.
    pub fn get_dotted(&self, key: &str) -> (r: Option<&str>)
        ensures
            match r {
                Some(v) => dotted_lookup(self.data_view(), key@) == Some(v@),
                None => dotted_lookup(self.data_view(), key@) is None,
            },
    {
        proof {
            lemma_first_index(key@, '.');
        }
        match find_char(key, '.') {
            Some(i) => {
                let n = key.unicode_len();
                let section = key.substring_char(0, i);
                let k = key.substring_char(i + 1, n);
                match self.get_in(section, k) {
                    Some(v) => Some(v),
                    None => self.get(key),
                }
            },
            None => self.get(key),
        }
    }

    /// The value converted from a key's text, or, when the conversion
    /// failed with `reason`, the error [`Self::conversion_error`] gives for
    /// `label`.
    pub fn converted<T>(&self, label: &str, outcome: std::result::Result<T, String>) -> (r: Result<T>)
        ensures
            match outcome {
                Ok(v) => r matches Ok(w) && w == v,
                Err(reason) => r matches Err(ConfigError::Parse { path, message }) && path@ == match self.source() {
                    Some(p) => p,
                    None => Seq::empty(),
                } && message@ == "key '"@ + label@ + "': "@ + reason@,
            },
    {
        match outcome {
            Ok(v) => Ok(v),
            Err(reason) => Err(self.conversion_error(label, reason.as_str())),
        }
    }

    /// Like [`Self::converted`], for `key` inside `section`: the label is
    /// `section.key`.
    pub fn converted_in<T>(&self, section: &str, key: &str, outcome: std::result::Result<T, String>) -> (r: Result<T>)
        ensures
            match outcome {
                Ok(v) => r matches Ok(w) && w == v,
                Err(reason) => r matches Err(ConfigError::Parse { path, message }) && path@ == match self.source() {
                    Some(p) => p,
                    None => Seq::empty(),
                } && message@ == "key '"@ + section@ + "."@ + key@ + "': "@ + reason@,
            },
    {
        let mut label = String::from_str(section);
        label.append(".");
        label.append(key);
        let r = self.converted(label.as_str(), outcome);
        proof {
            assert(label@ == section@ + "."@ + key@);
            assert("key '"@ + label@ + "': "@ =~= "key '"@ + section@ + "."@ + key@ + "': "@);
        }
        r
    }

    /// Look up `key` inside `section` with a default fallback value.
    pub fn get_in_or<'a>(&'a self, section: &str, key: &str, fallback: &'a str) -> (r: &'a str)
        ensures
            r@ == match lookup_in(self.data_view().1, section@, key@) {
                Some(v) => v,
                None => fallback@,
            },
    {
        match self.get_in(section, key) {
            Some(v) => v,
            None => fallback,
        }
    }

    /// Look up `key` inside `section`, returning `Err` if absent; the error
    /// names `section.key`.
    pub fn require_in(&self, section: &str, key: &str) -> (r: Result<&str>)
        ensures
            match lookup_in(self.data_view().1, section@, key@) {
                Some(v) => r matches Ok(x) && x@ == v,
                None => r matches Err(ConfigError::KeyNotFound(k)) && k@ == section@ + "."@ + key@,
            },
    {
        match self.get_in(section, key) {
            Some(v) => Ok(v),
            None => {
                let mut k = String::from_str(section);
                k.append(".");
                k.append(key);
                Err(ConfigError::KeyNotFound(k))
            },
        }
    }

    /// Return a copy of all key/value pairs in `section`.
    pub fn get_section(&self, section: &str) -> (r: Result<IndexMap<String, String>>)
        ensures
            match lookup(self.data_view().1, section@) {
                Some(t) => r matches Ok(m) && entries(m) == t,
                None => r matches Err(ConfigError::SectionNotFound(s)) && s@ == section@,
            },
    {
        match self.data.get_section(section) {
            Some(t) => Ok(crate::table::table_clone(t)),
            None => Err(ConfigError::SectionNotFound(String::from_str(section))),
        }
    }

    /// Return a copy of the entire configuration as a [`ConfigMap`].
    pub fn all(&self) -> (r: ConfigMap)
        ensures
            r@ == self.data_view(),
    {
        self.data.clone()
    }

    /// The path the configuration was loaded from, if any.
    pub fn loaded_from(&self) -> (r: Option<&str>)
        ensures
            match r {
                Some(p) => self.source() == Some(p@),
                None => self.source() is None,
            },
    {
        match &self.loaded_from {
            Some(p) => Some(p.as_str()),
            None => None,
        }
    }

    /// The text of the source path, or empty.
    fn source_text(&self) -> (r: String)
        ensures
            r@ == match self.source() {
                Some(p) => p,
                None => Seq::empty(),
            },
    {
        match &self.loaded_from {
            Some(p) => p.clone(),
            None => String::new(),
        }
    }

    // ── typed helpers ─────────────────────────────────────────────────────

    /// The error for a value that could not be converted to the requested
    /// type: [`ConfigError::Parse`] naming the source path (empty without
    /// one), with the message `key '<label>': <reason>`. `label` is the key,
    /// or `section.key` for a sectioned value.
    pub fn conversion_error(&self, label: &str, reason: &str) -> (r: ConfigError)
        ensures
            r matches ConfigError::Parse { path, message } && path@ == match self.source() {
                Some(p) => p,
                None => Seq::empty(),
            } && message@ == "key '"@ + label@ + "': "@ + reason@,
    {
        let mut message = String::from_str("key '");
        message.append(label);
        message.append("': ");
        message.append(reason);
        ConfigError::Parse { path: self.source_text(), message }
    }

    // ── iteration ─────────────────────────────────────────────────────────

    /// All flat key/value pairs, in order.
    pub fn iter(&self) -> (r: Vec<(String, String)>)
        ensures
            r@.len() == self.data_view().0.len(),
            forall|i: int| 0 <= i < r@.len() ==> (#[trigger] r@[i].0@, r@[i].1@) == self.data_view().0[i],
    {
        self.data.flat_iter()
    }

    /// All section names, in order.
    pub fn sections(&self) -> (r: Vec<String>)
        ensures
            r@.len() == self.data_view().1.len(),
            forall|i: int| 0 <= i < r@.len() ==> #[trigger] r@[i]@ == self.data_view().1[i].0,
    {
        let all = self.data.sections();
        let mut out: Vec<String> = Vec::new();
        let mut i: usize = 0;
        while i < all.len()
            invariant
                i <= all@.len(),
                all@.len() == self.data_view().1.len(),
                forall|j: int| 0 <= j < all@.len() ==> (#[trigger] all@[j].0@, entries(all@[j].1)) == self.data_view().1[j],
                out@.len() == i,
                forall|j: int| 0 <= j < i ==> #[trigger] out@[j]@ == self.data_view().1[j].0,
            decreases all@.len() - i,
        {
            out.push(all[i].0.clone());
            i = i + 1;
        }
        out
    }

    /// Number of top-level entries (flat keys + section names).
    pub fn len(&self) -> (r: usize)
        requires
            self.data_view().0.len() + self.data_view().1.len() <= usize::MAX,
        ensures
            r == self.data_view().0.len() + self.data_view().1.len(),
    {
        self.data.len()
    }

    /// True if there are no entries at all.
    pub fn is_empty(&self) -> (r: bool)
        ensures
            r == (self.data_view().0.len() == 0 && self.data_view().1.len() == 0),
    {
        self.data.is_empty()
    }

    /// True if the flat map or any section contains `key`.
    pub fn contains_key(&self, key: &str) -> (r: bool)
        ensures
            r == holds_key(self.data_view(), key@),
    {
        self.data.contains_key(key)
    }
}

impl<'k> vstd::std_specs::core::IndexSpecImpl<&'k str> for ConfigGet {
    open spec fn index_req(&self, key: &&'k str) -> bool {
        has_key(self.data_view().0, key@)
    }
}

/// Index into the config by flat key; the key must be present.
impl<'k> std::ops::Index<&'k str> for ConfigGet {
    type Output = str;

    fn index(&self, key: &'k str) -> (r: &str)
        ensures
            lookup(self.data_view().0, key@) == Some(r@),
    {
        match self.get(key) {
            Some(v) => v,
            None => "",
        }
    }
}

} // verus!
