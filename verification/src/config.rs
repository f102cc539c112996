//! Colour settings and application settings, with their defaults.

use vstd::prelude::*;

use crate::discovery::{first_existing, first_found, opt_text};
use crate::path::{join, path_join};

verus! {

/// Colours for each kind of status output, as hex text (`#RRGGBB` or
/// `#RGB`; empty for none).
#[derive(Debug)]
pub struct ColorConfig {
    pub modified: String,
    pub deleted: String,
    pub new_file: String,
    pub renamed: String,
    pub added: String,
    pub untracked: String,
    pub staged: String,
    pub not_staged: String,
    pub header: String,
    pub branch: String,
    pub up_to_date: String,
    pub ahead_behind: String,
    pub hint: String,
    pub cwd_label: String,
    pub cwd_path: String,
    pub remote_url: String,
    pub remote_pr: String,
    pub remote_issue: String,
    pub arrow: String,
    pub tree_dir: String,
    pub tree_file: String,
}

/// Application settings.
#[derive(Debug)]
pub struct AppConfig {
    /// Whether untracked files are shown as a tree.
    pub tree_mode: bool,
    /// The colours.
    pub colors: ColorConfig,
}

impl Clone for ColorConfig {
    fn clone(&self) -> (r: Self)
        ensures
            r == *self,
    {
        ColorConfig {
            modified: self.modified.clone(),
            deleted: self.deleted.clone(),
            new_file: self.new_file.clone(),
            renamed: self.renamed.clone(),
            added: self.added.clone(),
            untracked: self.untracked.clone(),
            staged: self.staged.clone(),
            not_staged: self.not_staged.clone(),
            header: self.header.clone(),
            branch: self.branch.clone(),
            up_to_date: self.up_to_date.clone(),
            ahead_behind: self.ahead_behind.clone(),
            hint: self.hint.clone(),
            cwd_label: self.cwd_label.clone(),
            cwd_path: self.cwd_path.clone(),
            remote_url: self.remote_url.clone(),
            remote_pr: self.remote_pr.clone(),
            remote_issue: self.remote_issue.clone(),
            arrow: self.arrow.clone(),
            tree_dir: self.tree_dir.clone(),
            tree_file: self.tree_file.clone(),
        }
    }
}

impl Clone for AppConfig {
    fn clone(&self) -> (r: Self)
        ensures
            r == *self,
    {
        AppConfig { tree_mode: self.tree_mode, colors: self.colors.clone() }
    }
}

fn default_modified() -> (r: String)
    ensures
        r@ == "#FF00FF"@,
{
    String::from_str("#FF00FF")
}

fn default_deleted() -> (r: String)
    ensures
        r@ == "#FF4444"@,
{
    String::from_str("#FF4444")
}

fn default_new_file() -> (r: String)
    ensures
        r@ == "#00FF88"@,
{
    String::from_str("#00FF88")
}

fn default_renamed() -> (r: String)
    ensures
        r@ == "#00FFFF"@,
{
    String::from_str("#00FFFF")
}

fn default_added() -> (r: String)
    ensures
        r@ == "#00FF88"@,
{
    String::from_str("#00FF88")
}

fn default_untracked() -> (r: String)
    ensures
        r@ == "#AA55FF"@,
{
    String::from_str("#AA55FF")
}

fn default_staged() -> (r: String)
    ensures
        r@ == "#00FF88"@,
{
    String::from_str("#00FF88")
}

fn default_not_staged() -> (r: String)
    ensures
        r@ == "#00FFFF"@,
{
    String::from_str("#00FFFF")
}

fn default_header() -> (r: String)
    ensures
        r@ == "#FFFF00"@,
{
    String::from_str("#FFFF00")
}

fn default_branch() -> (r: String)
    ensures
        r@ == "#00FFFF"@,
{
    String::from_str("#00FFFF")
}

fn default_up_to_date() -> (r: String)
    ensures
        r@ == "#FFFF00"@,
{
    String::from_str("#FFFF00")
}

fn default_ahead_behind() -> (r: String)
    ensures
        r@ == "#FFFF00"@,
{
    String::from_str("#FFFF00")
}

fn default_hint() -> (r: String)
    ensures
        r@ == Seq::<char>::empty(),
{
    String::new()
}

fn default_cwd_label() -> (r: String)
    ensures
        r@ == "#0055FF"@,
{
    String::from_str("#0055FF")
}

fn default_cwd_path() -> (r: String)
    ensures
        r@ == "#FFAAFF"@,
{
    String::from_str("#FFAAFF")
}

fn default_remote_url() -> (r: String)
    ensures
        r@ == "#00FFFF"@,
{
    String::from_str("#00FFFF")
}

fn default_remote_pr() -> (r: String)
    ensures
        r@ == "#00FF88"@,
{
    String::from_str("#00FF88")
}

fn default_remote_issue() -> (r: String)
    ensures
        r@ == "#FFAA00"@,
{
    String::from_str("#FFAA00")
}

fn default_arrow() -> (r: String)
    ensures
        r@ == "#FFFFFF"@,
{
    String::from_str("#FFFFFF")
}

fn default_tree_dir() -> (r: String)
    ensures
        r@ == "#00FFFF"@,
{
    String::from_str("#00FFFF")
}

fn default_tree_file() -> (r: String)
    ensures
        r@ == "#FFFFFF"@,
{
    String::from_str("#FFFFFF")
}

fn default_tree_mode() -> (r: bool)
    ensures
        r,
{
    true
}

/// The default colours.
pub open spec fn is_default_colors(c: ColorConfig) -> bool {
    &&& c.modified@ == "#FF00FF"@
    &&& c.deleted@ == "#FF4444"@
    &&& c.new_file@ == "#00FF88"@
    &&& c.renamed@ == "#00FFFF"@
    &&& c.added@ == "#00FF88"@
    &&& c.untracked@ == "#AA55FF"@
    &&& c.staged@ == "#00FF88"@
    &&& c.not_staged@ == "#00FFFF"@
    &&& c.header@ == "#FFFF00"@
    &&& c.branch@ == "#00FFFF"@
    &&& c.up_to_date@ == "#FFFF00"@
    &&& c.ahead_behind@ == "#FFFF00"@
    &&& c.hint@ == Seq::<char>::empty()
    &&& c.cwd_label@ == "#0055FF"@
    &&& c.cwd_path@ == "#FFAAFF"@
    &&& c.remote_url@ == "#00FFFF"@
    &&& c.remote_pr@ == "#00FF88"@
    &&& c.remote_issue@ == "#FFAA00"@
    &&& c.arrow@ == "#FFFFFF"@
    &&& c.tree_dir@ == "#00FFFF"@
    &&& c.tree_file@ == "#FFFFFF"@
}

impl Default for ColorConfig {
    fn default() -> (r: Self)
        ensures
            is_default_colors(r),
    {
        ColorConfig {
            modified: default_modified(),
            deleted: default_deleted(),
            new_file: default_new_file(),
            renamed: default_renamed(),
            added: default_added(),
            untracked: default_untracked(),
            staged: default_staged(),
            not_staged: default_not_staged(),
            header: default_header(),
            branch: default_branch(),
            up_to_date: default_up_to_date(),
            ahead_behind: default_ahead_behind(),
            hint: default_hint(),
            cwd_label: default_cwd_label(),
            cwd_path: default_cwd_path(),
            remote_url: default_remote_url(),
            remote_pr: default_remote_pr(),
            remote_issue: default_remote_issue(),
            arrow: default_arrow(),
            tree_dir: default_tree_dir(),
            tree_file: default_tree_file(),
        }
    }
}

impl Default for AppConfig {
    fn default() -> (r: Self)
        ensures
            r.tree_mode,
            is_default_colors(r.colors),
    {
        AppConfig { tree_mode: default_tree_mode(), colors: ColorConfig::default() }
    }
}

// ── where the settings file lives ─────────────────────────────────────────

/// `gits/config.toml` under a configuration directory.
pub open spec fn settings_under(dir: Seq<char>) -> Seq<char> {
    path_join(path_join(dir, "gits"@), "config.toml"@)
}

/// `.gits.toml` in the home directory.
pub open spec fn settings_in_home(home: Seq<char>) -> Seq<char> {
    path_join(home, ".gits.toml"@)
}

/// The paths where a settings file is looked for, in order: under
/// `$XDG_CONFIG_HOME`, under the platform's configuration directory, and in
/// the home directory, each only when that directory is known.
pub open spec fn settings_candidates_spec(
    xdg: Option<Seq<char>>,
    config_dir: Option<Seq<char>>,
    home: Option<Seq<char>>,
) -> Seq<Seq<char>> {
    let a = match xdg {
        Some(x) => seq![settings_under(x)],
        None => Seq::empty(),
    };
    let b = match config_dir {
        Some(c) => seq![settings_under(c)],
        None => Seq::empty(),
    };
    let c = match home {
        Some(h) => seq![settings_in_home(h)],
        None => Seq::empty(),
    };
    a + b + c
}

/// The settings file to use: the first candidate that exists, else
/// `.gits.toml` in the home directory (where one would be created), else
/// none when the home directory is unknown.
pub open spec fn settings_choice(
    xdg: Option<Seq<char>>,
    config_dir: Option<Seq<char>>,
    home: Option<Seq<char>>,
    exists: Seq<bool>,
) -> Option<Seq<char>> {
    match first_existing(settings_candidates_spec(xdg, config_dir, home), exists) {
        Some(p) => Some(p),
        None => match home {
            Some(h) => Some(settings_in_home(h)),
            None => None,
        },
    }
}

/// The paths where a settings file is looked for, in order (see
/// [`settings_path`]).
pub fn settings_candidates(xdg: &Option<String>, config_dir: &Option<String>, home: &Option<String>) -> (r: Vec<String>)
    ensures
        r@.map_values(|s: String| s@) == settings_candidates_spec(opt_text(*xdg), opt_text(*config_dir), opt_text(*home)),
{
    let mut v: Vec<String> = Vec::new();
    if let Some(x) = xdg {
        v.push(join(join(x.as_str(), "gits").as_str(), "config.toml"));
    }
    if let Some(c) = config_dir {
        v.push(join(join(c.as_str(), "gits").as_str(), "config.toml"));
    }
    if let Some(h) = home {
        v.push(join(h.as_str(), ".gits.toml"));
    }
    assert(v@.map_values(|s: String| s@) =~= settings_candidates_spec(opt_text(*xdg), opt_text(*config_dir), opt_text(*home)));
    v
}

/// Which settings file to use, given for each of [`settings_candidates`]
/// whether it exists: the first that does, else `.gits.toml` in the home
/// directory, else `None` when the home directory is unknown.
pub fn settings_path(
    xdg: &Option<String>,
    config_dir: &Option<String>,
    home: &Option<String>,
    exists: &Vec<bool>,
) -> (r: Option<String>)
    requires
        exists@.len() == settings_candidates_spec(opt_text(*xdg), opt_text(*config_dir), opt_text(*home)).len(),
    ensures
        opt_text(r) == settings_choice(opt_text(*xdg), opt_text(*config_dir), opt_text(*home), exists@),
{
    let c = settings_candidates(xdg, config_dir, home);
    match first_found(&c, exists) {
        Some(p) => Some(p),
        None => match home {
            Some(h) => Some(join(h.as_str(), ".gits.toml")),
            None => None,
        },
    }
}

} // verus!
