use config_get::colors::{can_resolve, hex_to_color, parse_hex_u8, ColorResolver, Rgb};
use config_get::config::{settings_candidates, settings_path, AppConfig, ColorConfig};
use config_get::config_get::BuildAction;
use config_get::discovery::{first_found, search_dirs};
use config_get::node::{config_from_tree, node_to_string, Key, Node};
use config_get::parsers::{
    config_from_ini, config_from_pairs, parse_content, parse_env, parse_env_builtin, parse_ini,
    parse_json, parse_toml, parse_yaml, strip_quotes,
};
use config_get::remote::{parse_remote, pulls_api_url, repo_slug, RemoteTarget};
use config_get::status::{change_kind, ChangeKind, Context, FileLine, Status, StatusLine};
use config_get::text::{contains, trim, trim_end_text};
use config_get::{ConfigError, ConfigGet, ConfigMap, Format, SearchEnv};

fn unix_env(home: &str, cwd: &str) -> SearchEnv {
    SearchEnv {
        home: Some(home.to_string()),
        data_dir: None,
        cwd: Some(cwd.to_string()),
        windows: false,
    }
}

fn flat(m: &ConfigMap) -> Vec<(String, String)> {
    m.flat_iter()
}

// ── the map ────────────────────────────────────────────────────────────────

#[test]
fn flat_read_after_write() {
    let mut m = ConfigMap::new();
    m.insert_flat("A".to_string(), "1".to_string());
    m.insert_flat("B".to_string(), "2".to_string());
    assert_eq!(m.get_flat("A"), Some("1"));
    m.insert_flat("A".to_string(), "3".to_string());
    assert_eq!(m.get_flat("A"), Some("3"));
    assert_eq!(m.get_flat("B"), Some("2"));
    // The rewritten key keeps its place; no key occurs twice.
    assert_eq!(
        flat(&m),
        vec![("A".to_string(), "3".to_string()), ("B".to_string(), "2".to_string())]
    );
    assert_eq!(m.len(), 2);
}

#[test]
fn section_read_after_write() {
    let mut m = ConfigMap::new();
    m.insert_sectioned("db".to_string(), "host".to_string(), "h".to_string());
    m.insert_sectioned("db".to_string(), "port".to_string(), "1".to_string());
    m.insert_sectioned("srv".to_string(), "host".to_string(), "s".to_string());
    m.insert_sectioned("db".to_string(), "host".to_string(), "h2".to_string());
    assert_eq!(m.get_in_section("db", "host"), Some("h2"));
    assert_eq!(m.get_in_section("db", "port"), Some("1"));
    assert_eq!(m.get_in_section("srv", "host"), Some("s"));
    assert_eq!(m.get_in_section("srv", "port"), None);
    assert_eq!(m.get_flat("host"), None);
    assert!(m.has_section("db"));
    assert!(!m.has_section("nope"));
    let names: Vec<String> = m.sections().into_iter().map(|(n, _)| n).collect();
    assert_eq!(names, vec!["db".to_string(), "srv".to_string()]);
    assert_eq!(m.len(), 2);
}

#[test]
fn contains_key_looks_everywhere() {
    let mut m = ConfigMap::new();
    assert!(m.is_empty());
    assert_eq!(m.len(), 0);
    m.insert_sectioned("s".to_string(), "inner".to_string(), "v".to_string());
    m.insert_flat("outer".to_string(), "v".to_string());
    assert!(!m.is_empty());
    assert!(m.contains_key("inner"));
    assert!(m.contains_key("outer"));
    assert!(!m.contains_key("s"));
    assert!(!m.contains_key("missing"));
}

#[test]
fn clone_is_equal() {
    let mut m = ConfigMap::new();
    m.insert_flat("k".to_string(), "v".to_string());
    m.insert_sectioned("s".to_string(), "a".to_string(), "b".to_string());
    let d = m.clone();
    assert!(ConfigMap::default().is_empty());
    assert_eq!(flat(&d), flat(&m));
    assert_eq!(d.get_in_section("s", "a"), Some("b"));
}

// ── formats ────────────────────────────────────────────────────────────────

#[test]
fn candidates_are_detected_as_their_format() {
    let c = Format::candidates("myapp");
    assert_eq!(c, vec![".env", "myapp.ini", "myapp.toml", "myapp.json", "myapp.yml", "myapp.yaml"]);
    let expect = [Format::Env, Format::Ini, Format::Toml, Format::Json, Format::Yaml, Format::Yaml];
    for (name, f) in c.iter().zip(expect.iter()) {
        assert_eq!(Format::from_file_name(name), Some(*f));
    }
}

#[test]
fn format_detection_edges() {
    assert_eq!(Format::from_file_name(".env.local"), Some(Format::Env));
    assert_eq!(Format::from_file_name("prod.env"), Some(Format::Env));
    assert_eq!(Format::from_file_name(".ini"), None);
    assert_eq!(Format::from_file_name("a.txt"), None);
    assert_eq!(Format::from_file_name("noext"), None);
    assert_eq!(Format::from_file_name("x.yaml"), Some(Format::Yaml));
    assert_eq!(Format::from_path("/etc/app/settings.toml"), Some(Format::Toml));
    assert_eq!(Format::from_path("/"), None);
    assert_eq!(Format::Json.as_str(), "json");
    assert_eq!(Format::Env.as_str(), "env");
}

// ── discovery ──────────────────────────────────────────────────────────────

#[test]
fn search_dirs_unix_order() {
    let env = unix_env("/home/u", "/work");
    let d = search_dirs("app", &env);
    assert_eq!(d, vec!["/home/u/app", "/home/u/.config/app", "/home/u/.config", "/home/u", "/work"]);
}

#[test]
fn search_dirs_windows_order() {
    let env = SearchEnv {
        home: Some("/profile".to_string()),
        data_dir: Some("/roaming".to_string()),
        cwd: Some("/work".to_string()),
        windows: true,
    };
    let d = search_dirs("app", &env);
    assert_eq!(d, vec!["/roaming/app", "/profile/app", "/roaming", "/profile", "/work"]);
}

#[test]
fn search_dirs_are_distinct_paths() {
    // The working directory is the home directory (written with a trailing
    // slash), and `.config` as the sub-directory repeats `~/.config`.
    let env = unix_env("/home/u", "/home/u/");
    let d = search_dirs(".config", &env);
    assert_eq!(d, vec!["/home/u/.config", "/home/u/.config/.config", "/home/u"]);
}

#[test]
fn search_dirs_without_home() {
    let env = SearchEnv { home: None, data_dir: None, cwd: None, windows: false };
    assert!(search_dirs("app", &env).is_empty());
}

#[test]
fn search_paths_are_dirs_times_candidates() {
    let env = unix_env("/home/u", "/work");
    let p = ConfigGet::search_paths("app", "app", &env);
    assert_eq!(p.len(), 30);
    assert_eq!(p[0], "/home/u/app/.env");
    assert_eq!(p[1], "/home/u/app/app.ini");
    assert_eq!(p[5], "/home/u/app/app.yaml");
    assert_eq!(p[6], "/home/u/.config/app/.env");
    assert_eq!(p[29], "/work/app.yaml");
}

#[test]
fn format_search_paths_and_not_found() {
    let env = unix_env("/home/u", "/work");
    let p = ConfigGet::format_search_paths("app", "app", Format::Yaml, &env);
    assert_eq!(p.len(), 10);
    assert_eq!(p[0], "/home/u/app/app.yml");
    assert_eq!(p[1], "/home/u/app/app.yaml");
    assert_eq!(p[2], "/home/u/.config/app/app.yml");
    assert_eq!(p[9], "/work/app.yaml");
    let t = ConfigGet::format_search_paths("app", "app", Format::Toml, &env);
    assert_eq!(t.len(), 5);
    assert_eq!(t[0], "/home/u/app/app.toml");
    assert_eq!(ConfigGet::format_file_names("app", Format::Env), vec![".env".to_string()]);
    assert_eq!(ConfigGet::format_file_names("app", Format::Ini), vec!["app.ini".to_string()]);
    assert_eq!(
        ConfigGet::format_file_names("app", Format::Yaml),
        vec!["app.yml".to_string(), "app.yaml".to_string()]
    );
    let e = ConfigGet::format_not_found("app", Format::Toml);
    assert!(matches!(&e, ConfigError::NotFound(s) if s == "app (toml)"));
    assert_eq!(e.message(), "no configuration file found for 'app (toml)'");
}

#[test]
fn default_config_path_uses_first_dir() {
    let dirs = vec!["/home/u/app".to_string(), "/work".to_string()];
    assert_eq!(ConfigGet::default_config_path(&dirs).unwrap(), "/home/u/app/.env");
    let err = ConfigGet::default_config_path(&Vec::new()).unwrap_err();
    assert!(matches!(&err, ConfigError::Other(m) if m == "could not determine a directory to create config in"));
    assert_eq!(ConfigGet::default_config_text(), "# config-get generated empty config\n");
}

// ── builder ────────────────────────────────────────────────────────────────

#[test]
fn builder_decisions() {
    let b = ConfigGet::builder("myapp");
    let cfg = b.start();
    assert_eq!(cfg.stem(), "myapp");
    assert_eq!(cfg.config_dir(), "myapp");
    assert!(cfg.is_empty());
    assert!(cfg.loaded_from().is_none());
    assert!(matches!(b.next_action(None), BuildAction::Search));
    assert!(matches!(b.next_action(Some(Some("/x/.env".to_string()))), BuildAction::Load(p) if p == "/x/.env"));
    assert!(matches!(b.next_action(Some(None)), BuildAction::Fail(ConfigError::NotFound(s)) if s == "myapp"));

    let b = ConfigGet::builder("myapp").config_dir("other").create(true);
    assert_eq!(b.start().config_dir(), "other");
    assert!(matches!(b.next_action(Some(None)), BuildAction::CreateDefault));

    let b = ConfigGet::builder("myapp").path("/etc/myapp.toml");
    assert!(matches!(b.next_action(None), BuildAction::Load(p) if p == "/etc/myapp.toml"));

    let b = ConfigGet::builder("myapp").auto_load(false);
    assert!(matches!(b.next_action(None), BuildAction::Finish));
}

// ── reader ─────────────────────────────────────────────────────────────────

#[test]
fn reader_lookups_and_errors() {
    let cfg = ConfigGet::from_content(
        "/etc/app/config.json",
        r#"{"name":"x","server":{"port":"80"}}"#,
    )
    .unwrap();
    assert_eq!(cfg.stem(), "config");
    assert_eq!(cfg.loaded_from(), Some("/etc/app/config.json"));
    assert_eq!(cfg.require("name").unwrap(), "x");
    assert_eq!(cfg.require_in("server", "port").unwrap(), "80");
    assert_eq!(cfg.get_in_or("server", "host", "localhost"), "localhost");
    let e = cfg.require_in("server", "host").unwrap_err();
    assert!(matches!(&e, ConfigError::KeyNotFound(k) if k == "server.host"));
    assert_eq!(e.message(), "key not found: 'server.host'");
    let e = cfg.get_section("nope").unwrap_err();
    assert_eq!(e.message(), "section not found: 'nope'");
    assert_eq!(cfg.len(), 2);
    assert!(cfg.contains_key("port"));
    assert_eq!(cfg.sections(), vec!["server".to_string()]);
    assert_eq!(cfg.iter(), vec![("name".to_string(), "x".to_string())]);
    let all = cfg.all();
    assert_eq!(all.get_in_section("server", "port"), Some("80"));
    let e = cfg.conversion_error("name", "invalid digit found in string");
    assert_eq!(
        e.message(),
        "parse error in '/etc/app/config.json': key 'name': invalid digit found in string"
    );
}

#[test]
fn unrecognised_extension_is_a_parse_error() {
    let e = ConfigGet::from_content("/etc/app/config.txt", "A=1").unwrap_err();
    assert!(matches!(&e, ConfigError::Parse { path, message } if path == "/etc/app/config.txt" && message == "unrecognised file extension"));
}

#[test]
fn failed_reload_changes_nothing() {
    let mut cfg = ConfigGet::from_content("/tmp/a.json", r#"{"k":"v"}"#).unwrap();
    let e = cfg.load_content("/tmp/b.json", "{not json").unwrap_err();
    assert!(matches!(&e, ConfigError::Parse { path, .. } if path == "/tmp/b.json"));
    assert_eq!(cfg.get("k"), Some("v"));
    assert_eq!(cfg.loaded_from(), Some("/tmp/a.json"));
    cfg.set_loaded_from("/tmp/c.env".to_string());
    assert_eq!(cfg.loaded_from(), Some("/tmp/c.env"));
    assert_eq!(cfg.get("k"), Some("v"));
}

#[test]
fn error_messages() {
    assert_eq!(ConfigError::NotFound("app".into()).message(), "no configuration file found for 'app'");
    assert_eq!(
        ConfigError::Parse { path: "p".into(), message: "m".into() }.message(),
        "parse error in 'p': m"
    );
    assert_eq!(
        ConfigError::FeatureNotEnabled { feature: "yaml" }.message(),
        "feature 'yaml' is not enabled; recompile with `--features yaml`"
    );
    assert_eq!(ConfigError::Other("boom".into()).message(), "boom");
    let io = ConfigError::Io {
        path: "/x".into(),
        source: std::io::Error::new(std::io::ErrorKind::Other, "disk on fire"),
    };
    assert_eq!(io.message(), "I/O error reading '/x': disk on fire");
}

// ── parsers ────────────────────────────────────────────────────────────────

#[test]
fn builtin_env_parser() {
    let m = parse_env_builtin(
        "  # note\nA = 1\nB='two'\nC=\"three\"\nnoequals\n\n  D = x=y  \r\nE=\"unbalanced\nA=again",
    );
    assert_eq!(
        flat(&m),
        vec![
            ("A".to_string(), "again".to_string()),
            ("B".to_string(), "two".to_string()),
            ("C".to_string(), "three".to_string()),
            ("D".to_string(), "x=y".to_string()),
            ("E".to_string(), "\"unbalanced".to_string()),
        ]
    );
    assert!(m.sections().is_empty());
}

#[test]
fn strip_quotes_edges() {
    assert_eq!(strip_quotes("\"x\""), "x");
    assert_eq!(strip_quotes("'x'"), "x");
    assert_eq!(strip_quotes("\"\""), "");
    assert_eq!(strip_quotes("\""), "\"");
    assert_eq!(strip_quotes("'x\""), "'x\"");
    assert_eq!(strip_quotes("x"), "x");
}

#[test]
fn dotenv_parser() {
    let m = parse_env("/p/.env", "A=1\nB=\"quoted value\"\n# c\nA=2\n").unwrap();
    assert_eq!(
        flat(&m),
        vec![("A".to_string(), "2".to_string()), ("B".to_string(), "quoted value".to_string())]
    );
    let e = parse_env("/p/.env", "A='unterminated\n").unwrap_err();
    assert!(matches!(&e, ConfigError::Parse { path, .. } if path == "/p/.env"));
}

#[test]
fn json_values_as_text() {
    let m = parse_json(
        "/c.json",
        r#"{"a":[1,"two",true,null,{"x":1},[3]],"n":null,"f":1.5,"s":{"t":{"u":"deep"}}}"#,
    )
    .unwrap();
    assert_eq!(m.get_flat("a"), Some("[1, two, true, , [object], [3]]"));
    assert_eq!(m.get_flat("n"), Some(""));
    assert_eq!(m.get_flat("f"), Some("1.5"));
    // A table inside a table opens a section named by its own key.
    assert_eq!(m.get_in_section("t", "u"), Some("deep"));
    assert!(!m.has_section("s"));
}

#[test]
fn json_non_object_is_empty() {
    let m = parse_json("/c.json", "[1, 2]").unwrap();
    assert!(m.is_empty());
    let e = parse_json("/c.json", "{").unwrap_err();
    assert!(matches!(&e, ConfigError::Parse { path, message } if path == "/c.json" && !message.is_empty()));
}

#[test]
fn toml_values_as_text() {
    let m = parse_toml(
        "/c.toml",
        "top = 1\nlist = [1, 2]\ntables = [{a = 1}]\nwhen = 1979-05-27\n[s]\nk = \"v\"\nf = 2.5\n",
    )
    .unwrap();
    assert_eq!(m.get_flat("top"), Some("1"));
    assert_eq!(m.get_flat("list"), Some("[1, 2]"));
    assert_eq!(m.get_flat("tables"), Some("[[table]]"));
    assert_eq!(m.get_flat("when"), Some("1979-05-27"));
    assert_eq!(m.get_in_section("s", "k"), Some("v"));
    assert_eq!(m.get_in_section("s", "f"), Some("2.5"));
    assert!(parse_toml("/c.toml", "= broken").is_err());
}

#[test]
fn yaml_values_as_text() {
    let m = parse_yaml(
        "/c.yml",
        "a: [1, x, {k: v}]\ntrue: yes-key\n3: num\nnothing: ~\ntagged: !t 5\nsec:\n  in: 1\n",
    )
    .unwrap();
    assert_eq!(m.get_flat("a"), Some("[1, x, [mapping]]"));
    assert_eq!(m.get_flat("true"), Some("yes-key"));
    assert_eq!(m.get_flat("3"), Some("num"));
    assert_eq!(m.get_flat("nothing"), Some(""));
    assert_eq!(m.get_flat("tagged"), Some("5"));
    assert_eq!(m.get_in_section("sec", "in"), Some("1"));
    assert!(parse_yaml("/c.yml", "a: [").is_err());
}

#[test]
fn ini_sections_and_general_properties() {
    let m = parse_ini("/c.ini", "\u{feff}top = 1\n[s]\nk = v\nk = w\n[t]\nx = y\n").unwrap();
    assert_eq!(m.get_flat("top"), Some("1"));
    assert_eq!(m.get_in_section("s", "k"), Some("w"));
    assert_eq!(m.get_in_section("t", "x"), Some("y"));
    assert!(parse_ini("/c.ini", "[unclosed\n").is_err());
}

#[test]
fn tree_and_pairs_functions() {
    let doc = Node::Table(vec![
        (Key::Text("a".into()), Node::Bool(false)),
        (Key::Bool(true), Node::List(vec![Node::Null, Node::Text("x".into())])),
        (Key::Text("s".into()), Node::Table(vec![(Key::Text("k".into()), Node::Tagged(Box::new(Node::Text("v".into()))))])),
    ]);
    let m = config_from_tree(&doc, "[t]");
    assert_eq!(m.get_flat("a"), Some("false"));
    assert_eq!(m.get_flat("true"), Some("[, x]"));
    assert_eq!(m.get_in_section("s", "k"), Some("v"));
    assert_eq!(node_to_string(&Node::List(vec![Node::Table(vec![])]), "[t]"), "[[t]]");

    let m = config_from_pairs(&vec![("a".into(), "1".into()), ("a".into(), "2".into())]);
    assert_eq!(flat(&m), vec![("a".to_string(), "2".to_string())]);

    let m = config_from_ini(&vec![
        (None, vec![("g".into(), "1".into())]),
        (Some("s".into()), vec![("k".into(), "v".into())]),
    ]);
    assert_eq!(m.get_flat("g"), Some("1"));
    assert_eq!(m.get_in_section("s", "k"), Some("v"));
}

#[test]
fn parse_content_dispatches_on_format() {
    let m = parse_content(Format::Json, "/x", r#"{"k":"json"}"#).unwrap();
    assert_eq!(m.get_flat("k"), Some("json"));
    let m = parse_content(Format::Ini, "/x", "k = ini").unwrap();
    assert_eq!(m.get_flat("k"), Some("ini"));
}

// ── text helpers ───────────────────────────────────────────────────────────

#[test]
fn text_helpers() {
    assert_eq!(trim("\u{3000} a b \t\n"), "a b");
    assert_eq!(trim_end_text("repo.git.git", ".git"), "repo");
    assert_eq!(trim_end_text("line\r\r", "\r"), "line");
    assert!(contains("Your branch is ahead", "ahead"));
    assert!(!contains("abc", "abd"));
}

// ── colours ────────────────────────────────────────────────────────────────

#[test]
fn hex_colours() {
    assert_eq!(hex_to_color("#FF00FF"), Some(Rgb { r: 255, g: 0, b: 255 }));
    assert_eq!(hex_to_color("#abc"), Some(Rgb { r: 0xaa, g: 0xbb, b: 0xcc }));
    assert_eq!(hex_to_color("##00ff00"), Some(Rgb { r: 0, g: 255, b: 0 }));
    assert_eq!(hex_to_color("+f+f+f"), Some(Rgb { r: 15, g: 15, b: 15 }));
    assert_eq!(hex_to_color("#12345"), None);
    assert_eq!(hex_to_color("#GG0000"), None);
    assert_eq!(hex_to_color("#+++"), None);
    assert_eq!(parse_hex_u8(b"ff"), Some(255));
    assert_eq!(parse_hex_u8(b"+"), None);
    assert_eq!(parse_hex_u8(b"100"), None);
    assert_eq!(parse_hex_u8(b""), None);
    assert!(can_resolve("#ffffff"));
    assert!(can_resolve(""));
    assert!(!can_resolve("a\u{e9}"));
    assert!(can_resolve("\u{e9}\u{e9}\u{e9}"));
    assert_eq!(hex_to_color("\u{e9}\u{e9}\u{e9}"), None);
}

#[test]
fn default_colours_resolve() {
    let c = ColorConfig::default();
    assert_eq!(c.modified, "#FF00FF");
    assert_eq!(c.hint, "");
    let r = ColorResolver::new(c.clone());
    assert_eq!(r.modified(), Some(Rgb { r: 255, g: 0, b: 255 }));
    assert_eq!(r.deleted(), Some(Rgb { r: 255, g: 0x44, b: 0x44 }));
    assert_eq!(r.untracked(), Some(Rgb { r: 0xaa, g: 0x55, b: 255 }));
    assert_eq!(r.cwd_path(), Some(Rgb { r: 255, g: 0xaa, b: 255 }));
    assert_eq!(r.tree_file(), Some(Rgb { r: 255, g: 255, b: 255 }));
    assert_eq!(r.resolve(""), None);
    let a = AppConfig::default();
    assert!(a.tree_mode);
    assert_eq!(a.colors.branch, "#00FFFF");
}

// ── status ─────────────────────────────────────────────────────────────────

fn run(status: &Status, text: &str) -> Vec<StatusLine> {
    let mut st = status.start();
    let mut out = Vec::new();
    for line in text.split('\n') {
        out.extend(status.step(&mut st, line));
    }
    out.extend(status.finish(&st));
    out
}

#[test]
fn status_lines_classified() {
    let status = Status::new(AppConfig::default());
    let out = run(
        &status,
        "On branch main\r\nYour branch is up to date with 'origin/main'.\n\nChanges to be committed:\n  (use \"git restore --staged <file>...\" to unstage)\n\tmodified:   a.rs\n\trenamed:    old.rs -> new.rs\n\nUntracked files:\n  (use \"git add <file>...\" to include in what will be committed)\n\tnew.txt\n\tdir/\n\nNothing added to commit but untracked files present",
    );
    assert!(matches!(&out[0], StatusLine::Branch(b) if b == "main"));
    assert!(matches!(&out[1], StatusLine::Success(_)));
    assert!(matches!(&out[2], StatusLine::File(FileLine::Raw(s)) if s.is_empty()));
    assert!(matches!(&out[3], StatusLine::Header(h) if h == "Changes to be committed:"));
    assert!(matches!(&out[4], StatusLine::Hint(h) if h.starts_with("(use \"git restore")));
    assert!(matches!(&out[5], StatusLine::File(FileLine::Change { indent, status, left, right: None })
        if indent == "\t" && status == "modified" && left == "a.rs"));
    assert!(matches!(&out[6], StatusLine::File(FileLine::Change { status, left, right: Some(r), .. })
        if status == "renamed" && left == "old.rs" && r == "new.rs"));
    assert!(matches!(&out[7], StatusLine::File(FileLine::Raw(s)) if s.is_empty()));
    assert!(matches!(&out[8], StatusLine::Header(h) if h == "Untracked files:"));
    // In tree mode the untracked list collects files; the terminal line
    // (matched after lowercasing) flushes them.
    assert!(matches!(&out[9], StatusLine::UntrackedFiles(f) if f == &vec!["new.txt".to_string(), "dir/".to_string()]));
    assert!(matches!(&out[10], StatusLine::Success(_)));
    assert_eq!(out.len(), 11);
}

#[test]
fn status_without_tree_mode() {
    let mut cfg = AppConfig::default();
    cfg.tree_mode = false;
    let status = Status::new(cfg);
    let out = run(&status, "HEAD detached at abc\nUntracked files:\n\tnew.txt");
    assert!(matches!(&out[0], StatusLine::Warning(_)));
    assert!(matches!(&out[1], StatusLine::Header(_)));
    assert!(matches!(&out[2], StatusLine::File(FileLine::Indented { indent, payload, context: Context::Untracked })
        if indent == "\t" && payload == "new.txt"));
    assert_eq!(out.len(), 3);
}

#[test]
fn status_final_flush() {
    let status = Status::new(AppConfig::default());
    let out = run(&status, "Untracked files:\n\ta\n\tb");
    assert!(matches!(&out[1], StatusLine::UntrackedFiles(f) if f.len() == 2));
    assert_eq!(out.len(), 2);
    assert_eq!(change_kind("new file"), ChangeKind::NewFile);
    assert_eq!(change_kind("typechange"), ChangeKind::Unknown);
}

// ── remotes ────────────────────────────────────────────────────────────────

fn repo(t: RemoteTarget) -> (String, String) {
    match t {
        RemoteTarget::Repo { owner, repo } => (owner, repo),
        RemoteTarget::Remote(r) => panic!("expected a repository, got remote {r}"),
    }
}

#[test]
fn remote_targets() {
    assert_eq!(repo(parse_remote("https://github.com/o/r.git")), ("o".to_string(), "r".to_string()));
    assert_eq!(repo(parse_remote("git@github.com:o/r.git.git")), ("o".to_string(), "r".to_string()));
    assert_eq!(repo(parse_remote("o/r/x")), ("o".to_string(), "r/x".to_string()));
    assert!(matches!(parse_remote(""), RemoteTarget::Remote(r) if r == "origin"));
    assert!(matches!(parse_remote("upstream"), RemoteTarget::Remote(r) if r == "upstream"));
    let slug = repo_slug("o", "r");
    assert_eq!(slug, "o/r");
    assert_eq!(pulls_api_url(&slug), "https://api.github.com/repos/o/r/pulls?state=open&per_page=10");
}

// ── further laws on concrete values ────────────────────────────────────────

#[test]
fn loading_twice_gives_the_same_entries() {
    let text = "a = 1\n[s]\nb = [1, 2]\n";
    let x = ConfigGet::from_content("/c.toml", text).unwrap();
    let y = ConfigGet::from_content("/c.toml", text).unwrap();
    assert_eq!(x.iter(), y.iter());
    assert_eq!(x.sections(), y.sections());
    assert_eq!(x.get_in("s", "b"), y.get_in("s", "b"));
}

#[test]
fn unquoting_removes_exactly_one_pair() {
    assert_eq!(strip_quotes("\"'x'\""), "'x'");
    assert_eq!(strip_quotes("''"), "");
}

#[test]
fn flat_documents_open_no_sections() {
    let m = parse_json("/c.json", r#"{"a":1,"b":[{"c":2}],"d":"e"}"#).unwrap();
    assert!(m.sections().is_empty());
    assert_eq!(m.len(), 3);
}

#[test]
fn dotted_keys_read_a_section_first() {
    let cfg = ConfigGet::from_content(
        "/etc/app/config.ini",
        "a.b = flat\nname = top\n[server]\nhost = h\nx.y = inner\n",
    )
    .unwrap();
    assert_eq!(cfg.get_dotted("server.host"), Some("h"));
    assert_eq!(cfg.get_dotted("name"), Some("top"));
    assert_eq!(cfg.get_dotted("a.b"), Some("flat"));
    assert_eq!(cfg.get_dotted("server.x.y"), Some("inner"));
    assert_eq!(cfg.get_dotted("server.nope"), None);
    assert_eq!(cfg.get_dotted("missing"), None);
}

#[test]
fn conversions_pass_values_and_label_failures() {
    let cfg = ConfigGet::from_content("/etc/app/config.env", "PORT=80\n").unwrap();
    assert_eq!(cfg.converted("PORT", Ok::<u16, String>(80)).unwrap(), 80);
    let e = cfg.converted::<u16>("PORT", Err("invalid digit found in string".to_string())).unwrap_err();
    assert!(matches!(&e, ConfigError::Parse { path, message }
        if path == "/etc/app/config.env" && message == "key 'PORT': invalid digit found in string"));
    let e = cfg.converted_in::<bool>("s", "k", Err("bad".to_string())).unwrap_err();
    assert!(matches!(&e, ConfigError::Parse { message, .. } if message == "key 's.k': bad"));
    assert_eq!(cfg.converted_in("s", "k", Ok::<bool, String>(true)).unwrap(), true);
}

#[test]
fn settings_file_is_the_first_existing_candidate() {
    let xdg = Some("/x".to_string());
    let cd = Some("/home/u/.config".to_string());
    let home = Some("/home/u".to_string());
    let c = settings_candidates(&xdg, &cd, &home);
    assert_eq!(
        c,
        vec![
            "/x/gits/config.toml".to_string(),
            "/home/u/.config/gits/config.toml".to_string(),
            "/home/u/.gits.toml".to_string(),
        ]
    );
    assert_eq!(settings_path(&xdg, &cd, &home, &vec![false, true, true]), Some("/home/u/.config/gits/config.toml".to_string()));
    assert_eq!(settings_path(&xdg, &cd, &home, &vec![true, true, false]), Some("/x/gits/config.toml".to_string()));
    assert_eq!(settings_path(&xdg, &cd, &home, &vec![false, false, false]), Some("/home/u/.gits.toml".to_string()));
    let c = settings_candidates(&None, &cd, &None);
    assert_eq!(c, vec!["/home/u/.config/gits/config.toml".to_string()]);
    assert_eq!(settings_path(&None, &cd, &None, &vec![false]), None);
    assert_eq!(settings_path(&None, &cd, &None, &vec![true]), Some("/home/u/.config/gits/config.toml".to_string()));
}

#[test]
fn dotenv_errors_carry_the_parser_message() {
    let e = parse_env("/p/.env", "A='unterminated\n").unwrap_err();
    assert!(matches!(&e, ConfigError::Parse { message, .. } if message.contains("Error parsing line")));
    let e = ConfigGet::from_content("/p/.env", "1BAD=x\n").unwrap_err();
    assert!(matches!(&e, ConfigError::Parse { path, .. } if path == "/p/.env"));
}

#[test]
fn first_found_takes_the_first_existing_path() {
    let paths = vec!["/a/.env".to_string(), "/a/app.ini".to_string(), "/b/.env".to_string()];
    assert_eq!(first_found(&paths, &vec![false, true, true]), Some("/a/app.ini".to_string()));
    assert_eq!(first_found(&paths, &vec![true, true, true]), Some("/a/.env".to_string()));
    assert_eq!(first_found(&paths, &vec![false, false, true]), Some("/b/.env".to_string()));
    assert_eq!(first_found(&paths, &vec![false, false, false]), None);
    assert_eq!(first_found(&Vec::new(), &Vec::new()), None);
}
