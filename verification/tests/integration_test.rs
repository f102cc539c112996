use config_get::{ConfigError, ConfigGet, Result, SearchEnv};

// Each text is handed to the reader together with a path whose suffix
// selects the format, as if it had been read from that file.

fn load(path: &str, contents: &str) -> Result<ConfigGet> {
    ConfigGet::from_content(path, contents)
}

// ── .env ──────────────────────────────────────────────────────────────────────

#[test]
fn test_env_basic() -> Result<()> {
    let cfg = load(
        "/tmp/tmpfile.env",
        "DB_HOST=localhost\nDB_PORT=5432\nSECRET=\"my-secret\"\n",
    )?;

    assert_eq!(cfg.get("DB_HOST"), Some("localhost"));
    assert_eq!(cfg.get("DB_PORT"), Some("5432"));
    assert_eq!(cfg.get("SECRET"), Some("my-secret")); // quotes stripped
    Ok(())
}

#[test]
fn test_env_missing_key() -> Result<()> {
    let cfg = load("/tmp/tmpfile.env", "A=1\n")?;
    assert_eq!(cfg.get("MISSING"), None);
    Ok(())
}

#[test]
fn test_env_require_missing() {
    let cfg = load("/tmp/tmpfile.env", "A=1\n").unwrap();
    let err = cfg.require("MISSING").unwrap_err();
    assert!(matches!(err, ConfigError::KeyNotFound(_)));
}

#[test]
fn test_env_parse_typed() -> Result<()> {
    let cfg = load("/tmp/tmpfile.env", "PORT=8080\nDEBUG=true\n")?;
    // `parse::<T>` is the required value converted with `FromStr`, a failure
    // reported through `converted`.
    let port: u16 = cfg.converted("PORT", cfg.require("PORT")?.parse::<u16>().map_err(|e| e.to_string()))?;
    let debug: bool = cfg.converted("DEBUG", cfg.require("DEBUG")?.parse::<bool>().map_err(|e| e.to_string()))?;
    assert_eq!(port, 8080);
    assert!(debug);
    Ok(())
}

#[test]
fn test_env_comments_and_empty_lines() -> Result<()> {
    let cfg = load("/tmp/tmpfile.env", "# comment\n\nKEY=value\n")?;
    assert_eq!(cfg.get("KEY"), Some("value"));
    Ok(())
}

// ── .json ─────────────────────────────────────────────────────────────────────

#[test]
fn test_json_flat() -> Result<()> {
    let cfg = load("/tmp/tmpfile.json", r#"{"host":"localhost","port":"5432"}"#)?;
    assert_eq!(cfg.get("host"), Some("localhost"));
    assert_eq!(cfg.get("port"), Some("5432"));
    Ok(())
}

#[test]
fn test_json_sectioned() -> Result<()> {
    let cfg = load(
        "/tmp/tmpfile.json",
        r#"{"database":{"host":"db.local","port":5432},"server":{"debug":true}}"#,
    )?;
    assert_eq!(cfg.get_in("database", "host"), Some("db.local"));
    assert_eq!(cfg.get_in("database", "port"), Some("5432"));
    assert_eq!(cfg.get_in("server", "debug"), Some("true"));
    Ok(())
}

// ── .toml ─────────────────────────────────────────────────────────────────────

#[test]
fn test_toml_sectioned() -> Result<()> {
    let cfg = load(
        "/tmp/tmpfile.toml",
        "[database]\nhost = \"localhost\"\nport = 5432\n\n[server]\ndebug = true\n",
    )?;
    assert_eq!(cfg.get_in("database", "host"), Some("localhost"));
    assert_eq!(cfg.get_in("database", "port"), Some("5432"));
    assert_eq!(cfg.get_in("server", "debug"), Some("true"));
    Ok(())
}

// ── .ini ──────────────────────────────────────────────────────────────────────

#[test]
fn test_ini_sectioned() -> Result<()> {
    let cfg = load(
        "/tmp/tmpfile.ini",
        "[database]\nhost = localhost\nport = 5432\n\n[server]\ndebug = true\n",
    )?;
    assert_eq!(cfg.get_in("database", "host"), Some("localhost"));
    assert_eq!(cfg.get_in("server", "debug"), Some("true"));
    Ok(())
}

// ── .yaml ─────────────────────────────────────────────────────────────────────

#[test]
fn test_yaml_sectioned() -> Result<()> {
    let cfg = load("/tmp/tmpfile.yml", "database:\n  host: localhost\n  port: 5432\n")?;
    assert_eq!(cfg.get_in("database", "host"), Some("localhost"));
    assert_eq!(cfg.get_in("database", "port"), Some("5432"));
    Ok(())
}

// ── index operator ────────────────────────────────────────────────────────────

#[test]
fn test_index_operator() -> Result<()> {
    let cfg = load("/tmp/tmpfile.env", "GREETING=hello\n")?;
    assert_eq!(&cfg["GREETING"], "hello");
    Ok(())
}

// ── get_or / fallback ─────────────────────────────────────────────────────────

#[test]
fn test_get_or_fallback() -> Result<()> {
    let cfg = load("/tmp/tmpfile.env", "A=1\n")?;
    assert_eq!(cfg.get_or("A", "default"), "1");
    assert_eq!(cfg.get_or("MISSING", "default"), "default");
    Ok(())
}

// ── search_paths ──────────────────────────────────────────────────────────────

#[test]
fn test_search_paths_nonempty() {
    let env = SearchEnv {
        home: Some("/home/user".to_string()),
        data_dir: Some("/home/user/.local/share".to_string()),
        cwd: Some("/work".to_string()),
        windows: false,
    };
    let paths = ConfigGet::search_paths("myapp", "myapp", &env);
    assert!(!paths.is_empty());
    // Every candidate should end with a recognised filename.
    for p in &paths {
        let name = std::path::Path::new(p).file_name().unwrap().to_string_lossy().into_owned();
        assert!(
            name == ".env"
                || name.ends_with(".ini")
                || name.ends_with(".toml")
                || name.ends_with(".json")
                || name.ends_with(".yml")
                || name.ends_with(".yaml"),
            "unexpected candidate filename: {name}"
        );
    }
}

// ── reload ────────────────────────────────────────────────────────────────────

#[test]
fn test_reload() -> Result<()> {
    let mut cfg = load("/tmp/tmpfile.env", "KEY=original\n")?;
    assert_eq!(cfg.get("KEY"), Some("original"));

    // The file now holds new text.
    cfg.load_content("/tmp/tmpfile.env", "KEY=updated\n")?;
    assert_eq!(cfg.get("KEY"), Some("updated"));
    Ok(())
}

// ── get_section ───────────────────────────────────────────────────────────────

#[test]
fn test_get_section() -> Result<()> {
    let cfg = load("/tmp/tmpfile.json", r#"{"server":{"host":"0.0.0.0","port":"80"}}"#)?;
    let section = cfg.get_section("server")?;
    assert_eq!(section.get("host").map(String::as_str), Some("0.0.0.0"));
    assert_eq!(section.get("port").map(String::as_str), Some("80"));
    Ok(())
}

#[test]
fn test_get_section_missing() -> Result<()> {
    let cfg = load("/tmp/tmpfile.json", r#"{"a":"1"}"#)?;
    let err = cfg.get_section("nonexistent").unwrap_err();
    assert!(matches!(err, ConfigError::SectionNotFound(_)));
    Ok(())
}
