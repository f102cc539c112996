//! Format-specific parsers: each turns the text of a configuration file into
//! a [`ConfigMap`].

use serde_json::Value as JsonValue;
use serde_yaml::Value as YamlValue;
use toml::Value as TomlValue;
use vstd::prelude::*;

use crate::error::{ConfigError, Result};
use crate::format::Format;
use crate::node::{config_from_tree, flatten, place, Key, Node};
use crate::table::{insert_entry, Entries};
use crate::text::{first_index, lemma_first_index, find_char, trim, trimmed};
use crate::value::{empty_model, ConfigMap, ConfigMapModel};

verus! {

// ── splitting into lines ────────────────────────────────────────────────────

/// The pieces of `s` between `'\n'` characters, first to last (one more
/// than there are newlines).
pub open spec fn split_lines(s: Seq<char>) -> Seq<Seq<char>>
    decreases s.len(),
{
    if s.len() == 0 {
        seq![Seq::empty()]
    } else if s.last() == '\n' {
        split_lines(s.drop_last()).push(Seq::empty())
    } else {
        let p = split_lines(s.drop_last());
        p.update(p.len() - 1, p.last().push(s.last()))
    }
}

proof fn lemma_split_lines_nonempty(s: Seq<char>)
    ensures
        split_lines(s).len() >= 1,
    decreases s.len(),
{
    if s.len() > 0 {
        lemma_split_lines_nonempty(s.drop_last());
    }
}

// ── .env without an outside parser ──────────────────────────────────────────

/// `s` without one pair of matching surrounding quotes (`"` or `'`), when it
/// has them and is at least two characters long.
pub open spec fn unquoted(s: Seq<char>) -> Seq<char> {
    if s.len() >= 2 && ((s[0] == '"' && s.last() == '"') || (s[0] == '\'' && s.last() == '\'')) {
        s.subrange(1, s.len() - 1)
    } else {
        s
    }
}

/// What one line of a dotenv file adds: nothing when it is blank after
/// trimming, starts with `#` or has no `=`; otherwise the trimmed text
/// before the first `=` as key and the trimmed, unquoted text after it as
/// value.
pub open spec fn env_line(e: Entries, line: Seq<char>) -> Entries {
    let t = trimmed(line);
    if t.len() == 0 || t[0] == '#' {
        e
    } else {
        let eq = first_index(t, '=');
        if eq < 0 {
            e
        } else {
            insert_entry(
                e,
                trimmed(t.subrange(0, eq)),
                unquoted(trimmed(t.subrange(eq + 1, t.len() as int))),
            )
        }
    }
}

/// The entries of a sequence of dotenv lines, first to last.
pub open spec fn env_lines(lines: Seq<Seq<char>>) -> Entries
    decreases lines.len(),
{
    if lines.len() == 0 {
        Seq::empty()
    } else {
        env_line(env_lines(lines.drop_last()), lines.last())
    }
}

/// The entries of a dotenv text. (`str::lines` differs from
/// [`split_lines`] only by dropping a final empty piece and a `'\r'` before
/// each `'\n'`; both are removed by trimming anyway.)
pub open spec fn env_entries(content: Seq<char>) -> Entries {
    env_lines(split_lines(content))
}

/// Remove one pair of matching surrounding quotes.
pub fn strip_quotes(s: &str) -> (r: &str)
    ensures
        r@ == unquoted(s@),
{
    let n = s.unicode_len();
    if n >= 2 {
        let first = s.get_char(0);
        let last = s.get_char(n - 1);
        if (first == '"' && last == '"') || (first == '\'' && last == '\'') {
            return s.substring_char(1, n - 1);
        }
    }
    s
}

/// Apply one dotenv line to `map`.
fn env_apply_line(map: &mut ConfigMap, line: &str)
    ensures
        final(map)@ == (env_line(old(map)@.0, line@), old(map)@.1),
{
    let t = trim(line);
    let n = t.unicode_len();
    if n == 0 || t.get_char(0) == '#' {
        return;
    }
    proof {
        lemma_first_index(t@, '=');
    }
    match find_char(t, '=') {
        Some(eq) => {
            let key = trim(t.substring_char(0, eq));
            let value = strip_quotes(trim(t.substring_char(eq + 1, n)));
            map.insert_flat(String::from_str(key), String::from_str(value));
        },
        None => {},
    }
}

/// Parse a dotenv-style text into a flat [`ConfigMap`] without an outside
/// parser: blank lines and `#` comments are skipped, lines without `=` are
/// ignored, keys and values are trimmed and values lose one pair of
/// surrounding quotes.
pub fn parse_env_builtin(content: &str) -> (r: ConfigMap)
    ensures
        r@ == (env_entries(content@), Seq::<(Seq<char>, Entries)>::empty()),
{
    let mut map = ConfigMap::new();
    let n = content.unicode_len();
    let mut start: usize = 0;
    let mut i: usize = 0;
    proof {
        lemma_split_lines_nonempty(content@.take(0));
        assert(content@.take(0) =~= Seq::<char>::empty());
    }
    while i < n
        invariant
            n == content@.len(),
            start <= i <= n,
            split_lines(content@.take(i as int)).len() >= 1,
            split_lines(content@.take(i as int)).last() == content@.subrange(start as int, i as int),
            map@ == (env_lines(split_lines(content@.take(i as int)).drop_last()), Seq::<(Seq<char>, Entries)>::empty()),
        decreases n - i,
    {
        let ghost pre = content@.take(i as int);
        let ghost post = content@.take(i + 1);
        assert(post.drop_last() =~= pre);
        assert(post.last() == content@[i as int]);
        if content.get_char(i) == '\n' {
            let line = content.substring_char(start, i);
            env_apply_line(&mut map, line);
            proof {
                let ps = split_lines(pre);
                assert(split_lines(post) == ps.push(Seq::<char>::empty()));
                assert(split_lines(post).drop_last() =~= ps);
                assert(ps =~= ps.drop_last().push(ps.last()));
            }
            start = i + 1;
        } else {
            proof {
                let ps = split_lines(pre);
                let qs = split_lines(post);
                assert(qs == ps.update(ps.len() - 1, ps.last().push(content@[i as int])));
                assert(qs.drop_last() =~= ps.drop_last());
                assert(qs.last() =~= content@.subrange(start as int, i + 1));
            }
        }
        i = i + 1;
    }
    let line = content.substring_char(start, n);
    env_apply_line(&mut map, line);
    proof {
        assert(content@.take(n as int) =~= content@);
        let ps = split_lines(content@);
        assert(ps =~= ps.drop_last().push(ps.last()));
    }
    map
}


// ── outside parsers ────────────────────────────────────────────────────────

#[verifier::external_type_specification]
#[verifier::external_body]
pub struct ExJsonValue(serde_json::Value);

#[verifier::external_type_specification]
#[verifier::external_body]
pub struct ExTomlValue(toml::Value);

#[verifier::external_type_specification]
#[verifier::external_body]
pub struct ExYamlValue(serde_yaml::Value);

/// What `serde_json::from_str::<serde_json::Value>` makes of a text, as a
/// document tree, or the text of its error.
pub uninterp spec fn json_tree(text: Seq<char>) -> std::result::Result<Node, String>;

/// What `str::parse::<toml::Value>` makes of a text, as a document tree, or
/// the text of its error.
pub uninterp spec fn toml_tree(text: Seq<char>) -> std::result::Result<Node, String>;

/// What `serde_yaml::from_str::<serde_yaml::Value>` makes of a text, as a
/// document tree, or the text of its error.
pub uninterp spec fn yaml_tree(text: Seq<char>) -> std::result::Result<Node, String>;

/// What `ini::Ini::load_from_str` makes of a text: each section (`None` for
/// the general one) with its properties, in the order the `Ini` iterates
/// them, or the text of its error.
pub uninterp spec fn ini_document(text: Seq<char>) -> std::result::Result<Vec<(Option<String>, Vec<(String, String)>)>, String>;

/// A `serde_json::Value` as a document tree: one variant for one variant,
/// numbers by their `Display` text, object entries in the map's order.
#[verifier::external_body]
fn json_node(v: &JsonValue) -> Node {
    match v {
        JsonValue::Null => Node::Null,
        JsonValue::Bool(b) => Node::Bool(*b),
        JsonValue::Number(n) => Node::Text(n.to_string()),
        JsonValue::String(s) => Node::Text(s.clone()),
        JsonValue::Array(a) => Node::List(a.iter().map(json_node).collect()),
        JsonValue::Object(o) => Node::Table(o.iter().map(|(k, x)| (Key::Text(k.clone()), json_node(x))).collect()),
    }
}

/// A `toml::Value` as a document tree: one variant for one variant, numbers
/// and dates by their `Display` text, table entries in the table's order.
#[verifier::external_body]
fn toml_node(v: &TomlValue) -> Node {
    match v {
        TomlValue::String(s) => Node::Text(s.clone()),
        TomlValue::Integer(i) => Node::Text(i.to_string()),
        TomlValue::Float(f) => Node::Text(f.to_string()),
        TomlValue::Boolean(b) => Node::Bool(*b),
        TomlValue::Datetime(d) => Node::Text(d.to_string()),
        TomlValue::Array(a) => Node::List(a.iter().map(toml_node).collect()),
        TomlValue::Table(t) => Node::Table(t.iter().map(|(k, x)| (Key::Text(k.clone()), toml_node(x))).collect()),
    }
}

/// A `serde_yaml::Value` used as a mapping key: strings as they are, numbers
/// by their `Display` text, booleans as booleans, anything else by its
/// `Debug` text.
#[verifier::external_body]
fn yaml_key(v: &YamlValue) -> Key {
    match v {
        YamlValue::String(s) => Key::Text(s.clone()),
        YamlValue::Number(n) => Key::Text(n.to_string()),
        YamlValue::Bool(b) => Key::Bool(*b),
        other => Key::Text(format!("{other:?}")),
    }
}

/// A `serde_yaml::Value` as a document tree: one variant for one variant,
/// numbers by their `Display` text, mapping entries in the mapping's order.
#[verifier::external_body]
fn yaml_node(v: &YamlValue) -> Node {
    match v {
        YamlValue::Null => Node::Null,
        YamlValue::Bool(b) => Node::Bool(*b),
        YamlValue::Number(n) => Node::Text(n.to_string()),
        YamlValue::String(s) => Node::Text(s.clone()),
        YamlValue::Sequence(a) => Node::List(a.iter().map(yaml_node).collect()),
        YamlValue::Mapping(m) => Node::Table(m.iter().map(|(k, x)| (yaml_key(k), yaml_node(x))).collect()),
        YamlValue::Tagged(t) => Node::Tagged(Box::new(yaml_node(&t.value))),
    }
}

/// `serde_json::from_str::<serde_json::Value>`.
#[verifier::external_body]
fn json_parse(text: &str) -> (r: std::result::Result<Node, String>)
    ensures
        r == json_tree(text@),
{
    match serde_json::from_str::<JsonValue>(text) {
        Ok(v) => Ok(json_node(&v)),
        Err(e) => Err(e.to_string()),
    }
}

/// `str::parse::<toml::Value>`.
#[verifier::external_body]
fn toml_parse(text: &str) -> (r: std::result::Result<Node, String>)
    ensures
        r == toml_tree(text@),
{
    match text.parse::<TomlValue>() {
        Ok(v) => Ok(toml_node(&v)),
        Err(e) => Err(e.to_string()),
    }
}

/// `serde_yaml::from_str::<serde_yaml::Value>`.
#[verifier::external_body]
fn yaml_parse(text: &str) -> (r: std::result::Result<Node, String>)
    ensures
        r == yaml_tree(text@),
{
    match serde_yaml::from_str::<YamlValue>(text) {
        Ok(v) => Ok(yaml_node(&v)),
        Err(e) => Err(e.to_string()),
    }
}

/// `ini::Ini::load_from_str`, with the sections and their properties copied
/// out in iteration order.
#[verifier::external_body]
fn ini_parse(text: &str) -> (r: std::result::Result<Vec<(Option<String>, Vec<(String, String)>)>, String>)
    ensures
        r == ini_document(text@),
{
    match ini::Ini::load_from_str(text) {
        Ok(conf) => Ok(conf.iter().map(|(s, p)| (s.map(|x| x.to_string()), p.iter().map(|(k, v)| (k.to_string(), v.to_string())).collect())).collect()),
        Err(e) => Err(e.to_string()),
    }
}

/// What `dotenvy::from_read_iter` reads from a text, collected: the keys
/// of the pairs it yields, in order, or the text of the first error. Both
/// depend on the text alone; only the values draw on the process
/// environment (`$VAR` substitution), so they are left out of this name.
pub uninterp spec fn dotenv_outline(text: Seq<char>) -> std::result::Result<Seq<Seq<char>>, Seq<char>>;

/// A character that `dotenvy` accepts in a key: an ASCII letter or digit,
/// `_` or `.`.
pub open spec fn env_key_char(c: char) -> bool {
    ('a' <= c && c <= 'z') || ('A' <= c && c <= 'Z') || ('0' <= c && c <= '9') || c == '_' || c == '.'
}

/// A key that `dotenvy` reads as it is: it starts with an ASCII letter or
/// `_`, and holds only key characters.
pub open spec fn plain_env_key(k: Seq<char>) -> bool {
    &&& k.len() > 0
    &&& (('a' <= k[0] && k[0] <= 'z') || ('A' <= k[0] && k[0] <= 'Z') || k[0] == '_')
    &&& forall|i: int| 0 <= i < k.len() ==> env_key_char(#[trigger] k[i])
}

/// A value that `dotenvy` reads as it is: only ASCII letters and digits,
/// `_`, `.` and `-` (no quotes, escapes, `$`, blanks or `#`).
pub open spec fn plain_env_value(v: Seq<char>) -> bool {
    forall|i: int| 0 <= i < v.len() ==> env_key_char(#[trigger] v[i]) || v[i] == '-'
}

/// Every pair has a plain key and a plain value.
pub open spec fn plain_env_pairs(ps: Seq<(Seq<char>, Seq<char>)>) -> bool {
    forall|i: int| 0 <= i < ps.len() ==> plain_env_key(#[trigger] ps[i].0) && plain_env_value(ps[i].1)
}

/// The text made of one `KEY=value` line, ending in a newline, for each
/// pair in order.
pub open spec fn env_text_of(ps: Seq<(Seq<char>, Seq<char>)>) -> Seq<char>
    decreases ps.len(),
{
    if ps.len() == 0 {
        Seq::empty()
    } else {
        env_text_of(ps.drop_last()) + ps.last().0 + "="@ + ps.last().1 + "\n"@
    }
}

/// The pairs, each key and value as text.
pub open spec fn pair_views(pairs: Seq<(String, String)>) -> Seq<(Seq<char>, Seq<char>)> {
    pairs.map_values(|kv: (String, String)| (kv.0@, kv.1@))
}

/// `dotenvy::from_read_iter` over the text, collected. The keys of the
/// pairs, their order, and success or the error's text are those that
/// [`dotenv_outline`] names. The values are stated only for a text of plain
/// `KEY=value` lines, which `dotenvy` reads as written: there it performs
/// no `$VAR` substitution, so nothing comes from the process environment.
/// Other values are not stated.
#[verifier::external_body]
fn dotenv_parse(text: &str) -> (r: std::result::Result<Vec<(String, String)>, String>)
    ensures
        match r {
            Ok(p) => dotenv_outline(text@) == Ok::<Seq<Seq<char>>, Seq<char>>(pair_keys(p@)) && forall|ps: Seq<(Seq<char>, Seq<char>)>|
                plain_env_pairs(ps) && #[trigger] env_text_of(ps) == text@ ==> pair_views(p@) == ps,
            Err(m) => dotenv_outline(text@) == Err::<Seq<Seq<char>>, Seq<char>>(m@) && forall|ps: Seq<(Seq<char>, Seq<char>)>|
                plain_env_pairs(ps) ==> #[trigger] env_text_of(ps) != text@,
        },
{
    dotenvy::from_read_iter(text.as_bytes()).collect::<std::result::Result<Vec<_>, _>>().map_err(|e| e.to_string())
}

/// The label that a nested JSON object, TOML table or YAML mapping stands as
/// when it sits inside a list.
pub open spec fn json_label() -> Seq<char> {
    "[object]"@
}

/// See [`json_label`].
pub open spec fn toml_label() -> Seq<char> {
    "[table]"@
}

/// See [`json_label`].
pub open spec fn yaml_label() -> Seq<char> {
    "[mapping]"@
}

/// The outcome of parsing: the model of the map, or the parser's message.
pub open spec fn tree_outcome(t: std::result::Result<Node, String>, label: Seq<char>) -> std::result::Result<ConfigMapModel, Seq<char>> {
    match t {
        Ok(doc) => Ok(flatten(doc, None, empty_model(), label)),
        Err(msg) => Err(msg@),
    }
}

/// `r` is what a parser reports for `path` with this outcome: the map, or a
/// parse error naming `path` with the parser's message.
pub open spec fn reports(r: Result<ConfigMap>, path: Seq<char>, outcome: std::result::Result<ConfigMapModel, Seq<char>>) -> bool {
    match outcome {
        Ok(m) => r matches Ok(c) && c@ == m,
        Err(msg) => r matches Err(ConfigError::Parse { path: p, message }) && p@ == path && message@ == msg,
    }
}

/// A parse error naming `path`.
fn parse_error(path: &str, message: String) -> (r: ConfigError)
    ensures
        r matches ConfigError::Parse { path: p, message: m } && p@ == path@ && m == message,
{
    ConfigError::Parse { path: String::from_str(path), message }
}

fn from_tree(path: &str, t: std::result::Result<Node, String>, label: &str) -> (r: Result<ConfigMap>)
    ensures
        reports(r, path@, tree_outcome(t, label@)),
{
    match t {
        Ok(doc) => Ok(config_from_tree(&doc, label)),
        Err(msg) => Err(parse_error(path, msg)),
    }
}

/// Parse a JSON text into a [`ConfigMap`]: top-level scalars and lists are
/// flat entries, nested objects become sections.
pub fn parse_json(path: &str, content: &str) -> (r: Result<ConfigMap>)
    ensures
        reports(r, path@, tree_outcome(json_tree(content@), json_label())),
{
    from_tree(path, json_parse(content), "[object]")
}

/// Parse a TOML text into a [`ConfigMap`]: top-level keys are flat entries,
/// tables become sections.
pub fn parse_toml(path: &str, content: &str) -> (r: Result<ConfigMap>)
    ensures
        reports(r, path@, tree_outcome(toml_tree(content@), toml_label())),
{
    from_tree(path, toml_parse(content), "[table]")
}

/// Parse a YAML text into a [`ConfigMap`]: top-level keys are flat entries,
/// nested mappings become sections.
pub fn parse_yaml(path: &str, content: &str) -> (r: Result<ConfigMap>)
    ensures
        reports(r, path@, tree_outcome(yaml_tree(content@), yaml_label())),
{
    from_tree(path, yaml_parse(content), "[mapping]")
}

// ── .ini ──────────────────────────────────────────────────────────────────

/// The view of an optional string.
pub open spec fn opt_string_view(s: Option<String>) -> Option<Seq<char>> {
    match s {
        Some(t) => Some(t@),
        None => None,
    }
}

/// Writing the properties of one INI section, first to last.
pub open spec fn ini_props(m: ConfigMapModel, section: Option<Seq<char>>, props: Seq<(String, String)>) -> ConfigMapModel
    decreases props.len(),
{
    if props.len() == 0 {
        m
    } else {
        place(ini_props(m, section, props.drop_last()), section, props.last().0@, props.last().1@)
    }
}

/// The map of an INI document: general properties flat, the others in
/// their sections, first to last.
pub open spec fn ini_model(doc: Seq<(Option<String>, Vec<(String, String)>)>) -> ConfigMapModel
    decreases doc.len(),
{
    if doc.len() == 0 {
        empty_model()
    } else {
        ini_props(ini_model(doc.drop_last()), opt_string_view(doc.last().0), doc.last().1@)
    }
}

/// The map of a parsed INI document.
pub fn config_from_ini(doc: &Vec<(Option<String>, Vec<(String, String)>)>) -> (r: ConfigMap)
    ensures
        r@ == ini_model(doc@),
{
    let mut map = ConfigMap::new();
    let mut i: usize = 0;
    while i < doc.len()
        invariant
            i <= doc@.len(),
            map@ == ini_model(doc@.take(i as int)),
        decreases doc@.len() - i,
    {
        assert(doc@.take(i + 1).drop_last() =~= doc@.take(i as int));
        let section = &doc[i].0;
        let props = &doc[i].1;
        let ghost m0 = map@;
        let mut j: usize = 0;
        while j < props.len()
            invariant
                j <= props@.len(),
                map@ == ini_props(m0, opt_string_view(*section), props@.take(j as int)),
            decreases props@.len() - j,
        {
            assert(props@.take(j + 1).drop_last() =~= props@.take(j as int));
            let (k, v) = &props[j];
            match section {
                Some(s) => map.insert_sectioned(s.clone(), k.clone(), v.clone()),
                None => map.insert_flat(k.clone(), v.clone()),
            }
            j = j + 1;
        }
        assert(props@.take(props@.len() as int) =~= props@);
        i = i + 1;
    }
    assert(doc@.take(doc@.len() as int) =~= doc@);
    map
}

/// `content` without a leading byte-order mark, which
/// `ini::Ini::load_from_file` skips.
pub open spec fn without_bom(content: Seq<char>) -> Seq<char> {
    if content.len() > 0 && content[0] == '\u{feff}' {
        content.subrange(1, content.len() as int)
    } else {
        content
    }
}

/// The outcome of parsing an INI text.
pub open spec fn ini_outcome(content: Seq<char>) -> std::result::Result<ConfigMapModel, Seq<char>> {
    match ini_document(without_bom(content)) {
        Ok(doc) => Ok(ini_model(doc@)),
        Err(msg) => Err(msg@),
    }
}

/// Parse an INI text into a sectioned [`ConfigMap`]: properties of the
/// general section are flat entries, the others go to their sections.
pub fn parse_ini(path: &str, content: &str) -> (r: Result<ConfigMap>)
    ensures
        reports(r, path@, ini_outcome(content@)),
{
    let n = content.unicode_len();
    let text = if n > 0 && content.get_char(0) == '\u{feff}' {
        content.substring_char(1, n)
    } else {
        content
    };
    match ini_parse(text) {
        Ok(doc) => Ok(config_from_ini(&doc)),
        Err(msg) => Err(parse_error(path, msg)),
    }
}

// ── .env ──────────────────────────────────────────────────────────────────

/// The entries that inserting `pairs` one after the other gives.
pub open spec fn insert_pairs(pairs: Seq<(String, String)>) -> Entries
    decreases pairs.len(),
{
    if pairs.len() == 0 {
        Seq::empty()
    } else {
        insert_entry(insert_pairs(pairs.drop_last()), pairs.last().0@, pairs.last().1@)
    }
}

/// A flat map of key/value pairs, inserted first to last (a repeated key
/// keeps its first place and takes its last value).
pub fn config_from_pairs(pairs: &Vec<(String, String)>) -> (r: ConfigMap)
    ensures
        r@ == (insert_pairs(pairs@), Seq::<(Seq<char>, Entries)>::empty()),
{
    let mut map = ConfigMap::new();
    let mut i: usize = 0;
    while i < pairs.len()
        invariant
            i <= pairs@.len(),
            map@ == (insert_pairs(pairs@.take(i as int)), Seq::<(Seq<char>, Entries)>::empty()),
        decreases pairs@.len() - i,
    {
        assert(pairs@.take(i + 1).drop_last() =~= pairs@.take(i as int));
        let (k, v) = &pairs[i];
        map.insert_flat(k.clone(), v.clone());
        i = i + 1;
    }
    assert(pairs@.take(pairs@.len() as int) =~= pairs@);
    map
}

/// The keys of `pairs`, in order.
pub open spec fn pair_keys(pairs: Seq<(String, String)>) -> Seq<Seq<char>> {
    pairs.map_values(|kv: (String, String)| kv.0@)
}

/// `m` is a flat map that pairs with the keys `keys`, inserted in order,
/// give (a repeated key keeps its first place and takes its last value).
pub open spec fn env_map_with_keys(m: ConfigMapModel, keys: Seq<Seq<char>>) -> bool {
    &&& m.1.len() == 0
    &&& exists|pairs: Seq<(String, String)>| pair_keys(pairs) == keys && m.0 == insert_pairs(pairs)
}

/// The entries that inserting the textual pairs `ps` one after the other
/// gives.
pub open spec fn insert_texts(ps: Seq<(Seq<char>, Seq<char>)>) -> Entries
    decreases ps.len(),
{
    if ps.len() == 0 {
        Seq::empty()
    } else {
        insert_entry(insert_texts(ps.drop_last()), ps.last().0, ps.last().1)
    }
}

/// When `content` is made of plain `KEY=value` lines, the flat entries of
/// `m` are those lines inserted in order, values exactly as written.
pub open spec fn env_plain_values(m: ConfigMapModel, content: Seq<char>) -> bool {
    forall|ps: Seq<(Seq<char>, Seq<char>)>|
        plain_env_pairs(ps) && #[trigger] env_text_of(ps) == content ==> m.0 == insert_texts(ps)
}

/// Inserting pairs gives what inserting their texts gives.
pub proof fn lemma_insert_pairs_texts(pairs: Seq<(String, String)>)
    ensures
        insert_pairs(pairs) == insert_texts(pair_views(pairs)),
    decreases pairs.len(),
{
    if pairs.len() > 0 {
        lemma_insert_pairs_texts(pairs.drop_last());
        assert(pair_views(pairs).drop_last() =~= pair_views(pairs.drop_last()));
    }
}

/// Parse a dotenv text with `dotenvy` into a flat [`ConfigMap`]: the pairs
/// it reads inserted in order, or a parse error naming `path` with
/// `dotenvy`'s message.
pub fn parse_env(path: &str, content: &str) -> (r: Result<ConfigMap>)
    ensures
        env_reports(r, path@, content@),
{
    match dotenv_parse(content) {
        Ok(pairs) => {
            let m = config_from_pairs(&pairs);
            assert(env_map_with_keys(m@, pair_keys(pairs@)));
            proof {
                lemma_insert_pairs_texts(pairs@);
            }
            assert(env_plain_values(m@, content@));
            Ok(m)
        },
        Err(msg) => Err(parse_error(path, msg)),
    }
}

/// `r` is what reading the dotenv text `content` of file `path` reports:
/// when `dotenvy` accepts the text, a flat map of pairs with the keys it
/// read (and, for plain `KEY=value` lines, the values as written);
/// otherwise a parse error naming `path` with its message.
pub open spec fn env_reports(r: Result<ConfigMap>, path: Seq<char>, content: Seq<char>) -> bool {
    match dotenv_outline(content) {
        Ok(keys) => r matches Ok(m) && env_map_with_keys(m@, keys) && env_plain_values(m@, content),
        Err(msg) => r matches Err(ConfigError::Parse { path: p, message }) && p@ == path && message@ == msg,
    }
}

/// The outcome of parsing `content` as `format`, for every format but
/// dotenv (whose outcome also depends on the process environment).
pub open spec fn format_outcome(format: Format, content: Seq<char>) -> std::result::Result<ConfigMapModel, Seq<char>> {
    match format {
        Format::Ini => ini_outcome(content),
        Format::Toml => tree_outcome(toml_tree(content), toml_label()),
        Format::Json => tree_outcome(json_tree(content), json_label()),
        _ => tree_outcome(yaml_tree(content), yaml_label()),
    }
}

/// `r` is what parsing `content` of file `path` as `format` reports.
pub open spec fn parsed_as(r: Result<ConfigMap>, format: Format, path: Seq<char>, content: Seq<char>) -> bool {
    if format == Format::Env {
        env_reports(r, path, content)
    } else {
        reports(r, path, format_outcome(format, content))
    }
}

/// Parse `content` of the file at `path` with the parser for `format`.
pub fn parse_content(format: Format, path: &str, content: &str) -> (r: Result<ConfigMap>)
    ensures
        parsed_as(r, format, path@, content@),
{
    match format {
        Format::Env => parse_env(path, content),
        Format::Ini => parse_ini(path, content),
        Format::Toml => parse_toml(path, content),
        Format::Json => parse_json(path, content),
        Format::Yaml => parse_yaml(path, content),
    }
}

} // verus!
