//! Properties of the library as a whole, stated over the models that the
//! operations' contracts use.

use vstd::prelude::*;

use crate::config_get::{format_files, loads_to, paths_under};
use crate::discovery::{first_existing, candidate_dirs, dedup_paths, has_same_path, opt_text, search_dirs_spec, SearchEnv};
use crate::format::{candidate_names, format_of_name, format_of_path, Format};
use crate::node::{flatten, flatten_entries, place, Key, Node};
use crate::parsers::{
    dotenv_outline, env_line, env_text_of, ini_document, ini_model, ini_props, without_bom, insert_pairs, insert_texts, pair_keys, plain_env_pairs, unquoted,
};
use crate::path::{extension_of, path_eq, path_file_name, path_join};
use crate::table::{
    find_key, has_key, insert_entry, keys_of, lemma_find_key, lemma_insert_lookup, lemma_insert_unique,
    lookup, unique_keys, Entries,
};
use crate::status::{header_of, status_finish, status_step, Context, LineView, StateModel};
use crate::pattern::regex_captures;
use crate::text::{
    contains_text, ends_with, last_index, lemma_last_index, lowercase, starts_with, strip_suffixes, trimmed,
};
use crate::value::{
    empty_model, holds_key, lookup_in, model_insert_flat, model_insert_sectioned,
    section_or_empty, ConfigMapModel,
};

verus! {

/// Reading a flat key right after writing it gives the written value; every
/// other flat key, and every section, reads as before.
pub proof fn law_flat_read_after_write(m: ConfigMapModel, k: Seq<char>, v: Seq<char>, k2: Seq<char>)
    ensures
        lookup(model_insert_flat(m, k, v).0, k) == Some(v),
        k2 != k ==> lookup(model_insert_flat(m, k, v).0, k2) == lookup(m.0, k2),
        model_insert_flat(m, k, v).1 == m.1,
{
    lemma_insert_lookup(m.0, k, v, k2);
}

/// Reading `section.key` right after writing it gives the written value;
/// every other sectioned key reads as before, and flat keys are untouched.
pub proof fn law_section_read_after_write(
    m: ConfigMapModel,
    s: Seq<char>,
    k: Seq<char>,
    v: Seq<char>,
    s2: Seq<char>,
    k2: Seq<char>,
)
    ensures
        lookup_in(model_insert_sectioned(m, s, k, v).1, s, k) == Some(v),
        (s2 != s || k2 != k) ==> lookup_in(model_insert_sectioned(m, s, k, v).1, s2, k2) == lookup_in(m.1, s2, k2),
        model_insert_sectioned(m, s, k, v).0 == m.0,
{
    let inner = section_or_empty(m.1, s);
    let inner2 = insert_entry(inner, k, v);
    lemma_insert_lookup(m.1, s, inner2, s2);
    lemma_insert_lookup(inner, k, v, k2);
}

/// Inserting never makes a key occur twice, and adds an entry exactly when
/// the key is new; an empty map has unique keys.
pub proof fn law_insert_keeps_keys_unique(e: Entries, k: Seq<char>, v: Seq<char>)
    requires
        unique_keys(e),
    ensures
        unique_keys(insert_entry(e, k, v)),
        insert_entry(e, k, v).len() == e.len() + if has_key(e, k) { 0int } else { 1int },
        unique_keys(empty_model().0),
{
    lemma_insert_unique(e, k, v);
}

/// A key that a flat lookup or a lookup in some section finds is a key the
/// map contains.
pub proof fn law_found_keys_are_contained(m: ConfigMapModel, s: Seq<char>, k: Seq<char>)
    ensures
        lookup(m.0, k) is Some ==> holds_key(m, k),
        lookup_in(m.1, s, k) is Some ==> holds_key(m, k),
{
    if lookup_in(m.1, s, k) is Some {
        crate::table::lemma_find_key(m.1, s);
        let i = crate::table::find_key(m.1, s);
        assert(has_key(m.1[i].1, k));
    }
}

/// A map is empty exactly when its length is zero.
pub proof fn law_empty_iff_no_entries(m: ConfigMapModel)
    ensures
        (m.0.len() == 0 && m.1.len() == 0) <==> m.0.len() + m.1.len() == 0,
{
}

/// Every candidate file name is detected as the format it is the candidate
/// for, as long as the stem is non-empty and does not itself make the name
/// look like a dotenv file (`.env` or starting with `.env.`).
pub proof fn law_candidates_detected(stem: Seq<char>)
    requires
        stem.len() > 0,
        stem != ".env"@,
        !starts_with(stem, ".env."@),
    ensures
        format_of_name(candidate_names(stem)[0]) == Some(Format::Env),
        format_of_name(candidate_names(stem)[1]) == Some(Format::Ini),
        format_of_name(candidate_names(stem)[2]) == Some(Format::Toml),
        format_of_name(candidate_names(stem)[3]) == Some(Format::Json),
        format_of_name(candidate_names(stem)[4]) == Some(Format::Yaml),
        format_of_name(candidate_names(stem)[5]) == Some(Format::Yaml),
{
    reveal_strlit(".env");
    reveal_strlit(".env.");
    reveal_strlit(".ini");
    reveal_strlit("ini");
    reveal_strlit(".toml");
    reveal_strlit("toml");
    reveal_strlit(".json");
    reveal_strlit("json");
    reveal_strlit(".yml");
    reveal_strlit("yml");
    reveal_strlit(".yaml");
    reveal_strlit("yaml");
    assert(".ini"@ =~= seq!['.'] + "ini"@);
    assert(".toml"@ =~= seq!['.'] + "toml"@);
    assert(".json"@ =~= seq!['.'] + "json"@);
    assert(".yml"@ =~= seq!['.'] + "yml"@);
    assert(".yaml"@ =~= seq!['.'] + "yaml"@);
    assert(candidate_names(stem)[0] == ".env"@);
    assert("yaml"@[0] != "ini"@[0] && "yaml"@[0] != "toml"@[0] && "yaml"@[0] != "json"@[0]);
    assert("yaml"@.len() != "yml"@.len());
    lemma_suffix_detected(stem, ".ini"@, "ini"@);
    lemma_suffix_detected(stem, ".toml"@, "toml"@);
    lemma_suffix_detected(stem, ".json"@, "json"@);
    lemma_suffix_detected(stem, ".yml"@, "yml"@);
    lemma_suffix_detected(stem, ".yaml"@, "yaml"@);
}

proof fn lemma_suffix_detected(stem: Seq<char>, suffix: Seq<char>, ext: Seq<char>)
    requires
        stem.len() > 0,
        stem != ".env"@,
        !starts_with(stem, ".env."@),
        suffix == seq!['.'] + ext,
        ext.len() >= 3,
        forall|i: int| 0 <= i < ext.len() ==> ext[i] != '.',
        ext[ext.len() - 1] != 'v',
    ensures
        !(stem + suffix == ".env"@ || starts_with(stem + suffix, ".env."@) || ends_with(stem + suffix, ".env"@)),
        extension_of(stem + suffix) == Some(ext),
{
    reveal_strlit(".env");
    reveal_strlit(".env.");
    let name = stem + suffix;
    assert(name.last() == ext[ext.len() - 1]);
    assert(".env"@.last() == 'v');
    if ends_with(name, ".env"@) {
        assert(name.subrange(name.len() - 4, name.len() as int).last() == name.last());
    }
    if starts_with(name, ".env."@) {
        if stem.len() >= 5 {
            assert(stem.subrange(0, 5) =~= name.subrange(0, 5));
        } else if stem.len() == 4 {
            assert(stem =~= name.subrange(0, 4));
            assert(stem =~= ".env"@);
        } else {
            assert(name[stem.len() as int] == '.');
            assert(".env."@[stem.len() as int] != '.');
        }
    }
    lemma_last_index(name, '.');
    let i = stem.len() as int;
    assert(name[i] == '.');
    assert forall|j: int| i < j < name.len() implies name[j] != '.' by {
        assert(name[j] == ext[j - i - 1]);
    }
    assert(last_index(name, '.') == i);
    if name == seq!['.', '.'] {
        assert(name.len() == 2);
    }
    assert(name.subrange(i + 1, name.len() as int) =~= ext);
}

/// The search paths are every candidate name in the first directory, then
/// every candidate in the second, and so on.
pub proof fn law_search_paths_order(dirs: Seq<Seq<char>>, names: Seq<Seq<char>>, i: int, j: int)
    requires
        0 <= i < dirs.len(),
        0 <= j < names.len(),
    ensures
        paths_under(dirs, names).len() == dirs.len() * names.len(),
        paths_under(dirs, names)[i * names.len() + j] == path_join(dirs[i], names[j]),
    decreases dirs.len(),
{
    lemma_paths_under_len(dirs, names);
    let d = dirs.drop_last();
    if i < dirs.len() - 1 {
        law_search_paths_order(d, names, i, j);
        lemma_paths_under_len(d, names);
        assert(i * names.len() + j < d.len() * names.len()) by (nonlinear_arith)
            requires
                0 <= i < d.len(),
                0 <= j < names.len(),
        ;
    } else {
        lemma_paths_under_len(d, names);
        assert(d.len() * names.len() == i * names.len());
    }
}

proof fn lemma_paths_under_len(dirs: Seq<Seq<char>>, names: Seq<Seq<char>>)
    ensures
        paths_under(dirs, names).len() == dirs.len() * names.len(),
    decreases dirs.len(),
{
    if dirs.len() > 0 {
        lemma_paths_under_len(dirs.drop_last(), names);
        assert(dirs.len() * names.len() == (dirs.len() - 1) * names.len() + names.len()) by (nonlinear_arith);
    }
}

/// No two search directories are the same path, and every candidate
/// directory is searched (itself, or a directory that is the same path).
pub proof fn law_search_dirs_distinct(env: SearchEnv, config_dir: Seq<char>)
    ensures
        forall|i: int, j: int|
            0 <= i < j < search_dirs_spec(env, config_dir).len() ==> !path_eq(
                #[trigger] search_dirs_spec(env, config_dir)[i],
                #[trigger] search_dirs_spec(env, config_dir)[j],
            ),
        forall|c: int|
            0 <= c < candidate_dirs(opt_text(env.home), opt_text(env.data_dir), opt_text(env.cwd), env.windows, config_dir).len()
                ==> has_same_path(search_dirs_spec(env, config_dir), #[trigger] candidate_dirs(
                opt_text(env.home),
                opt_text(env.data_dir),
                opt_text(env.cwd),
                env.windows,
                config_dir,
            )[c]) || search_dirs_spec(env, config_dir).contains(candidate_dirs(
                opt_text(env.home),
                opt_text(env.data_dir),
                opt_text(env.cwd),
                env.windows,
                config_dir,
            )[c]),
{
    let raw = candidate_dirs(opt_text(env.home), opt_text(env.data_dir), opt_text(env.cwd), env.windows, config_dir);
    lemma_dedup(raw);
}

proof fn lemma_dedup(s: Seq<Seq<char>>)
    ensures
        forall|i: int, j: int| 0 <= i < j < dedup_paths(s).len() ==> !path_eq(#[trigger] dedup_paths(s)[i], #[trigger] dedup_paths(s)[j]),
        forall|c: int| 0 <= c < s.len() ==> has_same_path(dedup_paths(s), #[trigger] s[c]) || dedup_paths(s).contains(s[c]),
    decreases s.len(),
{
    if s.len() > 0 {
        let t = s.drop_last();
        lemma_dedup(t);
        let d = dedup_paths(t);
        assert forall|c: int| 0 <= c < s.len() implies has_same_path(dedup_paths(s), #[trigger] s[c]) || dedup_paths(s).contains(s[c]) by {
            if c < s.len() - 1 {
                assert(s[c] == t[c]);
                if has_same_path(d, t[c]) {
                    let w = choose|w: int| 0 <= w < d.len() && path_eq(#[trigger] d[w], t[c]);
                    assert(dedup_paths(s)[w] == d[w]);
                } else {
                    let w = choose|w: int| 0 <= w < d.len() && d[w] == t[c];
                    assert(dedup_paths(s)[w] == d[w]);
                }
            } else if !has_same_path(d, s.last()) {
                assert(dedup_paths(s)[d.len() as int] == s.last());
            }
        }
    }
}

/// A dotenv line whose first non-blank character is `#`, or that is blank,
/// adds nothing.
pub proof fn law_env_comment_lines_ignored(e: Entries, line: Seq<char>)
    requires
        trimmed(line).len() == 0 || trimmed(line)[0] == '#',
    ensures
        env_line(e, line) == e,
{
}

/// A document whose top level is not a table gives an empty map.
pub proof fn law_non_table_document_is_empty(n: Node, label: Seq<char>)
    requires
        !(n is Table),
    ensures
        flatten(n, None, empty_model(), label) == empty_model(),
{
}

/// A table none of whose values is a table only writes flat entries: the
/// sections stay as they were.
pub proof fn law_flat_table_adds_no_sections(es: Seq<(Key, Node)>, m: ConfigMapModel, label: Seq<char>)
    requires
        forall|i: int| 0 <= i < es.len() ==> !((#[trigger] es[i]).1 is Table),
    ensures
        flatten_entries(es, None, m, label).1 == m.1,
    decreases es.len(),
{
    if es.len() > 0 {
        let d = es.drop_last();
        assert forall|i: int| 0 <= i < d.len() implies !((#[trigger] d[i]).1 is Table) by {
            assert(d[i] == es[i]);
        }
        law_flat_table_adds_no_sections(d, m, label);
        assert(!(es[es.len() - 1].1 is Table));
    }
}

/// Loading the same text from the same path twice gives the same entries,
/// for every format but dotenv (whose values may draw on the process
/// environment).
pub proof fn law_loading_is_deterministic(path: Seq<char>, content: Seq<char>, m1: ConfigMapModel, m2: ConfigMapModel)
    requires
        format_of_path(path) != Some(Format::Env),
        loads_to(path, content, m1),
        loads_to(path, content, m2),
    ensures
        m1 == m2,
{
}

/// A value wrapped in one pair of matching quotes loses exactly that pair.
pub proof fn law_unquote_wrapped(s: Seq<char>, q: char)
    requires
        q == '"' || q == '\'',
    ensures
        unquoted(seq![q] + s + seq![q]) == s,
{
    let w = seq![q] + s + seq![q];
    assert(w[0] == q);
    assert(w.last() == q);
    assert(w.subrange(1, w.len() - 1) =~= s);
}

/// Without tree mode, every line of `git status` output is shown, nothing
/// is collected, and nothing is left to show at the end.
pub proof fn law_status_without_tree_shows_every_line(st: StateModel, raw: Seq<char>)
    requires
        st.1.len() == 0,
    ensures
        status_step(false, st, raw).0.len() >= 1,
        status_step(false, st, raw).1.1.len() == 0,
        status_finish(false, status_step(false, st, raw).1).len() == 0,
{
}

/// Each key once, in the order of its first appearance in `keys`.
pub open spec fn first_keys(keys: Seq<Seq<char>>) -> Seq<Seq<char>>
    decreases keys.len(),
{
    if keys.len() == 0 {
        Seq::empty()
    } else if first_keys(keys.drop_last()).contains(keys.last()) {
        first_keys(keys.drop_last())
    } else {
        first_keys(keys.drop_last()).push(keys.last())
    }
}

/// Loading a dotenv file gives each key that `dotenvy` reads from it once,
/// in the order of its first appearance; so loading the same text twice
/// gives the same keys in the same order.
pub proof fn law_env_keys_follow_the_file(path: Seq<char>, content: Seq<char>, m1: ConfigMapModel, m2: ConfigMapModel)
    requires
        format_of_path(path) == Some(Format::Env),
        loads_to(path, content, m1),
        loads_to(path, content, m2),
    ensures
        dotenv_outline(content) matches Ok(keys) && keys_of(m1.0) == first_keys(keys),
        keys_of(m1.0) == keys_of(m2.0),
        m1.1.len() == 0 && m2.1.len() == 0,
{
    let keys = dotenv_outline(content)->Ok_0;
    let p1 = choose|p: Seq<(String, String)>| pair_keys(p) == keys && m1.0 == insert_pairs(p);
    let p2 = choose|p: Seq<(String, String)>| pair_keys(p) == keys && m2.0 == insert_pairs(p);
    lemma_insert_pairs_keys(p1);
    lemma_insert_pairs_keys(p2);
}

/// The keys that inserting `pairs` in order leaves are their keys, each
/// once, in the order of first appearance.
proof fn lemma_insert_pairs_keys(pairs: Seq<(String, String)>)
    ensures
        keys_of(insert_pairs(pairs)) == first_keys(pair_keys(pairs)),
    decreases pairs.len(),
{
    if pairs.len() > 0 {
        let d = pairs.drop_last();
        lemma_insert_pairs_keys(d);
        assert(pair_keys(pairs).drop_last() =~= pair_keys(d));
        let e = insert_pairs(d);
        let k = pairs.last().0@;
        let v = pairs.last().1@;
        lemma_find_key(e, k);
        if has_key(e, k) {
            let i = find_key(e, k);
            assert(keys_of(e)[i] == k);
            assert(keys_of(e).contains(k));
            assert(keys_of(e.update(i, (k, v))) =~= keys_of(e));
        } else {
            assert(!keys_of(e).contains(k)) by {
                if keys_of(e).contains(k) {
                    let j = choose|j: int| 0 <= j < keys_of(e).len() && keys_of(e)[j] == k;
                    assert(e[j].0 == k);
                }
            }
            assert(keys_of(e.push((k, v))) =~= keys_of(e).push(k));
        }
    }
}

/// A search in priority order finds the first path that exists: it exists,
/// no earlier path does, and nothing is found exactly when no path exists.
pub proof fn law_first_found_wins(paths: Seq<Seq<char>>, exists: Seq<bool>)
    requires
        exists.len() == paths.len(),
    ensures
        match first_existing(paths, exists) {
            Some(p) => exists|i: int|
                0 <= i < paths.len() && exists[i] && paths[i] == p && forall|j: int| 0 <= j < i ==> !exists[j],
            None => forall|j: int| 0 <= j < paths.len() ==> !exists[j],
        },
    decreases paths.len(),
{
    if paths.len() > 0 && !exists[0] {
        let ps = paths.drop_first();
        let es = exists.drop_first();
        law_first_found_wins(ps, es);
        match first_existing(ps, es) {
            Some(p) => {
                let i = choose|i: int|
                    0 <= i < ps.len() && es[i] && ps[i] == p && forall|j: int| 0 <= j < i ==> !es[j];
                assert(exists[i + 1] && paths[i + 1] == p);
                assert forall|j: int| 0 <= j < i + 1 implies !exists[j] by {
                    if j > 0 {
                        assert(exists[j] == es[j - 1]);
                    }
                }
            },
            None => {
                assert forall|j: int| 0 <= j < paths.len() implies !exists[j] by {
                    if j > 0 {
                        assert(exists[j] == es[j - 1]);
                    }
                }
            },
        }
    } else if paths.len() > 0 {
        assert(exists[0] && paths[0] == paths[0]);
    }
}

/// Every file name searched for a single format is detected as that
/// format, as long as the stem is non-empty and does not itself make the
/// name look like a dotenv file (`.env` or starting with `.env.`); at least
/// one name is searched.
pub proof fn law_format_files_detected(stem: Seq<char>, f: Format)
    requires
        stem.len() > 0,
        stem != ".env"@,
        !starts_with(stem, ".env."@),
    ensures
        format_files(stem, f).len() >= 1,
        forall|i: int| 0 <= i < format_files(stem, f).len() ==> format_of_name(#[trigger] format_files(stem, f)[i]) == Some(f),
{
    law_candidates_detected(stem);
    let c = candidate_names(stem);
    assert forall|i: int| 0 <= i < format_files(stem, f).len() implies format_of_name(#[trigger] format_files(stem, f)[i]) == Some(f) by {
        match f {
            Format::Env => assert(format_files(stem, f)[i] == c[0]),
            Format::Ini => assert(format_files(stem, f)[i] == c[1]),
            Format::Toml => assert(format_files(stem, f)[i] == c[2]),
            Format::Json => assert(format_files(stem, f)[i] == c[3]),
            Format::Yaml => if i == 0 {
                assert(format_files(stem, f)[i] == c[4]);
            } else {
                assert(format_files(stem, f)[i] == c[5]);
            },
        }
    }
}

/// The format of a path is that of its file name, whatever directory it
/// lies in: in particular a file name starting with `.env.` is a dotenv
/// file. A path without a file name has no format.
pub proof fn law_format_of_path_is_its_file_name(p: Seq<char>)
    ensures
        path_file_name(p) matches Some(n) ==> format_of_path(p) == format_of_name(n),
        path_file_name(p) matches Some(n) && starts_with(n, ".env."@) ==> format_of_path(p) == Some(Format::Env),
        path_file_name(p) is None ==> format_of_path(p) is None,
{
}

/// A `git status` line that ends the listing (its trimmed, lowercased text
/// starts with "nothing to commit", "nothing added to commit" or "no
/// changes added to commit", or contains "clean working tree"), and is no
/// branch, warning, up-to-date, ahead/behind, header or hint line, is shown
/// as a success line. When the untracked list is open in tree mode, the
/// collected files are shown first and the list is closed; the line itself
/// is never collected as an untracked file.
pub proof fn law_terminal_line_ends_listing(tree: bool, st: StateModel, raw: Seq<char>, line: Seq<char>)
    requires
        line == strip_suffixes(raw, seq!['\r']),
        starts_with(lowercase(trimmed(line)), "nothing to commit"@)
            || starts_with(lowercase(trimmed(line)), "nothing added to commit"@)
            || starts_with(lowercase(trimmed(line)), "no changes added to commit"@)
            || contains_text(lowercase(trimmed(line)), "clean working tree"@),
        regex_captures("^On branch (.+)$"@, line) is None,
        !contains_text(line, "HEAD detached"@),
        !contains_text(line, "No commits yet"@),
        !contains_text(line, "Your branch is up to date"@),
        !contains_text(line, "ahead"@),
        !contains_text(line, "behind"@),
        !contains_text(line, "diverged"@),
        header_of(line) is None,
        !starts_with(trimmed(line), "(use \"git "@),
    ensures
        status_step(tree, st, raw).0.len() >= 1,
        status_step(tree, st, raw).0.last() == LineView::Success(line),
        st.2 && tree ==> status_step(tree, st, raw).0 == seq![LineView::UntrackedFiles(st.1), LineView::Success(line)]
            && status_step(tree, st, raw).1 == (Context::Plain, Seq::<Seq<char>>::empty(), false),
        !(st.2 && tree) ==> status_step(tree, st, raw).0 == seq![LineView::Success(line)]
            && status_step(tree, st, raw).1 == (Context::Plain, st.1, st.2),
{
}

/// The value of the last pair with key `k`, if any.
pub open spec fn last_value(ps: Seq<(Seq<char>, Seq<char>)>, k: Seq<char>) -> Option<Seq<char>>
    decreases ps.len(),
{
    if ps.len() == 0 {
        None
    } else if ps.last().0 == k {
        Some(ps.last().1)
    } else {
        last_value(ps.drop_last(), k)
    }
}

/// Loading a dotenv text made of plain `KEY=value` lines reads each key
/// back with the value of its last line, exactly as written (case and every
/// character unchanged); a key on no line is absent; nothing is sectioned.
pub proof fn law_env_plain_values_read_back(path: Seq<char>, ps: Seq<(Seq<char>, Seq<char>)>, m: ConfigMapModel)
    requires
        format_of_path(path) == Some(Format::Env),
        plain_env_pairs(ps),
        loads_to(path, env_text_of(ps), m),
    ensures
        m.1.len() == 0,
        forall|k: Seq<char>| #[trigger] lookup(m.0, k) == last_value(ps, k),
        forall|i: int|
            0 <= i < ps.len() && (forall|j: int| i < j < ps.len() ==> ps[j].0 != ps[i].0) ==> lookup(
                m.0,
                #[trigger] ps[i].0,
            ) == Some(ps[i].1),
        forall|k: Seq<char>| (forall|j: int| 0 <= j < ps.len() ==> ps[j].0 != k) ==> lookup(m.0, k) is None,
{
    assert(m.0 == insert_texts(ps));
    assert forall|k: Seq<char>| #[trigger] lookup(m.0, k) == last_value(ps, k) by {
        lemma_insert_texts_lookup(ps, k);
    }
    assert forall|i: int|
        0 <= i < ps.len() && (forall|j: int| i < j < ps.len() ==> ps[j].0 != ps[i].0) implies lookup(
            m.0,
            #[trigger] ps[i].0,
        ) == Some(ps[i].1) by {
        lemma_insert_texts_lookup(ps, ps[i].0);
        lemma_last_value_at(ps, i);
    }
    assert forall|k: Seq<char>| (forall|j: int| 0 <= j < ps.len() ==> ps[j].0 != k) implies lookup(m.0, k) is None by {
        lemma_insert_texts_lookup(ps, k);
        lemma_last_value_absent(ps, k);
    }
}

proof fn lemma_insert_texts_lookup(ps: Seq<(Seq<char>, Seq<char>)>, k: Seq<char>)
    ensures
        lookup(insert_texts(ps), k) == last_value(ps, k),
    decreases ps.len(),
{
    if ps.len() > 0 {
        lemma_insert_texts_lookup(ps.drop_last(), k);
        lemma_insert_lookup(insert_texts(ps.drop_last()), ps.last().0, ps.last().1, k);
    }
}

proof fn lemma_last_value_at(ps: Seq<(Seq<char>, Seq<char>)>, i: int)
    requires
        0 <= i < ps.len(),
        forall|j: int| i < j < ps.len() ==> ps[j].0 != ps[i].0,
    ensures
        last_value(ps, ps[i].0) == Some(ps[i].1),
    decreases ps.len(),
{
    if i < ps.len() - 1 {
        let d = ps.drop_last();
        assert(ps.last().0 != ps[i].0);
        assert forall|j: int| i < j < d.len() implies d[j].0 != d[i].0 by {
            assert(d[j] == ps[j]);
        }
        lemma_last_value_at(d, i);
        assert(d[i] == ps[i]);
    }
}

proof fn lemma_last_value_absent(ps: Seq<(Seq<char>, Seq<char>)>, k: Seq<char>)
    requires
        forall|j: int| 0 <= j < ps.len() ==> ps[j].0 != k,
    ensures
        last_value(ps, k) is None,
    decreases ps.len(),
{
    if ps.len() > 0 {
        let d = ps.drop_last();
        assert(ps.last().0 != k);
        assert forall|j: int| 0 <= j < d.len() implies d[j].0 != k by {
            assert(d[j] == ps[j]);
        }
        lemma_last_value_absent(d, k);
    }
}

/// What reading `key` in `section` (`None` for the flat entries) gives.
pub open spec fn read_at(m: ConfigMapModel, section: Option<Seq<char>>, key: Seq<char>) -> Option<Seq<char>> {
    match section {
        Some(s) => lookup_in(m.1, s, key),
        None => lookup(m.0, key),
    }
}

/// The properties of an INI document as (section, key, value), in document
/// order, sections named as the document names them (`None` for the
/// general section).
pub open spec fn ini_writes(doc: Seq<(Option<String>, Vec<(String, String)>)>) -> Seq<(Option<Seq<char>>, Seq<char>, Seq<char>)>
    decreases doc.len(),
{
    if doc.len() == 0 {
        Seq::empty()
    } else {
        ini_writes(doc.drop_last()) + props_in(opt_text(doc.last().0), doc.last().1@)
    }
}

/// The properties of one section as (section, key, value).
pub open spec fn props_in(section: Option<Seq<char>>, props: Seq<(String, String)>) -> Seq<(Option<Seq<char>>, Seq<char>, Seq<char>)> {
    props.map_values(|p: (String, String)| (section, p.0@, p.1@))
}

/// The value of the last property written to `key` in `section`, if any.
pub open spec fn last_write(ws: Seq<(Option<Seq<char>>, Seq<char>, Seq<char>)>, section: Option<Seq<char>>, key: Seq<char>) -> Option<Seq<char>>
    decreases ws.len(),
{
    if ws.len() == 0 {
        None
    } else if ws.last().0 == section && ws.last().1 == key {
        Some(ws.last().2)
    } else {
        last_write(ws.drop_last(), section, key)
    }
}

/// Loading an INI file reads back what its document says: `key` in
/// `section` (the general section's keys flat) gives the value of the last
/// property the document lists under that section, named exactly as the
/// document names it, and nothing when it lists none.
pub proof fn law_ini_reads_back_document(
    path: Seq<char>,
    content: Seq<char>,
    m: ConfigMapModel,
    doc: Vec<(Option<String>, Vec<(String, String)>)>,
)
    requires
        format_of_path(path) == Some(Format::Ini),
        loads_to(path, content, m),
        ini_document(without_bom(content)) == Ok::<Vec<(Option<String>, Vec<(String, String)>)>, String>(doc),
    ensures
        forall|section: Option<Seq<char>>, key: Seq<char>| #[trigger] read_at(m, section, key) == last_write(ini_writes(doc@), section, key),
{
    assert(m == ini_model(doc@));
    assert forall|section: Option<Seq<char>>, key: Seq<char>| #[trigger] read_at(m, section, key) == last_write(ini_writes(doc@), section, key) by {
        lemma_ini_model_reads(doc@, section, key);
    }
}

proof fn lemma_read_place(m: ConfigMapModel, s: Option<Seq<char>>, k: Seq<char>, v: Seq<char>, section: Option<Seq<char>>, key: Seq<char>)
    ensures
        read_at(place(m, s, k, v), section, key) == if s == section && k == key { Some(v) } else { read_at(m, section, key) },
{
    match s {
        Some(n) => {
            match section {
                Some(n2) => law_section_read_after_write(m, n, k, v, n2, key),
                None => law_section_read_after_write(m, n, k, v, n, key),
            }
        },
        None => {
            law_flat_read_after_write(m, k, v, key);
        },
    }
}

proof fn lemma_ini_props_reads(m: ConfigMapModel, s: Option<Seq<char>>, props: Seq<(String, String)>, section: Option<Seq<char>>, key: Seq<char>)
    ensures
        read_at(ini_props(m, s, props), section, key) == match last_write(props_in(s, props), section, key) {
            Some(v) => Some(v),
            None => read_at(m, section, key),
        },
    decreases props.len(),
{
    if props.len() > 0 {
        let d = props.drop_last();
        lemma_ini_props_reads(m, s, d, section, key);
        assert(props_in(s, props).drop_last() =~= props_in(s, d));
        lemma_read_place(ini_props(m, s, d), s, props.last().0@, props.last().1@, section, key);
    }
}

proof fn lemma_last_write_concat(
    a: Seq<(Option<Seq<char>>, Seq<char>, Seq<char>)>,
    b: Seq<(Option<Seq<char>>, Seq<char>, Seq<char>)>,
    section: Option<Seq<char>>,
    key: Seq<char>,
)
    ensures
        last_write(a + b, section, key) == match last_write(b, section, key) {
            Some(v) => Some(v),
            None => last_write(a, section, key),
        },
    decreases b.len(),
{
    if b.len() == 0 {
        assert(a + b =~= a);
    } else {
        assert((a + b).drop_last() =~= a + b.drop_last());
        assert((a + b).last() == b.last());
        lemma_last_write_concat(a, b.drop_last(), section, key);
    }
}

proof fn lemma_ini_model_reads(doc: Seq<(Option<String>, Vec<(String, String)>)>, section: Option<Seq<char>>, key: Seq<char>)
    ensures
        read_at(ini_model(doc), section, key) == last_write(ini_writes(doc), section, key),
    decreases doc.len(),
{
    if doc.len() == 0 {
        assert(read_at(empty_model(), section, key) is None) by {
            match section {
                Some(n) => {
                    crate::table::lemma_find_key(empty_model().1, n);
                },
                None => {
                    crate::table::lemma_find_key(empty_model().0, key);
                },
            }
        }
    } else {
        let d = doc.drop_last();
        lemma_ini_model_reads(d, section, key);
        let s = crate::parsers::opt_string_view(doc.last().0);
        assert(s == opt_text(doc.last().0));
        lemma_ini_props_reads(ini_model(d), s, doc.last().1@, section, key);
        lemma_last_write_concat(ini_writes(d), props_in(s, doc.last().1@), section, key);
    }
}

} // verus!
