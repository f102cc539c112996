//! Platform-aware directory search logic.

use vstd::prelude::*;

use crate::path::{join, path_eq, path_join, same_path};

verus! {

/// What the search for configuration directories reads from the running
/// system: the home directory, the roaming application-data directory
/// (`%APPDATA%`, used on Windows), the current working directory, and
/// whether the platform is Windows.
#[derive(Debug)]
pub struct SearchEnv {
    /// The user's home directory (`%USERPROFILE%` on Windows).
    pub home: Option<String>,
    /// The roaming application-data directory (`%APPDATA%`).
    pub data_dir: Option<String>,
    /// The current working directory.
    pub cwd: Option<String>,
    /// True on Windows.
    pub windows: bool,
}

/// The view of an optional string.
pub open spec fn opt_text(s: Option<String>) -> Option<Seq<char>> {
    match s {
        Some(t) => Some(t@),
        None => None,
    }
}

/// `[d]` when there is a `d`, else nothing.
pub open spec fn maybe(d: Option<Seq<char>>) -> Seq<Seq<char>> {
    match d {
        Some(x) => seq![x],
        None => Seq::empty(),
    }
}

/// `[join(d, part)]` when there is a `d`, else nothing.
pub open spec fn maybe_join(d: Option<Seq<char>>, part: Seq<char>) -> Seq<Seq<char>> {
    match d {
        Some(x) => seq![path_join(x, part)],
        None => Seq::empty(),
    }
}

/// The directories to search, in priority order, before duplicates are
/// dropped.
///
/// Windows: `%APPDATA%\<config_dir>`, `%USERPROFILE%\<config_dir>`,
/// `%APPDATA%`, `%USERPROFILE%`, the working directory.
///
/// Elsewhere: `~/<config_dir>`, `~/.config/<config_dir>`, `~/.config`, `~`,
/// the working directory.
pub open spec fn candidate_dirs(
    home: Option<Seq<char>>,
    data_dir: Option<Seq<char>>,
    cwd: Option<Seq<char>>,
    windows: bool,
    config_dir: Seq<char>,
) -> Seq<Seq<char>> {
    if windows {
        maybe_join(data_dir, config_dir) + maybe_join(home, config_dir) + maybe(data_dir) + maybe(home)
            + maybe(cwd)
    } else {
        match home {
            Some(h) => seq![
                path_join(h, config_dir),
                path_join(path_join(h, ".config"@), config_dir),
                path_join(h, ".config"@),
                h,
            ] + maybe(cwd),
            None => maybe(cwd),
        }
    }
}

/// True if some element of `s` is the same path as `p`.
pub open spec fn has_same_path(s: Seq<Seq<char>>, p: Seq<char>) -> bool {
    exists|j: int| 0 <= j < s.len() && path_eq(#[trigger] s[j], p)
}

/// `s` with every path that equals one kept before it dropped, first
/// occurrences kept in order.
pub open spec fn dedup_paths(s: Seq<Seq<char>>) -> Seq<Seq<char>>
    decreases s.len(),
{
    if s.len() == 0 {
        Seq::empty()
    } else {
        let d = dedup_paths(s.drop_last());
        if has_same_path(d, s.last()) {
            d
        } else {
            d.push(s.last())
        }
    }
}

/// The directories to search for `config_dir` in `env`.
pub open spec fn search_dirs_spec(env: SearchEnv, config_dir: Seq<char>) -> Seq<Seq<char>> {
    dedup_paths(
        candidate_dirs(opt_text(env.home), opt_text(env.data_dir), opt_text(env.cwd), env.windows, config_dir),
    )
}

fn push_join(v: &mut Vec<String>, base: &Option<String>, part: &str)
    ensures
        final(v)@.map_values(|s: String| s@) == old(v)@.map_values(|s: String| s@) + maybe_join(opt_text(*base), part@),
{
    match base {
        Some(b) => {
            let j = join(b.as_str(), part);
            let ghost before = v@;
            v.push(j);
            assert(v@.map_values(|s: String| s@) =~= before.map_values(|s: String| s@) + maybe_join(opt_text(*base), part@));
        },
        None => {
            assert(v@.map_values(|s: String| s@) =~= v@.map_values(|s: String| s@) + maybe_join(opt_text(*base), part@));
        },
    }
}

fn push_opt(v: &mut Vec<String>, d: &Option<String>)
    ensures
        final(v)@.map_values(|s: String| s@) == old(v)@.map_values(|s: String| s@) + maybe(opt_text(*d)),
{
    match d {
        Some(x) => {
            let ghost before = v@;
            v.push(x.clone());
            assert(v@.map_values(|s: String| s@) =~= before.map_values(|s: String| s@) + maybe(opt_text(*d)));
        },
        None => {
            assert(v@.map_values(|s: String| s@) =~= v@.map_values(|s: String| s@) + maybe(opt_text(*d)));
        },
    }
}

/// The directories to search, in priority order, duplicates included.
fn candidate_dir_list(env: &SearchEnv, config_dir: &str) -> (r: Vec<String>)
    ensures
        r@.map_values(|s: String| s@) == candidate_dirs(
            opt_text(env.home),
            opt_text(env.data_dir),
            opt_text(env.cwd),
            env.windows,
            config_dir@,
        ),
{
    let mut v: Vec<String> = Vec::new();
    assert(v@.map_values(|s: String| s@) =~= Seq::<Seq<char>>::empty());
    if env.windows {
        push_join(&mut v, &env.data_dir, config_dir);
        push_join(&mut v, &env.home, config_dir);
        push_opt(&mut v, &env.data_dir);
        push_opt(&mut v, &env.home);
        push_opt(&mut v, &env.cwd);
    } else {
        match &env.home {
            Some(h) => {
                let a = join(h.as_str(), config_dir);
                let c = join(h.as_str(), ".config");
                let b = join(c.as_str(), config_dir);
                v.push(a);
                v.push(b);
                v.push(c);
                v.push(h.clone());
                assert(v@.map_values(|s: String| s@) =~= seq![
                    path_join(h@, config_dir@),
                    path_join(path_join(h@, ".config"@), config_dir@),
                    path_join(h@, ".config"@),
                    h@,
                ]);
            },
            None => {},
        }
        push_opt(&mut v, &env.cwd);
    }
    v
}

/// True if some path in `kept` is the same path as `p`.
fn contains_same(kept: &Vec<String>, p: &str) -> (r: bool)
    ensures
        r == has_same_path(kept@.map_values(|s: String| s@), p@),
{
    let ghost ks = kept@.map_values(|s: String| s@);
    let mut i: usize = 0;
    while i < kept.len()
        invariant
            i <= kept@.len(),
            ks == kept@.map_values(|s: String| s@),
            forall|j: int| 0 <= j < i ==> !path_eq(#[trigger] ks[j], p@),
        decreases kept@.len() - i,
    {
        if same_path(kept[i].as_str(), p) {
            assert(path_eq(ks[i as int], p@));
            return true;
        }
        i = i + 1;
    }
    false
}

/// Returns a prioritised list of directories to search for configuration
/// files, with repeated paths dropped.
///
/// ### Windows
/// 1. `%APPDATA%\<config_dir>\`
/// 2. `%USERPROFILE%\<config_dir>\`
/// 3. `%APPDATA%\`
/// 4. `%USERPROFILE%\`
/// 5. Current working directory
///
/// ### Linux / macOS
/// 1. `~/<config_dir>/`
/// 2. `~/.config/<config_dir>/`
/// 3. `~/.config/`
/// 4. `~/`
/// 5. Current working directory
pub fn search_dirs(config_dir: &str, env: &SearchEnv) -> (r: Vec<String>)
    ensures
        r@.map_values(|s: String| s@) == search_dirs_spec(*env, config_dir@),
{
    let all = candidate_dir_list(env, config_dir);
    let ghost raw = all@.map_values(|s: String| s@);
    let mut kept: Vec<String> = Vec::new();
    let mut i: usize = 0;
    assert(raw.take(0) =~= Seq::<Seq<char>>::empty());
    assert(kept@.map_values(|s: String| s@) =~= Seq::<Seq<char>>::empty());
    while i < all.len()
        invariant
            i <= all@.len(),
            raw == all@.map_values(|s: String| s@),
            kept@.map_values(|s: String| s@) == dedup_paths(raw.take(i as int)),
        decreases all@.len() - i,
    {
        assert(raw.take(i + 1).drop_last() =~= raw.take(i as int));
        assert(raw.take(i + 1).last() == all@[i as int]@);
        if !contains_same(&kept, all[i].as_str()) {
            let ghost before = kept@;
            kept.push(all[i].clone());
            assert(kept@.map_values(|s: String| s@) =~= before.map_values(|s: String| s@).push(all@[i as int]@));
        }
        i = i + 1;
    }
    assert(raw.take(all@.len() as int) =~= raw);
    kept
}

/// The first path whose probe says it exists.
pub open spec fn first_existing(paths: Seq<Seq<char>>, exists: Seq<bool>) -> Option<Seq<char>>
    decreases paths.len(),
{
    if paths.len() == 0 || exists.len() == 0 {
        None
    } else if exists[0] {
        Some(paths[0])
    } else {
        first_existing(paths.drop_first(), exists.drop_first())
    }
}

/// The first of `paths` whose probe in `exists` (one per path, in the same
/// order) says it exists, or `None` when none does: what a search in
/// priority order finds.
pub fn first_found(paths: &Vec<String>, exists: &Vec<bool>) -> (r: Option<String>)
    requires
        exists@.len() == paths@.len(),
    ensures
        opt_text(r) == first_existing(paths@.map_values(|s: String| s@), exists@),
{
    let ghost ps = paths@.map_values(|s: String| s@);
    let n = paths.len();
    let mut i: usize = 0;
    assert(ps.subrange(0, n as int) =~= ps);
    assert(exists@.subrange(0, n as int) =~= exists@);
    while i < n
        invariant
            n == paths@.len(),
            n == exists@.len(),
            i <= n,
            ps == paths@.map_values(|s: String| s@),
            first_existing(ps, exists@) == first_existing(ps.subrange(i as int, n as int), exists@.subrange(i as int, n as int)),
        decreases n - i,
    {
        let ghost rest = ps.subrange(i as int, n as int);
        let ghost erest = exists@.subrange(i as int, n as int);
        if exists[i] {
            assert(erest[0]);
            assert(rest[0] == paths@[i as int]@);
            let found = paths[i].clone();
            assert(found@ == paths@[i as int]@);
            return Some(found);
        }
        assert(rest.drop_first() =~= ps.subrange(i + 1, n as int));
        assert(erest.drop_first() =~= exists@.subrange(i + 1, n as int));
        i = i + 1;
    }
    assert(first_existing(ps.subrange(n as int, n as int), exists@.subrange(n as int, n as int)) is None);
    None
}

} // verus!
