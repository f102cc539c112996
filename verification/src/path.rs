//! Path text: what `std::path` computes on it, and file-name arithmetic.
//!
//! Paths are carried as their text. The file name of a path, the joining of
//! two paths and path equality follow the platform's path syntax, so they are
//! asked of `std::path`; the extension and stem of a file name follow from
//! the file name in a few lines and are computed here.

use vstd::prelude::*;

use crate::text::{last_index, lemma_last_index, rfind_char, same_text};

verus! {

/// What `Path::file_name` returns for the path with this text.
pub uninterp spec fn path_file_name(path: Seq<char>) -> Option<Seq<char>>;

/// The text of `Path::join(base, part)`.
pub uninterp spec fn path_join(base: Seq<char>, part: Seq<char>) -> Seq<char>;

/// What `==` on two `Path`s returns.
pub uninterp spec fn path_eq(a: Seq<char>, b: Seq<char>) -> bool;

/// `Path::file_name`: the final component of `path`, when it is a normal
/// file or directory name.
#[verifier::external_body]
pub(crate) fn file_name(path: &str) -> (r: Option<String>)
    ensures
        match r {
            Some(n) => path_file_name(path@) == Some(n@),
            None => path_file_name(path@) is None,
        },
{
    std::path::Path::new(path).file_name().map(|n| n.to_string_lossy().into_owned())
}

/// `Path::join`: `part` appended to `base` with a separator, or `part`
/// itself when it is absolute.
#[verifier::external_body]
pub(crate) fn join(base: &str, part: &str) -> (r: String)
    ensures
        r@ == path_join(base@, part@),
{
    std::path::Path::new(base).join(part).to_string_lossy().into_owned()
}

/// `Path == Path`: component-wise equality, which is symmetric.
#[verifier::external_body]
pub(crate) fn same_path(a: &str, b: &str) -> (r: bool)
    ensures
        r == path_eq(a@, b@),
        r == path_eq(b@, a@),
{
    std::path::Path::new(a) == std::path::Path::new(b)
}

/// The extension of a file name, as `Path::extension` derives it: none when
/// the name has no `.`, or its only `.` is its first character (or it is
/// `..`); otherwise what follows the last `.`.
pub open spec fn extension_of(name: Seq<char>) -> Option<Seq<char>> {
    let i = last_index(name, '.');
    if name == seq!['.', '.'] || i <= 0 {
        None
    } else {
        Some(name.subrange(i + 1, name.len() as int))
    }
}

/// The stem of a file name, as `Path::file_stem` derives it: the whole name
/// when it has no extension, else what precedes the last `.`.
pub open spec fn stem_of(name: Seq<char>) -> Seq<char> {
    let i = last_index(name, '.');
    if name == seq!['.', '.'] || i <= 0 {
        name
    } else {
        name.subrange(0, i)
    }
}

/// The extension of a file name.
pub fn extension(name: &str) -> (r: Option<String>)
    ensures
        match r {
            Some(e) => extension_of(name@) == Some(e@),
            None => extension_of(name@) is None,
        },
{
    proof {
        lemma_last_index(name@, '.');
    }
    let dots = same_text(name, "..");
    proof {
        reveal_strlit("..");
        assert(".."@ =~= seq!['.', '.']);
    }
    match rfind_char(name, '.') {
        Some(i) => {
            if dots || i == 0 {
                None
            } else {
                let n = name.unicode_len();
                Some(String::from_str(name.substring_char(i + 1, n)))
            }
        },
        None => None,
    }
}

/// The stem of a file name.
pub fn stem(name: &str) -> (r: String)
    ensures
        r@ == stem_of(name@),
{
    proof {
        lemma_last_index(name@, '.');
    }
    let dots = same_text(name, "..");
    proof {
        reveal_strlit("..");
        assert(".."@ =~= seq!['.', '.']);
    }
    match rfind_char(name, '.') {
        Some(i) => {
            if dots || i == 0 {
                String::from_str(name)
            } else {
                String::from_str(name.substring_char(0, i))
            }
        },
        None => String::from_str(name),
    }
}

} // verus!
