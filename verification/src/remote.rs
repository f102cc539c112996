//! Resolving which GitHub repository a remote argument names.

use vstd::prelude::*;

use crate::pattern::{captures, group, group_text, regex_captures};
use crate::text::{concat, find_char, first_index, lemma_first_index, strip_suffixes, trim_end_text};

verus! {

/// What a remote argument names.
#[derive(Debug)]
pub enum RemoteTarget {
    /// A repository, by owner and name.
    Repo { owner: String, repo: String },
    /// A git remote of the working copy, whose URL names the repository.
    Remote(String),
}

/// The model of a [`RemoteTarget`].
pub enum RemoteTargetView {
    Repo(Seq<char>, Seq<char>),
    Remote(Seq<char>),
}

/// The model of a target.
pub open spec fn target_view(t: RemoteTarget) -> RemoteTargetView {
    match t {
        RemoteTarget::Repo { owner, repo } => RemoteTargetView::Repo(owner@, repo@),
        RemoteTarget::Remote(r) => RemoteTargetView::Remote(r@),
    }
}

/// What a remote argument names: the owner and repository of an HTTPS or
/// SSH GitHub URL, or of an `owner/repo` slug (split at the first `/`), with
/// trailing `.git`s dropped from the repository; otherwise the git remote
/// of that name, `origin` when the argument is empty.
pub open spec fn target_of(input: Seq<char>) -> RemoteTargetView {
    let https = regex_captures("https://github\\.com/([^/]+)/([^/]+)"@, input);
    let ssh = regex_captures("git@github\\.com:([^/]+)/(.+)"@, input);
    if https is Some {
        RemoteTargetView::Repo(group(https.unwrap(), 1), strip_suffixes(group(https.unwrap(), 2), ".git"@))
    } else if ssh is Some {
        RemoteTargetView::Repo(group(ssh.unwrap(), 1), strip_suffixes(group(ssh.unwrap(), 2), ".git"@))
    } else if first_index(input, '/') >= 0 {
        let i = first_index(input, '/');
        RemoteTargetView::Repo(input.subrange(0, i), strip_suffixes(input.subrange(i + 1, input.len() as int), ".git"@))
    } else if input.len() == 0 {
        RemoteTargetView::Remote("origin"@)
    } else {
        RemoteTargetView::Remote(input)
    }
}

/// Work out what a remote argument names, as [`target_of`] describes.
pub fn parse_remote(input: &str) -> (r: RemoteTarget)
    ensures
        target_view(r) == target_of(input@),
{
    if let Some(c) = captures("https://github\\.com/([^/]+)/([^/]+)", input) {
        let repo = group_text(&c, 2);
        return RemoteTarget::Repo { owner: group_text(&c, 1), repo: String::from_str(trim_end_text(repo.as_str(), ".git")) };
    }
    if let Some(c) = captures("git@github\\.com:([^/]+)/(.+)", input) {
        let repo = group_text(&c, 2);
        return RemoteTarget::Repo { owner: group_text(&c, 1), repo: String::from_str(trim_end_text(repo.as_str(), ".git")) };
    }
    proof {
        lemma_first_index(input@, '/');
    }
    match find_char(input, '/') {
        Some(i) => {
            let n = input.unicode_len();
            let owner = String::from_str(input.substring_char(0, i));
            let rest = input.substring_char(i + 1, n);
            RemoteTarget::Repo { owner, repo: String::from_str(trim_end_text(rest, ".git")) }
        },
        None => {
            if input.unicode_len() == 0 {
                RemoteTarget::Remote(String::from_str("origin"))
            } else {
                RemoteTarget::Remote(String::from_str(input))
            }
        },
    }
}

/// The `owner/repo` slug of a repository.
pub fn repo_slug(owner: &str, repo: &str) -> (r: String)
    ensures
        r@ == owner@ + "/"@ + repo@,
{
    let mut s = String::from_str(owner);
    s.append("/");
    s.append(repo);
    s
}

/// The web page of a repository.
pub fn repo_page_url(slug: &str) -> (r: String)
    ensures
        r@ == "https://github.com/"@ + slug@,
{
    concat("https://github.com/", slug)
}

/// The GitHub API address of a repository.
pub fn repo_api_url(slug: &str) -> (r: String)
    ensures
        r@ == "https://api.github.com/repos/"@ + slug@,
{
    concat("https://api.github.com/repos/", slug)
}

/// The GitHub API address of a repository's open pull requests (first ten).
pub fn pulls_api_url(slug: &str) -> (r: String)
    ensures
        r@ == "https://api.github.com/repos/"@ + slug@ + "/pulls?state=open&per_page=10"@,
{
    let mut s = concat("https://api.github.com/repos/", slug);
    s.append("/pulls?state=open&per_page=10");
    s
}

/// The GitHub API address of a repository's open issues (first ten).
pub fn issues_api_url(slug: &str) -> (r: String)
    ensures
        r@ == "https://api.github.com/repos/"@ + slug@ + "/issues?state=open&per_page=10"@,
{
    let mut s = concat("https://api.github.com/repos/", slug);
    s.append("/issues?state=open&per_page=10");
    s
}

} // verus!
