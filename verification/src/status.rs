//! Classifying the lines of `git status` output for coloured display.
//!
//! Running `git` and printing happen outside this crate's verified code;
//! here each output line is turned into what should be shown for it, with
//! the state carried from line to line.

use vstd::prelude::*;

use crate::colors::ColorResolver;
use crate::config::AppConfig;
use crate::pattern::{captures, group, group_text, regex_captures};
use crate::text::{
    contains, contains_text, find_text, first_occurrence, has_prefix, lemma_first_occurrence_unique,
    lowercase, split_two, starts_with, strip_suffixes, to_lowercase, trim, trim_end_text, trimmed,
};

verus! {

/// The part of the status output that a line belongs to.
#[derive(Debug, Clone, Copy, PartialEq, Eq, Structural)]
pub enum Context {
    /// Outside any list of files.
    Plain,
    /// "Changes to be committed".
    Staged,
    /// "Changes not staged for commit".
    NotStaged,
    /// "Untracked files".
    Untracked,
}

/// What is carried from one line to the next.
#[derive(Debug)]
pub struct StatusState {
    /// The list the current lines belong to.
    pub context: Context,
    /// Untracked files collected for tree display.
    pub untracked_files: Vec<String>,
    /// Whether the untracked list is open.
    pub in_untracked: bool,
}

/// A file line of the status output.
#[derive(Debug)]
pub enum FileLine {
    /// `<indent><status>: <left>[ -> <right>]`.
    Change { indent: String, status: String, left: String, right: Option<String> },
    /// An indented entry of the list `context`.
    Indented { indent: String, payload: String, context: Context },
    /// Any other line, shown as it is.
    Raw(String),
}

/// What to show for a line.
#[derive(Debug)]
pub enum StatusLine {
    /// The current branch.
    Branch(String),
    /// A warning line (detached HEAD, no commits yet).
    Warning(String),
    /// A success line (up to date, nothing to commit).
    Success(String),
    /// A line shown as it is (ahead, behind, diverged).
    Plain(String),
    /// A list header.
    Header(String),
    /// A `(use "git ...")` hint, trimmed.
    Hint(String),
    /// The untracked files collected so far, shown as a tree.
    UntrackedFiles(Vec<String>),
    /// A file line.
    File(FileLine),
}

/// The kind of change that a status word names.
#[derive(Debug, Clone, Copy, PartialEq, Eq, Structural)]
pub enum ChangeKind {
    Modified,
    Deleted,
    NewFile,
    Renamed,
    Added,
    Unknown,
}

/// The model of a [`StatusLine`].
pub enum LineView {
    Branch(Seq<char>),
    Warning(Seq<char>),
    Success(Seq<char>),
    Plain(Seq<char>),
    Header(Seq<char>),
    Hint(Seq<char>),
    UntrackedFiles(Seq<Seq<char>>),
    Change(Seq<char>, Seq<char>, Seq<char>, Option<Seq<char>>),
    Indented(Seq<char>, Seq<char>, Context),
    Raw(Seq<char>),
}

/// The model of the state: list, collected files, whether the untracked
/// list is open.
pub type StateModel = (Context, Seq<Seq<char>>, bool);

/// The views of a vector of strings.
pub open spec fn texts(v: Seq<String>) -> Seq<Seq<char>> {
    v.map_values(|s: String| s@)
}

/// The model of a state.
pub open spec fn state_model(s: StatusState) -> StateModel {
    (s.context, texts(s.untracked_files@), s.in_untracked)
}

/// The model of a line to show.
pub open spec fn line_view(l: StatusLine) -> LineView {
    match l {
        StatusLine::Branch(s) => LineView::Branch(s@),
        StatusLine::Warning(s) => LineView::Warning(s@),
        StatusLine::Success(s) => LineView::Success(s@),
        StatusLine::Plain(s) => LineView::Plain(s@),
        StatusLine::Header(s) => LineView::Header(s@),
        StatusLine::Hint(s) => LineView::Hint(s@),
        StatusLine::UntrackedFiles(v) => LineView::UntrackedFiles(texts(v@)),
        StatusLine::File(FileLine::Change { indent, status, left, right }) => LineView::Change(
            indent@,
            status@,
            left@,
            match right {
                Some(r) => Some(r@),
                None => None,
            },
        ),
        StatusLine::File(FileLine::Indented { indent, payload, context }) => LineView::Indented(
            indent@,
            payload@,
            context,
        ),
        StatusLine::File(FileLine::Raw(s)) => LineView::Raw(s@),
    }
}

/// The models of lines to show.
pub open spec fn lines_view(v: Seq<StatusLine>) -> Seq<LineView> {
    v.map_values(|l: StatusLine| line_view(l))
}

/// The list that a header line opens, if it is one.
pub open spec fn header_of(line: Seq<char>) -> Option<Context> {
    if regex_captures("^\\s*Changes to be committed:"@, line) is Some {
        Some(Context::Staged)
    } else if regex_captures("^\\s*Changes not staged for commit:"@, line) is Some {
        Some(Context::NotStaged)
    } else if regex_captures("^\\s*Untracked files:"@, line) is Some {
        Some(Context::Untracked)
    } else {
        None
    }
}

/// A lowercased, trimmed line that ends the listing.
pub open spec fn is_terminal(lower: Seq<char>) -> bool {
    starts_with(lower, "nothing to commit"@) || starts_with(lower, "nothing added to commit"@)
        || starts_with(lower, "no changes added to commit"@) || contains_text(lower, "clean working tree"@)
}

/// How a file line is shown: a change line (split at the first `->` into
/// trimmed old and new names), an indented list entry, or the line as it is.
pub open spec fn file_line_view(line: Seq<char>, ctx: Context) -> LineView {
    let c = regex_captures("^(\\s*)(modified|deleted|new file|renamed|added):\\s+(.+)$"@, line);
    if c is Some {
        let g = c.unwrap();
        let rest = group(g, 3);
        if contains_text(rest, "->"@) {
            let parts = split_two(rest, "->"@, choose|i: int| first_occurrence(rest, "->"@, i));
            LineView::Change(group(g, 1), group(g, 2), trimmed(parts.0), Some(trimmed(parts.1)))
        } else {
            LineView::Change(group(g, 1), group(g, 2), rest, None)
        }
    } else {
        let d = regex_captures("^(\\s+)(.+)$"@, line);
        if d is Some {
            LineView::Indented(group(d.unwrap(), 1), group(d.unwrap(), 2), ctx)
        } else {
            LineView::Raw(line)
        }
    }
}

/// What one line of `git status` output shows, and the state after it.
///
/// The trailing `\r`s of the line are dropped. A branch line names the
/// branch and closes any list; detached-HEAD and no-commit lines are
/// warnings; "up to date" is a success and closes any list; ahead, behind
/// and diverged lines are shown as they are and close any list. A list
/// header opens its list, showing first the collected untracked files when
/// the untracked list was open in tree mode. Hints are shown trimmed, except
/// inside the untracked list in tree mode. A line that ends the listing is a
/// success, showing first the collected untracked files (and closing that
/// list) when it was open in tree mode. In tree mode, lines of the untracked
/// list are collected (trimmed, when not blank) instead of shown. Every
/// other line is a file line.
pub open spec fn status_step(tree: bool, st: StateModel, raw: Seq<char>) -> (Seq<LineView>, StateModel) {
    let line = strip_suffixes(raw, seq!['\r']);
    let ctx = st.0;
    let files = st.1;
    let inu = st.2;
    let branch = regex_captures("^On branch (.+)$"@, line);
    if branch is Some {
        (seq![LineView::Branch(group(branch.unwrap(), 1))], (Context::Plain, files, false))
    } else if contains_text(line, "HEAD detached"@) || contains_text(line, "No commits yet"@) {
        (seq![LineView::Warning(line)], st)
    } else if contains_text(line, "Your branch is up to date"@) {
        (seq![LineView::Success(line)], (Context::Plain, files, false))
    } else if contains_text(line, "ahead"@) || contains_text(line, "behind"@) || contains_text(line, "diverged"@) {
        (seq![LineView::Plain(line)], (Context::Plain, files, false))
    } else if header_of(line) is Some {
        let h = header_of(line).unwrap();
        if inu && tree {
            (seq![LineView::UntrackedFiles(files), LineView::Header(line)], (h, Seq::empty(), h == Context::Untracked))
        } else {
            (seq![LineView::Header(line)], (h, files, h == Context::Untracked))
        }
    } else if starts_with(trimmed(line), "(use \"git "@) {
        if inu && tree {
            (Seq::empty(), st)
        } else {
            (seq![LineView::Hint(trimmed(line))], st)
        }
    } else if is_terminal(lowercase(trimmed(line))) {
        if inu && tree {
            (seq![LineView::UntrackedFiles(files), LineView::Success(line)], (Context::Plain, Seq::empty(), false))
        } else {
            (seq![LineView::Success(line)], (Context::Plain, files, inu))
        }
    } else if ctx == Context::Untracked && tree {
        let t = trimmed(line);
        (Seq::empty(), (ctx, if t.len() > 0 { files.push(t) } else { files }, inu))
    } else {
        (seq![file_line_view(line, ctx)], st)
    }
}

/// What is shown once all lines are read: the collected untracked files,
/// when the untracked list is open in tree mode and holds any.
pub open spec fn status_finish(tree: bool, st: StateModel) -> Seq<LineView> {
    if st.2 && tree && st.1.len() > 0 {
        seq![LineView::UntrackedFiles(st.1)]
    } else {
        Seq::empty()
    }
}

/// The kind of change that a status word names.
pub open spec fn kind_of(status: Seq<char>) -> ChangeKind {
    if status == "modified"@ {
        ChangeKind::Modified
    } else if status == "deleted"@ {
        ChangeKind::Deleted
    } else if status == "new file"@ {
        ChangeKind::NewFile
    } else if status == "renamed"@ {
        ChangeKind::Renamed
    } else if status == "added"@ {
        ChangeKind::Added
    } else {
        ChangeKind::Unknown
    }
}

/// Colourises `git status` output.
pub struct Status {
    config: AppConfig,
    colors: ColorResolver,
}

fn one(l: StatusLine) -> (r: Vec<StatusLine>)
    ensures
        lines_view(r@) == seq![line_view(l)],
{
    let mut v: Vec<StatusLine> = Vec::new();
    v.push(l);
    assert(lines_view(v@) =~= seq![line_view(l)]);
    v
}

fn copy_texts(v: &Vec<String>) -> (r: Vec<String>)
    ensures
        texts(r@) == texts(v@),
{
    let mut out: Vec<String> = Vec::new();
    let mut i: usize = 0;
    while i < v.len()
        invariant
            i <= v@.len(),
            texts(out@) == texts(v@.take(i as int)),
        decreases v@.len() - i,
    {
        let ghost before = texts(out@);
        out.push(v[i].clone());
        assert(v@.take(i + 1) =~= v@.take(i as int).push(v@[i as int]));
        assert(texts(out@) =~= before.push(v@[i as int]@));
        assert(texts(out@) =~= texts(v@.take(i + 1)));
        i = i + 1;
    }
    assert(v@.take(v@.len() as int) =~= v@);
    out
}

/// Classify a file line.
fn file_line(line: &str, ctx: Context) -> (r: StatusLine)
    ensures
        line_view(r) == file_line_view(line@, ctx),
{
    match captures("^(\\s*)(modified|deleted|new file|renamed|added):\\s+(.+)$", line) {
        Some(g) => {
            let indent = group_text(&g, 1);
            let status = group_text(&g, 2);
            let rest = group_text(&g, 3);
            match find_text(rest.as_str(), "->") {
                Some(i) => {
                    proof {
                        reveal_strlit("->");
                        let j = choose|j: int| first_occurrence(rest@, "->"@, j);
                        lemma_first_occurrence_unique(rest@, "->"@, i as int, j);
                    }
                    let n = rest.unicode_len();
                    let left = rest.as_str().substring_char(0, i);
                    let after = rest.as_str().substring_char(i + 2, n);
                    let second = match find_text(after, "->") {
                        Some(k) => {
                            proof {
                                let j = choose|j: int| first_occurrence(after@, "->"@, j);
                                lemma_first_occurrence_unique(after@, "->"@, k as int, j);
                            }
                            after.substring_char(0, k)
                        },
                        None => after,
                    };
                    StatusLine::File(
                        FileLine::Change {
                            indent,
                            status,
                            left: String::from_str(trim(left)),
                            right: Some(String::from_str(trim(second))),
                        },
                    )
                },
                None => StatusLine::File(FileLine::Change { indent, status, left: rest, right: None }),
            }
        },
        None => match captures("^(\\s+)(.+)$", line) {
            Some(d) => StatusLine::File(
                FileLine::Indented {
                    indent: group_text(&d, 1),
                    payload: group_text(&d, 2),
                    context: ctx,
                },
            ),
            None => StatusLine::File(FileLine::Raw(String::from_str(line))),
        },
    }
}

/// The list that a header line opens, if it is one.
fn header(line: &str) -> (r: Option<Context>)
    ensures
        r == header_of(line@),
{
    if captures("^\\s*Changes to be committed:", line).is_some() {
        Some(Context::Staged)
    } else if captures("^\\s*Changes not staged for commit:", line).is_some() {
        Some(Context::NotStaged)
    } else if captures("^\\s*Untracked files:", line).is_some() {
        Some(Context::Untracked)
    } else {
        None
    }
}

impl Status {
    /// The settings in use.
    pub closed spec fn config_view(&self) -> AppConfig {
        self.config
    }

    /// The colour resolver in use.
    pub closed spec fn colors_view(&self) -> ColorResolver {
        self.colors
    }

    pub fn new(config: AppConfig) -> (r: Self)
        ensures
            r.config_view() == config,
            r.colors_view().colors() == config.colors,
    {
        let colors = ColorResolver::new(config.colors.clone());
        Self { config, colors }
    }

    /// The colour resolver in use.
    pub fn colors(&self) -> (r: &ColorResolver)
        ensures
            *r == self.colors_view(),
    {
        &self.colors
    }

    /// Whether untracked files are shown as a tree.
    pub fn tree_mode(&self) -> (r: bool)
        ensures
            r == self.config_view().tree_mode,
    {
        self.config.tree_mode
    }

    /// The state before the first line.
    pub fn start(&self) -> (r: StatusState)
        ensures
            state_model(r) == (Context::Plain, Seq::<Seq<char>>::empty(), false),
    {
        let s = StatusState { context: Context::Plain, untracked_files: Vec::new(), in_untracked: false };
        assert(texts(s.untracked_files@) =~= Seq::<Seq<char>>::empty());
        s
    }

    /// What one line of `git status` output shows, as [`status_step`]
    /// describes; `state` moves on past the line.
    pub fn step(&self, state: &mut StatusState, raw: &str) -> (r: Vec<StatusLine>)
        ensures
            (lines_view(r@), state_model(*final(state))) == status_step(
                self.config_view().tree_mode,
                state_model(*old(state)),
                raw@,
            ),
    {
        let tree = self.config.tree_mode;
        let line = trim_end_text(raw, "\r");
        proof {
            reveal_strlit("\r");
            assert("\r"@ =~= seq!['\r']);
        }
        if let Some(g) = captures("^On branch (.+)$", line) {
            let name = group_text(&g, 1);
            state.context = Context::Plain;
            state.in_untracked = false;
            return one(StatusLine::Branch(name));
        }
        if contains(line, "HEAD detached") || contains(line, "No commits yet") {
            return one(StatusLine::Warning(String::from_str(line)));
        }
        if contains(line, "Your branch is up to date") {
            state.context = Context::Plain;
            state.in_untracked = false;
            return one(StatusLine::Success(String::from_str(line)));
        }
        if contains(line, "ahead") || contains(line, "behind") || contains(line, "diverged") {
            state.context = Context::Plain;
            state.in_untracked = false;
            return one(StatusLine::Plain(String::from_str(line)));
        }
        if let Some(h) = header(line) {
            let mut out: Vec<StatusLine> = Vec::new();
            if state.in_untracked && tree {
                let mut files: Vec<String> = Vec::new();
                std::mem::swap(&mut files, &mut state.untracked_files);
                out.push(StatusLine::UntrackedFiles(files));
                assert(texts(state.untracked_files@) =~= Seq::<Seq<char>>::empty());
            }
            out.push(StatusLine::Header(String::from_str(line)));
            state.context = h;
            state.in_untracked = h == Context::Untracked;
            assert(lines_view(out@) =~= status_step(tree, state_model(*old(state)), raw@).0);
            return out;
        }
        let t = trim(line);
        if has_prefix(t, "(use \"git ") {
            if state.in_untracked && tree {
                let out: Vec<StatusLine> = Vec::new();
                assert(lines_view(out@) =~= Seq::<LineView>::empty());
                return out;
            }
            return one(StatusLine::Hint(String::from_str(t)));
        }
        let lower = to_lowercase(t);
        let lower = lower.as_str();
        if has_prefix(lower, "nothing to commit") || has_prefix(lower, "nothing added to commit")
            || has_prefix(lower, "no changes added to commit") || contains(lower, "clean working tree") {
            let mut out: Vec<StatusLine> = Vec::new();
            if state.in_untracked && tree {
                let mut files: Vec<String> = Vec::new();
                std::mem::swap(&mut files, &mut state.untracked_files);
                out.push(StatusLine::UntrackedFiles(files));
                assert(texts(state.untracked_files@) =~= Seq::<Seq<char>>::empty());
                state.in_untracked = false;
            }
            out.push(StatusLine::Success(String::from_str(line)));
            state.context = Context::Plain;
            assert(lines_view(out@) =~= status_step(tree, state_model(*old(state)), raw@).0);
            return out;
        }
        if state.context == Context::Untracked && tree {
            if t.unicode_len() > 0 {
                let ghost before = texts(state.untracked_files@);
                state.untracked_files.push(String::from_str(t));
                assert(texts(state.untracked_files@) =~= before.push(t@));
            }
            let out: Vec<StatusLine> = Vec::new();
            assert(lines_view(out@) =~= Seq::<LineView>::empty());
            return out;
        }
        one(file_line(line, state.context))
    }

    /// What is shown once all lines are read, as [`status_finish`] describes.
    pub fn finish(&self, state: &StatusState) -> (r: Vec<StatusLine>)
        ensures
            lines_view(r@) == status_finish(self.config_view().tree_mode, state_model(*state)),
    {
        let mut out: Vec<StatusLine> = Vec::new();
        if state.in_untracked && self.config.tree_mode && state.untracked_files.len() > 0 {
            out.push(StatusLine::UntrackedFiles(copy_texts(&state.untracked_files)));
        }
        assert(lines_view(out@) =~= status_finish(self.config_view().tree_mode, state_model(*state)));
        out
    }
}

/// The kind of change that a status word names.
pub fn change_kind(status: &str) -> (r: ChangeKind)
    ensures
        r == kind_of(status@),
{
    if crate::text::same_text(status, "modified") {
        ChangeKind::Modified
    } else if crate::text::same_text(status, "deleted") {
        ChangeKind::Deleted
    } else if crate::text::same_text(status, "new file") {
        ChangeKind::NewFile
    } else if crate::text::same_text(status, "renamed") {
        ChangeKind::Renamed
    } else if crate::text::same_text(status, "added") {
        ChangeKind::Added
    } else {
        ChangeKind::Unknown
    }
}

} // verus!
