//! Shared domain value types used across application state, events, commands,
//! and messages.
//!
//! Every type has a mathematical model (`deep_view`) in which text is a
//! `Seq<char>` and lists are `Seq`s of models; contracts speak of these models.
use vstd::prelude::*;

use crate::dup::Dup;
#[allow(unused_imports)]
use vstd::view::View as _;

verus! {

/// Monotonic generation counter used to discard stale asynchronous results.
///
/// It is bumped whenever the repository context that in-flight work depends on
/// changes (repository open, HEAD move after checkout/commit). Any message
/// carrying an older generation is dropped by the reducer.
#[derive(Debug, Clone, Copy, PartialEq, Eq, Structural, PartialOrd, Ord, Default, Hash)]
pub struct Generation(pub u64);

impl DeepView for Generation {
    type V = Generation;

    open spec fn deep_view(&self) -> Generation {
        *self
    }
}

impl Dup for Generation {
    fn dup(&self) -> (r: Generation) {
        *self
    }
}

/// The generation after `g` (saturating at the largest counter value).
pub open spec fn next_generation(g: Generation) -> Generation {
    if g.0 < u64::MAX {
        Generation((g.0 + 1) as u64)
    } else {
        g
    }
}

impl Generation {
    /// Returns the next generation.
    pub fn next(self) -> (r: Generation)
        ensures
            r == next_generation(self),
    {
        if self.0 < u64::MAX {
            Generation(self.0 + 1)
        } else {
            self
        }
    }
}

/// A Git object id (commit/tree/blob), stored as its hex string.
#[derive(Debug, Clone, PartialEq, Eq, Hash)]
pub struct Oid(pub String);

impl DeepView for Oid {
    type V = Seq<char>;

    open spec fn deep_view(&self) -> Seq<char> {
        self.0@
    }
}

impl Dup for Oid {
    fn dup(&self) -> (r: Oid) {
        Oid(self.0.clone())
    }
}

impl Oid {
    /// Equality of the object ids' text.
    pub fn same(&self, other: &Oid) -> (r: bool)
        ensures
            r == (self.deep_view() == other.deep_view()),
    {
        crate::text::str_eq(self.0.as_str(), other.0.as_str())
    }
}

/// The kind of change reported for a file in the working tree or index.
#[derive(Debug, Clone, Copy, PartialEq, Eq, Structural)]
pub enum ChangeKind {
    Added,
    Modified,
    Deleted,
    Renamed,
    Copied,
    TypeChanged,
    Untracked,
    Conflicted,
}

impl DeepView for ChangeKind {
    type V = ChangeKind;

    open spec fn deep_view(&self) -> ChangeKind {
        *self
    }
}

/// A single changed file.
#[derive(Debug, Clone, PartialEq, Eq)]
pub struct FileChange {
    pub path: String,
    pub kind: ChangeKind,
}

pub struct FileChangeV {
    pub path: Seq<char>,
    pub kind: ChangeKind,
}

impl DeepView for FileChange {
    type V = FileChangeV;

    open spec fn deep_view(&self) -> FileChangeV {
        FileChangeV { path: self.path@, kind: self.kind }
    }
}

impl Dup for FileChange {
    fn dup(&self) -> (r: FileChange) {
        FileChange { path: self.path.clone(), kind: self.kind }
    }
}

impl FileChange {
    /// Convenience constructor.
    pub fn new(path: String, kind: ChangeKind) -> (r: FileChange)
        ensures
            r.path == path,
            r.kind == kind,
    {
        FileChange { path, kind }
    }
}

/// Loading state for lazily-fetched, potentially large Git data.
#[derive(Debug, Clone, PartialEq, Eq, Default)]
pub enum Loadable<T> {
    #[default]
    Idle,
    Loading,
    Ready(T),
    Failed(String),
}

pub enum LoadableV<A> {
    Idle,
    Loading,
    Ready(A),
    Failed(Seq<char>),
}

impl<T: DeepView> DeepView for Loadable<T> {
    type V = LoadableV<T::V>;

    open spec fn deep_view(&self) -> LoadableV<T::V> {
        match self {
            Loadable::Idle => LoadableV::Idle,
            Loadable::Loading => LoadableV::Loading,
            Loadable::Ready(x) => LoadableV::Ready(x.deep_view()),
            Loadable::Failed(e) => LoadableV::Failed(e@),
        }
    }
}

impl<T: Dup> Dup for Loadable<T> {
    fn dup(&self) -> (r: Loadable<T>) {
        match self {
            Loadable::Idle => Loadable::Idle,
            Loadable::Loading => Loadable::Loading,
            Loadable::Ready(x) => Loadable::Ready(x.dup()),
            Loadable::Failed(e) => Loadable::Failed(e.clone()),
        }
    }
}

impl<T> Loadable<T> {
    /// Returns the value when in the `Ready` state.
    pub fn ready(&self) -> (r: Option<&T>)
        ensures
            r == (match self {
                Loadable::Ready(v) => Some(v),
                _ => None::<&T>,
            }),
    {
        match self {
            Loadable::Ready(value) => Some(value),
            _ => None,
        }
    }

    /// Returns true when a fetch is in progress.
    pub fn is_loading(&self) -> (r: bool)
        ensures
            r == (self is Loading),
    {
        match self {
            Loadable::Loading => true,
            _ => false,
        }
    }
}

/// How a diff should be presented.
#[derive(Debug, Clone, Copy, PartialEq, Eq, Structural, Default)]
pub enum DiffView {
    #[default]
    Unified,
    Split,
}

impl DeepView for DiffView {
    type V = DiffView;

    open spec fn deep_view(&self) -> DiffView {
        *self
    }
}

/// Identifies which file/diff is being viewed.
#[derive(Debug, Clone, PartialEq, Eq)]
pub struct DiffTarget {
    pub path: String,
    /// True when viewing the staged (index vs HEAD) diff, false for worktree.
    pub staged: bool,
}

pub struct DiffTargetV {
    pub path: Seq<char>,
    pub staged: bool,
}

impl DeepView for DiffTarget {
    type V = DiffTargetV;

    open spec fn deep_view(&self) -> DiffTargetV {
        DiffTargetV { path: self.path@, staged: self.staged }
    }
}

impl Dup for DiffTarget {
    fn dup(&self) -> (r: DiffTarget) {
        DiffTarget { path: self.path.clone(), staged: self.staged }
    }
}

impl DiffTarget {
    /// Whether two targets are for the same side and, by components, the
    /// same path.
    pub fn same(&self, other: &DiffTarget) -> (r: bool)
        ensures
            r == (self.staged == other.staged && crate::path::same_path(self.path@, other.path@)),
    {
        self.staged == other.staged && crate::path::same_path_exec(self.path.as_str(), other.path.as_str())
    }
}

/// A commit as shown in the history list.
#[derive(Debug, Clone, PartialEq, Eq)]
pub struct CommitSummary {
    pub oid: Oid,
    pub summary: String,
    pub author: String,
    /// Unix timestamp (seconds).
    pub timestamp: i64,
}

pub struct CommitSummaryV {
    pub oid: Seq<char>,
    pub summary: Seq<char>,
    pub author: Seq<char>,
    pub timestamp: i64,
}

impl DeepView for CommitSummary {
    type V = CommitSummaryV;

    open spec fn deep_view(&self) -> CommitSummaryV {
        CommitSummaryV {
            oid: self.oid.deep_view(),
            summary: self.summary@,
            author: self.author@,
            timestamp: self.timestamp,
        }
    }
}

impl Dup for CommitSummary {
    fn dup(&self) -> (r: CommitSummary) {
        CommitSummary {
            oid: self.oid.dup(),
            summary: self.summary.clone(),
            author: self.author.clone(),
            timestamp: self.timestamp,
        }
    }
}

/// A single line within a diff hunk.
#[derive(Debug, Clone, PartialEq, Eq)]
pub struct DiffLine {
    /// ` `, `+`, or `-`.
    pub origin: char,
    pub content: String,
    /// Index into the unified-diff body (after `+++`), for line-stage patches.
    pub body_index: usize,
    /// 1-based line number on the old (HEAD / index) side, when applicable.
    pub old_line: Option<u32>,
    /// 1-based line number on the new (worktree / index) side, when applicable.
    pub new_line: Option<u32>,
    /// Commit that last authored `old_line` at HEAD (Change Origin).
    pub change_origin: Option<CommitSummary>,
}

pub struct DiffLineV {
    pub origin: char,
    pub content: Seq<char>,
    pub body_index: usize,
    pub old_line: Option<u32>,
    pub new_line: Option<u32>,
    pub change_origin: Option<CommitSummaryV>,
}

impl DeepView for DiffLine {
    type V = DiffLineV;

    open spec fn deep_view(&self) -> DiffLineV {
        DiffLineV {
            origin: self.origin,
            content: self.content@,
            body_index: self.body_index,
            old_line: self.old_line,
            new_line: self.new_line,
            change_origin: self.change_origin.deep_view(),
        }
    }
}

impl Dup for DiffLine {
    fn dup(&self) -> (r: DiffLine) {
        DiffLine {
            origin: self.origin,
            content: self.content.clone(),
            body_index: self.body_index,
            old_line: self.old_line,
            new_line: self.new_line,
            change_origin: self.change_origin.dup(),
        }
    }
}

/// A diff hunk with its `@@` header and lines.
#[derive(Debug, Clone, PartialEq, Eq)]
pub struct DiffHunk {
    pub header: String,
    pub lines: Vec<DiffLine>,
}

pub struct DiffHunkV {
    pub header: Seq<char>,
    pub lines: Seq<DiffLineV>,
}

impl DeepView for DiffHunk {
    type V = DiffHunkV;

    open spec fn deep_view(&self) -> DiffHunkV {
        DiffHunkV { header: self.header@, lines: self.lines.deep_view() }
    }
}

impl Dup for DiffHunk {
    fn dup(&self) -> (r: DiffHunk) {
        DiffHunk { header: self.header.clone(), lines: self.lines.dup() }
    }
}

/// Rendered diff content for a single file.
#[derive(Debug, Clone, PartialEq, Eq)]
pub struct DiffContent {
    pub target: DiffTarget,
    pub hunks: Vec<DiffHunk>,
    /// Optional banner (binary file, truncated, empty).
    pub notice: Option<String>,
}

pub struct DiffContentV {
    pub target: DiffTargetV,
    pub hunks: Seq<DiffHunkV>,
    pub notice: Option<Seq<char>>,
}

impl DeepView for DiffContent {
    type V = DiffContentV;

    open spec fn deep_view(&self) -> DiffContentV {
        DiffContentV {
            target: self.target.deep_view(),
            hunks: self.hunks.deep_view(),
            notice: self.notice.deep_view(),
        }
    }
}

impl Dup for DiffContent {
    fn dup(&self) -> (r: DiffContent) {
        DiffContent { target: self.target.dup(), hunks: self.hunks.dup(), notice: self.notice.dup() }
    }
}

/// Health of a branch relative to its upstream (Branch Health).
#[derive(Debug, Clone, Copy, PartialEq, Eq, Structural)]
pub enum BranchHealth {
    Synced,
    Ahead,
    Behind,
    Diverged,
    Stale,
    /// No upstream configured.
    Local,
}

impl DeepView for BranchHealth {
    type V = BranchHealth;

    open spec fn deep_view(&self) -> BranchHealth {
        *self
    }
}

/// A branch and its tracking information.
#[derive(Debug, Clone, PartialEq, Eq)]
pub struct BranchInfo {
    pub name: String,
    pub upstream: Option<String>,
    pub health: BranchHealth,
    pub ahead: u32,
    pub behind: u32,
    pub last_commit: Option<CommitSummary>,
    pub is_remote: bool,
    /// Whole days since the tip commit, when known.
    pub stale_days: Option<u32>,
}

pub struct BranchInfoV {
    pub name: Seq<char>,
    pub upstream: Option<Seq<char>>,
    pub health: BranchHealth,
    pub ahead: u32,
    pub behind: u32,
    pub last_commit: Option<CommitSummaryV>,
    pub is_remote: bool,
    pub stale_days: Option<u32>,
}

impl DeepView for BranchInfo {
    type V = BranchInfoV;

    open spec fn deep_view(&self) -> BranchInfoV {
        BranchInfoV {
            name: self.name@,
            upstream: self.upstream.deep_view(),
            health: self.health,
            ahead: self.ahead,
            behind: self.behind,
            last_commit: self.last_commit.deep_view(),
            is_remote: self.is_remote,
            stale_days: self.stale_days,
        }
    }
}

impl Dup for BranchInfo {
    fn dup(&self) -> (r: BranchInfo) {
        BranchInfo {
            name: self.name.clone(),
            upstream: self.upstream.dup(),
            health: self.health,
            ahead: self.ahead,
            behind: self.behind,
            last_commit: self.last_commit.dup(),
            is_remote: self.is_remote,
            stale_days: self.stale_days,
        }
    }
}

/// A linked or primary worktree.
#[derive(Debug, Clone, PartialEq, Eq)]
pub struct WorktreeInfo {
    pub path: String,
    pub branch: Option<String>,
    pub is_primary: bool,
}

pub struct WorktreeInfoV {
    pub path: Seq<char>,
    pub branch: Option<Seq<char>>,
    pub is_primary: bool,
}

impl DeepView for WorktreeInfo {
    type V = WorktreeInfoV;

    open spec fn deep_view(&self) -> WorktreeInfoV {
        WorktreeInfoV {
            path: self.path@,
            branch: self.branch.deep_view(),
            is_primary: self.is_primary,
        }
    }
}

impl Dup for WorktreeInfo {
    fn dup(&self) -> (r: WorktreeInfo) {
        WorktreeInfo {
            path: self.path.clone(),
            branch: self.branch.dup(),
            is_primary: self.is_primary,
        }
    }
}

/// Current HEAD summary.
#[derive(Debug, Clone, PartialEq, Eq, Default)]
pub struct HeadInfo {
    pub branch: Option<String>,
    pub oid: Option<Oid>,
    pub detached: bool,
}

pub struct HeadInfoV {
    pub branch: Option<Seq<char>>,
    pub oid: Option<Seq<char>>,
    pub detached: bool,
}

impl DeepView for HeadInfo {
    type V = HeadInfoV;

    open spec fn deep_view(&self) -> HeadInfoV {
        HeadInfoV {
            branch: self.branch.deep_view(),
            oid: self.oid.deep_view(),
            detached: self.detached,
        }
    }
}

impl Dup for HeadInfo {
    fn dup(&self) -> (r: HeadInfo) {
        HeadInfo { branch: self.branch.dup(), oid: self.oid.dup(), detached: self.detached }
    }
}

impl HeadInfo {
    /// An unknown HEAD: no branch, no oid, attached.
    pub fn new() -> (r: HeadInfo)
        ensures
            r.deep_view() == (HeadInfoV { branch: None, oid: None, detached: false }),
    {
        HeadInfo { branch: None, oid: None, detached: false }
    }
}

/// Top-level views selectable from the navigation pane.
#[derive(Debug, Clone, Copy, PartialEq, Eq, Structural, Default)]
pub enum View {
    #[default]
    Changes,
    History,
    Branches,
    Worktrees,
    Stashes,
}

impl DeepView for View {
    type V = View;

    open spec fn deep_view(&self) -> View {
        *self
    }
}

impl Dup for View {
    fn dup(&self) -> (r: View) {
        *self
    }
}

/// Which of the three panes currently has keyboard focus.
#[derive(Debug, Clone, Copy, PartialEq, Eq, Structural, Default)]
pub enum Pane {
    #[default]
    Navigation,
    Content,
    Context,
}

impl DeepView for Pane {
    type V = Pane;

    open spec fn deep_view(&self) -> Pane {
        *self
    }
}

} // verus!
