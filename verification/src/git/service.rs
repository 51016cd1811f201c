//! The `GitService` trait: the single boundary through which the app performs
//! Git operations, and the plain result types it returns.
use std::collections::HashMap;

use vstd::prelude::*;

use super::error::GitError;
use crate::dup::Dup;

verus! {

/// The kind of change reported for a file.
#[derive(Debug, Clone, Copy, PartialEq, Eq)]
pub enum ChangeStatus {
    Added,
    Modified,
    Deleted,
    Renamed,
    Copied,
    TypeChange,
    Untracked,
    Conflicted,
}

/// A single changed file with its status.
#[derive(Debug, Clone, PartialEq, Eq)]
pub struct FileChange {
    pub path: String,
    pub status: ChangeStatus,
}

impl FileChange {
    pub fn new(path: String, status: ChangeStatus) -> (r: FileChange)
        ensures
            r.path == path,
            r.status == status,
    {
        FileChange { path, status }
    }
}

/// Current HEAD summary.
#[derive(Debug, Clone, PartialEq, Eq, Default)]
pub struct Head {
    pub branch: Option<String>,
    pub oid: Option<String>,
    pub detached: bool,
}

/// Working-tree status grouped by area.
#[derive(Debug, Clone, PartialEq, Eq, Default)]
pub struct RepoStatus {
    pub staged: Vec<FileChange>,
    pub unstaged: Vec<FileChange>,
    pub untracked: Vec<FileChange>,
    pub conflicted: Vec<FileChange>,
}

impl RepoStatus {
    /// An empty status.
    pub fn new() -> (r: RepoStatus)
        ensures
            r.staged@.len() == 0,
            r.unstaged@.len() == 0,
            r.untracked@.len() == 0,
            r.conflicted@.len() == 0,
    {
        RepoStatus {
            staged: Vec::new(),
            unstaged: Vec::new(),
            untracked: Vec::new(),
            conflicted: Vec::new(),
        }
    }

    /// True when there are no changes of any kind.
    pub fn is_clean(&self) -> (r: bool)
        ensures
            r == (self.staged@.len() == 0 && self.unstaged@.len() == 0 && self.untracked@.len()
                == 0 && self.conflicted@.len() == 0),
    {
        self.staged.is_empty() && self.unstaged.is_empty() && self.untracked.is_empty()
            && self.conflicted.is_empty()
    }

    /// Total number of changed entries (saturating at `usize::MAX`).
    pub fn len(&self) -> (r: usize)
        ensures
            r as int == min_int(
                (self.staged@.len() + self.unstaged@.len() + self.untracked@.len()
                    + self.conflicted@.len()) as int,
                usize::MAX as int,
            ),
    {
        self.staged.len().saturating_add(self.unstaged.len()).saturating_add(
            self.untracked.len(),
        ).saturating_add(self.conflicted.len())
    }

    /// True when [`Self::len`] is zero.
    pub fn is_empty(&self) -> (r: bool)
        ensures
            r == (self.staged@.len() + self.unstaged@.len() + self.untracked@.len()
                + self.conflicted@.len() == 0),
    {
        self.len() == 0
    }
}

pub open spec fn min_int(a: int, b: int) -> int {
    if a <= b {
        a
    } else {
        b
    }
}

/// A commit as returned by `log`.
#[derive(Debug, Clone, PartialEq, Eq)]
pub struct CommitInfo {
    pub oid: String,
    pub summary: String,
    pub author: String,
    /// Unix timestamp (seconds).
    pub time: i64,
}

pub struct CommitInfoV {
    pub oid: Seq<char>,
    pub summary: Seq<char>,
    pub author: Seq<char>,
    pub time: i64,
}

impl DeepView for CommitInfo {
    type V = CommitInfoV;

    open spec fn deep_view(&self) -> CommitInfoV {
        CommitInfoV { oid: self.oid@, summary: self.summary@, author: self.author@, time: self.time }
    }
}

impl Dup for CommitInfo {
    fn dup(&self) -> (r: CommitInfo) {
        CommitInfo {
            oid: self.oid.clone(),
            summary: self.summary.clone(),
            author: self.author.clone(),
            time: self.time,
        }
    }
}

/// A branch reference.
#[derive(Debug, Clone, PartialEq, Eq)]
pub struct BranchRef {
    pub name: String,
    pub is_head: bool,
    pub upstream: Option<String>,
    pub is_remote: bool,
}

pub struct BranchRefV {
    pub name: Seq<char>,
    pub is_head: bool,
    pub upstream: Option<Seq<char>>,
    pub is_remote: bool,
}

impl DeepView for BranchRef {
    type V = BranchRefV;

    open spec fn deep_view(&self) -> BranchRefV {
        BranchRefV {
            name: self.name@,
            is_head: self.is_head,
            upstream: self.upstream.deep_view(),
            is_remote: self.is_remote,
        }
    }
}

/// A worktree reference.
#[derive(Debug, Clone, PartialEq, Eq)]
pub struct WorktreeRef {
    pub path: String,
    pub branch: Option<String>,
    pub is_primary: bool,
}

pub struct WorktreeRefV {
    pub path: Seq<char>,
    pub branch: Option<Seq<char>>,
    pub is_primary: bool,
}

impl DeepView for WorktreeRef {
    type V = WorktreeRefV;

    open spec fn deep_view(&self) -> WorktreeRefV {
        WorktreeRefV {
            path: self.path@,
            branch: self.branch.deep_view(),
            is_primary: self.is_primary,
        }
    }
}

/// A stash entry.
#[derive(Debug, Clone, PartialEq, Eq)]
pub struct StashEntry {
    pub index: usize,
    pub message: String,
}

pub struct StashEntryV {
    pub index: usize,
    pub message: Seq<char>,
}

impl DeepView for StashEntry {
    type V = StashEntryV;

    open spec fn deep_view(&self) -> StashEntryV {
        StashEntryV { index: self.index, message: self.message@ }
    }
}

impl Dup for StashEntry {
    fn dup(&self) -> (r: StashEntry) {
        StashEntry { index: self.index, message: self.message.clone() }
    }
}

/// Rendered diff text for a file.
#[derive(Debug, Clone, PartialEq, Eq)]
pub struct DiffText {
    pub path: String,
    pub staged: bool,
    pub text: String,
}

/// The boundary through which all Git operations flow.
///
/// The operations the executor carries out must be provided; the others
/// (`log`, remotes, worktree creation and removal, stashes) default to
/// [`GitError::Unsupported`] naming the operation.
///
/// Each operation comes with a relation (`*_gives`) that an implementation
/// describes: which results it may give for the arguments it was handed. By
/// default it admits every result. A
/// repository lives on disk and changes between calls, so the relation says
/// what may come back, not what will; callers state their own results over
/// it, and thereby which arguments they handed on.
pub trait GitService: Sized {
    /// Open (and discover) the repository containing `path`.
    fn open(path: &str) -> (r: Result<Self, GitError>)
        ensures
            Self::open_gives(path@, r),
    ;

    /// The outcomes that opening the repository at `path` may have.
    open spec fn open_gives(path: Seq<char>, r: Result<Self, GitError>) -> bool {
        true
    }

    /// The current HEAD.
    fn head(&self) -> (r: Result<Head, GitError>)
        ensures
            self.head_gives(r),
    ;

    /// The outcomes that `head` may have on this repository.
    open spec fn head_gives(&self, r: Result<Head, GitError>) -> bool {
        true
    }

    /// The working-tree status.
    fn status(&self) -> (r: Result<RepoStatus, GitError>)
        ensures
            self.status_gives(r),
    ;

    /// The outcomes that `status` may have on this repository.
    open spec fn status_gives(&self, r: Result<RepoStatus, GitError>) -> bool {
        true
    }

    /// The diff for a single file (worktree or staged).
    fn diff(&self, path: &str, staged: bool) -> (r: Result<DiffText, GitError>)
        ensures
            self.diff_gives(path@, staged, r),
    ;

    /// The outcomes that `diff` may have on this repository.
    open spec fn diff_gives(&self, path: Seq<char>, staged: bool, r: Result<DiffText, GitError>) -> bool {
        true
    }

    /// Stage a single file.
    fn stage(&self, path: &str) -> (r: Result<(), GitError>)
        ensures
            self.stage_gives(path@, r),
    ;

    /// The outcomes that `stage` may have on this repository.
    open spec fn stage_gives(&self, path: Seq<char>, r: Result<(), GitError>) -> bool {
        true
    }

    /// Unstage a single file.
    fn unstage(&self, path: &str) -> (r: Result<(), GitError>)
        ensures
            self.unstage_gives(path@, r),
    ;

    /// The outcomes that `unstage` may have on this repository.
    open spec fn unstage_gives(&self, path: Seq<char>, r: Result<(), GitError>) -> bool {
        true
    }

    /// Stage only selected body lines of a file's unified diff.
    fn stage_lines(&self, path: &str, from_staged: bool, selected: &[usize]) -> (r: Result<(), GitError>)
        ensures
            self.stage_lines_gives(path@, from_staged, selected@, r),
    ;

    /// The outcomes that `stage_lines` may have on this repository.
    open spec fn stage_lines_gives(&self, path: Seq<char>, from_staged: bool, selected: Seq<usize>, r: Result<(), GitError>) -> bool {
        true
    }

    /// Stage all changes.
    fn stage_all(&self) -> (r: Result<(), GitError>)
        ensures
            self.stage_all_gives(r),
    ;

    /// The outcomes that `stage_all` may have on this repository.
    open spec fn stage_all_gives(&self, r: Result<(), GitError>) -> bool {
        true
    }

    /// Unstage all changes.
    fn unstage_all(&self) -> (r: Result<(), GitError>)
        ensures
            self.unstage_all_gives(r),
    ;

    /// The outcomes that `unstage_all` may have on this repository.
    open spec fn unstage_all_gives(&self, r: Result<(), GitError>) -> bool {
        true
    }

    /// Create a commit from the staged changes; returns the new HEAD oid.
    fn commit(&self, message: &str) -> (r: Result<String, GitError>)
        ensures
            self.commit_gives(message@, r),
    ;

    /// The outcomes that `commit` may have on this repository.
    open spec fn commit_gives(&self, message: Seq<char>, r: Result<String, GitError>) -> bool {
        true
    }

    /// Read up to `limit` commits from HEAD.
    fn log(&self, limit: usize) -> Result<Vec<CommitInfo>, GitError> {
        Err(GitError::unsupported("log"))
    }

    /// Read `limit` commits starting at `skip` (newest-first).
    fn log_page(&self, skip: usize, limit: usize) -> (r: Result<Vec<CommitInfo>, GitError>)
        ensures
            self.log_page_gives(skip, limit, r),
    ;

    /// The outcomes that `log_page` may have on this repository.
    open spec fn log_page_gives(&self, skip: usize, limit: usize, r: Result<Vec<CommitInfo>, GitError>) -> bool {
        true
    }

    /// Blame a file at HEAD (1-based line -> commit).
    fn blame(&self, path: &str) -> (r: Result<HashMap<u32, CommitInfo>, GitError>)
        ensures
            self.blame_gives(path@, r),
    ;

    /// The outcomes that `blame` may have on this repository.
    open spec fn blame_gives(&self, path: Seq<char>, r: Result<HashMap<u32, CommitInfo>, GitError>) -> bool {
        true
    }

    /// List branches.
    fn branches(&self) -> (r: Result<Vec<BranchRef>, GitError>)
        ensures
            self.branches_gives(r),
    ;

    /// The outcomes that `branches` may have on this repository.
    open spec fn branches_gives(&self, r: Result<Vec<BranchRef>, GitError>) -> bool {
        true
    }

    /// Merge-base oid of two tips.
    fn merge_base(&self, a: &str, b: &str) -> (r: Result<String, GitError>)
        ensures
            self.merge_base_gives(a@, b@, r),
    ;

    /// The outcomes that `merge_base` may have on this repository.
    open spec fn merge_base_gives(&self, a: Seq<char>, b: Seq<char>, r: Result<String, GitError>) -> bool {
        true
    }

    /// Commits on `tip` since `base` (exclusive).
    fn commits_not_in(&self, tip: &str, base: &str, limit: usize) -> (r: Result<Vec<CommitInfo>, GitError>)
        ensures
            self.commits_not_in_gives(tip@, base@, limit, r),
    ;

    /// The outcomes that `commits_not_in` may have on this repository.
    open spec fn commits_not_in_gives(&self, tip: Seq<char>, base: Seq<char>, limit: usize, r: Result<Vec<CommitInfo>, GitError>) -> bool {
        true
    }

    /// Ahead/behind of `tip` vs `other`.
    fn ahead_behind(&self, tip: &str, other: &str) -> (r: Result<(u32, u32), GitError>)
        ensures
            self.ahead_behind_gives(tip@, other@, r),
    ;

    /// The outcomes that `ahead_behind` may have on this repository.
    open spec fn ahead_behind_gives(&self, tip: Seq<char>, other: Seq<char>, r: Result<(u32, u32), GitError>) -> bool {
        true
    }

    /// Recent branch names from the reflog.
    fn recent_branches(&self, limit: usize) -> (r: Result<Vec<String>, GitError>)
        ensures
            self.recent_branches_gives(limit, r),
    ;

    /// The outcomes that `recent_branches` may have on this repository.
    open spec fn recent_branches_gives(&self, limit: usize, r: Result<Vec<String>, GitError>) -> bool {
        true
    }

    /// Last commit on a branch tip.
    fn branch_last_commit(&self, branch: &str) -> (r: Result<Option<CommitInfo>, GitError>)
        ensures
            self.branch_last_commit_gives(branch@, r),
    ;

    /// The outcomes that `branch_last_commit` may have on this repository.
    open spec fn branch_last_commit_gives(&self, branch: Seq<char>, r: Result<Option<CommitInfo>, GitError>) -> bool {
        true
    }

    /// Set upstream tracking for a branch.
    fn set_upstream(&self, branch: &str, upstream: &str) -> (r: Result<(), GitError>)
        ensures
            self.set_upstream_gives(branch@, upstream@, r),
    ;

    /// The outcomes that `set_upstream` may have on this repository.
    open spec fn set_upstream_gives(&self, branch: Seq<char>, upstream: Seq<char>, r: Result<(), GitError>) -> bool {
        true
    }

    /// Create a branch.
    fn create_branch(&self, name: &str) -> (r: Result<(), GitError>)
        ensures
            self.create_branch_gives(name@, r),
    ;

    /// The outcomes that `create_branch` may have on this repository.
    open spec fn create_branch_gives(&self, name: Seq<char>, r: Result<(), GitError>) -> bool {
        true
    }

    /// Checkout / switch to a branch.
    fn checkout(&self, name: &str) -> (r: Result<Head, GitError>)
        ensures
            self.checkout_gives(name@, r),
    ;

    /// The outcomes that `checkout` may have on this repository.
    open spec fn checkout_gives(&self, name: Seq<char>, r: Result<Head, GitError>) -> bool {
        true
    }

    /// Delete a branch.
    fn delete_branch(&self, name: &str) -> (r: Result<(), GitError>)
        ensures
            self.delete_branch_gives(name@, r),
    ;

    /// The outcomes that `delete_branch` may have on this repository.
    open spec fn delete_branch_gives(&self, name: Seq<char>, r: Result<(), GitError>) -> bool {
        true
    }

    /// Fetch from the default remote.
    fn fetch(&self) -> Result<(), GitError> {
        Err(GitError::unsupported("fetch"))
    }

    /// Pull from the upstream.
    fn pull(&self) -> Result<(), GitError> {
        Err(GitError::unsupported("pull"))
    }

    /// Push to the upstream.
    fn push(&self) -> Result<(), GitError> {
        Err(GitError::unsupported("push"))
    }

    /// List worktrees.
    fn worktrees(&self) -> (r: Result<Vec<WorktreeRef>, GitError>)
        ensures
            self.worktrees_gives(r),
    ;

    /// The outcomes that `worktrees` may have on this repository.
    open spec fn worktrees_gives(&self, r: Result<Vec<WorktreeRef>, GitError>) -> bool {
        true
    }

    /// Create a worktree for a branch at a path.
    fn create_worktree(&self, branch: &str, path: &str) -> Result<WorktreeRef, GitError> {
        Err(GitError::unsupported("create_worktree"))
    }

    /// Remove a worktree.
    fn remove_worktree(&self, path: &str) -> Result<(), GitError> {
        Err(GitError::unsupported("remove_worktree"))
    }

    /// List stashes.
    fn stash_list(&self) -> Result<Vec<StashEntry>, GitError> {
        Err(GitError::unsupported("stash_list"))
    }

    /// Save a stash.
    fn stash_save(&self, message: Option<&str>) -> Result<(), GitError> {
        Err(GitError::unsupported("stash_save"))
    }

    /// Apply a stash.
    fn stash_apply(&self, index: usize) -> Result<(), GitError> {
        Err(GitError::unsupported("stash_apply"))
    }
}

} // verus!
