//! Side-effecting commands produced by the reducer and run by background
//! workers through the Git service.
//!
//! Every command carries the [`Generation`] it was issued under so that its
//! result can be discarded if the repository context has changed since.
use vstd::prelude::*;

use crate::app::model::{DiffTarget, DiffTargetV, Generation, Oid};
use crate::app::state::{HistoryFilter, HistoryFilterV};
use crate::dup::Dup;

verus! {

/// A unit of work to be executed off the UI thread.
#[derive(Debug, Clone, PartialEq, Eq)]
pub enum Command {
    /// Open the repository at `path`.
    OpenRepository { path: String, generation: Generation },
    /// Read the working-tree status.
    LoadStatus { generation: Generation },
    /// Load the diff of one file.
    LoadDiff { target: DiffTarget, generation: Generation },
    /// Blame the old-side `lines` of a diff; `remaining` follow later.
    EnrichBlame { target: DiffTarget, lines: Vec<u32>, remaining: Vec<u32>, generation: Generation },
    /// Load one page of history starting at `offset`.
    LoadHistoryPage { filter: HistoryFilter, offset: usize, generation: Generation },
    /// Load the branch list.
    LoadBranches { generation: Generation },
    /// Compute ahead/behind for the named branches.
    EnrichBranchHealth { names: Vec<String>, generation: Generation },
    /// Compare two tips.
    LoadDivergence { left: String, right: String, generation: Generation },
    /// Set a branch's upstream.
    SetUpstream { branch: String, upstream: String, generation: Generation },
    /// Load the worktree list.
    LoadWorktrees { generation: Generation },
    /// Stage one file.
    Stage { path: String, generation: Generation },
    /// Unstage one file.
    Unstage { path: String, generation: Generation },
    /// Stage (or, `from_staged`, unstage) single diff lines.
    StageLines { path: String, from_staged: bool, lines: Vec<usize>, generation: Generation },
    /// Stage everything.
    StageAll { generation: Generation },
    /// Unstage everything.
    UnstageAll { generation: Generation },
    /// Commit the index.
    Commit { message: String, generation: Generation },
    /// Create a branch.
    CreateBranch { name: String, generation: Generation },
    /// Switch branches.
    Checkout { name: String, generation: Generation },
    /// Delete a branch.
    DeleteBranch { name: String, generation: Generation },
    /// Fetch from the default remote.
    Fetch { generation: Generation },
    /// Background fetch; the same work as `Fetch` at low priority.
    AutoFetch { generation: Generation },
    /// Pull from the upstream.
    Pull { generation: Generation },
    /// Push to the upstream.
    Push { generation: Generation },
    /// Create a worktree.
    CreateWorktree { branch: String, path: String, generation: Generation },
    /// Remove a worktree.
    RemoveWorktree { path: String, generation: Generation },
    /// Stash the working tree.
    StashSave { message: Option<String>, generation: Generation },
    /// Load the stash list.
    LoadStashes { generation: Generation },
    /// Load one stash entry's diff.
    LoadStashDiff { index: usize, generation: Generation },
    /// Apply a stash entry.
    StashApply { index: usize, generation: Generation },
    /// Apply and drop a stash entry.
    StashPop { index: usize, generation: Generation },
    /// Drop a stash entry.
    StashDrop { index: usize, generation: Generation },
    /// Load one commit's metadata and files.
    LoadCommitDetail { oid: Oid, generation: Generation },
    /// Load one file's diff inside a commit.
    LoadCommitFileDiff { oid: Oid, path: String, generation: Generation },
}

pub enum CommandV {
    OpenRepository { path: Seq<char>, generation: Generation },
    LoadStatus { generation: Generation },
    LoadDiff { target: DiffTargetV, generation: Generation },
    EnrichBlame { target: DiffTargetV, lines: Seq<u32>, remaining: Seq<u32>, generation: Generation },
    LoadHistoryPage { filter: HistoryFilterV, offset: usize, generation: Generation },
    LoadBranches { generation: Generation },
    EnrichBranchHealth { names: Seq<Seq<char>>, generation: Generation },
    LoadDivergence { left: Seq<char>, right: Seq<char>, generation: Generation },
    SetUpstream { branch: Seq<char>, upstream: Seq<char>, generation: Generation },
    LoadWorktrees { generation: Generation },
    Stage { path: Seq<char>, generation: Generation },
    Unstage { path: Seq<char>, generation: Generation },
    StageLines { path: Seq<char>, from_staged: bool, lines: Seq<usize>, generation: Generation },
    StageAll { generation: Generation },
    UnstageAll { generation: Generation },
    Commit { message: Seq<char>, generation: Generation },
    CreateBranch { name: Seq<char>, generation: Generation },
    Checkout { name: Seq<char>, generation: Generation },
    DeleteBranch { name: Seq<char>, generation: Generation },
    Fetch { generation: Generation },
    AutoFetch { generation: Generation },
    Pull { generation: Generation },
    Push { generation: Generation },
    CreateWorktree { branch: Seq<char>, path: Seq<char>, generation: Generation },
    RemoveWorktree { path: Seq<char>, generation: Generation },
    StashSave { message: Option<Seq<char>>, generation: Generation },
    LoadStashes { generation: Generation },
    LoadStashDiff { index: usize, generation: Generation },
    StashApply { index: usize, generation: Generation },
    StashPop { index: usize, generation: Generation },
    StashDrop { index: usize, generation: Generation },
    LoadCommitDetail { oid: Seq<char>, generation: Generation },
    LoadCommitFileDiff { oid: Seq<char>, path: Seq<char>, generation: Generation },
}

impl DeepView for Command {
    type V = CommandV;

    open spec fn deep_view(&self) -> CommandV {
        match self {
            Command::OpenRepository { path, generation } => CommandV::OpenRepository { path: path@, generation: *generation },
            Command::LoadStatus { generation } => CommandV::LoadStatus { generation: *generation },
            Command::LoadDiff { target, generation } => CommandV::LoadDiff { target: target.deep_view(), generation: *generation },
            Command::EnrichBlame { target, lines, remaining, generation } => CommandV::EnrichBlame { target: target.deep_view(), lines: lines@, remaining: remaining@, generation: *generation },
            Command::LoadHistoryPage { filter, offset, generation } => CommandV::LoadHistoryPage { filter: filter.deep_view(), offset: *offset, generation: *generation },
            Command::LoadBranches { generation } => CommandV::LoadBranches { generation: *generation },
            Command::EnrichBranchHealth { names, generation } => CommandV::EnrichBranchHealth { names: names.deep_view(), generation: *generation },
            Command::LoadDivergence { left, right, generation } => CommandV::LoadDivergence { left: left@, right: right@, generation: *generation },
            Command::SetUpstream { branch, upstream, generation } => CommandV::SetUpstream { branch: branch@, upstream: upstream@, generation: *generation },
            Command::LoadWorktrees { generation } => CommandV::LoadWorktrees { generation: *generation },
            Command::Stage { path, generation } => CommandV::Stage { path: path@, generation: *generation },
            Command::Unstage { path, generation } => CommandV::Unstage { path: path@, generation: *generation },
            Command::StageLines { path, from_staged, lines, generation } => CommandV::StageLines { path: path@, from_staged: *from_staged, lines: lines@, generation: *generation },
            Command::StageAll { generation } => CommandV::StageAll { generation: *generation },
            Command::UnstageAll { generation } => CommandV::UnstageAll { generation: *generation },
            Command::Commit { message, generation } => CommandV::Commit { message: message@, generation: *generation },
            Command::CreateBranch { name, generation } => CommandV::CreateBranch { name: name@, generation: *generation },
            Command::Checkout { name, generation } => CommandV::Checkout { name: name@, generation: *generation },
            Command::DeleteBranch { name, generation } => CommandV::DeleteBranch { name: name@, generation: *generation },
            Command::Fetch { generation } => CommandV::Fetch { generation: *generation },
            Command::AutoFetch { generation } => CommandV::AutoFetch { generation: *generation },
            Command::Pull { generation } => CommandV::Pull { generation: *generation },
            Command::Push { generation } => CommandV::Push { generation: *generation },
            Command::CreateWorktree { branch, path, generation } => CommandV::CreateWorktree { branch: branch@, path: path@, generation: *generation },
            Command::RemoveWorktree { path, generation } => CommandV::RemoveWorktree { path: path@, generation: *generation },
            Command::StashSave { message, generation } => CommandV::StashSave { message: message.deep_view(), generation: *generation },
            Command::LoadStashes { generation } => CommandV::LoadStashes { generation: *generation },
            Command::LoadStashDiff { index, generation } => CommandV::LoadStashDiff { index: *index, generation: *generation },
            Command::StashApply { index, generation } => CommandV::StashApply { index: *index, generation: *generation },
            Command::StashPop { index, generation } => CommandV::StashPop { index: *index, generation: *generation },
            Command::StashDrop { index, generation } => CommandV::StashDrop { index: *index, generation: *generation },
            Command::LoadCommitDetail { oid, generation } => CommandV::LoadCommitDetail { oid: oid.deep_view(), generation: *generation },
            Command::LoadCommitFileDiff { oid, path, generation } => CommandV::LoadCommitFileDiff { oid: oid.deep_view(), path: path@, generation: *generation },
        }
    }
}

impl Dup for Command {
    fn dup(&self) -> (r: Command) {
        match self {
            Command::OpenRepository { path, generation } => Command::OpenRepository { path: path.dup(), generation: *generation },
            Command::LoadStatus { generation } => Command::LoadStatus { generation: *generation },
            Command::LoadDiff { target, generation } => Command::LoadDiff { target: target.dup(), generation: *generation },
            Command::EnrichBlame { target, lines, remaining, generation } => Command::EnrichBlame { target: target.dup(), lines: lines.clone(), remaining: remaining.clone(), generation: *generation },
            Command::LoadHistoryPage { filter, offset, generation } => Command::LoadHistoryPage { filter: filter.dup(), offset: *offset, generation: *generation },
            Command::LoadBranches { generation } => Command::LoadBranches { generation: *generation },
            Command::EnrichBranchHealth { names, generation } => Command::EnrichBranchHealth { names: names.dup(), generation: *generation },
            Command::LoadDivergence { left, right, generation } => Command::LoadDivergence { left: left.dup(), right: right.dup(), generation: *generation },
            Command::SetUpstream { branch, upstream, generation } => Command::SetUpstream { branch: branch.dup(), upstream: upstream.dup(), generation: *generation },
            Command::LoadWorktrees { generation } => Command::LoadWorktrees { generation: *generation },
            Command::Stage { path, generation } => Command::Stage { path: path.dup(), generation: *generation },
            Command::Unstage { path, generation } => Command::Unstage { path: path.dup(), generation: *generation },
            Command::StageLines { path, from_staged, lines, generation } => Command::StageLines { path: path.dup(), from_staged: *from_staged, lines: lines.clone(), generation: *generation },
            Command::StageAll { generation } => Command::StageAll { generation: *generation },
            Command::UnstageAll { generation } => Command::UnstageAll { generation: *generation },
            Command::Commit { message, generation } => Command::Commit { message: message.dup(), generation: *generation },
            Command::CreateBranch { name, generation } => Command::CreateBranch { name: name.dup(), generation: *generation },
            Command::Checkout { name, generation } => Command::Checkout { name: name.dup(), generation: *generation },
            Command::DeleteBranch { name, generation } => Command::DeleteBranch { name: name.dup(), generation: *generation },
            Command::Fetch { generation } => Command::Fetch { generation: *generation },
            Command::AutoFetch { generation } => Command::AutoFetch { generation: *generation },
            Command::Pull { generation } => Command::Pull { generation: *generation },
            Command::Push { generation } => Command::Push { generation: *generation },
            Command::CreateWorktree { branch, path, generation } => Command::CreateWorktree { branch: branch.dup(), path: path.dup(), generation: *generation },
            Command::RemoveWorktree { path, generation } => Command::RemoveWorktree { path: path.dup(), generation: *generation },
            Command::StashSave { message, generation } => Command::StashSave { message: message.dup(), generation: *generation },
            Command::LoadStashes { generation } => Command::LoadStashes { generation: *generation },
            Command::LoadStashDiff { index, generation } => Command::LoadStashDiff { index: *index, generation: *generation },
            Command::StashApply { index, generation } => Command::StashApply { index: *index, generation: *generation },
            Command::StashPop { index, generation } => Command::StashPop { index: *index, generation: *generation },
            Command::StashDrop { index, generation } => Command::StashDrop { index: *index, generation: *generation },
            Command::LoadCommitDetail { oid, generation } => Command::LoadCommitDetail { oid: oid.dup(), generation: *generation },
            Command::LoadCommitFileDiff { oid, path, generation } => Command::LoadCommitFileDiff { oid: oid.dup(), path: path.dup(), generation: *generation },
        }
    }
}

/// The generation a command was issued under.
pub open spec fn command_generation(c: CommandV) -> Generation {
    match c {
        CommandV::OpenRepository { generation, .. } => generation,
        CommandV::LoadStatus { generation } => generation,
        CommandV::LoadDiff { generation, .. } => generation,
        CommandV::EnrichBlame { generation, .. } => generation,
        CommandV::LoadHistoryPage { generation, .. } => generation,
        CommandV::LoadBranches { generation } => generation,
        CommandV::EnrichBranchHealth { generation, .. } => generation,
        CommandV::LoadDivergence { generation, .. } => generation,
        CommandV::SetUpstream { generation, .. } => generation,
        CommandV::LoadWorktrees { generation } => generation,
        CommandV::Stage { generation, .. } => generation,
        CommandV::Unstage { generation, .. } => generation,
        CommandV::StageLines { generation, .. } => generation,
        CommandV::StageAll { generation } => generation,
        CommandV::UnstageAll { generation } => generation,
        CommandV::Commit { generation, .. } => generation,
        CommandV::CreateBranch { generation, .. } => generation,
        CommandV::Checkout { generation, .. } => generation,
        CommandV::DeleteBranch { generation, .. } => generation,
        CommandV::Fetch { generation } => generation,
        CommandV::AutoFetch { generation } => generation,
        CommandV::Pull { generation } => generation,
        CommandV::Push { generation } => generation,
        CommandV::CreateWorktree { generation, .. } => generation,
        CommandV::RemoveWorktree { generation, .. } => generation,
        CommandV::StashSave { generation, .. } => generation,
        CommandV::LoadStashes { generation } => generation,
        CommandV::LoadStashDiff { generation, .. } => generation,
        CommandV::StashApply { generation, .. } => generation,
        CommandV::StashPop { generation, .. } => generation,
        CommandV::StashDrop { generation, .. } => generation,
        CommandV::LoadCommitDetail { generation, .. } => generation,
        CommandV::LoadCommitFileDiff { generation, .. } => generation,
    }
}

impl Command {
    /// The generation under which this command was issued.
    pub fn generation(&self) -> (r: Generation)
        ensures
            r == command_generation(self.deep_view()),
    {
        match self {
            Command::OpenRepository { generation, .. } => *generation,
            Command::LoadStatus { generation } => *generation,
            Command::LoadDiff { generation, .. } => *generation,
            Command::EnrichBlame { generation, .. } => *generation,
            Command::LoadHistoryPage { generation, .. } => *generation,
            Command::LoadBranches { generation } => *generation,
            Command::EnrichBranchHealth { generation, .. } => *generation,
            Command::LoadDivergence { generation, .. } => *generation,
            Command::SetUpstream { generation, .. } => *generation,
            Command::LoadWorktrees { generation } => *generation,
            Command::Stage { generation, .. } => *generation,
            Command::Unstage { generation, .. } => *generation,
            Command::StageLines { generation, .. } => *generation,
            Command::StageAll { generation } => *generation,
            Command::UnstageAll { generation } => *generation,
            Command::Commit { generation, .. } => *generation,
            Command::CreateBranch { generation, .. } => *generation,
            Command::Checkout { generation, .. } => *generation,
            Command::DeleteBranch { generation, .. } => *generation,
            Command::Fetch { generation } => *generation,
            Command::AutoFetch { generation } => *generation,
            Command::Pull { generation } => *generation,
            Command::Push { generation } => *generation,
            Command::CreateWorktree { generation, .. } => *generation,
            Command::RemoveWorktree { generation, .. } => *generation,
            Command::StashSave { generation, .. } => *generation,
            Command::LoadStashes { generation } => *generation,
            Command::LoadStashDiff { generation, .. } => *generation,
            Command::StashApply { generation, .. } => *generation,
            Command::StashPop { generation, .. } => *generation,
            Command::StashDrop { generation, .. } => *generation,
            Command::LoadCommitDetail { generation, .. } => *generation,
            Command::LoadCommitFileDiff { generation, .. } => *generation,
        }
    }
}

} // verus!
