//! User events forwarded from the view layer.
//!
//! Events never perform Git I/O; the reducer turns them into state updates
//! and [`crate::app::command::Command`]s.
use vstd::prelude::*;

use crate::app::model::{DiffView, Oid, View};
use crate::dup::Dup;
#[allow(unused_imports)]
use vstd::view::View as _;

verus! {

/// A user-originated event.
#[derive(Debug, Clone, PartialEq, Eq)]
pub enum UiEvent {
    /// Open the repository rooted at the given path.
    OpenRepository(String),
    /// Close the current repository and reset state.
    CloseRepository,
    /// Switch the active navigation view.
    SelectView(View),
    /// Toggle the right-hand context panel.
    ToggleContextPanel,
    /// Select a file (shows its diff); `staged` picks index against HEAD.
    SelectFile { path: String, staged: bool },
    /// Move the Changes list selection by `delta`.
    NavigateChanges { delta: i32 },
    /// Select a commit (shows its detail).
    SelectCommit(Oid),
    /// Show one file's diff inside the selected commit.
    SelectCommitFile(String),
    /// Close the commit file diff.
    ClearCommitFileDiff,
    /// Step back (negative) or forward (positive) through visited commits.
    NavigateCommit { delta: i32 },
    /// Select a branch.
    SelectBranch(String),
    /// Filter the branch list.
    SetBranchFilter(String),
    /// Set or change the upstream tracking ref for a branch.
    SetUpstream { branch: String, upstream: String },
    /// Compare `other` against the current HEAD branch.
    ShowDivergence { other: String },
    /// Clear the divergence panel.
    ClearDivergence,
    /// Change the diff presentation.
    SetDiffView(DiffView),
    /// Toggle the blame heatmap over the diff.
    ToggleHeatmap,
    /// Move the focused hunk by `delta`.
    NavigateHunk { delta: i32 },
    /// Toggle selection of a diff body line for line staging.
    ToggleDiffLine(usize),
    /// Clear the diff line selection.
    ClearDiffLineSelection,
    /// Stage the selected diff lines.
    StageSelectedLines,
    /// Unstage the selected diff lines (from the staged diff).
    UnstageSelectedLines,
    /// Stage a single file (optimistic).
    StageFile(String),
    /// Unstage a single file (optimistic).
    UnstageFile(String),
    /// Stage everything.
    StageAll,
    /// Unstage everything.
    UnstageAll,
    /// Stage or unstage the file whose diff is shown.
    ToggleStageSelection,
    /// Stage (or unstage) the changed lines of the focused hunk.
    StageFocusedHunk,
    /// Edit the in-progress commit message.
    SetCommitMessage(String),
    /// Ask the view to focus the commit message input.
    FocusCommitInput,
    /// Commit the staged changes with the current message.
    Commit,
    /// Create a branch with the given name.
    CreateBranch(String),
    /// Switch to a branch.
    CheckoutBranch(String),
    /// Ask for confirmation before deleting a branch.
    RequestDeleteBranch(String),
    /// Delete the branch awaiting confirmation.
    ConfirmDeleteBranch,
    /// Cancel the pending branch deletion.
    CancelDeleteBranch,
    /// Open the branch cleanup dialog with its candidates ticked.
    OpenBranchCleanup,
    /// Tick or untick a branch in the cleanup dialog.
    ToggleCleanupBranch(String),
    /// Delete every ticked branch.
    ConfirmBranchCleanup,
    /// Close the cleanup dialog.
    CancelBranchCleanup,
    /// Fetch from the default remote.
    Fetch,
    /// Pull from the upstream.
    Pull,
    /// Push to the upstream.
    Push,
    /// Whether a worktree made by Instant Worktree is opened next.
    SetOpenAfterInstantWorktree(bool),
    /// Create a worktree for a branch at a path.
    CreateWorktree { branch: String, path: String },
    /// Create a worktree for a branch at its default path.
    InstantWorktree { branch: String },
    /// Ask for confirmation before removing a worktree.
    RequestRemoveWorktree(String),
    /// Remove the worktree awaiting confirmation.
    ConfirmRemoveWorktree,
    /// Cancel the pending worktree removal.
    CancelRemoveWorktree,
    /// Stash the working tree changes.
    StashSave { message: Option<String> },
    /// Select a stash entry (shows its diff).
    SelectStash(usize),
    /// Apply a stash entry.
    StashApply(usize),
    /// Apply and drop a stash entry.
    StashPop(usize),
    /// Ask for confirmation before dropping a stash entry.
    RequestDropStash(usize),
    /// Drop the stash entry awaiting confirmation.
    ConfirmDropStash,
    /// Cancel the pending stash drop.
    CancelDropStash,
    /// Load the next page of history.
    LoadMoreHistory,
    /// Show the history of one file.
    ShowFileHistory { path: String },
    /// Show the history of one line of a file.
    ShowLineHistory { path: String, line: u32 },
    /// Show the full history again.
    ClearHistoryFilter,
    /// Update the search query.
    Search(String),
    /// Open the command palette.
    OpenCommandPalette,
    /// Open Quick Open.
    OpenQuickOpen,
    /// Close the open overlay.
    CloseOverlay,
    /// Edit the overlay's query.
    SetOverlayQuery(String),
    /// Move the overlay selection by `delta`.
    NavigateOverlay { delta: i32 },
    /// Pick an overlay item by index and confirm it.
    SelectOverlayItem(usize),
    /// Confirm the selected overlay item.
    ConfirmOverlay,
    /// Step back out of the innermost open thing.
    Escape,
    /// Move the history selection by `delta`.
    NavigateHistory { delta: i32 },
    /// Copy text to the clipboard (done by the view).
    CopyText(String),
    /// Open a URL in the browser (done by the view).
    OpenUrl(String),
    /// Dismiss the current error banner.
    DismissError,
}

pub enum UiEventV {
    OpenRepository(Seq<char>),
    CloseRepository,
    SelectView(View),
    ToggleContextPanel,
    SelectFile { path: Seq<char>, staged: bool },
    NavigateChanges { delta: i32 },
    SelectCommit(Seq<char>),
    SelectCommitFile(Seq<char>),
    ClearCommitFileDiff,
    NavigateCommit { delta: i32 },
    SelectBranch(Seq<char>),
    SetBranchFilter(Seq<char>),
    SetUpstream { branch: Seq<char>, upstream: Seq<char> },
    ShowDivergence { other: Seq<char> },
    ClearDivergence,
    SetDiffView(DiffView),
    ToggleHeatmap,
    NavigateHunk { delta: i32 },
    ToggleDiffLine(usize),
    ClearDiffLineSelection,
    StageSelectedLines,
    UnstageSelectedLines,
    StageFile(Seq<char>),
    UnstageFile(Seq<char>),
    StageAll,
    UnstageAll,
    ToggleStageSelection,
    StageFocusedHunk,
    SetCommitMessage(Seq<char>),
    FocusCommitInput,
    Commit,
    CreateBranch(Seq<char>),
    CheckoutBranch(Seq<char>),
    RequestDeleteBranch(Seq<char>),
    ConfirmDeleteBranch,
    CancelDeleteBranch,
    OpenBranchCleanup,
    ToggleCleanupBranch(Seq<char>),
    ConfirmBranchCleanup,
    CancelBranchCleanup,
    Fetch,
    Pull,
    Push,
    SetOpenAfterInstantWorktree(bool),
    CreateWorktree { branch: Seq<char>, path: Seq<char> },
    InstantWorktree { branch: Seq<char> },
    RequestRemoveWorktree(Seq<char>),
    ConfirmRemoveWorktree,
    CancelRemoveWorktree,
    StashSave { message: Option<Seq<char>> },
    SelectStash(usize),
    StashApply(usize),
    StashPop(usize),
    RequestDropStash(usize),
    ConfirmDropStash,
    CancelDropStash,
    LoadMoreHistory,
    ShowFileHistory { path: Seq<char> },
    ShowLineHistory { path: Seq<char>, line: u32 },
    ClearHistoryFilter,
    Search(Seq<char>),
    OpenCommandPalette,
    OpenQuickOpen,
    CloseOverlay,
    SetOverlayQuery(Seq<char>),
    NavigateOverlay { delta: i32 },
    SelectOverlayItem(usize),
    ConfirmOverlay,
    Escape,
    NavigateHistory { delta: i32 },
    CopyText(Seq<char>),
    OpenUrl(Seq<char>),
    DismissError,
}

impl DeepView for UiEvent {
    type V = UiEventV;

    open spec fn deep_view(&self) -> UiEventV {
        match self {
            UiEvent::OpenRepository(x) => UiEventV::OpenRepository(x@),
            UiEvent::CloseRepository => UiEventV::CloseRepository,
            UiEvent::SelectView(x) => UiEventV::SelectView(*x),
            UiEvent::ToggleContextPanel => UiEventV::ToggleContextPanel,
            UiEvent::SelectFile { path, staged } => UiEventV::SelectFile { path: path@, staged: *staged },
            UiEvent::NavigateChanges { delta } => UiEventV::NavigateChanges { delta: *delta },
            UiEvent::SelectCommit(x) => UiEventV::SelectCommit(x.deep_view()),
            UiEvent::SelectCommitFile(x) => UiEventV::SelectCommitFile(x@),
            UiEvent::ClearCommitFileDiff => UiEventV::ClearCommitFileDiff,
            UiEvent::NavigateCommit { delta } => UiEventV::NavigateCommit { delta: *delta },
            UiEvent::SelectBranch(x) => UiEventV::SelectBranch(x@),
            UiEvent::SetBranchFilter(x) => UiEventV::SetBranchFilter(x@),
            UiEvent::SetUpstream { branch, upstream } => UiEventV::SetUpstream { branch: branch@, upstream: upstream@ },
            UiEvent::ShowDivergence { other } => UiEventV::ShowDivergence { other: other@ },
            UiEvent::ClearDivergence => UiEventV::ClearDivergence,
            UiEvent::SetDiffView(x) => UiEventV::SetDiffView(*x),
            UiEvent::ToggleHeatmap => UiEventV::ToggleHeatmap,
            UiEvent::NavigateHunk { delta } => UiEventV::NavigateHunk { delta: *delta },
            UiEvent::ToggleDiffLine(x) => UiEventV::ToggleDiffLine(*x),
            UiEvent::ClearDiffLineSelection => UiEventV::ClearDiffLineSelection,
            UiEvent::StageSelectedLines => UiEventV::StageSelectedLines,
            UiEvent::UnstageSelectedLines => UiEventV::UnstageSelectedLines,
            UiEvent::StageFile(x) => UiEventV::StageFile(x@),
            UiEvent::UnstageFile(x) => UiEventV::UnstageFile(x@),
            UiEvent::StageAll => UiEventV::StageAll,
            UiEvent::UnstageAll => UiEventV::UnstageAll,
            UiEvent::ToggleStageSelection => UiEventV::ToggleStageSelection,
            UiEvent::StageFocusedHunk => UiEventV::StageFocusedHunk,
            UiEvent::SetCommitMessage(x) => UiEventV::SetCommitMessage(x@),
            UiEvent::FocusCommitInput => UiEventV::FocusCommitInput,
            UiEvent::Commit => UiEventV::Commit,
            UiEvent::CreateBranch(x) => UiEventV::CreateBranch(x@),
            UiEvent::CheckoutBranch(x) => UiEventV::CheckoutBranch(x@),
            UiEvent::RequestDeleteBranch(x) => UiEventV::RequestDeleteBranch(x@),
            UiEvent::ConfirmDeleteBranch => UiEventV::ConfirmDeleteBranch,
            UiEvent::CancelDeleteBranch => UiEventV::CancelDeleteBranch,
            UiEvent::OpenBranchCleanup => UiEventV::OpenBranchCleanup,
            UiEvent::ToggleCleanupBranch(x) => UiEventV::ToggleCleanupBranch(x@),
            UiEvent::ConfirmBranchCleanup => UiEventV::ConfirmBranchCleanup,
            UiEvent::CancelBranchCleanup => UiEventV::CancelBranchCleanup,
            UiEvent::Fetch => UiEventV::Fetch,
            UiEvent::Pull => UiEventV::Pull,
            UiEvent::Push => UiEventV::Push,
            UiEvent::SetOpenAfterInstantWorktree(x) => UiEventV::SetOpenAfterInstantWorktree(*x),
            UiEvent::CreateWorktree { branch, path } => UiEventV::CreateWorktree { branch: branch@, path: path@ },
            UiEvent::InstantWorktree { branch } => UiEventV::InstantWorktree { branch: branch@ },
            UiEvent::RequestRemoveWorktree(x) => UiEventV::RequestRemoveWorktree(x@),
            UiEvent::ConfirmRemoveWorktree => UiEventV::ConfirmRemoveWorktree,
            UiEvent::CancelRemoveWorktree => UiEventV::CancelRemoveWorktree,
            UiEvent::StashSave { message } => UiEventV::StashSave { message: message.deep_view() },
            UiEvent::SelectStash(x) => UiEventV::SelectStash(*x),
            UiEvent::StashApply(x) => UiEventV::StashApply(*x),
            UiEvent::StashPop(x) => UiEventV::StashPop(*x),
            UiEvent::RequestDropStash(x) => UiEventV::RequestDropStash(*x),
            UiEvent::ConfirmDropStash => UiEventV::ConfirmDropStash,
            UiEvent::CancelDropStash => UiEventV::CancelDropStash,
            UiEvent::LoadMoreHistory => UiEventV::LoadMoreHistory,
            UiEvent::ShowFileHistory { path } => UiEventV::ShowFileHistory { path: path@ },
            UiEvent::ShowLineHistory { path, line } => UiEventV::ShowLineHistory { path: path@, line: *line },
            UiEvent::ClearHistoryFilter => UiEventV::ClearHistoryFilter,
            UiEvent::Search(x) => UiEventV::Search(x@),
            UiEvent::OpenCommandPalette => UiEventV::OpenCommandPalette,
            UiEvent::OpenQuickOpen => UiEventV::OpenQuickOpen,
            UiEvent::CloseOverlay => UiEventV::CloseOverlay,
            UiEvent::SetOverlayQuery(x) => UiEventV::SetOverlayQuery(x@),
            UiEvent::NavigateOverlay { delta } => UiEventV::NavigateOverlay { delta: *delta },
            UiEvent::SelectOverlayItem(x) => UiEventV::SelectOverlayItem(*x),
            UiEvent::ConfirmOverlay => UiEventV::ConfirmOverlay,
            UiEvent::Escape => UiEventV::Escape,
            UiEvent::NavigateHistory { delta } => UiEventV::NavigateHistory { delta: *delta },
            UiEvent::CopyText(x) => UiEventV::CopyText(x@),
            UiEvent::OpenUrl(x) => UiEventV::OpenUrl(x@),
            UiEvent::DismissError => UiEventV::DismissError,
        }
    }
}

impl Dup for UiEvent {
    fn dup(&self) -> (r: UiEvent) {
        match self {
            UiEvent::OpenRepository(x) => UiEvent::OpenRepository(x.dup()),
            UiEvent::CloseRepository => UiEvent::CloseRepository,
            UiEvent::SelectView(x) => UiEvent::SelectView(*x),
            UiEvent::ToggleContextPanel => UiEvent::ToggleContextPanel,
            UiEvent::SelectFile { path, staged } => UiEvent::SelectFile { path: path.dup(), staged: *staged },
            UiEvent::NavigateChanges { delta } => UiEvent::NavigateChanges { delta: *delta },
            UiEvent::SelectCommit(x) => UiEvent::SelectCommit(x.dup()),
            UiEvent::SelectCommitFile(x) => UiEvent::SelectCommitFile(x.dup()),
            UiEvent::ClearCommitFileDiff => UiEvent::ClearCommitFileDiff,
            UiEvent::NavigateCommit { delta } => UiEvent::NavigateCommit { delta: *delta },
            UiEvent::SelectBranch(x) => UiEvent::SelectBranch(x.dup()),
            UiEvent::SetBranchFilter(x) => UiEvent::SetBranchFilter(x.dup()),
            UiEvent::SetUpstream { branch, upstream } => UiEvent::SetUpstream { branch: branch.dup(), upstream: upstream.dup() },
            UiEvent::ShowDivergence { other } => UiEvent::ShowDivergence { other: other.dup() },
            UiEvent::ClearDivergence => UiEvent::ClearDivergence,
            UiEvent::SetDiffView(x) => UiEvent::SetDiffView(*x),
            UiEvent::ToggleHeatmap => UiEvent::ToggleHeatmap,
            UiEvent::NavigateHunk { delta } => UiEvent::NavigateHunk { delta: *delta },
            UiEvent::ToggleDiffLine(x) => UiEvent::ToggleDiffLine(*x),
            UiEvent::ClearDiffLineSelection => UiEvent::ClearDiffLineSelection,
            UiEvent::StageSelectedLines => UiEvent::StageSelectedLines,
            UiEvent::UnstageSelectedLines => UiEvent::UnstageSelectedLines,
            UiEvent::StageFile(x) => UiEvent::StageFile(x.dup()),
            UiEvent::UnstageFile(x) => UiEvent::UnstageFile(x.dup()),
            UiEvent::StageAll => UiEvent::StageAll,
            UiEvent::UnstageAll => UiEvent::UnstageAll,
            UiEvent::ToggleStageSelection => UiEvent::ToggleStageSelection,
            UiEvent::StageFocusedHunk => UiEvent::StageFocusedHunk,
            UiEvent::SetCommitMessage(x) => UiEvent::SetCommitMessage(x.dup()),
            UiEvent::FocusCommitInput => UiEvent::FocusCommitInput,
            UiEvent::Commit => UiEvent::Commit,
            UiEvent::CreateBranch(x) => UiEvent::CreateBranch(x.dup()),
            UiEvent::CheckoutBranch(x) => UiEvent::CheckoutBranch(x.dup()),
            UiEvent::RequestDeleteBranch(x) => UiEvent::RequestDeleteBranch(x.dup()),
            UiEvent::ConfirmDeleteBranch => UiEvent::ConfirmDeleteBranch,
            UiEvent::CancelDeleteBranch => UiEvent::CancelDeleteBranch,
            UiEvent::OpenBranchCleanup => UiEvent::OpenBranchCleanup,
            UiEvent::ToggleCleanupBranch(x) => UiEvent::ToggleCleanupBranch(x.dup()),
            UiEvent::ConfirmBranchCleanup => UiEvent::ConfirmBranchCleanup,
            UiEvent::CancelBranchCleanup => UiEvent::CancelBranchCleanup,
            UiEvent::Fetch => UiEvent::Fetch,
            UiEvent::Pull => UiEvent::Pull,
            UiEvent::Push => UiEvent::Push,
            UiEvent::SetOpenAfterInstantWorktree(x) => UiEvent::SetOpenAfterInstantWorktree(*x),
            UiEvent::CreateWorktree { branch, path } => UiEvent::CreateWorktree { branch: branch.dup(), path: path.dup() },
            UiEvent::InstantWorktree { branch } => UiEvent::InstantWorktree { branch: branch.dup() },
            UiEvent::RequestRemoveWorktree(x) => UiEvent::RequestRemoveWorktree(x.dup()),
            UiEvent::ConfirmRemoveWorktree => UiEvent::ConfirmRemoveWorktree,
            UiEvent::CancelRemoveWorktree => UiEvent::CancelRemoveWorktree,
            UiEvent::StashSave { message } => UiEvent::StashSave { message: message.dup() },
            UiEvent::SelectStash(x) => UiEvent::SelectStash(*x),
            UiEvent::StashApply(x) => UiEvent::StashApply(*x),
            UiEvent::StashPop(x) => UiEvent::StashPop(*x),
            UiEvent::RequestDropStash(x) => UiEvent::RequestDropStash(*x),
            UiEvent::ConfirmDropStash => UiEvent::ConfirmDropStash,
            UiEvent::CancelDropStash => UiEvent::CancelDropStash,
            UiEvent::LoadMoreHistory => UiEvent::LoadMoreHistory,
            UiEvent::ShowFileHistory { path } => UiEvent::ShowFileHistory { path: path.dup() },
            UiEvent::ShowLineHistory { path, line } => UiEvent::ShowLineHistory { path: path.dup(), line: *line },
            UiEvent::ClearHistoryFilter => UiEvent::ClearHistoryFilter,
            UiEvent::Search(x) => UiEvent::Search(x.dup()),
            UiEvent::OpenCommandPalette => UiEvent::OpenCommandPalette,
            UiEvent::OpenQuickOpen => UiEvent::OpenQuickOpen,
            UiEvent::CloseOverlay => UiEvent::CloseOverlay,
            UiEvent::SetOverlayQuery(x) => UiEvent::SetOverlayQuery(x.dup()),
            UiEvent::NavigateOverlay { delta } => UiEvent::NavigateOverlay { delta: *delta },
            UiEvent::SelectOverlayItem(x) => UiEvent::SelectOverlayItem(*x),
            UiEvent::ConfirmOverlay => UiEvent::ConfirmOverlay,
            UiEvent::Escape => UiEvent::Escape,
            UiEvent::NavigateHistory { delta } => UiEvent::NavigateHistory { delta: *delta },
            UiEvent::CopyText(x) => UiEvent::CopyText(x.dup()),
            UiEvent::OpenUrl(x) => UiEvent::OpenUrl(x.dup()),
            UiEvent::DismissError => UiEvent::DismissError,
        }
    }
}

} // verus!
