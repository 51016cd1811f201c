//! Messages returned from background workers.
//!
//! Each message carries the [`Generation`] of the command that produced it.
//! The reducer drops messages older than the current generation while still
//! reconciling the in-flight count.
use std::collections::HashMap;
use vstd::prelude::*;

use crate::app::model::{
    BranchHealth, BranchInfo, BranchInfoV, CommitSummary, CommitSummaryV, DiffContent,
    DiffContentV, DiffTarget, DiffTargetV, FileChange, FileChangeV, Generation, HeadInfo,
    HeadInfoV, Oid, WorktreeInfo, WorktreeInfoV,
};
use crate::app::state::{HistoryFilter, HistoryFilterV};
use crate::dup::result_dv;
use crate::git::commit_detail::{CommitDetail, CommitDetailV};
use crate::git::remote_link::{RemoteWeb, RemoteWebV};
use crate::git::service::{StashEntry, StashEntryV};

verus! {

/// Repository metadata gathered when opening.
#[derive(Debug, Clone, PartialEq, Eq)]
pub struct RepositoryData {
    pub head: HeadInfo,
}

pub struct RepositoryDataV {
    pub head: HeadInfoV,
}

impl DeepView for RepositoryData {
    type V = RepositoryDataV;

    open spec fn deep_view(&self) -> RepositoryDataV {
        RepositoryDataV { head: self.head.deep_view() }
    }
}

/// Divergence payload between two tips.
#[derive(Debug, Clone, PartialEq, Eq)]
pub struct DivergenceData {
    pub merge_base: Option<Oid>,
    pub left_only: Vec<CommitSummary>,
    pub right_only: Vec<CommitSummary>,
}

pub struct DivergenceDataV {
    pub merge_base: Option<Seq<char>>,
    pub left_only: Seq<CommitSummaryV>,
    pub right_only: Seq<CommitSummaryV>,
}

impl DeepView for DivergenceData {
    type V = DivergenceDataV;

    open spec fn deep_view(&self) -> DivergenceDataV {
        DivergenceDataV {
            merge_base: self.merge_base.deep_view(),
            left_only: self.left_only.deep_view(),
            right_only: self.right_only.deep_view(),
        }
    }
}

/// Loaded branch list.
#[derive(Debug, Clone, PartialEq, Eq)]
pub struct BranchesData {
    pub branches: Vec<BranchInfo>,
    pub current: Option<String>,
    pub recent: Vec<String>,
    /// Local branch names still needing ahead/behind (deferred enrichment).
    pub pending_health: Vec<String>,
    /// Local branches already merged into the base branch.
    pub merged_into_base: Vec<String>,
}

pub struct BranchesDataV {
    pub branches: Seq<BranchInfoV>,
    pub current: Option<Seq<char>>,
    pub recent: Seq<Seq<char>>,
    pub pending_health: Seq<Seq<char>>,
    pub merged_into_base: Seq<Seq<char>>,
}

impl DeepView for BranchesData {
    type V = BranchesDataV;

    open spec fn deep_view(&self) -> BranchesDataV {
        BranchesDataV {
            branches: self.branches.deep_view(),
            current: self.current.deep_view(),
            recent: self.recent.deep_view(),
            pending_health: self.pending_health.deep_view(),
            merged_into_base: self.merged_into_base.deep_view(),
        }
    }
}

/// Ahead/behind enrichment for one branch.
#[derive(Debug, Clone, PartialEq, Eq)]
pub struct BranchHealthUpdate {
    pub name: String,
    pub ahead: u32,
    pub behind: u32,
    pub health: BranchHealth,
}

pub struct BranchHealthUpdateV {
    pub name: Seq<char>,
    pub ahead: u32,
    pub behind: u32,
    pub health: BranchHealth,
}

impl DeepView for BranchHealthUpdate {
    type V = BranchHealthUpdateV;

    open spec fn deep_view(&self) -> BranchHealthUpdateV {
        BranchHealthUpdateV {
            name: self.name@,
            ahead: self.ahead,
            behind: self.behind,
            health: self.health,
        }
    }
}

/// A full working-tree status snapshot.
#[derive(Debug, Clone, PartialEq, Eq, Default)]
pub struct StatusData {
    pub staged: Vec<FileChange>,
    pub unstaged: Vec<FileChange>,
    pub untracked: Vec<FileChange>,
    pub conflicted: Vec<FileChange>,
    /// Web links derived from the `origin` remote, when it has a known host.
    pub origin_web: Option<RemoteWeb>,
}

pub struct StatusDataV {
    pub staged: Seq<FileChangeV>,
    pub unstaged: Seq<FileChangeV>,
    pub untracked: Seq<FileChangeV>,
    pub conflicted: Seq<FileChangeV>,
    pub origin_web: Option<RemoteWebV>,
}

impl DeepView for StatusData {
    type V = StatusDataV;

    open spec fn deep_view(&self) -> StatusDataV {
        StatusDataV {
            staged: self.staged.deep_view(),
            unstaged: self.unstaged.deep_view(),
            untracked: self.untracked.deep_view(),
            conflicted: self.conflicted.deep_view(),
            origin_web: self.origin_web.deep_view(),
        }
    }
}

/// Which network operation completed.
#[derive(Debug, Clone, Copy, PartialEq, Eq)]
pub enum RemoteOp {
    Fetch,
    Pull,
    Push,
}

/// The model of blame origins: old-side line number to the commit that last
/// changed it.
pub open spec fn origins_view(m: &HashMap<u32, CommitSummary>) -> Map<u32, CommitSummaryV> {
    m@.map_values(|c: CommitSummary| c.deep_view())
}

/// A worker-produced message.
#[derive(Debug)]
pub enum AppMessage {
    RepositoryOpened { generation: Generation, result: Result<RepositoryData, String> },
    StatusLoaded { generation: Generation, result: Result<StatusData, String> },
    DiffLoaded { generation: Generation, result: Result<DiffContent, String> },
    /// Blame origins for some old-side lines; `remaining` are still to do.
    BlameEnriched { generation: Generation, target: DiffTarget, origins: HashMap<u32, CommitSummary>, remaining: Vec<u32> },
    HistoryPageLoaded { generation: Generation, filter: HistoryFilter, offset: usize, result: Result<Vec<CommitSummary>, String> },
    BranchesLoaded { generation: Generation, result: Result<BranchesData, String> },
    BranchHealthEnriched { generation: Generation, result: Result<Vec<BranchHealthUpdate>, String> },
    DivergenceLoaded { generation: Generation, left: String, right: String, result: Result<DivergenceData, String> },
    WorktreesLoaded { generation: Generation, result: Result<Vec<WorktreeInfo>, String> },
    StageCompleted { generation: Generation, path: String, result: Result<(), String> },
    UnstageCompleted { generation: Generation, path: String, result: Result<(), String> },
    CommitCompleted { generation: Generation, result: Result<Oid, String> },
    CheckoutCompleted { generation: Generation, result: Result<HeadInfo, String> },
    BranchCreated { generation: Generation, result: Result<(), String> },
    BranchDeleted { generation: Generation, result: Result<(), String> },
    UpstreamSet { generation: Generation, result: Result<(), String> },
    WorktreeCreated { generation: Generation, result: Result<WorktreeInfo, String> },
    WorktreeRemoved { generation: Generation, result: Result<(), String> },
    StashesLoaded { generation: Generation, result: Result<Vec<StashEntry>, String> },
    StashDiffLoaded { generation: Generation, index: usize, result: Result<DiffContent, String> },
    StashSaved { generation: Generation, result: Result<(), String> },
    StashApplied { generation: Generation, result: Result<(), String> },
    StashPopped { generation: Generation, result: Result<(), String> },
    StashDropped { generation: Generation, result: Result<(), String> },
    /// A worker failed before it could answer its command.
    WorkerFault { generation: Generation, detail: String },
    CommitDetailLoaded { generation: Generation, oid: Oid, result: Result<CommitDetail, String> },
    CommitFileDiffLoaded { generation: Generation, oid: Oid, path: String, result: Result<DiffContent, String> },
    /// A network operation finished; a pull answers the refreshed HEAD.
    RemoteCompleted { generation: Generation, op: RemoteOp, result: Result<Option<HeadInfo>, String> },
}

pub enum AppMessageV {
    RepositoryOpened { generation: Generation, result: Result<RepositoryDataV, Seq<char>> },
    StatusLoaded { generation: Generation, result: Result<StatusDataV, Seq<char>> },
    DiffLoaded { generation: Generation, result: Result<DiffContentV, Seq<char>> },
    BlameEnriched { generation: Generation, target: DiffTargetV, origins: Map<u32, CommitSummaryV>, remaining: Seq<u32> },
    HistoryPageLoaded { generation: Generation, filter: HistoryFilterV, offset: usize, result: Result<Seq<CommitSummaryV>, Seq<char>> },
    BranchesLoaded { generation: Generation, result: Result<BranchesDataV, Seq<char>> },
    BranchHealthEnriched { generation: Generation, result: Result<Seq<BranchHealthUpdateV>, Seq<char>> },
    DivergenceLoaded { generation: Generation, left: Seq<char>, right: Seq<char>, result: Result<DivergenceDataV, Seq<char>> },
    WorktreesLoaded { generation: Generation, result: Result<Seq<WorktreeInfoV>, Seq<char>> },
    StageCompleted { generation: Generation, path: Seq<char>, result: Result<(), Seq<char>> },
    UnstageCompleted { generation: Generation, path: Seq<char>, result: Result<(), Seq<char>> },
    CommitCompleted { generation: Generation, result: Result<Seq<char>, Seq<char>> },
    CheckoutCompleted { generation: Generation, result: Result<HeadInfoV, Seq<char>> },
    BranchCreated { generation: Generation, result: Result<(), Seq<char>> },
    BranchDeleted { generation: Generation, result: Result<(), Seq<char>> },
    UpstreamSet { generation: Generation, result: Result<(), Seq<char>> },
    WorktreeCreated { generation: Generation, result: Result<WorktreeInfoV, Seq<char>> },
    WorktreeRemoved { generation: Generation, result: Result<(), Seq<char>> },
    StashesLoaded { generation: Generation, result: Result<Seq<StashEntryV>, Seq<char>> },
    StashDiffLoaded { generation: Generation, index: usize, result: Result<DiffContentV, Seq<char>> },
    StashSaved { generation: Generation, result: Result<(), Seq<char>> },
    StashApplied { generation: Generation, result: Result<(), Seq<char>> },
    StashPopped { generation: Generation, result: Result<(), Seq<char>> },
    StashDropped { generation: Generation, result: Result<(), Seq<char>> },
    WorkerFault { generation: Generation, detail: Seq<char> },
    CommitDetailLoaded { generation: Generation, oid: Seq<char>, result: Result<CommitDetailV, Seq<char>> },
    CommitFileDiffLoaded { generation: Generation, oid: Seq<char>, path: Seq<char>, result: Result<DiffContentV, Seq<char>> },
    RemoteCompleted { generation: Generation, op: RemoteOp, result: Result<Option<HeadInfoV>, Seq<char>> },
}

impl DeepView for AppMessage {
    type V = AppMessageV;

    open spec fn deep_view(&self) -> AppMessageV {
        match self {
            AppMessage::RepositoryOpened { generation, result } => AppMessageV::RepositoryOpened { generation: *generation, result: result_dv(*result) },
            AppMessage::StatusLoaded { generation, result } => AppMessageV::StatusLoaded { generation: *generation, result: result_dv(*result) },
            AppMessage::DiffLoaded { generation, result } => AppMessageV::DiffLoaded { generation: *generation, result: result_dv(*result) },
            AppMessage::BlameEnriched { generation, target, origins, remaining } => AppMessageV::BlameEnriched { generation: *generation, target: target.deep_view(), origins: origins_view(origins), remaining: remaining@ },
            AppMessage::HistoryPageLoaded { generation, filter, offset, result } => AppMessageV::HistoryPageLoaded { generation: *generation, filter: filter.deep_view(), offset: *offset, result: result_dv(*result) },
            AppMessage::BranchesLoaded { generation, result } => AppMessageV::BranchesLoaded { generation: *generation, result: result_dv(*result) },
            AppMessage::BranchHealthEnriched { generation, result } => AppMessageV::BranchHealthEnriched { generation: *generation, result: result_dv(*result) },
            AppMessage::DivergenceLoaded { generation, left, right, result } => AppMessageV::DivergenceLoaded { generation: *generation, left: left@, right: right@, result: result_dv(*result) },
            AppMessage::WorktreesLoaded { generation, result } => AppMessageV::WorktreesLoaded { generation: *generation, result: result_dv(*result) },
            AppMessage::StageCompleted { generation, path, result } => AppMessageV::StageCompleted { generation: *generation, path: path@, result: result_dv(*result) },
            AppMessage::UnstageCompleted { generation, path, result } => AppMessageV::UnstageCompleted { generation: *generation, path: path@, result: result_dv(*result) },
            AppMessage::CommitCompleted { generation, result } => AppMessageV::CommitCompleted { generation: *generation, result: result_dv(*result) },
            AppMessage::CheckoutCompleted { generation, result } => AppMessageV::CheckoutCompleted { generation: *generation, result: result_dv(*result) },
            AppMessage::BranchCreated { generation, result } => AppMessageV::BranchCreated { generation: *generation, result: result_dv(*result) },
            AppMessage::BranchDeleted { generation, result } => AppMessageV::BranchDeleted { generation: *generation, result: result_dv(*result) },
            AppMessage::UpstreamSet { generation, result } => AppMessageV::UpstreamSet { generation: *generation, result: result_dv(*result) },
            AppMessage::WorktreeCreated { generation, result } => AppMessageV::WorktreeCreated { generation: *generation, result: result_dv(*result) },
            AppMessage::WorktreeRemoved { generation, result } => AppMessageV::WorktreeRemoved { generation: *generation, result: result_dv(*result) },
            AppMessage::StashesLoaded { generation, result } => AppMessageV::StashesLoaded { generation: *generation, result: result_dv(*result) },
            AppMessage::StashDiffLoaded { generation, index, result } => AppMessageV::StashDiffLoaded { generation: *generation, index: *index, result: result_dv(*result) },
            AppMessage::StashSaved { generation, result } => AppMessageV::StashSaved { generation: *generation, result: result_dv(*result) },
            AppMessage::StashApplied { generation, result } => AppMessageV::StashApplied { generation: *generation, result: result_dv(*result) },
            AppMessage::StashPopped { generation, result } => AppMessageV::StashPopped { generation: *generation, result: result_dv(*result) },
            AppMessage::StashDropped { generation, result } => AppMessageV::StashDropped { generation: *generation, result: result_dv(*result) },
            AppMessage::WorkerFault { generation, detail } => AppMessageV::WorkerFault { generation: *generation, detail: detail@ },
            AppMessage::CommitDetailLoaded { generation, oid, result } => AppMessageV::CommitDetailLoaded { generation: *generation, oid: oid.deep_view(), result: result_dv(*result) },
            AppMessage::CommitFileDiffLoaded { generation, oid, path, result } => AppMessageV::CommitFileDiffLoaded { generation: *generation, oid: oid.deep_view(), path: path@, result: result_dv(*result) },
            AppMessage::RemoteCompleted { generation, op, result } => AppMessageV::RemoteCompleted { generation: *generation, op: *op, result: result_dv(*result) },
        }
    }
}

/// The generation of the command a message answers.
pub open spec fn message_generation(m: AppMessageV) -> Generation {
    match m {
        AppMessageV::RepositoryOpened { generation, .. } => generation,
        AppMessageV::StatusLoaded { generation, .. } => generation,
        AppMessageV::DiffLoaded { generation, .. } => generation,
        AppMessageV::BlameEnriched { generation, .. } => generation,
        AppMessageV::HistoryPageLoaded { generation, .. } => generation,
        AppMessageV::BranchesLoaded { generation, .. } => generation,
        AppMessageV::BranchHealthEnriched { generation, .. } => generation,
        AppMessageV::DivergenceLoaded { generation, .. } => generation,
        AppMessageV::WorktreesLoaded { generation, .. } => generation,
        AppMessageV::StageCompleted { generation, .. } => generation,
        AppMessageV::UnstageCompleted { generation, .. } => generation,
        AppMessageV::CommitCompleted { generation, .. } => generation,
        AppMessageV::CheckoutCompleted { generation, .. } => generation,
        AppMessageV::BranchCreated { generation, .. } => generation,
        AppMessageV::BranchDeleted { generation, .. } => generation,
        AppMessageV::UpstreamSet { generation, .. } => generation,
        AppMessageV::WorktreeCreated { generation, .. } => generation,
        AppMessageV::WorktreeRemoved { generation, .. } => generation,
        AppMessageV::StashesLoaded { generation, .. } => generation,
        AppMessageV::StashDiffLoaded { generation, .. } => generation,
        AppMessageV::StashSaved { generation, .. } => generation,
        AppMessageV::StashApplied { generation, .. } => generation,
        AppMessageV::StashPopped { generation, .. } => generation,
        AppMessageV::StashDropped { generation, .. } => generation,
        AppMessageV::WorkerFault { generation, .. } => generation,
        AppMessageV::CommitDetailLoaded { generation, .. } => generation,
        AppMessageV::CommitFileDiffLoaded { generation, .. } => generation,
        AppMessageV::RemoteCompleted { generation, .. } => generation,
    }
}

impl AppMessage {
    /// The generation of the command that produced this message.
    pub fn generation(&self) -> (r: Generation)
        ensures
            r == message_generation(self.deep_view()),
    {
        match self {
            AppMessage::RepositoryOpened { generation, .. } => *generation,
            AppMessage::StatusLoaded { generation, .. } => *generation,
            AppMessage::DiffLoaded { generation, .. } => *generation,
            AppMessage::BlameEnriched { generation, .. } => *generation,
            AppMessage::HistoryPageLoaded { generation, .. } => *generation,
            AppMessage::BranchesLoaded { generation, .. } => *generation,
            AppMessage::BranchHealthEnriched { generation, .. } => *generation,
            AppMessage::DivergenceLoaded { generation, .. } => *generation,
            AppMessage::WorktreesLoaded { generation, .. } => *generation,
            AppMessage::StageCompleted { generation, .. } => *generation,
            AppMessage::UnstageCompleted { generation, .. } => *generation,
            AppMessage::CommitCompleted { generation, .. } => *generation,
            AppMessage::CheckoutCompleted { generation, .. } => *generation,
            AppMessage::BranchCreated { generation, .. } => *generation,
            AppMessage::BranchDeleted { generation, .. } => *generation,
            AppMessage::UpstreamSet { generation, .. } => *generation,
            AppMessage::WorktreeCreated { generation, .. } => *generation,
            AppMessage::WorktreeRemoved { generation, .. } => *generation,
            AppMessage::StashesLoaded { generation, .. } => *generation,
            AppMessage::StashDiffLoaded { generation, .. } => *generation,
            AppMessage::StashSaved { generation, .. } => *generation,
            AppMessage::StashApplied { generation, .. } => *generation,
            AppMessage::StashPopped { generation, .. } => *generation,
            AppMessage::StashDropped { generation, .. } => *generation,
            AppMessage::WorkerFault { generation, .. } => *generation,
            AppMessage::CommitDetailLoaded { generation, .. } => *generation,
            AppMessage::CommitFileDiffLoaded { generation, .. } => *generation,
            AppMessage::RemoteCompleted { generation, .. } => *generation,
        }
    }
}

} // verus!
