//! Top-level application state and sub-states.
//!
//! Git-derived data is kept separate from UI state. Each state type has a
//! model (`deep_view`) over which the reducer's contracts are written.
use vstd::prelude::*;

use super::model::{
    BranchInfo, BranchInfoV, CommitSummary, CommitSummaryV, DiffContent, DiffContentV,
    DiffTarget, DiffTargetV, DiffView, FileChange, FileChangeV, Generation, HeadInfo, HeadInfoV,
    Loadable, LoadableV, Oid, Pane, View, WorktreeInfo, WorktreeInfoV,
};
use crate::dup::Dup;
use crate::git::commit_detail::{CommitDetail, CommitDetailV};
use crate::git::remote_link::{RemoteWeb, RemoteWebV};
use crate::git::service::{StashEntry, StashEntryV};
#[allow(unused_imports)]
use vstd::view::View as _;

verus! {

/// Lifecycle of the currently opened repository.
#[derive(Debug, Clone, PartialEq, Eq, Default)]
pub enum RepositoryStatus {
    #[default]
    NotOpened,
    Opening,
    Ready,
    Error(String),
}

pub enum RepositoryStatusV {
    NotOpened,
    Opening,
    Ready,
    Error(Seq<char>),
}

impl DeepView for RepositoryStatus {
    type V = RepositoryStatusV;

    open spec fn deep_view(&self) -> RepositoryStatusV {
        match self {
            RepositoryStatus::NotOpened => RepositoryStatusV::NotOpened,
            RepositoryStatus::Opening => RepositoryStatusV::Opening,
            RepositoryStatus::Ready => RepositoryStatusV::Ready,
            RepositoryStatus::Error(e) => RepositoryStatusV::Error(e@),
        }
    }
}

/// Repository identity and open lifecycle.
#[derive(Debug, Clone, PartialEq, Eq, Default)]
pub struct RepositoryState {
    pub path: Option<String>,
    pub status: RepositoryStatus,
    pub head: HeadInfo,
    pub recent: Vec<String>,
    /// Web links for the `origin` remote, when it is a known host shape.
    pub origin_web: Option<RemoteWeb>,
}

pub struct RepositoryStateV {
    pub path: Option<Seq<char>>,
    pub status: RepositoryStatusV,
    pub head: HeadInfoV,
    pub recent: Seq<Seq<char>>,
    pub origin_web: Option<RemoteWebV>,
}

impl DeepView for RepositoryState {
    type V = RepositoryStateV;

    open spec fn deep_view(&self) -> RepositoryStateV {
        RepositoryStateV {
            path: self.path.deep_view(),
            status: self.status.deep_view(),
            head: self.head.deep_view(),
            recent: self.recent.deep_view(),
            origin_web: self.origin_web.deep_view(),
        }
    }
}

/// Working-tree status split by area.
#[derive(Debug, Clone, PartialEq, Eq, Default)]
pub struct ChangesState {
    pub staged: Vec<FileChange>,
    pub unstaged: Vec<FileChange>,
    pub untracked: Vec<FileChange>,
    pub conflicted: Vec<FileChange>,
    pub loaded: bool,
}

pub struct ChangesStateV {
    pub staged: Seq<FileChangeV>,
    pub unstaged: Seq<FileChangeV>,
    pub untracked: Seq<FileChangeV>,
    pub conflicted: Seq<FileChangeV>,
    pub loaded: bool,
}

impl DeepView for ChangesState {
    type V = ChangesStateV;

    open spec fn deep_view(&self) -> ChangesStateV {
        ChangesStateV {
            staged: self.staged.deep_view(),
            unstaged: self.unstaged.deep_view(),
            untracked: self.untracked.deep_view(),
            conflicted: self.conflicted.deep_view(),
            loaded: self.loaded,
        }
    }
}

/// The diff currently shown in the content pane.
#[derive(Debug, Clone, PartialEq, Eq, Default)]
pub struct DiffState {
    pub target: Option<DiffTarget>,
    pub view: DiffView,
    pub content: Loadable<DiffContent>,
    /// Selected body-line indices for line-level staging (sorted).
    pub selected_lines: Vec<usize>,
    /// Hunk focused by `[` / `]`.
    pub focused_hunk: usize,
    /// Blame Heatmap gutter toggle.
    pub heatmap_enabled: bool,
}

pub struct DiffStateV {
    pub target: Option<DiffTargetV>,
    pub view: DiffView,
    pub content: LoadableV<DiffContentV>,
    pub selected_lines: Seq<usize>,
    pub focused_hunk: usize,
    pub heatmap_enabled: bool,
}

impl DeepView for DiffState {
    type V = DiffStateV;

    open spec fn deep_view(&self) -> DiffStateV {
        DiffStateV {
            target: self.target.deep_view(),
            view: self.view,
            content: self.content.deep_view(),
            selected_lines: self.selected_lines@,
            focused_hunk: self.focused_hunk,
            heatmap_enabled: self.heatmap_enabled,
        }
    }
}

/// Which commits the history list shows.
#[derive(Debug, Clone, PartialEq, Eq, Default)]
pub enum HistoryFilter {
    #[default]
    All,
    File { path: String },
    Line { path: String, line: u32 },
}

pub enum HistoryFilterV {
    All,
    File { path: Seq<char> },
    Line { path: Seq<char>, line: u32 },
}

impl DeepView for HistoryFilter {
    type V = HistoryFilterV;

    open spec fn deep_view(&self) -> HistoryFilterV {
        match self {
            HistoryFilter::All => HistoryFilterV::All,
            HistoryFilter::File { path } => HistoryFilterV::File { path: path@ },
            HistoryFilter::Line { path, line } => HistoryFilterV::Line { path: path@, line: *line },
        }
    }
}

impl Dup for HistoryFilter {
    fn dup(&self) -> (r: HistoryFilter) {
        match self {
            HistoryFilter::All => HistoryFilter::All,
            HistoryFilter::File { path } => HistoryFilter::File { path: path.clone() },
            HistoryFilter::Line { path, line } => HistoryFilter::Line {
                path: path.clone(),
                line: *line,
            },
        }
    }
}

/// Commit history with lazy paging.
#[derive(Debug, Clone, PartialEq, Eq, Default)]
pub struct HistoryState {
    pub commits: Vec<CommitSummary>,
    pub has_more: bool,
    pub loading: bool,
    pub filter: HistoryFilter,
}

pub struct HistoryStateV {
    pub commits: Seq<CommitSummaryV>,
    pub has_more: bool,
    pub loading: bool,
    pub filter: HistoryFilterV,
}

impl DeepView for HistoryState {
    type V = HistoryStateV;

    open spec fn deep_view(&self) -> HistoryStateV {
        HistoryStateV {
            commits: self.commits.deep_view(),
            has_more: self.has_more,
            loading: self.loading,
            filter: self.filter.deep_view(),
        }
    }
}

/// Branch list and current branch.
#[derive(Debug, Clone, PartialEq, Eq, Default)]
pub struct BranchState {
    pub branches: Vec<BranchInfo>,
    pub current: Option<String>,
    pub loaded: bool,
    /// Quick filter typed into the branch list.
    pub filter: String,
    /// Recently checked-out branch names (most recent first).
    pub recent: Vec<String>,
    /// Local branches already merged into the base branch.
    pub merged_into_base: Vec<String>,
}

pub struct BranchStateV {
    pub branches: Seq<BranchInfoV>,
    pub current: Option<Seq<char>>,
    pub loaded: bool,
    pub filter: Seq<char>,
    pub recent: Seq<Seq<char>>,
    pub merged_into_base: Seq<Seq<char>>,
}

impl DeepView for BranchState {
    type V = BranchStateV;

    open spec fn deep_view(&self) -> BranchStateV {
        BranchStateV {
            branches: self.branches.deep_view(),
            current: self.current.deep_view(),
            loaded: self.loaded,
            filter: self.filter@,
            recent: self.recent.deep_view(),
            merged_into_base: self.merged_into_base.deep_view(),
        }
    }
}

/// Worktree list.
#[derive(Debug, Clone, PartialEq, Eq, Default)]
pub struct WorktreeState {
    pub worktrees: Vec<WorktreeInfo>,
    pub loaded: bool,
}

pub struct WorktreeStateV {
    pub worktrees: Seq<WorktreeInfoV>,
    pub loaded: bool,
}

impl DeepView for WorktreeState {
    type V = WorktreeStateV;

    open spec fn deep_view(&self) -> WorktreeStateV {
        WorktreeStateV { worktrees: self.worktrees.deep_view(), loaded: self.loaded }
    }
}

/// Stash list, selection and the selected stash's diff.
#[derive(Debug, Clone, PartialEq, Eq, Default)]
pub struct StashState {
    pub entries: Vec<StashEntry>,
    pub loaded: bool,
    pub selected: Option<usize>,
    pub diff: Loadable<DiffContent>,
}

pub struct StashStateV {
    pub entries: Seq<StashEntryV>,
    pub loaded: bool,
    pub selected: Option<usize>,
    pub diff: LoadableV<DiffContentV>,
}

impl DeepView for StashState {
    type V = StashStateV;

    open spec fn deep_view(&self) -> StashStateV {
        StashStateV {
            entries: self.entries.deep_view(),
            loaded: self.loaded,
            selected: self.selected,
            diff: self.diff.deep_view(),
        }
    }
}

/// Divergence panel comparing two tips.
#[derive(Debug, Clone, PartialEq, Eq, Default)]
pub struct DivergenceState {
    pub left: Option<String>,
    pub right: Option<String>,
    pub loading: bool,
    pub left_only: Vec<CommitSummary>,
    pub right_only: Vec<CommitSummary>,
    pub merge_base: Option<Oid>,
}

pub struct DivergenceStateV {
    pub left: Option<Seq<char>>,
    pub right: Option<Seq<char>>,
    pub loading: bool,
    pub left_only: Seq<CommitSummaryV>,
    pub right_only: Seq<CommitSummaryV>,
    pub merge_base: Option<Seq<char>>,
}

impl DeepView for DivergenceState {
    type V = DivergenceStateV;

    open spec fn deep_view(&self) -> DivergenceStateV {
        DivergenceStateV {
            left: self.left.deep_view(),
            right: self.right.deep_view(),
            loading: self.loading,
            left_only: self.left_only.deep_view(),
            right_only: self.right_only.deep_view(),
            merge_base: self.merge_base.deep_view(),
        }
    }
}

/// Context panel: the selected commit's detail and one of its file diffs.
#[derive(Debug, Clone, PartialEq, Eq, Default)]
pub struct ContextState {
    pub commit: Loadable<CommitDetail>,
    pub selected_file: Option<String>,
    pub file_diff: Loadable<DiffContent>,
}

pub struct ContextStateV {
    pub commit: LoadableV<CommitDetailV>,
    pub selected_file: Option<Seq<char>>,
    pub file_diff: LoadableV<DiffContentV>,
}

impl DeepView for ContextState {
    type V = ContextStateV;

    open spec fn deep_view(&self) -> ContextStateV {
        ContextStateV {
            commit: self.commit.deep_view(),
            selected_file: self.selected_file.deep_view(),
            file_diff: self.file_diff.deep_view(),
        }
    }
}

/// The user's current selection across panes.
#[derive(Debug, Clone, PartialEq, Eq, Default)]
pub struct SelectionState {
    pub file: Option<String>,
    pub commit: Option<Oid>,
    pub branch: Option<String>,
    pub focused_pane: Pane,
}

pub struct SelectionStateV {
    pub file: Option<Seq<char>>,
    pub commit: Option<Seq<char>>,
    pub branch: Option<Seq<char>>,
    pub focused_pane: Pane,
}

impl DeepView for SelectionState {
    type V = SelectionStateV;

    open spec fn deep_view(&self) -> SelectionStateV {
        SelectionStateV {
            file: self.file.deep_view(),
            commit: self.commit.deep_view(),
            branch: self.branch.deep_view(),
            focused_pane: self.focused_pane,
        }
    }
}

/// Navigation / routing within the single window.
#[derive(Debug, Clone, PartialEq, Eq)]
pub struct NavigationState {
    pub active_view: View,
    pub context_panel_open: bool,
    pub back_stack: Vec<View>,
    /// Previously visited commits (browser-like Back).
    pub commit_back: Vec<Oid>,
    /// Commits stepped back from (browser-like Forward).
    pub commit_forward: Vec<Oid>,
}

pub struct NavigationStateV {
    pub active_view: View,
    pub context_panel_open: bool,
    pub back_stack: Seq<View>,
    pub commit_back: Seq<Seq<char>>,
    pub commit_forward: Seq<Seq<char>>,
}

impl DeepView for NavigationState {
    type V = NavigationStateV;

    open spec fn deep_view(&self) -> NavigationStateV {
        NavigationStateV {
            active_view: self.active_view,
            context_panel_open: self.context_panel_open,
            back_stack: self.back_stack@,
            commit_back: self.commit_back.deep_view(),
            commit_forward: self.commit_forward.deep_view(),
        }
    }
}

/// Progress reflection for background work.
#[derive(Debug, Clone, PartialEq, Eq, Default)]
pub struct BackgroundTaskState {
    /// Number of dispatched commands that have not yet reported completion.
    pub inflight: u32,
    pub last_error: Option<String>,
    /// Label of the running remote operation (`fetching…`), if any.
    pub remote_label: Option<String>,
}

pub struct BackgroundTaskStateV {
    pub inflight: u32,
    pub last_error: Option<Seq<char>>,
    pub remote_label: Option<Seq<char>>,
}

impl DeepView for BackgroundTaskState {
    type V = BackgroundTaskStateV;

    open spec fn deep_view(&self) -> BackgroundTaskStateV {
        BackgroundTaskStateV {
            inflight: self.inflight,
            last_error: self.last_error.deep_view(),
            remote_label: self.remote_label.deep_view(),
        }
    }
}

/// Modal overlay: Command Palette or Quick Open.
#[derive(Debug, Clone, PartialEq, Eq, Default)]
pub enum Overlay {
    #[default]
    Closed,
    CommandPalette { query: String, selected: usize },
    QuickOpen { query: String, selected: usize },
}

pub enum OverlayV {
    Closed,
    CommandPalette { query: Seq<char>, selected: usize },
    QuickOpen { query: Seq<char>, selected: usize },
}

impl DeepView for Overlay {
    type V = OverlayV;

    open spec fn deep_view(&self) -> OverlayV {
        match self {
            Overlay::Closed => OverlayV::Closed,
            Overlay::CommandPalette { query, selected } => OverlayV::CommandPalette {
                query: query@,
                selected: *selected,
            },
            Overlay::QuickOpen { query, selected } => OverlayV::QuickOpen {
                query: query@,
                selected: *selected,
            },
        }
    }
}

impl Dup for Overlay {
    fn dup(&self) -> (r: Overlay) {
        match self {
            Overlay::Closed => Overlay::Closed,
            Overlay::CommandPalette { query, selected } => Overlay::CommandPalette {
                query: query.clone(),
                selected: *selected,
            },
            Overlay::QuickOpen { query, selected } => Overlay::QuickOpen {
                query: query.clone(),
                selected: *selected,
            },
        }
    }
}

/// Branch cleanup dialog: the branches ticked for deletion.
#[derive(Debug, Clone, PartialEq, Eq, Default)]
pub struct BranchCleanupState {
    pub selected: Vec<String>,
}

pub struct BranchCleanupStateV {
    pub selected: Seq<Seq<char>>,
}

impl DeepView for BranchCleanupState {
    type V = BranchCleanupStateV;

    open spec fn deep_view(&self) -> BranchCleanupStateV {
        BranchCleanupStateV { selected: self.selected.deep_view() }
    }
}

/// Presentational / editable UI state not derived from Git.
#[derive(Debug, Clone, PartialEq, Eq, Default)]
pub struct UiState {
    /// The in-progress commit message. Preserved across failed commits.
    pub commit_message: String,
    pub error_banner: Option<String>,
    pub search_query: String,
    pub searching: bool,
    /// Bumped to ask the view to focus the commit input.
    pub commit_focus_token: u64,
    pub new_branch_name: String,
    pub confirm_delete_branch: Option<String>,
    pub branch_cleanup: Option<BranchCleanupState>,
    pub open_after_instant_worktree: bool,
    pub confirm_remove_worktree: Option<String>,
    pub confirm_drop_stash: Option<usize>,
    pub overlay: Overlay,
    pub copy_feedback: Option<String>,
    /// A created worktree to open next (Instant Worktree).
    pub pending_open_worktree: Option<String>,
    /// Auto-fetch period in seconds (0 disables auto-fetch).
    pub auto_fetch_secs: u64,
}

pub struct UiStateV {
    pub commit_message: Seq<char>,
    pub error_banner: Option<Seq<char>>,
    pub search_query: Seq<char>,
    pub searching: bool,
    pub commit_focus_token: u64,
    pub new_branch_name: Seq<char>,
    pub confirm_delete_branch: Option<Seq<char>>,
    pub branch_cleanup: Option<BranchCleanupStateV>,
    pub open_after_instant_worktree: bool,
    pub confirm_remove_worktree: Option<Seq<char>>,
    pub confirm_drop_stash: Option<usize>,
    pub overlay: OverlayV,
    pub copy_feedback: Option<Seq<char>>,
    pub pending_open_worktree: Option<Seq<char>>,
    pub auto_fetch_secs: u64,
}

impl DeepView for UiState {
    type V = UiStateV;

    open spec fn deep_view(&self) -> UiStateV {
        UiStateV {
            commit_message: self.commit_message@,
            error_banner: self.error_banner.deep_view(),
            search_query: self.search_query@,
            searching: self.searching,
            commit_focus_token: self.commit_focus_token,
            new_branch_name: self.new_branch_name@,
            confirm_delete_branch: self.confirm_delete_branch.deep_view(),
            branch_cleanup: self.branch_cleanup.deep_view(),
            open_after_instant_worktree: self.open_after_instant_worktree,
            confirm_remove_worktree: self.confirm_remove_worktree.deep_view(),
            confirm_drop_stash: self.confirm_drop_stash,
            overlay: self.overlay.deep_view(),
            copy_feedback: self.copy_feedback.deep_view(),
            pending_open_worktree: self.pending_open_worktree.deep_view(),
            auto_fetch_secs: self.auto_fetch_secs,
        }
    }
}

/// The whole application state.
#[derive(Debug, Clone, PartialEq, Eq)]
pub struct AppState {
    /// Current generation; bumped on repository-context changes.
    pub generation: Generation,
    pub repository: RepositoryState,
    pub changes: ChangesState,
    pub diff: DiffState,
    pub history: HistoryState,
    pub branch: BranchState,
    pub worktree: WorktreeState,
    pub stash: StashState,
    pub divergence: DivergenceState,
    pub context: ContextState,
    pub selection: SelectionState,
    pub navigation: NavigationState,
    pub background: BackgroundTaskState,
    pub ui: UiState,
}

pub struct AppStateV {
    pub generation: Generation,
    pub repository: RepositoryStateV,
    pub changes: ChangesStateV,
    pub diff: DiffStateV,
    pub history: HistoryStateV,
    pub branch: BranchStateV,
    pub worktree: WorktreeStateV,
    pub stash: StashStateV,
    pub divergence: DivergenceStateV,
    pub context: ContextStateV,
    pub selection: SelectionStateV,
    pub navigation: NavigationStateV,
    pub background: BackgroundTaskStateV,
    pub ui: UiStateV,
}

impl DeepView for AppState {
    type V = AppStateV;

    open spec fn deep_view(&self) -> AppStateV {
        AppStateV {
            generation: self.generation,
            repository: self.repository.deep_view(),
            changes: self.changes.deep_view(),
            diff: self.diff.deep_view(),
            history: self.history.deep_view(),
            branch: self.branch.deep_view(),
            worktree: self.worktree.deep_view(),
            stash: self.stash.deep_view(),
            divergence: self.divergence.deep_view(),
            context: self.context.deep_view(),
            selection: self.selection.deep_view(),
            navigation: self.navigation.deep_view(),
            background: self.background.deep_view(),
            ui: self.ui.deep_view(),
        }
    }
}

// ---------------------------------------------------------------------------
// Fresh states
// ---------------------------------------------------------------------------
pub open spec fn empty_diff_state() -> DiffStateV {
    DiffStateV {
        target: None,
        view: DiffView::Unified,
        content: LoadableV::Idle,
        selected_lines: seq![],
        focused_hunk: 0,
        heatmap_enabled: false,
    }
}

pub open spec fn empty_divergence_state() -> DivergenceStateV {
    DivergenceStateV {
        left: None,
        right: None,
        loading: false,
        left_only: seq![],
        right_only: seq![],
        merge_base: None,
    }
}

/// The state of a freshly started application.
pub open spec fn initial_state() -> AppStateV {
    AppStateV {
        generation: Generation(0),
        repository: RepositoryStateV {
            path: None,
            status: RepositoryStatusV::NotOpened,
            head: HeadInfoV { branch: None, oid: None, detached: false },
            recent: seq![],
            origin_web: None,
        },
        changes: ChangesStateV {
            staged: seq![],
            unstaged: seq![],
            untracked: seq![],
            conflicted: seq![],
            loaded: false,
        },
        diff: empty_diff_state(),
        history: HistoryStateV {
            commits: seq![],
            has_more: false,
            loading: false,
            filter: HistoryFilterV::All,
        },
        branch: BranchStateV {
            branches: seq![],
            current: None,
            loaded: false,
            filter: seq![],
            recent: seq![],
            merged_into_base: seq![],
        },
        worktree: WorktreeStateV { worktrees: seq![], loaded: false },
        stash: StashStateV { entries: seq![], loaded: false, selected: None, diff: LoadableV::Idle },
        divergence: empty_divergence_state(),
        context: ContextStateV {
            commit: LoadableV::Idle,
            selected_file: None,
            file_diff: LoadableV::Idle,
        },
        selection: SelectionStateV {
            file: None,
            commit: None,
            branch: None,
            focused_pane: Pane::Navigation,
        },
        navigation: NavigationStateV {
            active_view: View::Changes,
            context_panel_open: true,
            back_stack: seq![],
            commit_back: seq![],
            commit_forward: seq![],
        },
        background: BackgroundTaskStateV { inflight: 0, last_error: None, remote_label: None },
        ui: UiStateV {
            commit_message: seq![],
            error_banner: None,
            search_query: seq![],
            searching: false,
            commit_focus_token: 0,
            new_branch_name: seq![],
            confirm_delete_branch: None,
            branch_cleanup: None,
            open_after_instant_worktree: false,
            confirm_remove_worktree: None,
            confirm_drop_stash: None,
            overlay: OverlayV::Closed,
            copy_feedback: None,
            pending_open_worktree: None,
            auto_fetch_secs: 0,
        },
    }
}

impl DiffState {
    /// No diff selected.
    pub fn new() -> (r: DiffState)
        ensures
            r.deep_view() == empty_diff_state(),
    {
        let r = DiffState {
            target: None,
            view: DiffView::Unified,
            content: Loadable::Idle,
            selected_lines: Vec::new(),
            focused_hunk: 0,
            heatmap_enabled: false,
        };
        assert(r.deep_view().selected_lines =~= seq![]);
        r
    }
}

impl DivergenceState {
    /// No divergence shown.
    pub fn new() -> (r: DivergenceState)
        ensures
            r.deep_view() == empty_divergence_state(),
    {
        let r = DivergenceState {
            left: None,
            right: None,
            loading: false,
            left_only: Vec::new(),
            right_only: Vec::new(),
            merge_base: None,
        };
        assert(r.deep_view().left_only =~= seq![]);
        assert(r.deep_view().right_only =~= seq![]);
        r
    }
}

impl AppState {
    /// Creates a fresh, empty state.
    pub fn new() -> (r: AppState)
        ensures
            r.deep_view() == initial_state(),
    {
        let r = AppState {
            generation: Generation(0),
            repository: RepositoryState {
                path: None,
                status: RepositoryStatus::NotOpened,
                head: HeadInfo { branch: None, oid: None, detached: false },
                recent: Vec::new(),
                origin_web: None,
            },
            changes: ChangesState {
                staged: Vec::new(),
                unstaged: Vec::new(),
                untracked: Vec::new(),
                conflicted: Vec::new(),
                loaded: false,
            },
            diff: DiffState::new(),
            history: HistoryState {
                commits: Vec::new(),
                has_more: false,
                loading: false,
                filter: HistoryFilter::All,
            },
            branch: BranchState {
                branches: Vec::new(),
                current: None,
                loaded: false,
                filter: String::new(),
                recent: Vec::new(),
                merged_into_base: Vec::new(),
            },
            worktree: WorktreeState { worktrees: Vec::new(), loaded: false },
            stash: StashState {
                entries: Vec::new(),
                loaded: false,
                selected: None,
                diff: Loadable::Idle,
            },
            divergence: DivergenceState::new(),
            context: ContextState {
                commit: Loadable::Idle,
                selected_file: None,
                file_diff: Loadable::Idle,
            },
            selection: SelectionState {
                file: None,
                commit: None,
                branch: None,
                focused_pane: Pane::Navigation,
            },
            navigation: NavigationState {
                active_view: View::Changes,
                context_panel_open: true,
                back_stack: Vec::new(),
                commit_back: Vec::new(),
                commit_forward: Vec::new(),
            },
            background: BackgroundTaskState { inflight: 0, last_error: None, remote_label: None },
            ui: UiState {
                commit_message: String::new(),
                error_banner: None,
                search_query: String::new(),
                searching: false,
                commit_focus_token: 0,
                new_branch_name: String::new(),
                confirm_delete_branch: None,
                branch_cleanup: None,
                open_after_instant_worktree: false,
                confirm_remove_worktree: None,
                confirm_drop_stash: None,
                overlay: Overlay::Closed,
                copy_feedback: None,
                pending_open_worktree: None,
                auto_fetch_secs: 0,
            },
        };
        assert(r.deep_view().repository.recent =~= seq![]);
        assert(r.deep_view().changes.staged =~= seq![]);
        assert(r.deep_view().changes.unstaged =~= seq![]);
        assert(r.deep_view().changes.untracked =~= seq![]);
        assert(r.deep_view().changes.conflicted =~= seq![]);
        assert(r.deep_view().history.commits =~= seq![]);
        assert(r.deep_view().branch.branches =~= seq![]);
        assert(r.deep_view().branch.recent =~= seq![]);
        assert(r.deep_view().branch.merged_into_base =~= seq![]);
        assert(r.deep_view().worktree.worktrees =~= seq![]);
        assert(r.deep_view().stash.entries =~= seq![]);
        assert(r.deep_view().navigation.back_stack =~= seq![]);
        assert(r.deep_view().navigation.commit_back =~= seq![]);
        assert(r.deep_view().navigation.commit_forward =~= seq![]);
        r
    }

    /// Returns true once a repository is open and ready.
    pub fn is_ready(&self) -> (r: bool)
        ensures
            r == (self.repository.status is Ready),
    {
        match self.repository.status {
            RepositoryStatus::Ready => true,
            _ => false,
        }
    }
}

} // verus!
