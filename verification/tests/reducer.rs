use gitbolt::app::command::Command;
use gitbolt::app::event::UiEvent;
use gitbolt::app::message::{AppMessage, RepositoryData};
use gitbolt::app::model::{
    ChangeKind, CommitSummary, DiffContent, DiffHunk, DiffTarget, FileChange, Generation, HeadInfo,
    Loadable, Oid, View,
};
use gitbolt::app::reducer::{apply, reduce};
use gitbolt::app::state::{AppState, HistoryFilter, Overlay, RepositoryStatus};
use gitbolt::app::transition::HISTORY_PAGE;

fn staged_state() -> AppState {
    let mut state = AppState::new();
    state.changes.unstaged = vec![FileChange::new("a.rs".to_string(), ChangeKind::Modified)];
    state.changes.untracked = vec![FileChange::new("b.rs".to_string(), ChangeKind::Untracked)];
    state
}

fn summary(oid: &str) -> CommitSummary {
    CommitSummary {
        oid: Oid(oid.to_string()),
        summary: String::new(),
        author: String::new(),
        timestamp: 0,
    }
}

#[test]
fn open_repository_bumps_generation_and_dispatches() {
    let mut state = AppState::new();
    let cmds = reduce(&mut state, UiEvent::OpenRepository("/repo".to_string()));
    assert_eq!(state.generation, Generation(1));
    assert_eq!(state.repository.status, RepositoryStatus::Opening);
    assert_eq!(state.repository.recent, vec!["/repo".to_string()]);
    assert_eq!(state.background.inflight, 1);
    assert!(matches!(cmds.as_slice(), [Command::OpenRepository { .. }]));
}

#[test]
fn repository_opened_fresh_triggers_loads_but_stale_is_dropped() {
    let mut state = AppState::new();
    reduce(&mut state, UiEvent::OpenRepository("/repo".to_string()));
    let gen = state.generation;

    let dropped = apply(
        &mut state,
        AppMessage::RepositoryOpened {
            generation: Generation(0),
            result: Ok(RepositoryData { head: HeadInfo::default() }),
        },
    );
    assert!(dropped.is_empty());
    assert_ne!(state.repository.status, RepositoryStatus::Ready);

    let cmds = apply(
        &mut state,
        AppMessage::RepositoryOpened {
            generation: gen,
            result: Ok(RepositoryData {
                head: HeadInfo { branch: Some("main".to_string()), oid: None, detached: false },
            }),
        },
    );
    assert!(state.is_ready());
    assert_eq!(state.repository.head.branch.as_deref(), Some("main"));
    assert_eq!(cmds.len(), 4);
}

#[test]
fn select_file_requests_diff_and_only_matching_diff_is_applied() {
    let mut state = AppState::new();
    reduce(&mut state, UiEvent::SelectFile { path: "a.rs".to_string(), staged: false });
    assert!(state.diff.content.is_loading());
    let gen = state.generation;

    let other = DiffContent {
        target: DiffTarget { path: "other.rs".to_string(), staged: false },
        hunks: vec![],
        notice: None,
    };
    apply(&mut state, AppMessage::DiffLoaded { generation: gen, result: Ok(other) });
    assert!(state.diff.content.is_loading());

    let content = DiffContent {
        target: DiffTarget { path: "a.rs".to_string(), staged: false },
        hunks: vec![DiffHunk { header: "@@".to_string(), lines: vec![] }],
        notice: None,
    };
    apply(&mut state, AppMessage::DiffLoaded { generation: gen, result: Ok(content) });
    assert!(state.diff.content.ready().is_some());
}

#[test]
fn optimistic_stage_moves_file_and_error_rolls_back_via_reload() {
    let mut state = staged_state();
    reduce(&mut state, UiEvent::StageFile("a.rs".to_string()));
    assert_eq!(state.changes.staged.len(), 1);
    assert_eq!(state.changes.unstaged.len(), 0);
    let gen = state.generation;

    let cmds = apply(
        &mut state,
        AppMessage::StageCompleted {
            generation: gen,
            path: "a.rs".to_string(),
            result: Err("boom".to_string()),
        },
    );
    assert!(state.ui.error_banner.is_some());
    assert!(matches!(cmds.as_slice(), [Command::LoadStatus { .. }]));
}

#[test]
fn stage_all_moves_everything() {
    let mut state = staged_state();
    reduce(&mut state, UiEvent::StageAll);
    assert_eq!(state.changes.staged.len(), 2);
    assert_eq!(state.changes.unstaged.len(), 0);
    assert_eq!(state.changes.untracked.len(), 0);
}

#[test]
fn commit_validation_requires_message_and_staged_changes() {
    let mut state = AppState::new();
    let cmds = reduce(&mut state, UiEvent::Commit);
    assert!(cmds.is_empty());
    assert!(state.ui.error_banner.is_some());

    reduce(&mut state, UiEvent::SetCommitMessage("feat: x".to_string()));
    let cmds = reduce(&mut state, UiEvent::Commit);
    assert!(cmds.is_empty());

    state.changes.staged = vec![FileChange::new("a.rs".to_string(), ChangeKind::Modified)];
    let cmds = reduce(&mut state, UiEvent::Commit);
    assert!(matches!(cmds.as_slice(), [Command::Commit { .. }]));
    assert_eq!(state.ui.commit_message, "feat: x");
}

#[test]
fn commit_failure_preserves_message_success_clears_and_bumps() {
    let mut state = AppState::new();
    state.ui.commit_message = "feat: x".to_string();
    let gen = state.generation;

    apply(&mut state, AppMessage::CommitCompleted { generation: gen, result: Err("locked".to_string()) });
    assert_eq!(state.ui.commit_message, "feat: x");

    let cmds = apply(
        &mut state,
        AppMessage::CommitCompleted { generation: gen, result: Ok(Oid("abc".to_string())) },
    );
    assert_eq!(state.ui.commit_message, "");
    assert_eq!(state.generation, gen.next());
    assert_eq!(cmds.len(), 3);
}

#[test]
fn checkout_completion_bumps_generation_and_invalidates_diff() {
    let mut state = AppState::new();
    state.diff.content = Loadable::Ready(DiffContent {
        target: DiffTarget { path: "a.rs".to_string(), staged: false },
        hunks: vec![],
        notice: None,
    });
    let gen = state.generation;
    let cmds = apply(
        &mut state,
        AppMessage::CheckoutCompleted {
            generation: gen,
            result: Ok(HeadInfo { branch: Some("dev".to_string()), oid: None, detached: false }),
        },
    );
    assert_eq!(state.generation, gen.next());
    assert_eq!(state.diff.content, Loadable::Idle);
    assert_eq!(state.repository.head.branch.as_deref(), Some("dev"));
    assert_eq!(cmds.len(), 3);
}

#[test]
fn instant_worktree_requires_branch_and_dispatches_create() {
    let mut state = AppState::new();
    let cmds = reduce(&mut state, UiEvent::InstantWorktree { branch: String::new() });
    assert!(cmds.is_empty());
    assert!(state.ui.error_banner.is_some());

    state.ui.error_banner = None;
    state.repository.path = Some("/tmp/app".to_string());
    let cmds = reduce(&mut state, UiEvent::InstantWorktree { branch: "feature/auth".to_string() });
    assert_eq!(state.selection.branch.as_deref(), Some("feature/auth"));
    assert!(matches!(
        cmds.as_slice(),
        [Command::CreateWorktree { branch, path, .. }]
            if branch == "feature/auth" && path.ends_with("app-worktrees/feature-auth")
    ));
}

#[test]
fn delete_branch_requires_confirmation_then_dispatches() {
    let mut state = AppState::new();
    let cmds = reduce(&mut state, UiEvent::RequestDeleteBranch("feature".to_string()));
    assert!(cmds.is_empty());
    assert_eq!(state.ui.confirm_delete_branch.as_deref(), Some("feature"));

    reduce(&mut state, UiEvent::CancelDeleteBranch);
    assert!(state.ui.confirm_delete_branch.is_none());

    reduce(&mut state, UiEvent::RequestDeleteBranch("feature".to_string()));
    let cmds = reduce(&mut state, UiEvent::ConfirmDeleteBranch);
    assert!(state.ui.confirm_delete_branch.is_none());
    assert!(matches!(cmds.as_slice(), [Command::DeleteBranch { name, .. }] if name == "feature"));
}

#[test]
fn history_paging_appends_and_stops_when_short_page() {
    let mut state = AppState::new();
    state.history.has_more = true;
    let gen = state.generation;
    let full: Vec<CommitSummary> = (0..HISTORY_PAGE).map(|i| summary(&format!("{i}"))).collect();
    apply(
        &mut state,
        AppMessage::HistoryPageLoaded { generation: gen, filter: HistoryFilter::All, offset: 0, result: Ok(full) },
    );
    assert_eq!(state.history.commits.len(), HISTORY_PAGE);
    assert!(state.history.has_more);

    state.history.loading = true;
    apply(
        &mut state,
        AppMessage::HistoryPageLoaded {
            generation: gen,
            filter: HistoryFilter::All,
            offset: HISTORY_PAGE,
            result: Ok(vec![summary("x")]),
        },
    );
    assert_eq!(state.history.commits.len(), HISTORY_PAGE + 1);
    assert!(!state.history.has_more);
}

#[test]
fn inflight_tracks_dispatch_and_completion() {
    let mut state = AppState::new();
    reduce(&mut state, UiEvent::OpenRepository("/repo".to_string()));
    assert_eq!(state.background.inflight, 1);
    let gen = state.generation;
    apply(
        &mut state,
        AppMessage::RepositoryOpened { generation: gen, result: Ok(RepositoryData { head: HeadInfo::default() }) },
    );
    assert_eq!(state.background.inflight, 4);
}

#[test]
fn toggle_diff_line_and_stage_selected_emits_stage_lines() {
    let mut state = AppState::new();
    reduce(&mut state, UiEvent::SelectFile { path: "f.txt".to_string(), staged: false });
    reduce(&mut state, UiEvent::ToggleDiffLine(3));
    reduce(&mut state, UiEvent::ToggleDiffLine(5));
    assert_eq!(state.diff.selected_lines, vec![3, 5]);
    let cmds = reduce(&mut state, UiEvent::StageSelectedLines);
    assert!(state.diff.selected_lines.is_empty());
    assert!(matches!(
        cmds.as_slice(),
        [Command::StageLines { from_staged: false, lines, .. }] if lines == &[3, 5]
    ));
}

#[test]
fn navigate_changes_walks_staged_then_unstaged() {
    let mut state = AppState::new();
    state.changes.staged = vec![FileChange::new("a.txt".to_string(), ChangeKind::Modified)];
    state.changes.unstaged = vec![FileChange::new("b.txt".to_string(), ChangeKind::Modified)];
    state.changes.loaded = true;

    let cmds = reduce(&mut state, UiEvent::NavigateChanges { delta: 1 });
    assert_eq!(
        state.diff.target.as_ref().map(|t| (t.path.as_str(), t.staged)),
        Some(("a.txt", true))
    );
    assert!(matches!(cmds.as_slice(), [Command::LoadDiff { .. }]));

    let _ = reduce(&mut state, UiEvent::NavigateChanges { delta: 1 });
    assert_eq!(
        state.diff.target.as_ref().map(|t| (t.path.as_str(), t.staged)),
        Some(("b.txt", false))
    );
}

#[test]
fn show_file_history_switches_view_and_loads() {
    let mut state = AppState::new();
    let cmds = reduce(&mut state, UiEvent::ShowFileHistory { path: "src/main.rs".to_string() });
    assert_eq!(state.navigation.active_view, View::History);
    assert!(matches!(state.history.filter, HistoryFilter::File { ref path } if path == "src/main.rs"));
    assert!(state.history.loading);
    assert!(matches!(
        cmds.as_slice(),
        [Command::LoadHistoryPage { filter: HistoryFilter::File { .. }, offset: 0, .. }]
    ));
}

#[test]
fn show_line_history_switches_view_and_loads() {
    let mut state = AppState::new();
    let cmds = reduce(&mut state, UiEvent::ShowLineHistory { path: "lib.rs".to_string(), line: 42 });
    assert_eq!(state.navigation.active_view, View::History);
    assert!(matches!(
        state.history.filter,
        HistoryFilter::Line { ref path, line: 42 } if path == "lib.rs"
    ));
    assert!(matches!(
        cmds.as_slice(),
        [Command::LoadHistoryPage { filter: HistoryFilter::Line { .. }, offset: 0, .. }]
    ));
}

#[test]
fn select_stash_loads_diff() {
    let mut state = AppState::new();
    let cmds = reduce(&mut state, UiEvent::SelectStash(0));
    assert_eq!(state.stash.selected, Some(0));
    assert!(state.stash.diff.is_loading());
    assert!(matches!(cmds.as_slice(), [Command::LoadStashDiff { index: 0, .. }]));
}

#[test]
fn select_commit_loads_detail_and_opens_context() {
    let mut state = AppState::new();
    let oid = Oid("abc123".to_string());
    let cmds = reduce(&mut state, UiEvent::SelectCommit(oid.clone()));
    assert_eq!(state.selection.commit, Some(oid));
    assert!(state.navigation.context_panel_open);
    assert!(state.context.commit.is_loading());
    assert!(matches!(cmds.as_slice(), [Command::LoadCommitDetail { .. }]));
}

#[test]
fn commit_navigation_back_forward_and_escape() {
    let mut state = AppState::new();
    let a = Oid("aaa".to_string());
    let b = Oid("bbb".to_string());
    let c = Oid("ccc".to_string());
    let _ = reduce(&mut state, UiEvent::SelectCommit(a.clone()));
    let _ = reduce(&mut state, UiEvent::SelectCommit(b.clone()));
    let _ = reduce(&mut state, UiEvent::SelectCommit(c.clone()));
    assert_eq!(state.selection.commit, Some(c.clone()));
    assert_eq!(state.navigation.commit_back, vec![a.clone(), b.clone()]);
    assert!(state.navigation.commit_forward.is_empty());

    let _ = reduce(&mut state, UiEvent::NavigateCommit { delta: -1 });
    assert_eq!(state.selection.commit, Some(b.clone()));
    assert_eq!(state.navigation.commit_back, vec![a.clone()]);
    assert_eq!(state.navigation.commit_forward, vec![c.clone()]);

    let _ = reduce(&mut state, UiEvent::NavigateCommit { delta: 1 });
    assert_eq!(state.selection.commit, Some(c.clone()));
    assert_eq!(state.navigation.commit_back, vec![a.clone(), b.clone()]);
    assert!(state.navigation.commit_forward.is_empty());

    let _ = reduce(&mut state, UiEvent::Escape);
    assert_eq!(state.selection.commit, Some(b.clone()));
    let _ = reduce(&mut state, UiEvent::Escape);
    assert_eq!(state.selection.commit, Some(a.clone()));
    let _ = reduce(&mut state, UiEvent::Escape);
    assert!(state.selection.commit.is_none());
    assert!(matches!(state.context.commit, Loadable::Idle));
}

#[test]
fn command_palette_opens_and_escape_closes() {
    let mut state = AppState::new();
    let _ = reduce(&mut state, UiEvent::OpenCommandPalette);
    assert!(matches!(state.ui.overlay, Overlay::CommandPalette { .. }));
    let _ = reduce(&mut state, UiEvent::Escape);
    assert!(matches!(state.ui.overlay, Overlay::Closed));
}

#[test]
fn confirm_palette_fetch_dispatches() {
    let mut state = AppState::new();
    let _ = reduce(&mut state, UiEvent::OpenCommandPalette);
    let _ = reduce(&mut state, UiEvent::SetOverlayQuery("fetch".to_string()));
    let cmds = reduce(&mut state, UiEvent::ConfirmOverlay);
    assert!(matches!(state.ui.overlay, Overlay::Closed));
    assert!(matches!(cmds.as_slice(), [Command::Fetch { .. }]));
}

#[test]
fn fatal_status_error_degrades_repository() {
    let mut state = AppState::new();
    state.repository.status = RepositoryStatus::Ready;
    let gen = state.generation;
    apply(
        &mut state,
        AppMessage::StatusLoaded {
            generation: gen,
            result: Err("Git リポジトリではありません: /tmp/x".to_string()),
        },
    );
    assert!(matches!(state.repository.status, RepositoryStatus::Error(_)));
    assert!(state.ui.error_banner.is_some());
}

#[test]
fn toggle_heatmap_flips_flag() {
    let mut state = AppState::new();
    assert!(!state.diff.heatmap_enabled);
    let _ = reduce(&mut state, UiEvent::ToggleHeatmap);
    assert!(state.diff.heatmap_enabled);
    let _ = reduce(&mut state, UiEvent::ToggleHeatmap);
    assert!(!state.diff.heatmap_enabled);
}

#[test]
fn select_commit_file_loads_diff_and_escape_clears() {
    let mut state = AppState::new();
    let oid = Oid("abc".to_string());
    let _ = reduce(&mut state, UiEvent::SelectCommit(oid.clone()));
    let cmds = reduce(&mut state, UiEvent::SelectCommitFile("docs/a.md".to_string()));
    assert_eq!(state.context.selected_file, Some("docs/a.md".to_string()));
    assert!(state.context.file_diff.is_loading());
    assert!(matches!(
        cmds.as_slice(),
        [Command::LoadCommitFileDiff { path, .. }] if path == "docs/a.md"
    ));
    let _ = reduce(&mut state, UiEvent::Escape);
    assert!(state.context.selected_file.is_none());
    assert!(matches!(state.context.file_diff, Loadable::Idle));
    assert_eq!(state.selection.commit, Some(oid));
}

#[test]
fn stale_message_is_dropped_without_change() {
    let mut state = AppState::new();
    reduce(&mut state, UiEvent::OpenRepository("/repo".to_string()));
    let before_inflight = state.background.inflight;
    let cmds = apply(
        &mut state,
        AppMessage::StatusLoaded { generation: Generation(0), result: Err("late".to_string()) },
    );
    assert!(cmds.is_empty());
    assert!(state.ui.error_banner.is_none());
    // The late answer still completes its in-flight command.
    assert_eq!(state.background.inflight, before_inflight - 1);
}

#[test]
fn every_issued_command_carries_the_current_generation() {
    let mut state = AppState::new();
    let cmds = reduce(&mut state, UiEvent::OpenRepository("/repo".to_string()));
    for c in &cmds {
        assert_eq!(c.generation(), state.generation);
    }
    let gen = state.generation;
    let cmds = apply(
        &mut state,
        AppMessage::RepositoryOpened { generation: gen, result: Ok(RepositoryData { head: HeadInfo::default() }) },
    );
    assert!(!cmds.is_empty());
    for c in &cmds {
        assert_eq!(c.generation(), state.generation);
    }
}
