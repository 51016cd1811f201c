//! What each user event and each worker message does to the application
//! state, and which commands it issues.
//!
//! [`reduce_of`] and [`apply_of`] are the transition functions over state
//! models; the executable reducer in [`crate::app::reducer`] is proved to
//! compute exactly these.
use vstd::prelude::*;

use crate::app::branch_cleanup::candidates_of;
use crate::app::command::CommandV;
use crate::app::conventional::apply_type_of;
use crate::app::event::UiEventV;
use crate::app::message::{AppMessageV, BranchHealthUpdateV, RemoteOp};
use crate::app::model::{
    next_generation, BranchInfoV, ChangeKind, CommitSummaryV, DiffContentV, DiffHunkV, DiffLineV,
    DiffTargetV, FileChangeV, Generation, HeadInfoV, LoadableV, View,
};
use crate::app::palette::{action_event, filter_commands_of, PaletteActionV};
use crate::app::quick_open::{collect_items_of, filter_items_of};
use crate::app::recent::recent_after;
use crate::app::state::{
    empty_diff_state, empty_divergence_state, initial_state, AppStateV, BackgroundTaskStateV,
    BranchCleanupStateV, BranchStateV, ChangesStateV, ContextStateV, DiffStateV,
    DivergenceStateV, HistoryFilterV, HistoryStateV, NavigationStateV, OverlayV,
    RepositoryStateV, RepositoryStatusV, SelectionStateV, StashStateV, UiStateV,
    WorktreeStateV,
};
use crate::git::worktree::default_worktree_path_of;
use crate::path::same_path;
use crate::text::{contains, lowercase_of, trim};
#[allow(unused_imports)]
use vstd::view::View as _;

verus! {

/// One transition's outcome: the new state and the issued commands.
pub struct Step {
    pub state: AppStateV,
    pub cmds: Seq<CommandV>,
}

/// Number of commits fetched per history page.
pub const HISTORY_PAGE: usize = 100;

/// How many old-side lines the first blame phase covers.
pub const BLAME_FIRST_PHASE: usize = 8;

// ---------------------------------------------------------------------------
// Building blocks
// ---------------------------------------------------------------------------
/// `a + n`, saturating at `u32::MAX`.
pub open spec fn sat_add(a: u32, n: nat) -> u32 {
    if a + n > u32::MAX {
        u32::MAX
    } else {
        (a + n) as u32
    }
}

/// The state unchanged and no command.
pub open spec fn stay(s: AppStateV) -> Step {
    Step { state: s, cmds: Seq::empty() }
}

/// The given commands issued: each one counts as in flight.
pub open spec fn issue(s: AppStateV, cmds: Seq<CommandV>) -> Step {
    Step {
        state: AppStateV {
            background: BackgroundTaskStateV {
                inflight: sat_add(s.background.inflight, cmds.len()),
                ..s.background
            },
            ..s
        },
        cmds,
    }
}

/// An error shown in the banner and recorded as the last background error.
pub open spec fn with_error(s: AppStateV, msg: Seq<char>) -> AppStateV {
    AppStateV {
        ui: UiStateV { copy_feedback: None, error_banner: Some(msg), ..s.ui },
        background: BackgroundTaskStateV { last_error: Some(msg), ..s.background },
        ..s
    }
}

pub open spec fn fail(s: AppStateV, msg: Seq<char>) -> Step {
    stay(with_error(s, msg))
}

pub open spec fn with_ui(s: AppStateV, ui: UiStateV) -> AppStateV {
    AppStateV { ui, ..s }
}

pub open spec fn with_nav(s: AppStateV, navigation: NavigationStateV) -> AppStateV {
    AppStateV { navigation, ..s }
}

/// `(cur + delta)` wrapped into `0..len`.
pub open spec fn wrap_index(cur: int, delta: i32, len: int) -> int {
    (cur + delta) % len
}

/// The first index `>= i` at which `x` occurs in `s`.
pub open spec fn index_from<A>(s: Seq<A>, x: A, i: int) -> Option<int>
    decreases s.len() - i,
{
    if i < 0 || i >= s.len() {
        None
    } else if s[i] == x {
        Some(i)
    } else {
        index_from(s, x, i + 1)
    }
}

pub open spec fn index_of<A>(s: Seq<A>, x: A) -> Option<int> {
    index_from(s, x, 0)
}

/// The first position, from `i` on, of a path that is `p` by components.
pub open spec fn path_index_from(s: Seq<Seq<char>>, p: Seq<char>, i: int) -> Option<int>
    decreases s.len() - i,
{
    if i < 0 || i >= s.len() {
        None
    } else if same_path(s[i], p) {
        Some(i)
    } else {
        path_index_from(s, p, i + 1)
    }
}

/// The first position of a path that is `p` by components.
pub open spec fn path_index_of(s: Seq<Seq<char>>, p: Seq<char>) -> Option<int> {
    path_index_from(s, p, 0)
}

/// The first position, from `i` on, of an entry for the side `staged` whose
/// path is `p` by components.
pub open spec fn entry_index_from(s: Seq<(Seq<char>, bool)>, p: Seq<char>, staged: bool, i: int) -> Option<int>
    decreases s.len() - i,
{
    if i < 0 || i >= s.len() {
        None
    } else if s[i].1 == staged && same_path(s[i].0, p) {
        Some(i)
    } else {
        entry_index_from(s, p, staged, i + 1)
    }
}

/// The first position of an entry for the side `staged` whose path is `p`
/// by components.
pub open spec fn entry_index_of(s: Seq<(Seq<char>, bool)>, p: Seq<char>, staged: bool) -> Option<int> {
    entry_index_from(s, p, staged, 0)
}

// ---------------------------------------------------------------------------
// Shared handlers
// ---------------------------------------------------------------------------
/// Loads a view's data the first time it is shown.
#[verifier::opaque]
pub open spec fn lazy_load_view(s: AppStateV, view: View) -> Step {
    let g = s.generation;
    match view {
        View::History => if s.history.commits.len() == 0 && !s.history.loading {
            issue(
                AppStateV { history: HistoryStateV { loading: true, ..s.history }, ..s },
                seq![
                    CommandV::LoadHistoryPage {
                        filter: s.history.filter,
                        offset: 0,
                        generation: g,
                    },
                ],
            )
        } else {
            stay(s)
        },
        View::Branches => if !s.branch.loaded {
            issue(s, seq![CommandV::LoadBranches { generation: g }])
        } else {
            stay(s)
        },
        View::Worktrees => if !s.worktree.loaded {
            issue(s, seq![CommandV::LoadWorktrees { generation: g }])
        } else {
            stay(s)
        },
        View::Stashes => if !s.stash.loaded {
            issue(s, seq![CommandV::LoadStashes { generation: g }])
        } else {
            stay(s)
        },
        View::Changes => stay(s),
    }
}

#[verifier::opaque]
pub open spec fn select_view(s: AppStateV, view: View) -> Step {
    let s1 = if s.navigation.active_view != view {
        with_nav(
            s,
            NavigationStateV {
                back_stack: s.navigation.back_stack.push(s.navigation.active_view),
                active_view: view,
                ..s.navigation
            },
        )
    } else {
        s
    };
    lazy_load_view(s1, view)
}

#[verifier::opaque]
pub open spec fn select_file(s: AppStateV, path: Seq<char>, staged: bool) -> Step {
    let target = DiffTargetV { path, staged };
    issue(
        AppStateV {
            selection: SelectionStateV { file: Some(path), ..s.selection },
            diff: DiffStateV {
                target: Some(target),
                content: LoadableV::Loading,
                selected_lines: Seq::empty(),
                focused_hunk: 0,
                ..s.diff
            },
            ..s
        },
        seq![CommandV::LoadDiff { target, generation: s.generation }],
    )
}

/// Records (when asked) and shows a commit, loading its detail.
#[verifier::opaque]
pub open spec fn select_commit(s: AppStateV, oid: Seq<char>, record: bool) -> Step {
    let nav = match s.selection.commit {
        Some(prev) => if record && prev != oid {
            NavigationStateV {
                commit_back: s.navigation.commit_back.push(prev),
                commit_forward: Seq::empty(),
                ..s.navigation
            }
        } else {
            s.navigation
        },
        None => s.navigation,
    };
    issue(
        AppStateV {
            selection: SelectionStateV { commit: Some(oid), ..s.selection },
            navigation: NavigationStateV { context_panel_open: true, ..nav },
            context: ContextStateV {
                commit: LoadableV::Loading,
                selected_file: None,
                file_diff: LoadableV::Idle,
            },
            ..s
        },
        seq![CommandV::LoadCommitDetail { oid, generation: s.generation }],
    )
}

/// Browser-like back (negative) and forward (positive) through visited
/// commits.
#[verifier::opaque]
pub open spec fn navigate_commit(s: AppStateV, delta: i32) -> Step {
    let nav = s.navigation;
    if delta < 0 {
        if nav.commit_back.len() == 0 {
            stay(s)
        } else {
            let prev = nav.commit_back.last();
            let fwd = match s.selection.commit {
                Some(cur) => nav.commit_forward.push(cur),
                None => nav.commit_forward,
            };
            select_commit(
                with_nav(
                    s,
                    NavigationStateV {
                        commit_back: nav.commit_back.drop_last(),
                        commit_forward: fwd,
                        ..nav
                    },
                ),
                prev,
                false,
            )
        }
    } else if delta > 0 {
        if nav.commit_forward.len() == 0 {
            stay(s)
        } else {
            let next = nav.commit_forward.last();
            let back = match s.selection.commit {
                Some(cur) => nav.commit_back.push(cur),
                None => nav.commit_back,
            };
            select_commit(
                with_nav(
                    s,
                    NavigationStateV {
                        commit_forward: nav.commit_forward.drop_last(),
                        commit_back: back,
                        ..nav
                    },
                ),
                next,
                false,
            )
        }
    } else {
        stay(s)
    }
}

/// The flat Changes list: staged, conflicted, unstaged, untracked.
pub open spec fn changes_entries(c: ChangesStateV) -> Seq<(Seq<char>, bool)> {
    c.staged.map_values(|f: FileChangeV| (f.path, true)) + c.conflicted.map_values(
        |f: FileChangeV| (f.path, false),
    ) + c.unstaged.map_values(|f: FileChangeV| (f.path, false)) + c.untracked.map_values(
        |f: FileChangeV| (f.path, false),
    )
}

#[verifier::opaque]
pub open spec fn navigate_changes(s: AppStateV, delta: i32) -> Step {
    let entries = changes_entries(s.changes);
    if entries.len() == 0 {
        stay(s)
    } else {
        let current = match s.diff.target {
            Some(t) => entry_index_of(entries, t.path, t.staged),
            None => None,
        };
        let next = match current {
            Some(i) => wrap_index(i, delta, entries.len() as int),
            None => if delta >= 0 {
                0
            } else {
                entries.len() - 1
            },
        };
        select_file(s, entries[next].0, entries[next].1)
    }
}

#[verifier::opaque]
pub open spec fn navigate_history(s: AppStateV, delta: i32) -> Step {
    let commits = s.history.commits;
    if commits.len() == 0 {
        stay(s)
    } else {
        let oids = commits.map_values(|c: CommitSummaryV| c.oid);
        let current = match s.selection.commit {
            Some(oid) => index_of(oids, oid),
            None => None,
        };
        let next = match current {
            Some(i) => wrap_index(i, delta, commits.len() as int),
            None => if delta >= 0 {
                0
            } else {
                commits.len() - 1
            },
        };
        select_commit(s, commits[next].oid, true)
    }
}

/// Line-level stage (or unstage) of the selected diff lines.
#[verifier::opaque]
pub open spec fn stage_selected_lines(s: AppStateV, from_staged: bool) -> Step {
    match s.diff.target {
        None => fail(s, "差分が選択されていません"@),
        Some(target) => if s.diff.selected_lines.len() == 0 {
            fail(s, "ステージする行が選択されていません"@)
        } else {
            issue(
                AppStateV { diff: DiffStateV { selected_lines: Seq::empty(), ..s.diff }, ..s },
                seq![
                    CommandV::StageLines {
                        path: target.path,
                        from_staged,
                        lines: s.diff.selected_lines,
                        generation: s.generation,
                    },
                ],
            )
        },
    }
}

pub open spec fn paths_of(fs: Seq<FileChangeV>) -> Seq<Seq<char>> {
    fs.map_values(|f: FileChangeV| f.path)
}

/// Moves a file from unstaged (or untracked, becoming added) to staged.
pub open spec fn stage_one(c: ChangesStateV, path: Seq<char>) -> ChangesStateV {
    match path_index_of(paths_of(c.unstaged), path) {
        Some(i) => ChangesStateV {
            staged: c.staged.push(c.unstaged[i]),
            unstaged: c.unstaged.remove(i),
            ..c
        },
        None => match path_index_of(paths_of(c.untracked), path) {
            Some(i) => ChangesStateV {
                staged: c.staged.push(
                    FileChangeV { path: c.untracked[i].path, kind: ChangeKind::Added },
                ),
                untracked: c.untracked.remove(i),
                ..c
            },
            None => c,
        },
    }
}

/// Moves a file from staged to unstaged, as a modification.
pub open spec fn unstage_one(c: ChangesStateV, path: Seq<char>) -> ChangesStateV {
    match path_index_of(paths_of(c.staged), path) {
        Some(i) => ChangesStateV {
            staged: c.staged.remove(i),
            unstaged: c.unstaged.push(FileChangeV { path: c.staged[i].path, kind: ChangeKind::Modified }),
            ..c
        },
        None => c,
    }
}

pub open spec fn as_kind(fs: Seq<FileChangeV>, kind: ChangeKind) -> Seq<FileChangeV> {
    fs.map_values(|f: FileChangeV| FileChangeV { path: f.path, kind })
}

pub open spec fn stage_all(c: ChangesStateV) -> ChangesStateV {
    ChangesStateV {
        staged: c.staged + c.unstaged + as_kind(c.untracked, ChangeKind::Added),
        unstaged: Seq::empty(),
        untracked: Seq::empty(),
        ..c
    }
}

pub open spec fn unstage_all(c: ChangesStateV) -> ChangesStateV {
    ChangesStateV {
        unstaged: c.unstaged + as_kind(c.staged, ChangeKind::Modified),
        staged: Seq::empty(),
        ..c
    }
}

pub open spec fn with_changes(s: AppStateV, changes: ChangesStateV) -> AppStateV {
    AppStateV { changes, ..s }
}

#[verifier::opaque]
pub open spec fn stage_file(s: AppStateV, path: Seq<char>) -> Step {
    issue(
        with_changes(s, stage_one(s.changes, path)),
        seq![CommandV::Stage { path, generation: s.generation }],
    )
}

#[verifier::opaque]
pub open spec fn unstage_file(s: AppStateV, path: Seq<char>) -> Step {
    issue(
        with_changes(s, unstage_one(s.changes, path)),
        seq![CommandV::Unstage { path, generation: s.generation }],
    )
}

/// Where `x` goes in a sorted `s`: before the first larger element.
pub open spec fn usize_pos(s: Seq<usize>, x: usize, i: int) -> int
    decreases s.len() - i,
{
    if i >= s.len() {
        s.len() as int
    } else if x < s[i] {
        i
    } else {
        usize_pos(s, x, i + 1)
    }
}

/// `s` sorted ascending (insertion order of equal values kept).
pub open spec fn sort_usize(s: Seq<usize>) -> Seq<usize>
    decreases s.len(),
{
    if s.len() == 0 {
        s
    } else {
        let t = sort_usize(s.drop_last());
        t.insert(usize_pos(t, s.last(), 0), s.last())
    }
}

pub open spec fn toggle_line(lines: Seq<usize>, index: usize) -> Seq<usize> {
    match index_of(lines, index) {
        Some(i) => lines.remove(i),
        None => sort_usize(lines.push(index)),
    }
}

/// The changed (`+` / `-`) lines' body indices of a hunk.
pub open spec fn hunk_change_lines(h: DiffHunkV) -> Seq<usize> {
    h.lines.filter(|l: DiffLineV| l.origin == '+' || l.origin == '-').map_values(
        |l: DiffLineV| l.body_index,
    )
}

#[verifier::opaque]
pub open spec fn stage_focused_hunk(s: AppStateV) -> Step {
    match s.diff.content {
        LoadableV::Ready(content) => if s.diff.focused_hunk < content.hunks.len() {
            let lines = hunk_change_lines(content.hunks[s.diff.focused_hunk as int]);
            if lines.len() == 0 {
                stay(s)
            } else {
                stage_selected_lines(
                    AppStateV { diff: DiffStateV { selected_lines: lines, ..s.diff }, ..s },
                    content.target.staged,
                )
            }
        } else {
            stay(s)
        },
        _ => stay(s),
    }
}

#[verifier::opaque]
pub open spec fn reduce_commit(s: AppStateV) -> Step {
    let message = trim(s.ui.commit_message);
    if message.len() == 0 {
        fail(s, "コミットメッセージが空です"@)
    } else if s.changes.staged.len() == 0 {
        fail(s, "ステージされた変更がありません"@)
    } else {
        issue(s, seq![CommandV::Commit { message, generation: s.generation }])
    }
}

pub open spec fn named_remote() -> spec_fn(BranchInfoV, Seq<char>) -> bool {
    |b: BranchInfoV, name: Seq<char>| b.name == name && b.is_remote
}

#[verifier::opaque]
pub open spec fn instant_worktree(s: AppStateV, branch: Seq<char>) -> Step {
    let branch = trim(branch);
    if branch.len() == 0 {
        fail(s, "Instant Worktree にはブランチの選択が必要です"@)
    } else {
        let s1 = AppStateV {
            selection: SelectionStateV { branch: Some(branch), ..s.selection },
            ..s
        };
        if exists|i: int|
            0 <= i < s.branch.branches.len() && #[trigger] s.branch.branches[i].name == branch
                && s.branch.branches[i].is_remote {
            fail(s1, "リモート追跡ブランチからは Instant Worktree できません"@)
        } else {
            match s.repository.path {
                None => fail(s1, "リポジトリが開かれていません"@),
                Some(repo) => issue(
                    s1,
                    seq![
                        CommandV::CreateWorktree {
                            branch,
                            path: default_worktree_path_of(repo, branch),
                            generation: s.generation,
                        },
                    ],
                ),
            }
        }
    }
}

pub open spec fn reset_history(s: AppStateV, filter: HistoryFilterV) -> AppStateV {
    AppStateV {
        history: HistoryStateV { filter, commits: Seq::empty(), has_more: true, loading: true },
        ..s
    }
}

#[verifier::opaque]
pub open spec fn show_history(s: AppStateV, path: Seq<char>, filter: HistoryFilterV) -> Step {
    let s1 = AppStateV {
        selection: SelectionStateV { file: Some(path), ..s.selection },
        navigation: NavigationStateV {
            active_view: View::History,
            context_panel_open: true,
            ..s.navigation
        },
        ..s
    };
    issue(
        reset_history(s1, filter),
        seq![CommandV::LoadHistoryPage { filter, offset: 0, generation: s.generation }],
    )
}

pub open spec fn toggle_name(selected: Seq<Seq<char>>, name: Seq<char>) -> Seq<Seq<char>> {
    match index_of(selected, name) {
        Some(i) => selected.remove(i),
        None => selected.push(name),
    }
}

pub open spec fn cleanup_names(s: AppStateV) -> Seq<Seq<char>> {
    let current = match s.branch.current {
        Some(c) => Some(c),
        None => s.repository.head.branch,
    };
    candidates_of(s.branch.branches, current, s.branch.merged_into_base).map_values(
        |c: crate::app::branch_cleanup::CleanupCandidateV| c.name,
    )
}

pub open spec fn delete_commands(names: Seq<Seq<char>>, g: Generation) -> Seq<CommandV> {
    names.map_values(|name: Seq<char>| CommandV::DeleteBranch { name, generation: g })
}

/// How many entries the open overlay lists.
pub open spec fn overlay_item_count(s: AppStateV) -> nat {
    match s.ui.overlay {
        OverlayV::Closed => 0,
        OverlayV::CommandPalette { query, .. } => filter_commands_of(query).len(),
        OverlayV::QuickOpen { query, .. } => filter_items_of(collect_items_of(s), query).len(),
    }
}

pub open spec fn with_overlay(s: AppStateV, overlay: OverlayV) -> AppStateV {
    AppStateV { ui: UiStateV { overlay, ..s.ui }, ..s }
}

#[verifier::opaque]
pub open spec fn navigate_overlay(s: AppStateV, delta: i32) -> Step {
    let len = overlay_item_count(s);
    if len == 0 {
        stay(s)
    } else {
        match s.ui.overlay {
            OverlayV::CommandPalette { query, selected } => stay(
                with_overlay(
                    s,
                    OverlayV::CommandPalette {
                        query,
                        selected: wrap_index(selected as int, delta, len as int) as usize,
                    },
                ),
            ),
            OverlayV::QuickOpen { query, selected } => stay(
                with_overlay(
                    s,
                    OverlayV::QuickOpen {
                        query,
                        selected: wrap_index(selected as int, delta, len as int) as usize,
                    },
                ),
            ),
            OverlayV::Closed => stay(s),
        }
    }
}

/// Two events one after the other, their commands concatenated.
pub open spec fn then_basic(s: AppStateV, a: UiEventV, b: UiEventV) -> Step {
    let first = reduce_basic_of(s, a);
    let second = reduce_basic_of(first.state, b);
    Step { state: second.state, cmds: first.cmds + second.cmds }
}

/// The type a palette action inserts, when it is a Conventional Commit type.
pub open spec fn conventional_type(a: PaletteActionV) -> Option<Seq<char>> {
    match a {
        PaletteActionV::ConventionalType(ty) => Some(ty),
        _ => None,
    }
}

/// The view a Quick Open entry switches to before it is selected.
pub open spec fn view_for_item(e: UiEventV) -> Option<View> {
    match e {
        UiEventV::SelectFile { .. } => Some(View::Changes),
        UiEventV::SelectBranch(_) => Some(View::Branches),
        UiEventV::SelectCommit(_) => Some(View::History),
        _ => None,
    }
}

/// Whether an event confirms the open overlay (the index picked, if any).
pub open spec fn overlay_confirmation(e: UiEventV) -> Option<Option<usize>> {
    match e {
        UiEventV::ConfirmOverlay => Some(None),
        UiEventV::SelectOverlayItem(i) => Some(Some(i)),
        _ => None,
    }
}

#[verifier::opaque]
pub open spec fn confirm_overlay(s: AppStateV) -> Step {
    match s.ui.overlay {
        OverlayV::Closed => stay(s),
        OverlayV::CommandPalette { query, selected } => {
            let cmds = filter_commands_of(query);
            if selected >= cmds.len() {
                stay(s)
            } else {
                let action = cmds[selected as int].event;
                let s1 = with_overlay(s, OverlayV::Closed);
                match conventional_type(action) {
                    Some(ty) => {
                        let next = apply_type_of(s.ui.commit_message, ty);
                        let s2 = AppStateV {
                            navigation: NavigationStateV {
                                context_panel_open: true,
                                active_view: View::Changes,
                                ..s1.navigation
                            },
                            ui: UiStateV {
                                commit_focus_token: if s.ui.commit_focus_token < u64::MAX {
                                    (s.ui.commit_focus_token + 1) as u64
                                } else {
                                    u64::MAX
                                },
                                ..s1.ui
                            },
                            ..s1
                        };
                        reduce_basic_of(s2, UiEventV::SetCommitMessage(next))
                    },
                    None => reduce_basic_of(s1, action_event(action)),
                }
            }
        },
        OverlayV::QuickOpen { query, selected } => {
            let items = filter_items_of(collect_items_of(s), query);
            if selected >= items.len() {
                stay(s)
            } else {
                let s1 = with_overlay(s, OverlayV::Closed);
                let ev = items[selected as int].event;
                match view_for_item(ev) {
                    Some(v) => then_basic(s1, UiEventV::SelectView(v), ev),
                    None => reduce_basic_of(s1, ev),
                }
            }
        },
    }
}

#[verifier::opaque]
pub open spec fn reduce_escape(s: AppStateV) -> Step {
    let ui = s.ui;
    if !(ui.overlay is Closed) {
        stay(with_overlay(s, OverlayV::Closed))
    } else if ui.confirm_delete_branch is Some {
        stay(with_ui(s, UiStateV { confirm_delete_branch: None, ..ui }))
    } else if ui.branch_cleanup is Some {
        stay(with_ui(s, UiStateV { branch_cleanup: None, ..ui }))
    } else if ui.confirm_remove_worktree is Some {
        stay(with_ui(s, UiStateV { confirm_remove_worktree: None, ..ui }))
    } else if ui.confirm_drop_stash is Some {
        stay(with_ui(s, UiStateV { confirm_drop_stash: None, ..ui }))
    } else if ui.error_banner is Some {
        stay(
            AppStateV {
                ui: UiStateV { error_banner: None, ..ui },
                background: BackgroundTaskStateV { last_error: None, ..s.background },
                ..s
            },
        )
    } else if ui.copy_feedback is Some {
        stay(with_ui(s, UiStateV { copy_feedback: None, ..ui }))
    } else if ui.searching {
        stay(
            AppStateV {
                ui: UiStateV { searching: false, search_query: Seq::empty(), ..ui },
                branch: BranchStateV { filter: Seq::empty(), ..s.branch },
                ..s
            },
        )
    } else if s.context.selected_file is Some {
        stay(
            AppStateV {
                context: ContextStateV {
                    selected_file: None,
                    file_diff: LoadableV::Idle,
                    ..s.context
                },
                ..s
            },
        )
    } else if s.selection.commit is Some {
        if s.navigation.commit_back.len() > 0 {
            navigate_commit(s, -1i32)
        } else {
            stay(
                AppStateV {
                    selection: SelectionStateV { commit: None, ..s.selection },
                    context: ContextStateV {
                        commit: LoadableV::Idle,
                        selected_file: None,
                        file_diff: LoadableV::Idle,
                    },
                    navigation: NavigationStateV { commit_forward: Seq::empty(), ..s.navigation },
                    ..s
                },
            )
        }
    } else if s.navigation.back_stack.len() > 0 {
        let prev = s.navigation.back_stack.last();
        lazy_load_view(
            with_nav(
                s,
                NavigationStateV {
                    back_stack: s.navigation.back_stack.drop_last(),
                    active_view: prev,
                    ..s.navigation
                },
            ),
            prev,
        )
    } else {
        stay(s)
    }
}

/// A fresh state that keeps only the recent-repositories list, under a new
/// generation.
pub open spec fn fresh_state(s: AppStateV, recent: Seq<Seq<char>>) -> AppStateV {
    AppStateV {
        generation: next_generation(s.generation),
        repository: RepositoryStateV { recent, ..initial_state().repository },
        ..initial_state()
    }
}

pub open spec fn set_ui(s: AppStateV, ui: UiStateV) -> Step {
    stay(with_ui(s, ui))
}

#[verifier::opaque]
pub open spec fn on_open_repository(s: AppStateV, path: Seq<char>) -> Step {
    let fresh = fresh_state(s, recent_after(s.repository.recent, path));
    issue(
        AppStateV {
            repository: RepositoryStateV {
                path: Some(path),
                status: RepositoryStatusV::Opening,
                ..fresh.repository
            },
            ..fresh
        },
        seq![CommandV::OpenRepository { path, generation: fresh.generation }],
    )
}

#[verifier::opaque]
pub open spec fn on_toggle_context_panel(s: AppStateV) -> Step {
    stay(
        with_nav(
            s,
            NavigationStateV { context_panel_open: !s.navigation.context_panel_open, ..s.navigation },
        ),
    )
}

#[verifier::opaque]
pub open spec fn on_select_commit_file(s: AppStateV, path: Seq<char>) -> Step {
    match s.selection.commit {
        None => stay(s),
        Some(oid) => issue(
            AppStateV {
                context: ContextStateV {
                    selected_file: Some(path),
                    file_diff: LoadableV::Loading,
                    ..s.context
                },
                ..s
            },
            seq![CommandV::LoadCommitFileDiff { oid, path, generation: s.generation }],
        ),
    }
}

#[verifier::opaque]
pub open spec fn on_clear_commit_file_diff(s: AppStateV) -> Step {
    stay(
        AppStateV {
            context: ContextStateV { selected_file: None, file_diff: LoadableV::Idle, ..s.context },
            ..s
        },
    )
}

#[verifier::opaque]
pub open spec fn on_select_branch(s: AppStateV, name: Seq<char>) -> Step {
    stay(
        AppStateV {
            selection: SelectionStateV { branch: Some(name), commit: None, ..s.selection },
            context: ContextStateV {
                commit: LoadableV::Idle,
                selected_file: None,
                file_diff: LoadableV::Idle,
            },
            navigation: NavigationStateV {
                commit_back: Seq::empty(),
                commit_forward: Seq::empty(),
                context_panel_open: true,
                ..s.navigation
            },
            ..s
        },
    )
}

#[verifier::opaque]
pub open spec fn on_show_divergence(s: AppStateV, other: Seq<char>) -> Step {
    let left = match s.repository.head.branch {
        Some(b) => b,
        None => match s.branch.current {
            Some(c) => c,
            None => "HEAD"@,
        },
    };
    issue(
        AppStateV {
            divergence: DivergenceStateV {
                left: Some(left),
                right: Some(other),
                loading: true,
                left_only: Seq::empty(),
                right_only: Seq::empty(),
                merge_base: None,
            },
            navigation: NavigationStateV { active_view: View::Branches, ..s.navigation },
            ..s
        },
        seq![CommandV::LoadDivergence { left, right: other, generation: s.generation }],
    )
}

pub open spec fn with_diff(s: AppStateV, diff: DiffStateV) -> AppStateV {
    AppStateV { diff, ..s }
}

#[verifier::opaque]
pub open spec fn on_navigate_hunk(s: AppStateV, delta: i32) -> Step {
    let n = match s.diff.content {
        LoadableV::Ready(c) => c.hunks.len(),
        _ => 0,
    };
    if n == 0 {
        stay(s)
    } else {
        stay(
            with_diff(
                s,
                DiffStateV {
                    focused_hunk: wrap_index(s.diff.focused_hunk as int, delta, n as int) as usize,
                    ..s.diff
                },
            ),
        )
    }
}

#[verifier::opaque]
pub open spec fn on_toggle_stage_selection(s: AppStateV) -> Step {
    match s.diff.target {
        None => stay(s),
        Some(t) => if t.staged {
            unstage_file(s, t.path)
        } else {
            stage_file(s, t.path)
        },
    }
}

#[verifier::opaque]
pub open spec fn on_focus_commit_input(s: AppStateV) -> Step {
    stay(
        AppStateV {
            navigation: NavigationStateV { context_panel_open: true, ..s.navigation },
            ui: UiStateV {
                commit_focus_token: if s.ui.commit_focus_token < u64::MAX {
                    (s.ui.commit_focus_token + 1) as u64
                } else {
                    0
                },
                ..s.ui
            },
            ..s
        },
    )
}

#[verifier::opaque]
pub open spec fn on_create_branch(s: AppStateV, name: Seq<char>) -> Step {
    let name = trim(name);
    if name.len() == 0 {
        fail(s, "ブランチ名を入力してください"@)
    } else {
        issue(
            with_ui(s, UiStateV { new_branch_name: Seq::empty(), ..s.ui }),
            seq![CommandV::CreateBranch { name, generation: s.generation }],
        )
    }
}

#[verifier::opaque]
pub open spec fn on_request_delete_branch(s: AppStateV, name: Seq<char>) -> Step {
    if trim(name).len() == 0 {
        stay(s)
    } else {
        set_ui(s, UiStateV { confirm_delete_branch: Some(name), ..s.ui })
    }
}

#[verifier::opaque]
pub open spec fn on_confirm_delete_branch(s: AppStateV) -> Step {
    match s.ui.confirm_delete_branch {
        None => stay(s),
        Some(name) => issue(
            with_ui(s, UiStateV { confirm_delete_branch: None, ..s.ui }),
            seq![CommandV::DeleteBranch { name, generation: s.generation }],
        ),
    }
}

#[verifier::opaque]
pub open spec fn on_open_branch_cleanup(s: AppStateV) -> Step {
    set_ui(
        s,
        UiStateV {
            branch_cleanup: Some(BranchCleanupStateV { selected: cleanup_names(s) }),
            ..s.ui
        },
    )
}

#[verifier::opaque]
pub open spec fn on_toggle_cleanup_branch(s: AppStateV, name: Seq<char>) -> Step {
    match s.ui.branch_cleanup {
        None => stay(s),
        Some(c) => set_ui(
            s,
            UiStateV {
                branch_cleanup: Some(BranchCleanupStateV { selected: toggle_name(c.selected, name) }),
                ..s.ui
            },
        ),
    }
}

#[verifier::opaque]
pub open spec fn on_confirm_branch_cleanup(s: AppStateV) -> Step {
    match s.ui.branch_cleanup {
        None => stay(s),
        Some(c) => issue(
            with_ui(s, UiStateV { branch_cleanup: None, ..s.ui }),
            delete_commands(c.selected, s.generation),
        ),
    }
}

/// A network operation started: its label shown and its command issued.
#[verifier::opaque]
pub open spec fn on_remote(s: AppStateV, label: Seq<char>, cmd: CommandV) -> Step {
    issue(
        AppStateV {
            background: BackgroundTaskStateV { remote_label: Some(label), ..s.background },
            ..s
        },
        seq![cmd],
    )
}

#[verifier::opaque]
pub open spec fn on_create_worktree(s: AppStateV, branch: Seq<char>, path: Seq<char>) -> Step {
    if trim(branch).len() == 0 {
        fail(s, "ブランチ名を入力してください"@)
    } else {
        issue(s, seq![CommandV::CreateWorktree { branch, path, generation: s.generation }])
    }
}

#[verifier::opaque]
pub open spec fn on_confirm_remove_worktree(s: AppStateV) -> Step {
    match s.ui.confirm_remove_worktree {
        None => stay(s),
        Some(path) => issue(
            with_ui(s, UiStateV { confirm_remove_worktree: None, ..s.ui }),
            seq![CommandV::RemoveWorktree { path, generation: s.generation }],
        ),
    }
}

#[verifier::opaque]
pub open spec fn on_select_stash(s: AppStateV, index: usize) -> Step {
    issue(
        AppStateV {
            stash: StashStateV { selected: Some(index), diff: LoadableV::Loading, ..s.stash },
            ..s
        },
        seq![CommandV::LoadStashDiff { index, generation: s.generation }],
    )
}

#[verifier::opaque]
pub open spec fn on_confirm_drop_stash(s: AppStateV) -> Step {
    match s.ui.confirm_drop_stash {
        None => stay(s),
        Some(index) => issue(
            with_ui(s, UiStateV { confirm_drop_stash: None, ..s.ui }),
            seq![CommandV::StashDrop { index, generation: s.generation }],
        ),
    }
}

#[verifier::opaque]
pub open spec fn on_load_more_history(s: AppStateV) -> Step {
    if s.history.loading || !s.history.has_more {
        stay(s)
    } else {
        issue(
            AppStateV { history: HistoryStateV { loading: true, ..s.history }, ..s },
            seq![
                CommandV::LoadHistoryPage {
                    filter: s.history.filter,
                    offset: s.history.commits.len() as usize,
                    generation: s.generation,
                },
            ],
        )
    }
}

#[verifier::opaque]
pub open spec fn on_clear_history_filter(s: AppStateV) -> Step {
    issue(
        reset_history(s, HistoryFilterV::All),
        seq![CommandV::LoadHistoryPage { filter: HistoryFilterV::All, offset: 0, generation: s.generation }],
    )
}

#[verifier::opaque]
pub open spec fn on_search(s: AppStateV, query: Seq<char>) -> Step {
    stay(
        AppStateV {
            ui: UiStateV { searching: query.len() != 0, search_query: query, ..s.ui },
            branch: if s.navigation.active_view == View::Branches {
                BranchStateV { filter: query, ..s.branch }
            } else {
                s.branch
            },
            ..s
        },
    )
}

#[verifier::opaque]
pub open spec fn on_set_overlay_query(s: AppStateV, query: Seq<char>) -> Step {
    match s.ui.overlay {
        OverlayV::CommandPalette { .. } => stay(
            with_overlay(s, OverlayV::CommandPalette { query, selected: 0 }),
        ),
        OverlayV::QuickOpen { .. } => stay(with_overlay(s, OverlayV::QuickOpen { query, selected: 0 })),
        OverlayV::Closed => stay(s),
    }
}

#[verifier::opaque]
pub open spec fn on_dismiss_error(s: AppStateV) -> Step {
    stay(
        AppStateV {
            ui: UiStateV { error_banner: None, ..s.ui },
            background: BackgroundTaskStateV { last_error: None, ..s.background },
            ..s
        },
    )
}

#[verifier::opaque]
pub open spec fn on_close_repository(s: AppStateV) -> Step {
    stay(fresh_state(s, s.repository.recent))
}

#[verifier::opaque]
pub open spec fn on_set_branch_filter(s: AppStateV, filter: Seq<char>) -> Step {
    stay(AppStateV { branch: BranchStateV { filter, ..s.branch }, ..s })
}

/// A command issued with no other change.
#[verifier::opaque]
pub open spec fn on_command(s: AppStateV, c: CommandV) -> Step {
    issue(s, seq![c])
}

#[verifier::opaque]
pub open spec fn on_clear_divergence(s: AppStateV) -> Step {
    stay(AppStateV { divergence: empty_divergence_state(), ..s })
}

#[verifier::opaque]
pub open spec fn on_set_diff_view(s: AppStateV, view: crate::app::model::DiffView) -> Step {
    stay(with_diff(s, DiffStateV { view, ..s.diff }))
}

#[verifier::opaque]
pub open spec fn on_toggle_heatmap(s: AppStateV) -> Step {
    stay(with_diff(s, DiffStateV { heatmap_enabled: !s.diff.heatmap_enabled, ..s.diff }))
}

#[verifier::opaque]
pub open spec fn on_toggle_diff_line(s: AppStateV, index: usize) -> Step {
    stay(
        with_diff(
            s,
            DiffStateV { selected_lines: toggle_line(s.diff.selected_lines, index), ..s.diff },
        ),
    )
}

#[verifier::opaque]
pub open spec fn on_clear_diff_line_selection(s: AppStateV) -> Step {
    stay(with_diff(s, DiffStateV { selected_lines: Seq::empty(), ..s.diff }))
}

#[verifier::opaque]
pub open spec fn on_stage_all(s: AppStateV) -> Step {
    issue(
        with_changes(s, stage_all(s.changes)),
        seq![CommandV::StageAll { generation: s.generation }],
    )
}

#[verifier::opaque]
pub open spec fn on_unstage_all(s: AppStateV) -> Step {
    issue(
        with_changes(s, unstage_all(s.changes)),
        seq![CommandV::UnstageAll { generation: s.generation }],
    )
}

/// A pure edit of the presentational state.
#[verifier::opaque]
pub open spec fn on_ui(s: AppStateV, ui: UiStateV) -> Step {
    set_ui(s, ui)
}

#[verifier::opaque]
pub open spec fn on_overlay(s: AppStateV, overlay: OverlayV) -> Step {
    stay(with_overlay(s, overlay))
}

/// Which handler group an event belongs to.
pub open spec fn event_group(e: UiEventV) -> int {
    match e {
        UiEventV::OpenRepository { .. } => 0,
        UiEventV::CloseRepository { .. } => 0,
        UiEventV::SelectView { .. } => 0,
        UiEventV::ToggleContextPanel { .. } => 0,
        UiEventV::SelectFile { .. } => 0,
        UiEventV::NavigateChanges { .. } => 0,
        UiEventV::SelectCommit { .. } => 0,
        UiEventV::SelectCommitFile { .. } => 0,
        UiEventV::ClearCommitFileDiff { .. } => 0,
        UiEventV::NavigateCommit { .. } => 0,
        UiEventV::SelectBranch { .. } => 1,
        UiEventV::SetBranchFilter { .. } => 1,
        UiEventV::SetUpstream { .. } => 1,
        UiEventV::ShowDivergence { .. } => 1,
        UiEventV::ClearDivergence { .. } => 1,
        UiEventV::NavigateHistory { .. } => 1,
        UiEventV::Escape { .. } => 1,
        UiEventV::CopyText { .. } => 1,
        UiEventV::OpenUrl { .. } => 1,
        UiEventV::DismissError { .. } => 1,
        UiEventV::SetDiffView { .. } => 2,
        UiEventV::ToggleHeatmap { .. } => 2,
        UiEventV::NavigateHunk { .. } => 2,
        UiEventV::ToggleDiffLine { .. } => 2,
        UiEventV::ClearDiffLineSelection { .. } => 2,
        UiEventV::StageSelectedLines { .. } => 2,
        UiEventV::UnstageSelectedLines { .. } => 2,
        UiEventV::StageFile { .. } => 2,
        UiEventV::UnstageFile { .. } => 3,
        UiEventV::StageAll { .. } => 3,
        UiEventV::UnstageAll { .. } => 3,
        UiEventV::ToggleStageSelection { .. } => 3,
        UiEventV::StageFocusedHunk { .. } => 3,
        UiEventV::SetCommitMessage { .. } => 3,
        UiEventV::FocusCommitInput { .. } => 3,
        UiEventV::Commit { .. } => 3,
        UiEventV::CreateBranch { .. } => 4,
        UiEventV::CheckoutBranch { .. } => 4,
        UiEventV::RequestDeleteBranch { .. } => 4,
        UiEventV::ConfirmDeleteBranch { .. } => 4,
        UiEventV::CancelDeleteBranch { .. } => 4,
        UiEventV::OpenBranchCleanup { .. } => 4,
        UiEventV::ToggleCleanupBranch { .. } => 4,
        UiEventV::ConfirmBranchCleanup { .. } => 4,
        UiEventV::CancelBranchCleanup { .. } => 4,
        UiEventV::Fetch { .. } => 5,
        UiEventV::Pull { .. } => 5,
        UiEventV::Push { .. } => 5,
        UiEventV::SetOpenAfterInstantWorktree { .. } => 5,
        UiEventV::CreateWorktree { .. } => 5,
        UiEventV::InstantWorktree { .. } => 5,
        UiEventV::RequestRemoveWorktree { .. } => 5,
        UiEventV::ConfirmRemoveWorktree { .. } => 5,
        UiEventV::CancelRemoveWorktree { .. } => 5,
        UiEventV::StashSave { .. } => 6,
        UiEventV::SelectStash { .. } => 6,
        UiEventV::StashApply { .. } => 6,
        UiEventV::StashPop { .. } => 6,
        UiEventV::RequestDropStash { .. } => 6,
        UiEventV::ConfirmDropStash { .. } => 6,
        UiEventV::CancelDropStash { .. } => 6,
        UiEventV::LoadMoreHistory { .. } => 6,
        UiEventV::ShowFileHistory { .. } => 6,
        UiEventV::ShowLineHistory { .. } => 6,
        UiEventV::ClearHistoryFilter { .. } => 7,
        UiEventV::Search { .. } => 7,
        UiEventV::OpenCommandPalette { .. } => 7,
        UiEventV::OpenQuickOpen { .. } => 7,
        UiEventV::CloseOverlay { .. } => 7,
        UiEventV::SetOverlayQuery { .. } => 7,
        UiEventV::NavigateOverlay { .. } => 7,
        UiEventV::SelectOverlayItem { .. } => 7,
        UiEventV::ConfirmOverlay { .. } => 7,
    }
}

/// Repository and selection events.
pub open spec fn reduce_repository_of(s: AppStateV, e: UiEventV) -> Step {
    match e {
        UiEventV::OpenRepository(path) => on_open_repository(s, path),
        UiEventV::CloseRepository => on_close_repository(s),
        UiEventV::SelectView(view) => select_view(s, view),
        UiEventV::ToggleContextPanel => on_toggle_context_panel(s),
        UiEventV::SelectFile { path, staged } => select_file(s, path, staged),
        UiEventV::NavigateChanges { delta } => navigate_changes(s, delta),
        UiEventV::SelectCommit(oid) => select_commit(s, oid, true),
        UiEventV::SelectCommitFile(path) => on_select_commit_file(s, path),
        UiEventV::ClearCommitFileDiff => on_clear_commit_file_diff(s),
        UiEventV::NavigateCommit { delta } => navigate_commit(s, delta),
        _ => stay(s),
    }
}

/// Navigation, branch selection and error events.
pub open spec fn reduce_navigation_of(s: AppStateV, e: UiEventV) -> Step {
    let g = s.generation;
    let ui = s.ui;
    match e {
        UiEventV::SelectBranch(name) => on_select_branch(s, name),
        UiEventV::SetBranchFilter(filter) => on_set_branch_filter(s, filter),
        UiEventV::SetUpstream { branch, upstream } => on_command(
            s,
            CommandV::SetUpstream { branch, upstream, generation: g },
        ),
        UiEventV::ShowDivergence { other } => on_show_divergence(s, other),
        UiEventV::ClearDivergence => on_clear_divergence(s),
        UiEventV::NavigateHistory { delta } => navigate_history(s, delta),
        UiEventV::Escape => reduce_escape(s),
        UiEventV::CopyText(_) => on_ui(s, UiStateV { copy_feedback: None, ..ui }),
        UiEventV::OpenUrl(_) => stay(s),
        UiEventV::DismissError => on_dismiss_error(s),
        _ => stay(s),
    }
}

/// Diff presentation and line selection events.
pub open spec fn reduce_diff_of(s: AppStateV, e: UiEventV) -> Step {
    match e {
        UiEventV::SetDiffView(view) => on_set_diff_view(s, view),
        UiEventV::ToggleHeatmap => on_toggle_heatmap(s),
        UiEventV::NavigateHunk { delta } => on_navigate_hunk(s, delta),
        UiEventV::ToggleDiffLine(index) => on_toggle_diff_line(s, index),
        UiEventV::ClearDiffLineSelection => on_clear_diff_line_selection(s),
        UiEventV::StageSelectedLines => stage_selected_lines(s, false),
        UiEventV::UnstageSelectedLines => stage_selected_lines(s, true),
        UiEventV::StageFile(path) => stage_file(s, path),
        _ => stay(s),
    }
}

/// Staging and commit events.
pub open spec fn reduce_staging_of(s: AppStateV, e: UiEventV) -> Step {
    let ui = s.ui;
    match e {
        UiEventV::UnstageFile(path) => unstage_file(s, path),
        UiEventV::StageAll => on_stage_all(s),
        UiEventV::UnstageAll => on_unstage_all(s),
        UiEventV::ToggleStageSelection => on_toggle_stage_selection(s),
        UiEventV::StageFocusedHunk => stage_focused_hunk(s),
        UiEventV::SetCommitMessage(message) => on_ui(s, UiStateV { commit_message: message, ..ui }),
        UiEventV::FocusCommitInput => on_focus_commit_input(s),
        UiEventV::Commit => reduce_commit(s),
        _ => stay(s),
    }
}

/// Branch and remote events.
pub open spec fn reduce_branch_ops_of(s: AppStateV, e: UiEventV) -> Step {
    let g = s.generation;
    let ui = s.ui;
    match e {
        UiEventV::CreateBranch(name) => on_create_branch(s, name),
        UiEventV::CheckoutBranch(name) => on_command(s, CommandV::Checkout { name, generation: g }),
        UiEventV::RequestDeleteBranch(name) => on_request_delete_branch(s, name),
        UiEventV::ConfirmDeleteBranch => on_confirm_delete_branch(s),
        UiEventV::CancelDeleteBranch => on_ui(s, UiStateV { confirm_delete_branch: None, ..ui }),
        UiEventV::OpenBranchCleanup => on_open_branch_cleanup(s),
        UiEventV::ToggleCleanupBranch(name) => on_toggle_cleanup_branch(s, name),
        UiEventV::ConfirmBranchCleanup => on_confirm_branch_cleanup(s),
        UiEventV::CancelBranchCleanup => on_ui(s, UiStateV { branch_cleanup: None, ..ui }),
        _ => stay(s),
    }
}

/// Worktree events.
pub open spec fn reduce_worktrees_of(s: AppStateV, e: UiEventV) -> Step {
    let g = s.generation;
    let ui = s.ui;
    match e {
        UiEventV::Fetch => on_remote(s, "fetching…"@, CommandV::Fetch { generation: g }),
        UiEventV::Pull => on_remote(s, "pulling…"@, CommandV::Pull { generation: g }),
        UiEventV::Push => on_remote(s, "pushing…"@, CommandV::Push { generation: g }),
        UiEventV::SetOpenAfterInstantWorktree(enabled) => on_ui(
            s,
            UiStateV { open_after_instant_worktree: enabled, ..ui },
        ),
        UiEventV::CreateWorktree { branch, path } => on_create_worktree(s, branch, path),
        UiEventV::InstantWorktree { branch } => instant_worktree(s, branch),
        UiEventV::RequestRemoveWorktree(path) => on_ui(
            s,
            UiStateV { confirm_remove_worktree: Some(path), ..ui },
        ),
        UiEventV::ConfirmRemoveWorktree => on_confirm_remove_worktree(s),
        UiEventV::CancelRemoveWorktree => on_ui(s, UiStateV { confirm_remove_worktree: None, ..ui }),
        _ => stay(s),
    }
}

/// Stash and history events.
pub open spec fn reduce_stashes_of(s: AppStateV, e: UiEventV) -> Step {
    let g = s.generation;
    let ui = s.ui;
    match e {
        UiEventV::StashSave { message } => on_command(s, CommandV::StashSave { message, generation: g }),
        UiEventV::SelectStash(index) => on_select_stash(s, index),
        UiEventV::StashApply(index) => on_command(s, CommandV::StashApply { index, generation: g }),
        UiEventV::StashPop(index) => on_command(s, CommandV::StashPop { index, generation: g }),
        UiEventV::RequestDropStash(index) => on_ui(s, UiStateV { confirm_drop_stash: Some(index), ..ui }),
        UiEventV::ConfirmDropStash => on_confirm_drop_stash(s),
        UiEventV::CancelDropStash => on_ui(s, UiStateV { confirm_drop_stash: None, ..ui }),
        UiEventV::LoadMoreHistory => on_load_more_history(s),
        UiEventV::ShowFileHistory { path } => show_history(s, path, HistoryFilterV::File { path }),
        UiEventV::ShowLineHistory { path, line } => show_history(
            s,
            path,
            HistoryFilterV::Line { path, line },
        ),
        _ => stay(s),
    }
}

/// Search and overlay events.
pub open spec fn reduce_overlay_of(s: AppStateV, e: UiEventV) -> Step {
    match e {
        UiEventV::ClearHistoryFilter => on_clear_history_filter(s),
        UiEventV::Search(query) => on_search(s, query),
        UiEventV::OpenCommandPalette => on_overlay(
            s,
            OverlayV::CommandPalette { query: Seq::empty(), selected: 0 },
        ),
        UiEventV::OpenQuickOpen => on_overlay(s, OverlayV::QuickOpen { query: Seq::empty(), selected: 0 }),
        UiEventV::CloseOverlay => on_overlay(s, OverlayV::Closed),
        UiEventV::SetOverlayQuery(query) => on_set_overlay_query(s, query),
        UiEventV::NavigateOverlay { delta } => navigate_overlay(s, delta),
        UiEventV::SelectOverlayItem(_) => stay(s),
        UiEventV::ConfirmOverlay => stay(s),
        _ => stay(s),
    }
}

/// What a user event does, for every event but the overlay confirmations
/// (those are no-ops here; see [`reduce_of`]).
#[verifier::opaque]
pub open spec fn reduce_basic_of(s: AppStateV, e: UiEventV) -> Step {
    let k = event_group(e);
    if k == 0 {
        reduce_repository_of(s, e)
    } else if k == 1 {
        reduce_navigation_of(s, e)
    } else if k == 2 {
        reduce_diff_of(s, e)
    } else if k == 3 {
        reduce_staging_of(s, e)
    } else if k == 4 {
        reduce_branch_ops_of(s, e)
    } else if k == 5 {
        reduce_worktrees_of(s, e)
    } else if k == 6 {
        reduce_stashes_of(s, e)
    } else {
        reduce_overlay_of(s, e)
    }
}

/// The overlay with its selection set to `index` (when one is open).
pub open spec fn select_overlay_index(s: AppStateV, index: usize) -> AppStateV {
    match s.ui.overlay {
        OverlayV::CommandPalette { query, .. } => with_overlay(
            s,
            OverlayV::CommandPalette { query, selected: index },
        ),
        OverlayV::QuickOpen { query, .. } => with_overlay(
            s,
            OverlayV::QuickOpen { query, selected: index },
        ),
        OverlayV::Closed => s,
    }
}

/// What a user event does to the state, and the commands it issues.
pub open spec fn reduce_of(s: AppStateV, e: UiEventV) -> Step {
    match overlay_confirmation(e) {
        Some(None) => confirm_overlay(s),
        Some(Some(index)) => confirm_overlay(select_overlay_index(s, index)),
        None => reduce_basic_of(s, e),
    }
}


// ---------------------------------------------------------------------------
// Worker messages
// ---------------------------------------------------------------------------
/// Whether a failure text says the repository is gone or unusable.
pub open spec fn is_fatal_repo_error(err: Seq<char>) -> bool {
    fatal_lowered(lowercase_of(err))
}

/// Whether a lower-cased failure text says the repository is gone or unusable.
pub open spec fn fatal_lowered(lower: Seq<char>) -> bool {
    contains(lower, "リポジトリではありません"@) || contains(lower, "アクセスできません"@)
        || contains(lower, "破損"@) || contains(lower, "not a git repository"@) || contains(
        lower,
        "no such file"@,
    )
}

/// A new generation and the HEAD-dependent views invalidated.
pub open spec fn bump_after_head_change(s: AppStateV) -> AppStateV {
    AppStateV {
        generation: next_generation(s.generation),
        diff: DiffStateV { content: LoadableV::Idle, ..s.diff },
        history: HistoryStateV {
            commits: Seq::empty(),
            has_more: true,
            loading: false,
            ..s.history
        },
        ..s
    }
}

/// The reloads after HEAD moved: status, branches and the first history page
/// (in the order given by `branches_first`), under the state's generation.
pub open spec fn head_reloads(s: AppStateV, branches_first: bool) -> Seq<CommandV> {
    let g = s.generation;
    let page = CommandV::LoadHistoryPage { filter: s.history.filter, offset: 0, generation: g };
    if branches_first {
        seq![CommandV::LoadStatus { generation: g }, CommandV::LoadBranches { generation: g }, page]
    } else {
        seq![CommandV::LoadStatus { generation: g }, page, CommandV::LoadBranches { generation: g }]
    }
}

/// The distinct values of `s`, ascending.
pub open spec fn sorted_distinct(s: Seq<u32>) -> Seq<u32>
    decreases s.len(),
{
    if s.len() == 0 {
        s
    } else {
        let t = sorted_distinct(s.drop_last());
        let x = s.last();
        if t.contains(x) {
            t
        } else {
            t.insert(u32_pos(t, x, 0), x)
        }
    }
}

/// Where `x` goes in a sorted `s`: before the first larger element.
pub open spec fn u32_pos(s: Seq<u32>, x: u32, i: int) -> int
    decreases s.len() - i,
{
    if i >= s.len() {
        s.len() as int
    } else if x < s[i] {
        i
    } else {
        u32_pos(s, x, i + 1)
    }
}

/// The old-side line numbers of a hunk's lines, in order.
pub open spec fn hunk_old_lines(h: DiffHunkV) -> Seq<u32> {
    h.lines.filter(|l: DiffLineV| l.old_line is Some).map_values(|l: DiffLineV| l.old_line->0)
}

/// The old-side line numbers of a diff, in order.
pub open spec fn all_old_lines(hunks: Seq<DiffHunkV>) -> Seq<u32>
    decreases hunks.len(),
{
    if hunks.len() == 0 {
        Seq::empty()
    } else {
        all_old_lines(hunks.drop_last()) + hunk_old_lines(hunks.last())
    }
}

/// The distinct old-side line numbers of a diff, ascending.
pub open spec fn old_lines_of(content: DiffContentV) -> Seq<u32> {
    sorted_distinct(all_old_lines(content.hunks))
}

/// The first blame phase: up to eight lines; the rest later.
pub open spec fn blame_phases(lines: Seq<u32>) -> (Seq<u32>, Seq<u32>) {
    if lines.len() <= BLAME_FIRST_PHASE {
        (lines, Seq::empty())
    } else {
        (lines.take(BLAME_FIRST_PHASE as int), lines.skip(BLAME_FIRST_PHASE as int))
    }
}

/// A line with its change origin filled in from `origins`, unless it has one.
pub open spec fn line_with_origin(l: DiffLineV, origins: Map<u32, CommitSummaryV>) -> DiffLineV {
    if l.change_origin is None && l.old_line is Some && origins.contains_key(l.old_line->0) {
        DiffLineV { change_origin: Some(origins[l.old_line->0]), ..l }
    } else {
        l
    }
}

pub open spec fn hunk_with_origins(h: DiffHunkV, origins: Map<u32, CommitSummaryV>) -> DiffHunkV {
    DiffHunkV { lines: h.lines.map_values(|l: DiffLineV| line_with_origin(l, origins)), ..h }
}

pub open spec fn content_with_origins(c: DiffContentV, origins: Map<u32, CommitSummaryV>) -> DiffContentV {
    DiffContentV {
        hunks: c.hunks.map_values(|h: DiffHunkV| hunk_with_origins(h, origins)),
        ..c
    }
}

/// The branch list with one ahead/behind update applied to the first branch
/// of that name.
pub open spec fn apply_health_update(bs: Seq<BranchInfoV>, u: BranchHealthUpdateV) -> Seq<BranchInfoV> {
    match index_of(bs.map_values(|b: BranchInfoV| b.name), u.name) {
        Some(i) => bs.update(
            i,
            BranchInfoV { ahead: u.ahead, behind: u.behind, health: u.health, ..bs[i] },
        ),
        None => bs,
    }
}

pub open spec fn apply_health_updates(bs: Seq<BranchInfoV>, us: Seq<BranchHealthUpdateV>) -> Seq<
    BranchInfoV,
>
    decreases us.len(),
{
    if us.len() == 0 {
        bs
    } else {
        apply_health_update(apply_health_updates(bs, us.drop_last()), us.last())
    }
}

/// What a message from the current generation does.
pub open spec fn apply_current(s: AppStateV, m: AppMessageV) -> Step {
    match m {
        AppMessageV::RepositoryOpened { result, .. } => on_repository_opened(s, result),
        AppMessageV::StatusLoaded { result, .. } => on_status_loaded(s, result),
        AppMessageV::DiffLoaded { result, .. } => on_diff_loaded(s, result),
        AppMessageV::BlameEnriched { target, origins, remaining, .. } => on_blame_enriched(s, target, origins, remaining),
        AppMessageV::HistoryPageLoaded { filter, offset, result, .. } => on_history_page_loaded(s, filter, offset, result),
        AppMessageV::BranchesLoaded { result, .. } => on_branches_loaded(s, result),
        AppMessageV::BranchHealthEnriched { result, .. } => on_branch_health_enriched(s, result),
        AppMessageV::DivergenceLoaded { left, right, result, .. } => on_divergence_loaded(s, left, right, result),
        AppMessageV::WorktreesLoaded { result, .. } => on_worktrees_loaded(s, result),
        AppMessageV::StageCompleted { result, .. } => on_stage_completed(s, result),
        AppMessageV::UnstageCompleted { result, .. } => on_unstage_completed(s, result),
        AppMessageV::CommitCompleted { result, .. } => on_commit_completed(s, result),
        AppMessageV::CheckoutCompleted { result, .. } => on_checkout_completed(s, result),
        AppMessageV::BranchCreated { result, .. } => on_branch_created(s, result),
        AppMessageV::BranchDeleted { result, .. } => on_branch_deleted(s, result),
        AppMessageV::UpstreamSet { result, .. } => on_upstream_set(s, result),
        AppMessageV::WorktreeCreated { result, .. } => on_worktree_created(s, result),
        AppMessageV::WorktreeRemoved { result, .. } => on_worktree_removed(s, result),
        AppMessageV::StashesLoaded { result, .. } => on_stashes_loaded(s, result),
        AppMessageV::StashDiffLoaded { index, result, .. } => on_stash_diff_loaded(s, index, result),
        AppMessageV::StashSaved { result, .. } => on_stash_saved(s, result),
        AppMessageV::StashApplied { result, .. } => on_stash_applied(s, result),
        AppMessageV::StashPopped { result, .. } => on_stash_popped(s, result),
        AppMessageV::StashDropped { result, .. } => on_stash_dropped(s, result),
        AppMessageV::WorkerFault { detail, .. } => on_worker_fault(s, detail),
        AppMessageV::CommitDetailLoaded { oid, result, .. } => on_commit_detail_loaded(s, oid, result),
        AppMessageV::CommitFileDiffLoaded { oid, path, result, .. } => on_commit_file_diff_loaded(s, oid, path, result),
        AppMessageV::RemoteCompleted { op, result, .. } => on_remote_completed(s, op, result),
    }
}

#[verifier::opaque]
pub open spec fn on_repository_opened(s: AppStateV, result: Result<crate::app::message::RepositoryDataV, Seq<char>>) -> Step {
    let g = s.generation;
    match result {
        Ok(data) => issue(
            AppStateV {
                repository: RepositoryStateV {
                    status: RepositoryStatusV::Ready,
                    head: data.head,
                    ..s.repository
                },
                ..s
            },
            seq![
                CommandV::LoadStatus { generation: g },
                CommandV::LoadBranches { generation: g },
                CommandV::LoadWorktrees { generation: g },
                CommandV::LoadHistoryPage { filter: s.history.filter, offset: 0, generation: g },
            ],
        ),
        Err(err) => fail(
            AppStateV {
                repository: RepositoryStateV {
                    status: RepositoryStatusV::Error(err),
                    ..s.repository
                },
                ..s
            },
            err,
        ),
    }
}

#[verifier::opaque]
pub open spec fn on_status_loaded(s: AppStateV, result: Result<crate::app::message::StatusDataV, Seq<char>>) -> Step {
    match result {
        Ok(st) => stay(
            AppStateV {
                changes: ChangesStateV {
                    staged: st.staged,
                    unstaged: st.unstaged,
                    untracked: st.untracked,
                    conflicted: st.conflicted,
                    loaded: true,
                },
                repository: RepositoryStateV { origin_web: st.origin_web, ..s.repository },
                ..s
            },
        ),
        Err(err) => if is_fatal_repo_error(err) {
            fail(
                AppStateV {
                    repository: RepositoryStateV {
                        status: RepositoryStatusV::Error(err),
                        ..s.repository
                    },
                    ..s
                },
                err,
            )
        } else {
            fail(s, err)
        },
    }
}

/// Whether `a` is a target for the same side and, by components, the same
/// path as `b`.
pub open spec fn same_target(a: Option<DiffTargetV>, b: DiffTargetV) -> bool {
    match a {
        Some(t) => t.staged == b.staged && same_path(t.path, b.path),
        None => false,
    }
}

/// Whether `a` is, by components, the path `b`.
pub open spec fn is_path(a: Option<Seq<char>>, b: Seq<char>) -> bool {
    match a {
        Some(p) => same_path(p, b),
        None => false,
    }
}

#[verifier::opaque]
pub open spec fn on_diff_loaded(s: AppStateV, result: Result<DiffContentV, Seq<char>>) -> Step {
    let g = s.generation;
    match result {
        Ok(content) => if same_target(s.diff.target, content.target) {
            let lines = old_lines_of(content);
            let s1 = AppStateV {
                diff: DiffStateV { content: LoadableV::Ready(content), ..s.diff },
                ..s
            };
            if lines.len() == 0 {
                issue(s1, Seq::empty())
            } else {
                let (first, rest) = blame_phases(lines);
                issue(
                    s1,
                    seq![
                        CommandV::EnrichBlame {
                            target: content.target,
                            lines: first,
                            remaining: rest,
                            generation: g,
                        },
                    ],
                )
            }
        } else {
            issue(s, Seq::empty())
        },
        Err(err) => if s.diff.content is Loading {
            stay(AppStateV { diff: DiffStateV { content: LoadableV::Failed(err), ..s.diff }, ..s })
        } else {
            stay(s)
        },
    }
}

#[verifier::opaque]
pub open spec fn on_blame_enriched(s: AppStateV, target: DiffTargetV, origins: Map<u32, CommitSummaryV>, remaining: Seq<u32>) -> Step {
    let g = s.generation;
    {
            let s1 = if same_target(s.diff.target, target) {
                match s.diff.content {
                    LoadableV::Ready(c) => AppStateV {
                        diff: DiffStateV {
                            content: LoadableV::Ready(content_with_origins(c, origins)),
                            ..s.diff
                        },
                        ..s
                    },
                    _ => s,
                }
            } else {
                s
            };
            if remaining.len() == 0 {
                stay(s1)
            } else {
                let (first, rest) = blame_phases(remaining);
                issue(
                    s1,
                    seq![
                        CommandV::EnrichBlame {
                            target,
                            lines: first,
                            remaining: rest,
                            generation: g,
                        },
                    ],
                )
            }
        }
}

#[verifier::opaque]
pub open spec fn on_history_page_loaded(s: AppStateV, filter: HistoryFilterV, offset: usize, result: Result<Seq<CommitSummaryV>, Seq<char>>) -> Step {
    {
            let h = HistoryStateV { loading: false, filter, ..s.history };
            match result {
                Ok(commits) => stay(
                    AppStateV {
                        history: HistoryStateV {
                            has_more: commits.len() >= HISTORY_PAGE,
                            commits: if offset == 0 {
                                commits
                            } else {
                                h.commits + commits
                            },
                            ..h
                        },
                        ..s
                    },
                ),
                Err(err) => fail(AppStateV { history: h, ..s }, err),
            }
        }
}

#[verifier::opaque]
pub open spec fn on_branches_loaded(s: AppStateV, result: Result<crate::app::message::BranchesDataV, Seq<char>>) -> Step {
    let g = s.generation;
    match result {
        Ok(data) => {
            let s1 = AppStateV {
                branch: BranchStateV {
                    branches: data.branches,
                    current: data.current,
                    recent: data.recent,
                    merged_into_base: data.merged_into_base,
                    loaded: true,
                    ..s.branch
                },
                ..s
            };
            if data.pending_health.len() == 0 {
                stay(s1)
            } else {
                issue(
                    s1,
                    seq![CommandV::EnrichBranchHealth { names: data.pending_health, generation: g }],
                )
            }
        },
        Err(err) => fail(s, err),
    }
}

#[verifier::opaque]
pub open spec fn on_branch_health_enriched(s: AppStateV, result: Result<Seq<BranchHealthUpdateV>, Seq<char>>) -> Step {
    match result {
        Ok(updates) => stay(
            AppStateV {
                branch: BranchStateV {
                    branches: apply_health_updates(s.branch.branches, updates),
                    ..s.branch
                },
                ..s
            },
        ),
        Err(err) => fail(s, err),
    }
}

#[verifier::opaque]
pub open spec fn on_divergence_loaded(s: AppStateV, left: Seq<char>, right: Seq<char>, result: Result<crate::app::message::DivergenceDataV, Seq<char>>) -> Step {
    {
            let d = DivergenceStateV {
                loading: false,
                left: Some(left),
                right: Some(right),
                ..s.divergence
            };
            match result {
                Ok(data) => stay(
                    AppStateV {
                        divergence: DivergenceStateV {
                            merge_base: data.merge_base,
                            left_only: data.left_only,
                            right_only: data.right_only,
                            ..d
                        },
                        ..s
                    },
                ),
                Err(err) => fail(AppStateV { divergence: d, ..s }, err),
            }
        }
}

#[verifier::opaque]
pub open spec fn on_worktrees_loaded(s: AppStateV, result: Result<Seq<crate::app::model::WorktreeInfoV>, Seq<char>>) -> Step {
    match result {
        Ok(ws) => stay(AppStateV { worktree: WorktreeStateV { worktrees: ws, loaded: true }, ..s }),
        Err(err) => fail(s, err),
    }
}

#[verifier::opaque]
pub open spec fn on_stage_completed(s: AppStateV, result: Result<(), Seq<char>>) -> Step {
    stage_done(s, result)
}

#[verifier::opaque]
pub open spec fn on_unstage_completed(s: AppStateV, result: Result<(), Seq<char>>) -> Step {
    stage_done(s, result)
}

#[verifier::opaque]
pub open spec fn on_commit_completed(s: AppStateV, result: Result<Seq<char>, Seq<char>>) -> Step {
    let ui = s.ui;
    match result {
        Ok(oid) => {
            let s1 = bump_after_head_change(
                AppStateV {
                    ui: UiStateV { commit_message: Seq::empty(), ..ui },
                    repository: RepositoryStateV {
                        head: HeadInfoV { oid: Some(oid), ..s.repository.head },
                        ..s.repository
                    },
                    ..s
                },
            );
            issue(s1, head_reloads(s1, false))
        },
        Err(err) => fail(s, err),
    }
}

#[verifier::opaque]
pub open spec fn on_checkout_completed(s: AppStateV, result: Result<HeadInfoV, Seq<char>>) -> Step {
    match result {
        Ok(head) => {
            let s1 = bump_after_head_change(
                AppStateV {
                    repository: RepositoryStateV { head, ..s.repository },
                    selection: SelectionStateV { file: None, ..s.selection },
                    diff: empty_diff_state(),
                    ..s
                },
            );
            issue(s1, head_reloads(s1, true))
        },
        Err(err) => fail(s, err),
    }
}

#[verifier::opaque]
pub open spec fn on_branch_created(s: AppStateV, result: Result<(), Seq<char>>) -> Step {
    branch_op_done(s, result)
}

#[verifier::opaque]
pub open spec fn on_branch_deleted(s: AppStateV, result: Result<(), Seq<char>>) -> Step {
    branch_op_done(s, result)
}

#[verifier::opaque]
pub open spec fn on_upstream_set(s: AppStateV, result: Result<(), Seq<char>>) -> Step {
    branch_op_done(s, result)
}

#[verifier::opaque]
pub open spec fn on_worktree_created(s: AppStateV, result: Result<crate::app::model::WorktreeInfoV, Seq<char>>) -> Step {
    let g = s.generation;
    let ui = s.ui;
    match result {
        Ok(info) => issue(
            with_ui(
                s,
                UiStateV {
                    confirm_remove_worktree: None,
                    pending_open_worktree: if ui.open_after_instant_worktree {
                        Some(info.path)
                    } else {
                        ui.pending_open_worktree
                    },
                    ..ui
                },
            ),
            seq![CommandV::LoadWorktrees { generation: g }],
        ),
        Err(err) => fail(s, err),
    }
}

#[verifier::opaque]
pub open spec fn on_worktree_removed(s: AppStateV, result: Result<(), Seq<char>>) -> Step {
    let g = s.generation;
    let ui = s.ui;
    match result {
        Ok(_) => issue(
            with_ui(s, UiStateV { confirm_remove_worktree: None, ..ui }),
            seq![CommandV::LoadWorktrees { generation: g }],
        ),
        Err(err) => fail(s, err),
    }
}

#[verifier::opaque]
pub open spec fn on_stashes_loaded(s: AppStateV, result: Result<Seq<crate::git::service::StashEntryV>, Seq<char>>) -> Step {
    match result {
        Ok(entries) => {
            let keep = match s.stash.selected {
                Some(sel) => exists|i: int|
                    0 <= i < entries.len() && #[trigger] entries[i].index == sel,
                None => true,
            };
            stay(
                AppStateV {
                    stash: if keep {
                        StashStateV { entries, loaded: true, ..s.stash }
                    } else {
                        StashStateV {
                            entries,
                            loaded: true,
                            selected: None,
                            diff: LoadableV::Idle,
                        }
                    },
                    ..s
                },
            )
        },
        Err(err) => fail(s, err),
    }
}

#[verifier::opaque]
pub open spec fn on_stash_diff_loaded(s: AppStateV, index: usize, result: Result<DiffContentV, Seq<char>>) -> Step {
    if s.stash.selected == Some(index) {
            stay(
                AppStateV {
                    stash: StashStateV {
                        diff: match result {
                            Ok(c) => LoadableV::Ready(c),
                            Err(e) => LoadableV::Failed(e),
                        },
                        ..s.stash
                    },
                    ..s
                },
            )
        } else {
            stay(s)
        }
}

#[verifier::opaque]
pub open spec fn on_stash_saved(s: AppStateV, result: Result<(), Seq<char>>) -> Step {
    stash_done(s, result, false)
}

#[verifier::opaque]
pub open spec fn on_stash_applied(s: AppStateV, result: Result<(), Seq<char>>) -> Step {
    stash_done(s, result, false)
}

#[verifier::opaque]
pub open spec fn on_stash_popped(s: AppStateV, result: Result<(), Seq<char>>) -> Step {
    stash_done(s, result, false)
}

#[verifier::opaque]
pub open spec fn on_stash_dropped(s: AppStateV, result: Result<(), Seq<char>>) -> Step {
    stash_done(s, result, true)
}

#[verifier::opaque]
pub open spec fn on_worker_fault(s: AppStateV, detail: Seq<char>) -> Step {
    fail(s, detail)
}

#[verifier::opaque]
pub open spec fn on_commit_detail_loaded(s: AppStateV, oid: Seq<char>, result: Result<crate::git::commit_detail::CommitDetailV, Seq<char>>) -> Step {
    if s.selection.commit == Some(oid) {
            stay(
                AppStateV {
                    context: ContextStateV {
                        commit: match result {
                            Ok(d) => LoadableV::Ready(d),
                            Err(e) => LoadableV::Failed(e),
                        },
                        ..s.context
                    },
                    ..s
                },
            )
        } else {
            stay(s)
        }
}

#[verifier::opaque]
pub open spec fn on_commit_file_diff_loaded(s: AppStateV, oid: Seq<char>, path: Seq<char>, result: Result<DiffContentV, Seq<char>>) -> Step {
    if s.selection.commit == Some(
            oid,
        ) && is_path(s.context.selected_file, path) {
            stay(
                AppStateV {
                    context: ContextStateV {
                        file_diff: match result {
                            Ok(c) => LoadableV::Ready(c),
                            Err(e) => LoadableV::Failed(e),
                        },
                        ..s.context
                    },
                    ..s
                },
            )
        } else {
            stay(s)
        }
}

#[verifier::opaque]
pub open spec fn on_remote_completed(s: AppStateV, op: RemoteOp, result: Result<Option<HeadInfoV>, Seq<char>>) -> Step {
    let g = s.generation;
    {
            let s1 = AppStateV {
                background: BackgroundTaskStateV { remote_label: None, ..s.background },
                ..s
            };
            match result {
                Ok(head) => match op {
                    RemoteOp::Pull => {
                        let s2 = bump_after_head_change(
                            match head {
                                Some(h) => AppStateV {
                                    repository: RepositoryStateV { head: h, ..s1.repository },
                                    ..s1
                                },
                                None => s1,
                            },
                        );
                        issue(s2, head_reloads(s2, true))
                    },
                    RemoteOp::Fetch => issue(
                        s1,
                        seq![
                            CommandV::LoadBranches { generation: g },
                            CommandV::LoadStatus { generation: g },
                        ],
                    ),
                    RemoteOp::Push => issue(s1, seq![CommandV::LoadBranches { generation: g }]),
                },
                Err(err) => fail(s1, err),
            }
        }
}

/// After a file stage or unstage: reload the status (and the shown diff on
/// success); on failure the reload rolls the optimistic move back.
pub open spec fn stage_done(s: AppStateV, result: Result<(), Seq<char>>) -> Step {
    let g = s.generation;
    match result {
        Err(err) => issue(with_error(s, err), seq![CommandV::LoadStatus { generation: g }]),
        Ok(_) => match s.diff.target {
            Some(target) => issue(
                s,
                seq![
                    CommandV::LoadStatus { generation: g },
                    CommandV::LoadDiff { target, generation: g },
                ],
            ),
            None => issue(s, seq![CommandV::LoadStatus { generation: g }]),
        },
    }
}

pub open spec fn branch_op_done(s: AppStateV, result: Result<(), Seq<char>>) -> Step {
    match result {
        Ok(_) => issue(
            with_ui(s, UiStateV { confirm_delete_branch: None, ..s.ui }),
            seq![CommandV::LoadBranches { generation: s.generation }],
        ),
        Err(err) => fail(s, err),
    }
}

pub open spec fn stash_done(s: AppStateV, result: Result<(), Seq<char>>, dropped: bool) -> Step {
    match result {
        Ok(_) => {
            let ui = if dropped {
                UiStateV { confirm_drop_stash: None, ..s.ui }
            } else {
                s.ui
            };
            issue(
                AppStateV {
                    ui,
                    stash: StashStateV { selected: None, diff: LoadableV::Idle, ..s.stash },
                    ..s
                },
                seq![
                    CommandV::LoadStatus { generation: s.generation },
                    CommandV::LoadStashes { generation: s.generation },
                ],
            )
        },
        Err(err) => fail(s, err),
    }
}

/// What a worker message does: it always completes one in-flight command;
/// a message from an older generation changes nothing else.
pub open spec fn apply_of(s: AppStateV, m: AppMessageV) -> Step {
    let s1 = AppStateV {
        background: BackgroundTaskStateV {
            inflight: if s.background.inflight > 0 {
                (s.background.inflight - 1) as u32
            } else {
                0
            },
            ..s.background
        },
        ..s
    };
    if crate::app::message::message_generation(m) != s.generation {
        stay(s1)
    } else {
        apply_current(s1, m)
    }
}

} // verus!
