//! Properties that hold of every transition of the reducer.
//!
//! * Every command is issued under the generation of the state it leaves
//!   behind, so that its result is recognised as current exactly until the
//!   repository context changes.
//! * The generation only moves forward: opening or closing a repository
//!   starts a fresh state under the next generation, a HEAD change after a
//!   commit, checkout or pull moves to the next generation, and nothing else
//!   changes it.
//! * The in-flight count grows by the number of issued commands (a fresh
//!   state counts only its own), and every worker message takes one off.
//! * A message from an older generation changes nothing but that count.
use vstd::prelude::*;

use crate::app::command::{command_generation, CommandV};
use crate::app::event::UiEventV;
use crate::app::message::{message_generation, AppMessageV, RemoteOp};
use crate::app::model::{next_generation, Generation};
use crate::app::palette::{action_event, PaletteActionV};
use crate::app::state::{AppStateV, BackgroundTaskStateV};
use crate::app::transition::{self, sat_add, Step};

verus! {

/// Every command carries generation `g`.
pub open spec fn issued_under(cmds: Seq<CommandV>, g: Generation) -> bool {
    forall|i: int| 0 <= i < cmds.len() ==> command_generation(#[trigger] cmds[i]) == g
}

/// The step keeps the generation, counts its commands as in flight and
/// issues them under the current generation.
pub open spec fn keeps(s: AppStateV, st: Step) -> bool {
    &&& st.state.generation == s.generation
    &&& st.state.repository.recent == s.repository.recent
    &&& st.state.background.inflight == sat_add(s.background.inflight, st.cmds.len())
    &&& issued_under(st.cmds, s.generation)
}

/// The step starts a fresh state under the next generation, whose in-flight
/// count is exactly its own commands.
pub open spec fn restarts(s: AppStateV, st: Step) -> bool {
    &&& st.state.generation == next_generation(s.generation)
    &&& st.state.background.inflight == st.cmds.len()
    &&& issued_under(st.cmds, st.state.generation)
}

/// The step keeps the generation or moves to the next one, counts its
/// commands as in flight and issues them under the generation it leaves.
pub open spec fn advances(s: AppStateV, st: Step) -> bool {
    &&& (st.state.generation == s.generation || st.state.generation == next_generation(s.generation))
    &&& st.state.background.inflight == sat_add(s.background.inflight, st.cmds.len())
    &&& issued_under(st.cmds, st.state.generation)
}

/// Opening or closing a repository.
pub open spec fn is_restart(e: UiEventV) -> bool {
    e is OpenRepository || e is CloseRepository
}

proof fn lemma_issue(s: AppStateV, cmds: Seq<CommandV>)
    requires
        issued_under(cmds, s.generation),
    ensures
        keeps(s, transition::issue(s, cmds)),
{
}

proof fn lemma_stay(s: AppStateV)
    ensures
        keeps(s, transition::stay(s)),
{
}

proof fn lemma_one(c: CommandV, g: Generation)
    requires
        command_generation(c) == g,
    ensures
        issued_under(seq![c], g),
{
    let cs = seq![c];
    assert forall|i: int| 0 <= i < cs.len() implies command_generation(#[trigger] cs[i]) == g by {
        assert(i == 0);
    }
}

proof fn lemma_two(a: CommandV, b: CommandV, g: Generation)
    requires
        command_generation(a) == g,
        command_generation(b) == g,
    ensures
        issued_under(seq![a, b], g),
{
    let cs = seq![a, b];
    assert forall|i: int| 0 <= i < cs.len() implies command_generation(#[trigger] cs[i]) == g by {
        assert(i == 0 || i == 1);
    }
}

proof fn lemma_three(a: CommandV, b: CommandV, c: CommandV, g: Generation)
    requires
        command_generation(a) == g,
        command_generation(b) == g,
        command_generation(c) == g,
    ensures
        issued_under(seq![a, b, c], g),
{
    let cs = seq![a, b, c];
    assert forall|i: int| 0 <= i < cs.len() implies command_generation(#[trigger] cs[i]) == g by {
        assert(i == 0 || i == 1 || i == 2);
    }
}

proof fn lemma_four(a: CommandV, b: CommandV, c: CommandV, d: CommandV, g: Generation)
    requires
        command_generation(a) == g,
        command_generation(b) == g,
        command_generation(c) == g,
        command_generation(d) == g,
    ensures
        issued_under(seq![a, b, c, d], g),
{
    let cs = seq![a, b, c, d];
    assert forall|i: int| 0 <= i < cs.len() implies command_generation(#[trigger] cs[i]) == g by {
        assert(i == 0 || i == 1 || i == 2 || i == 3);
    }
}

proof fn lemma_lazy_load(s: AppStateV, view: crate::app::model::View)
    ensures
        keeps(s, transition::lazy_load_view(s, view)),
{
    reveal(transition::lazy_load_view);
    let g = s.generation;
    lemma_one(CommandV::LoadHistoryPage { filter: s.history.filter, offset: 0, generation: g }, g);
    lemma_one(CommandV::LoadBranches { generation: g }, g);
    lemma_one(CommandV::LoadWorktrees { generation: g }, g);
    lemma_one(CommandV::LoadStashes { generation: g }, g);
}

proof fn lemma_select_file(s: AppStateV, path: Seq<char>, staged: bool)
    ensures
        keeps(s, transition::select_file(s, path, staged)),
{
    reveal(transition::select_file);
    lemma_one(
        CommandV::LoadDiff {
            target: crate::app::model::DiffTargetV { path, staged },
            generation: s.generation,
        },
        s.generation,
    );
}

proof fn lemma_select_commit(s: AppStateV, oid: Seq<char>, record: bool)
    ensures
        keeps(s, transition::select_commit(s, oid, record)),
{
    reveal(transition::select_commit);
    lemma_one(CommandV::LoadCommitDetail { oid, generation: s.generation }, s.generation);
}

proof fn lemma_navigate_commit(s: AppStateV, delta: i32)
    ensures
        keeps(s, transition::navigate_commit(s, delta)),
{
    reveal(transition::navigate_commit);
    let nav = s.navigation;
    if delta < 0 && nav.commit_back.len() > 0 {
        let fwd = match s.selection.commit {
            Some(cur) => nav.commit_forward.push(cur),
            None => nav.commit_forward,
        };
        lemma_select_commit(
            transition::with_nav(
                s,
                crate::app::state::NavigationStateV {
                    commit_back: nav.commit_back.drop_last(),
                    commit_forward: fwd,
                    ..nav
                },
            ),
            nav.commit_back.last(),
            false,
        );
    } else if delta > 0 && nav.commit_forward.len() > 0 {
        let back = match s.selection.commit {
            Some(cur) => nav.commit_back.push(cur),
            None => nav.commit_back,
        };
        lemma_select_commit(
            transition::with_nav(
                s,
                crate::app::state::NavigationStateV {
                    commit_forward: nav.commit_forward.drop_last(),
                    commit_back: back,
                    ..nav
                },
            ),
            nav.commit_forward.last(),
            false,
        );
    }
}


proof fn lemma_select_view(s: AppStateV, view: crate::app::model::View)
    ensures
        keeps(s, transition::select_view(s, view)),
{
    reveal(transition::select_view);
    let s1 = if s.navigation.active_view != view {
        transition::with_nav(
            s,
            crate::app::state::NavigationStateV {
                back_stack: s.navigation.back_stack.push(s.navigation.active_view),
                active_view: view,
                ..s.navigation
            },
        )
    } else {
        s
    };
    lemma_lazy_load(s1, view);
}

proof fn lemma_stage_selected_lines(s: AppStateV, from_staged: bool)
    ensures
        keeps(s, transition::stage_selected_lines(s, from_staged)),
{
    reveal(transition::stage_selected_lines);
    if let Some(target) = s.diff.target {
        lemma_one(
            CommandV::StageLines {
                path: target.path,
                from_staged,
                lines: s.diff.selected_lines,
                generation: s.generation,
            },
            s.generation,
        );
    }
}

proof fn lemma_stage_file(s: AppStateV, path: Seq<char>)
    ensures
        keeps(s, transition::stage_file(s, path)),
        keeps(s, transition::unstage_file(s, path)),
{
    reveal(transition::stage_file);
    reveal(transition::unstage_file);
    lemma_one(CommandV::Stage { path, generation: s.generation }, s.generation);
    lemma_one(CommandV::Unstage { path, generation: s.generation }, s.generation);
}

proof fn lemma_group_repository(s: AppStateV, e: UiEventV)
    ensures
        is_restart(e) ==> restarts(s, transition::reduce_repository_of(s, e)),
        !is_restart(e) ==> keeps(s, transition::reduce_repository_of(s, e)),
{
    let g = s.generation;
    match e {
        UiEventV::OpenRepository(path) => {
            reveal(transition::on_open_repository);
            lemma_one(CommandV::OpenRepository { path, generation: next_generation(g) }, next_generation(g));
        },
        UiEventV::CloseRepository => {
            reveal(transition::on_close_repository);
        },
        UiEventV::SelectView(view) => lemma_select_view(s, view),
        UiEventV::ToggleContextPanel => {
            reveal(transition::on_toggle_context_panel);
        },
        UiEventV::SelectFile { path, staged } => lemma_select_file(s, path, staged),
        UiEventV::NavigateChanges { delta } => {
            reveal(transition::navigate_changes);
            let entries = transition::changes_entries(s.changes);
            if entries.len() > 0 {
                let current = match s.diff.target {
                    Some(t) => transition::entry_index_of(entries, t.path, t.staged),
                    None => None,
                };
                let next = match current {
                    Some(i) => transition::wrap_index(i, delta, entries.len() as int),
                    None => if delta >= 0 {
                        0
                    } else {
                        entries.len() - 1
                    },
                };
                lemma_select_file(s, entries[next].0, entries[next].1);
            }
        },
        UiEventV::SelectCommit(oid) => lemma_select_commit(s, oid, true),
        UiEventV::SelectCommitFile(path) => {
            reveal(transition::on_select_commit_file);
            if let Some(oid) = s.selection.commit {
                lemma_one(CommandV::LoadCommitFileDiff { oid, path, generation: g }, g);
            }
        },
        UiEventV::ClearCommitFileDiff => {
            reveal(transition::on_clear_commit_file_diff);
        },
        UiEventV::NavigateCommit { delta } => lemma_navigate_commit(s, delta),
        _ => {},
    }
}

proof fn lemma_group_navigation(s: AppStateV, e: UiEventV)
    ensures
        keeps(s, transition::reduce_navigation_of(s, e)),
{
    let g = s.generation;
    reveal(transition::on_ui);
    match e {
        UiEventV::SelectBranch(name) => {
            reveal(transition::on_select_branch);
        },
        UiEventV::SetBranchFilter(filter) => {
            reveal(transition::on_set_branch_filter);
        },
        UiEventV::SetUpstream { branch, upstream } => {
            reveal(transition::on_command);
            lemma_one(CommandV::SetUpstream { branch, upstream, generation: g }, g);
        },
        UiEventV::ShowDivergence { other } => {
            reveal(transition::on_show_divergence);
            let left = match s.repository.head.branch {
                Some(b) => b,
                None => match s.branch.current {
                    Some(c) => c,
                    None => "HEAD"@,
                },
            };
            lemma_one(CommandV::LoadDivergence { left, right: other, generation: g }, g);
        },
        UiEventV::ClearDivergence => {
            reveal(transition::on_clear_divergence);
        },
        UiEventV::NavigateHistory { delta } => {
            reveal(transition::navigate_history);
            let commits = s.history.commits;
            if commits.len() > 0 {
                let oids = commits.map_values(|c: crate::app::model::CommitSummaryV| c.oid);
                let current = match s.selection.commit {
                    Some(oid) => transition::index_of(oids, oid),
                    None => None,
                };
                let next = match current {
                    Some(i) => transition::wrap_index(i, delta, commits.len() as int),
                    None => if delta >= 0 {
                        0
                    } else {
                        commits.len() - 1
                    },
                };
                lemma_select_commit(s, commits[next].oid, true);
            }
        },
        UiEventV::Escape => {
            reveal(transition::reduce_escape);
            lemma_navigate_commit(s, -1i32);
            if s.navigation.back_stack.len() > 0 {
                let prev = s.navigation.back_stack.last();
                lemma_lazy_load(
                    transition::with_nav(
                        s,
                        crate::app::state::NavigationStateV {
                            back_stack: s.navigation.back_stack.drop_last(),
                            active_view: prev,
                            ..s.navigation
                        },
                    ),
                    prev,
                );
            }
        },
        UiEventV::DismissError => {
            reveal(transition::on_dismiss_error);
        },
        _ => {},
    }
}

proof fn lemma_group_diff(s: AppStateV, e: UiEventV)
    ensures
        keeps(s, transition::reduce_diff_of(s, e)),
{
    match e {
        UiEventV::SetDiffView(view) => {
            reveal(transition::on_set_diff_view);
        },
        UiEventV::ToggleHeatmap => {
            reveal(transition::on_toggle_heatmap);
        },
        UiEventV::NavigateHunk { delta } => {
            reveal(transition::on_navigate_hunk);
        },
        UiEventV::ToggleDiffLine(index) => {
            reveal(transition::on_toggle_diff_line);
        },
        UiEventV::ClearDiffLineSelection => {
            reveal(transition::on_clear_diff_line_selection);
        },
        UiEventV::StageSelectedLines => lemma_stage_selected_lines(s, false),
        UiEventV::UnstageSelectedLines => lemma_stage_selected_lines(s, true),
        UiEventV::StageFile(path) => lemma_stage_file(s, path),
        _ => {},
    }
}

proof fn lemma_group_staging(s: AppStateV, e: UiEventV)
    ensures
        keeps(s, transition::reduce_staging_of(s, e)),
{
    let g = s.generation;
    reveal(transition::on_ui);
    match e {
        UiEventV::UnstageFile(path) => lemma_stage_file(s, path),
        UiEventV::StageAll => {
            reveal(transition::on_stage_all);
            lemma_one(CommandV::StageAll { generation: g }, g);
        },
        UiEventV::UnstageAll => {
            reveal(transition::on_unstage_all);
            lemma_one(CommandV::UnstageAll { generation: g }, g);
        },
        UiEventV::ToggleStageSelection => {
            reveal(transition::on_toggle_stage_selection);
            if let Some(t) = s.diff.target {
                lemma_stage_file(s, t.path);
            }
        },
        UiEventV::StageFocusedHunk => {
            reveal(transition::stage_focused_hunk);
            if let crate::app::model::LoadableV::Ready(content) = s.diff.content {
                if s.diff.focused_hunk < content.hunks.len() {
                    let lines = transition::hunk_change_lines(content.hunks[s.diff.focused_hunk as int]);
                    lemma_stage_selected_lines(
                        AppStateV {
                            diff: crate::app::state::DiffStateV { selected_lines: lines, ..s.diff },
                            ..s
                        },
                        content.target.staged,
                    );
                }
            }
        },
        UiEventV::FocusCommitInput => {
            reveal(transition::on_focus_commit_input);
        },
        UiEventV::Commit => {
            reveal(transition::reduce_commit);
            lemma_one(CommandV::Commit { message: crate::text::trim(s.ui.commit_message), generation: g }, g);
        },
        _ => {},
    }
}

proof fn lemma_delete_commands(names: Seq<Seq<char>>, g: Generation)
    ensures
        issued_under(transition::delete_commands(names, g), g),
{
}

proof fn lemma_group_branch_ops(s: AppStateV, e: UiEventV)
    ensures
        keeps(s, transition::reduce_branch_ops_of(s, e)),
{
    let g = s.generation;
    reveal(transition::on_ui);
    match e {
        UiEventV::CreateBranch(name) => {
            reveal(transition::on_create_branch);
            lemma_one(CommandV::CreateBranch { name: crate::text::trim(name), generation: g }, g);
        },
        UiEventV::CheckoutBranch(name) => {
            reveal(transition::on_command);
            lemma_one(CommandV::Checkout { name, generation: g }, g);
        },
        UiEventV::RequestDeleteBranch(name) => {
            reveal(transition::on_request_delete_branch);
        },
        UiEventV::ConfirmDeleteBranch => {
            reveal(transition::on_confirm_delete_branch);
            if let Some(name) = s.ui.confirm_delete_branch {
                lemma_one(CommandV::DeleteBranch { name, generation: g }, g);
            }
        },
        UiEventV::OpenBranchCleanup => {
            reveal(transition::on_open_branch_cleanup);
        },
        UiEventV::ToggleCleanupBranch(name) => {
            reveal(transition::on_toggle_cleanup_branch);
        },
        UiEventV::ConfirmBranchCleanup => {
            reveal(transition::on_confirm_branch_cleanup);
            if let Some(c) = s.ui.branch_cleanup {
                lemma_delete_commands(c.selected, g);
            }
        },
        _ => {},
    }
}

proof fn lemma_group_worktrees(s: AppStateV, e: UiEventV)
    ensures
        keeps(s, transition::reduce_worktrees_of(s, e)),
{
    let g = s.generation;
    reveal(transition::on_ui);
    reveal(transition::on_remote);
    match e {
        UiEventV::Fetch => lemma_one(CommandV::Fetch { generation: g }, g),
        UiEventV::Pull => lemma_one(CommandV::Pull { generation: g }, g),
        UiEventV::Push => lemma_one(CommandV::Push { generation: g }, g),
        UiEventV::CreateWorktree { branch, path } => {
            reveal(transition::on_create_worktree);
            lemma_one(CommandV::CreateWorktree { branch, path, generation: g }, g);
        },
        UiEventV::InstantWorktree { branch } => {
            reveal(transition::instant_worktree);
            let b = crate::text::trim(branch);
            if let Some(repo) = s.repository.path {
                lemma_one(
                    CommandV::CreateWorktree {
                        branch: b,
                        path: crate::git::worktree::default_worktree_path_of(repo, b),
                        generation: g,
                    },
                    g,
                );
            }
        },
        UiEventV::ConfirmRemoveWorktree => {
            reveal(transition::on_confirm_remove_worktree);
            if let Some(path) = s.ui.confirm_remove_worktree {
                lemma_one(CommandV::RemoveWorktree { path, generation: g }, g);
            }
        },
        _ => {},
    }
}

proof fn lemma_group_stashes(s: AppStateV, e: UiEventV)
    ensures
        keeps(s, transition::reduce_stashes_of(s, e)),
{
    let g = s.generation;
    reveal(transition::on_ui);
    reveal(transition::on_command);
    match e {
        UiEventV::StashSave { message } => lemma_one(CommandV::StashSave { message, generation: g }, g),
        UiEventV::SelectStash(index) => {
            reveal(transition::on_select_stash);
            lemma_one(CommandV::LoadStashDiff { index, generation: g }, g);
        },
        UiEventV::StashApply(index) => lemma_one(CommandV::StashApply { index, generation: g }, g),
        UiEventV::StashPop(index) => lemma_one(CommandV::StashPop { index, generation: g }, g),
        UiEventV::ConfirmDropStash => {
            reveal(transition::on_confirm_drop_stash);
            if let Some(index) = s.ui.confirm_drop_stash {
                lemma_one(CommandV::StashDrop { index, generation: g }, g);
            }
        },
        UiEventV::LoadMoreHistory => {
            reveal(transition::on_load_more_history);
            lemma_one(
                CommandV::LoadHistoryPage {
                    filter: s.history.filter,
                    offset: s.history.commits.len() as usize,
                    generation: g,
                },
                g,
            );
        },
        UiEventV::ShowFileHistory { path } => {
            reveal(transition::show_history);
            lemma_one(
                CommandV::LoadHistoryPage {
                    filter: crate::app::state::HistoryFilterV::File { path },
                    offset: 0,
                    generation: g,
                },
                g,
            );
        },
        UiEventV::ShowLineHistory { path, line } => {
            reveal(transition::show_history);
            lemma_one(
                CommandV::LoadHistoryPage {
                    filter: crate::app::state::HistoryFilterV::Line { path, line },
                    offset: 0,
                    generation: g,
                },
                g,
            );
        },
        _ => {},
    }
}

proof fn lemma_group_overlay(s: AppStateV, e: UiEventV)
    ensures
        keeps(s, transition::reduce_overlay_of(s, e)),
{
    let g = s.generation;
    reveal(transition::on_overlay);
    match e {
        UiEventV::ClearHistoryFilter => {
            reveal(transition::on_clear_history_filter);
            lemma_one(
                CommandV::LoadHistoryPage {
                    filter: crate::app::state::HistoryFilterV::All,
                    offset: 0,
                    generation: g,
                },
                g,
            );
        },
        UiEventV::Search(query) => {
            reveal(transition::on_search);
        },
        UiEventV::SetOverlayQuery(query) => {
            reveal(transition::on_set_overlay_query);
        },
        UiEventV::NavigateOverlay { delta } => {
            reveal(transition::navigate_overlay);
        },
        _ => {},
    }
}

/// Every event but opening and closing a repository keeps the generation,
/// counts its commands as in flight and issues them under the current
/// generation; opening and closing start afresh under the next generation.
pub proof fn lemma_reduce_basic_generations(s: AppStateV, e: UiEventV)
    ensures
        is_restart(e) ==> restarts(s, transition::reduce_basic_of(s, e)),
        !is_restart(e) ==> keeps(s, transition::reduce_basic_of(s, e)),
{
    reveal(transition::reduce_basic_of);
    let k = transition::event_group(e);
    if k == 0 {
        lemma_group_repository(s, e);
    } else if k == 1 {
        lemma_group_navigation(s, e);
    } else if k == 2 {
        lemma_group_diff(s, e);
    } else if k == 3 {
        lemma_group_staging(s, e);
    } else if k == 4 {
        lemma_group_branch_ops(s, e);
    } else if k == 5 {
        lemma_group_worktrees(s, e);
    } else if k == 6 {
        lemma_group_stashes(s, e);
    } else {
        lemma_group_overlay(s, e);
    }
}


proof fn lemma_then(s: AppStateV, a: Step, b: Step)
    requires
        keeps(s, a),
        keeps(a.state, b),
    ensures
        keeps(s, Step { state: b.state, cmds: a.cmds + b.cmds }),
{
    let cs = a.cmds + b.cmds;
    assert forall|i: int| 0 <= i < cs.len() implies command_generation(#[trigger] cs[i]) == s.generation by {
        if i < a.cmds.len() {
            assert(cs[i] == a.cmds[i]);
        } else {
            assert(cs[i] == b.cmds[i - a.cmds.len()]);
        }
    }
}

proof fn lemma_confirm_overlay(s: AppStateV)
    ensures
        keeps(s, transition::confirm_overlay(s)) || restarts(s, transition::confirm_overlay(s)),
{
    reveal(transition::confirm_overlay);
    match s.ui.overlay {
        crate::app::state::OverlayV::Closed => {},
        crate::app::state::OverlayV::CommandPalette { query, selected } => {
            let cmds = crate::app::palette::filter_commands_of(query);
            if selected < cmds.len() {
                let action = cmds[selected as int].event;
                let s1 = transition::with_overlay(s, crate::app::state::OverlayV::Closed);
                match transition::conventional_type(action) {
                    Some(ty) => {
                        let next = crate::app::conventional::apply_type_of(s.ui.commit_message, ty);
                        let s2 = AppStateV {
                            navigation: crate::app::state::NavigationStateV {
                                context_panel_open: true,
                                active_view: crate::app::model::View::Changes,
                                ..s1.navigation
                            },
                            ui: crate::app::state::UiStateV {
                                commit_focus_token: if s.ui.commit_focus_token < u64::MAX {
                                    (s.ui.commit_focus_token + 1) as u64
                                } else {
                                    u64::MAX
                                },
                                ..s1.ui
                            },
                            ..s1
                        };
                        lemma_reduce_basic_generations(s2, UiEventV::SetCommitMessage(next));
                    },
                    None => {
                        lemma_reduce_basic_generations(s1, action_event(action));
                    },
                }
            }
        },
        crate::app::state::OverlayV::QuickOpen { query, selected } => {
            let items = crate::app::quick_open::filter_items_of(
                crate::app::quick_open::collect_items_of(s),
                query,
            );
            if selected < items.len() {
                let s1 = transition::with_overlay(s, crate::app::state::OverlayV::Closed);
                let ev = items[selected as int].event;
                match transition::view_for_item(ev) {
                    Some(v) => {
                        let first = transition::reduce_basic_of(s1, UiEventV::SelectView(v));
                        lemma_reduce_basic_generations(s1, UiEventV::SelectView(v));
                        lemma_reduce_basic_generations(first.state, ev);
                        lemma_then(s1, first, transition::reduce_basic_of(first.state, ev));
                    },
                    None => {
                        lemma_reduce_basic_generations(s1, ev);
                    },
                }
            }
        },
    }
}

/// Every user event either keeps the generation, counting its commands as
/// in flight, or (opening or closing a repository, also from the command
/// palette) starts a fresh state under the next generation; either way its
/// commands carry the generation of the state it leaves.
pub proof fn lemma_reduce_generations(s: AppStateV, e: UiEventV)
    ensures
        keeps(s, transition::reduce_of(s, e)) || restarts(s, transition::reduce_of(s, e)),
        is_restart(e) ==> restarts(s, transition::reduce_of(s, e)),
        issued_under(transition::reduce_of(s, e).cmds, transition::reduce_of(s, e).state.generation),
{
    match transition::overlay_confirmation(e) {
        Some(None) => lemma_confirm_overlay(s),
        Some(Some(index)) => lemma_confirm_overlay(transition::select_overlay_index(s, index)),
        None => lemma_reduce_basic_generations(s, e),
    }
}

/// An event other than opening or closing a repository, confirming the open
/// overlay or picking one of its entries (either of which may open or close
/// a repository) keeps the generation, issues its commands under it, counts
/// them as in flight, and leaves the list of recent repositories as it was.
pub proof fn lemma_reduce_keeps_recent(s: AppStateV, e: UiEventV)
    requires
        !is_restart(e),
        transition::overlay_confirmation(e) is None,
    ensures
        keeps(s, transition::reduce_of(s, e)),
        transition::reduce_of(s, e).state.repository.recent == s.repository.recent,
{
    lemma_reduce_basic_generations(s, e);
}

/// The in-flight count after one message: one command fewer (never below
/// zero).
pub open spec fn completed_one(s: AppStateV) -> AppStateV {
    AppStateV {
        background: BackgroundTaskStateV {
            inflight: if s.background.inflight > 0 {
                (s.background.inflight - 1) as u32
            } else {
                0
            },
            ..s.background
        },
        ..s
    }
}

/// A message from an older generation only completes its command: nothing
/// else changes and nothing is issued.
pub proof fn lemma_stale_message_dropped(s: AppStateV, m: AppMessageV)
    requires
        message_generation(m) != s.generation,
    ensures
        transition::apply_of(s, m).state == completed_one(s),
        transition::apply_of(s, m).cmds.len() == 0,
{
}

proof fn lemma_head_reloads(s: AppStateV, branches_first: bool)
    ensures
        issued_under(transition::head_reloads(s, branches_first), s.generation),
{
    let g = s.generation;
    let page = CommandV::LoadHistoryPage { filter: s.history.filter, offset: 0, generation: g };
    lemma_three(CommandV::LoadStatus { generation: g }, CommandV::LoadBranches { generation: g }, page, g);
    lemma_three(CommandV::LoadStatus { generation: g }, page, CommandV::LoadBranches { generation: g }, g);
}

proof fn lemma_apply_current(s: AppStateV, m: AppMessageV)
    ensures
        advances(s, transition::apply_current(s, m)),
{
    let g = s.generation;
    match m {
        AppMessageV::RepositoryOpened { result, .. } => {
            reveal(transition::on_repository_opened);
            lemma_four(
                CommandV::LoadStatus { generation: g },
                CommandV::LoadBranches { generation: g },
                CommandV::LoadWorktrees { generation: g },
                CommandV::LoadHistoryPage { filter: s.history.filter, offset: 0, generation: g },
                g,
            );
        },
        AppMessageV::StatusLoaded { .. } => {
            reveal(transition::on_status_loaded);
        },
        AppMessageV::DiffLoaded { result, .. } => {
            reveal(transition::on_diff_loaded);
            if let Ok(content) = result {
                let lines = transition::old_lines_of(content);
                let ph = transition::blame_phases(lines);
                lemma_one(
                    CommandV::EnrichBlame { target: content.target, lines: ph.0, remaining: ph.1, generation: g },
                    g,
                );
            }
        },
        AppMessageV::BlameEnriched { target, remaining, .. } => {
            reveal(transition::on_blame_enriched);
            let ph = transition::blame_phases(remaining);
            lemma_one(
                CommandV::EnrichBlame { target, lines: ph.0, remaining: ph.1, generation: g },
                g,
            );
        },
        AppMessageV::HistoryPageLoaded { .. } => {
            reveal(transition::on_history_page_loaded);
        },
        AppMessageV::BranchesLoaded { result, .. } => {
            reveal(transition::on_branches_loaded);
            if let Ok(data) = result {
                lemma_one(CommandV::EnrichBranchHealth { names: data.pending_health, generation: g }, g);
            }
        },
        AppMessageV::BranchHealthEnriched { .. } => {
            reveal(transition::on_branch_health_enriched);
        },
        AppMessageV::DivergenceLoaded { .. } => {
            reveal(transition::on_divergence_loaded);
        },
        AppMessageV::WorktreesLoaded { .. } => {
            reveal(transition::on_worktrees_loaded);
        },
        AppMessageV::StageCompleted { .. } | AppMessageV::UnstageCompleted { .. } => {
            reveal(transition::on_stage_completed);
            reveal(transition::on_unstage_completed);
            lemma_one(CommandV::LoadStatus { generation: g }, g);
            if let Some(target) = s.diff.target {
                lemma_two(CommandV::LoadStatus { generation: g }, CommandV::LoadDiff { target, generation: g }, g);
            }
        },
        AppMessageV::CommitCompleted { result, .. } => {
            reveal(transition::on_commit_completed);
            if let Ok(oid) = result {
                let s1 = transition::bump_after_head_change(
                    AppStateV {
                        ui: crate::app::state::UiStateV { commit_message: Seq::empty(), ..s.ui },
                        repository: crate::app::state::RepositoryStateV {
                            head: crate::app::model::HeadInfoV { oid: Some(oid), ..s.repository.head },
                            ..s.repository
                        },
                        ..s
                    },
                );
                lemma_head_reloads(s1, false);
            }
        },
        AppMessageV::CheckoutCompleted { result, .. } => {
            reveal(transition::on_checkout_completed);
            if let Ok(head) = result {
                let s1 = transition::bump_after_head_change(
                    AppStateV {
                        repository: crate::app::state::RepositoryStateV { head, ..s.repository },
                        selection: crate::app::state::SelectionStateV { file: None, ..s.selection },
                        diff: crate::app::state::empty_diff_state(),
                        ..s
                    },
                );
                lemma_head_reloads(s1, true);
            }
        },
        AppMessageV::BranchCreated { .. } | AppMessageV::BranchDeleted { .. } | AppMessageV::UpstreamSet { .. } => {
            reveal(transition::on_branch_created);
            reveal(transition::on_branch_deleted);
            reveal(transition::on_upstream_set);
            lemma_one(CommandV::LoadBranches { generation: g }, g);
        },
        AppMessageV::WorktreeCreated { .. } | AppMessageV::WorktreeRemoved { .. } => {
            reveal(transition::on_worktree_created);
            reveal(transition::on_worktree_removed);
            lemma_one(CommandV::LoadWorktrees { generation: g }, g);
        },
        AppMessageV::StashesLoaded { .. } => {
            reveal(transition::on_stashes_loaded);
        },
        AppMessageV::StashDiffLoaded { .. } => {
            reveal(transition::on_stash_diff_loaded);
        },
        AppMessageV::StashSaved { .. } | AppMessageV::StashApplied { .. } | AppMessageV::StashPopped { .. }
        | AppMessageV::StashDropped { .. } => {
            reveal(transition::on_stash_saved);
            reveal(transition::on_stash_applied);
            reveal(transition::on_stash_popped);
            reveal(transition::on_stash_dropped);
            lemma_two(CommandV::LoadStatus { generation: g }, CommandV::LoadStashes { generation: g }, g);
        },
        AppMessageV::WorkerFault { .. } => {
            reveal(transition::on_worker_fault);
        },
        AppMessageV::CommitDetailLoaded { .. } => {
            reveal(transition::on_commit_detail_loaded);
        },
        AppMessageV::CommitFileDiffLoaded { .. } => {
            reveal(transition::on_commit_file_diff_loaded);
        },
        AppMessageV::RemoteCompleted { op, result, .. } => {
            reveal(transition::on_remote_completed);
            let s1 = AppStateV {
                background: BackgroundTaskStateV { remote_label: None, ..s.background },
                ..s
            };
            if let Ok(head) = result {
                let s2 = transition::bump_after_head_change(
                    match head {
                        Some(h) => AppStateV {
                            repository: crate::app::state::RepositoryStateV { head: h, ..s1.repository },
                            ..s1
                        },
                        None => s1,
                    },
                );
                lemma_head_reloads(s2, true);
                lemma_two(CommandV::LoadBranches { generation: g }, CommandV::LoadStatus { generation: g }, g);
                lemma_one(CommandV::LoadBranches { generation: g }, g);
            }
        },
    }
}

/// A message of the current generation completes its command, counts the
/// commands it issues as in flight, issues them under the generation it
/// leaves, and keeps the generation or (after a commit, checkout or pull
/// moved HEAD) moves to the next one.
pub proof fn lemma_apply_generations(s: AppStateV, m: AppMessageV)
    requires
        message_generation(m) == s.generation,
    ensures
        advances(completed_one(s), transition::apply_of(s, m)),
{
    lemma_apply_current(completed_one(s), m);
}

} // verus!
