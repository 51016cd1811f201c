//! Handlers for worker messages: each one does what the matching
//! transition function of [`crate::app::transition`] says.
use std::collections::HashMap;
use vstd::prelude::*;

use crate::app::command::{Command, CommandV};
use crate::app::message::{
    AppMessage, BranchHealthUpdate, BranchesData, DivergenceData, RemoteOp, RepositoryData, StatusData,
};
use crate::app::model::{
    BranchInfo, CommitSummary, DiffContent, DiffHunk, DiffLine, DiffTarget, HeadInfo, Loadable,
    Oid, WorktreeInfo,
};
use crate::app::reducer::{issue, none, one, set_error, step_is};
use crate::app::state::{AppState, RepositoryStatus};
use crate::app::transition::{self, HISTORY_PAGE};
use crate::dup::{vec_clear, vec_extend, vec_push, Dup};
use crate::git::commit_detail::CommitDetail;
use crate::git::service::StashEntry;
use crate::text::{chars_of, contains_str, str_eq, to_lowercase};

verus! {

broadcast use vstd::std_specs::hash::group_hash_axioms;

fn fail_with(state: &mut AppState, err: String) -> (r: Vec<Command>)
    ensures
        step_is(final(state).deep_view(), r.deep_view(), transition::fail(old(state).deep_view(), err@)),
{
    set_error(state, err);
    none()
}

fn target_is(a: &Option<DiffTarget>, b: &DiffTarget) -> (r: bool)
    ensures
        r == transition::same_target(a.deep_view(), b.deep_view()),
{
    match a {
        Some(t) => t.same(b),
        None => false,
    }
}

/// Whether a failure text says the repository is gone or unusable.
fn is_fatal_repo_error(err: &str) -> (r: bool)
    ensures
        r == transition::is_fatal_repo_error(err@),
{
    let lower = to_lowercase(err);
    is_fatal_lowered(lower.as_str())
}

/// Whether a lower-cased failure text says the repository is gone or unusable.
pub fn is_fatal_lowered(lower: &str) -> (r: bool)
    ensures
        r == transition::fatal_lowered(lower@),
{
    let lower = chars_of(lower);
    contains_str(&lower, "リポジトリではありません") || contains_str(&lower, "アクセスできません")
        || contains_str(&lower, "破損") || contains_str(&lower, "not a git repository")
        || contains_str(&lower, "no such file")
}

/// Inserts `x` into a sorted list of distinct values unless it is there.
fn insert_distinct(out: &mut Vec<u32>, x: u32)
    ensures
        final(out)@ == (if old(out)@.contains(x) {
            old(out)@
        } else {
            old(out)@.insert(transition::u32_pos(old(out)@, x, 0), x)
        }),
{
    let ghost t = out@;
    let mut j: usize = 0;
    while j < out.len() && !(x < out[j])
        invariant
            j <= out.len(),
            t == out@,
            transition::u32_pos(t, x, 0) == transition::u32_pos(t, x, j as int),
        decreases out.len() - j,
    {
        j = j + 1;
    }
    assert(transition::u32_pos(t, x, j as int) == j);
    let mut k: usize = 0;
    while k < out.len()
        invariant
            k <= out.len(),
            t == out@,
            forall|m: int| 0 <= m < k ==> t[m] != x,
        decreases out.len() - k,
    {
        if out[k] == x {
            assert(t.contains(x)) by {
                assert(t[k as int] == x);
            }
            return;
        }
        k = k + 1;
    }
    out.insert(j, x);
}

/// The distinct old-side line numbers of a diff, ascending.
fn old_lines(content: &DiffContent) -> (r: Vec<u32>)
    ensures
        r@ == transition::old_lines_of(content.deep_view()),
{
    let ghost hs = content.hunks.deep_view();
    let ghost pred = |l: crate::app::model::DiffLineV| l.old_line is Some;
    let ghost f = |l: crate::app::model::DiffLineV| l.old_line->0;
    let ghost mut acc: Seq<u32> = Seq::empty();
    let mut out: Vec<u32> = Vec::new();
    let mut k: usize = 0;
    while k < content.hunks.len()
        invariant
            k <= content.hunks.len(),
            hs == content.hunks.deep_view(),
            pred == (|l: crate::app::model::DiffLineV| l.old_line is Some),
            f == (|l: crate::app::model::DiffLineV| l.old_line->0),
            acc == transition::all_old_lines(hs.take(k as int)),
            out@ == transition::sorted_distinct(acc),
        decreases content.hunks.len() - k,
    {
        let h = &content.hunks[k];
        let ghost ls = h.lines.deep_view();
        let ghost base = acc;
        let mut j: usize = 0;
        assert(ls.take(0).filter(pred).map_values(f) =~= Seq::<u32>::empty());
        assert(base + Seq::<u32>::empty() =~= base);
        while j < h.lines.len()
            invariant
                j <= h.lines.len(),
                ls == h.lines.deep_view(),
                pred == (|l: crate::app::model::DiffLineV| l.old_line is Some),
                f == (|l: crate::app::model::DiffLineV| l.old_line->0),
                acc == base + ls.take(j as int).filter(pred).map_values(f),
                out@ == transition::sorted_distinct(acc),
            decreases h.lines.len() - j,
        {
            proof {
                assert(ls.take(j + 1) =~= ls.take(j as int).push(ls[j as int]));
                ls.take(j as int).lemma_filter_push(ls[j as int], pred);
            }
            match h.lines[j].old_line {
                Some(n) => {
                    proof {
                        let old_acc = acc;
                        acc = acc.push(n);
                        assert(acc.drop_last() =~= old_acc);
                        assert(ls.take(j as int).filter(pred).push(ls[j as int]).map_values(f)
                            =~= ls.take(j as int).filter(pred).map_values(f).push(n));
                        assert(acc =~= base + ls.take(j + 1).filter(pred).map_values(f));
                    }
                    insert_distinct(&mut out, n);
                },
                None => {},
            }
            j = j + 1;
        }
        proof {
            assert(ls.take(ls.len() as int) =~= ls);
            assert(hs.take(k + 1).drop_last() =~= hs.take(k as int));
            assert(hs.take(k + 1).last() == hs[k as int]);
        }
        k = k + 1;
    }
    assert(hs.take(hs.len() as int) =~= hs);
    out
}

/// The first blame phase and the rest.
fn split_phases(lines: Vec<u32>) -> (r: (Vec<u32>, Vec<u32>))
    ensures
        (r.0@, r.1@) == transition::blame_phases(lines@),
{
    if lines.len() <= transition::BLAME_FIRST_PHASE {
        (lines, Vec::new())
    } else {
        let mut first = lines;
        let rest = first.split_off(transition::BLAME_FIRST_PHASE);
        assert(first@ =~= lines@.take(transition::BLAME_FIRST_PHASE as int));
        assert(rest@ =~= lines@.skip(transition::BLAME_FIRST_PHASE as int));
        (first, rest)
    }
}

/// Fills in change origins from `origins` where a line has none.
fn with_origins(content: DiffContent, origins: &HashMap<u32, CommitSummary>) -> (r: DiffContent)
    ensures
        r.deep_view() == transition::content_with_origins(
            content.deep_view(),
            crate::app::message::origins_view(origins),
        ),
{
    let ghost om = crate::app::message::origins_view(origins);
    let ghost hs = content.hunks.deep_view();
    let mut hunks: Vec<DiffHunk> = Vec::new();
    let mut k: usize = 0;
    while k < content.hunks.len()
        invariant
            k <= content.hunks.len(),
            hs == content.hunks.deep_view(),
            om == crate::app::message::origins_view(origins),
            hunks.deep_view() == hs.take(k as int).map_values(
                |h: crate::app::model::DiffHunkV| transition::hunk_with_origins(h, om),
            ),
        decreases content.hunks.len() - k,
    {
        let h = &content.hunks[k];
        let ghost ls = h.lines.deep_view();
        let mut lines: Vec<DiffLine> = Vec::new();
        let mut j: usize = 0;
        while j < h.lines.len()
            invariant
                j <= h.lines.len(),
                ls == h.lines.deep_view(),
                om == crate::app::message::origins_view(origins),
                lines.deep_view() == ls.take(j as int).map_values(
                    |l: crate::app::model::DiffLineV| transition::line_with_origin(l, om),
                ),
            decreases h.lines.len() - j,
        {
            let l = &h.lines[j];
            let origin: Option<CommitSummary> = match &l.change_origin {
                Some(c) => Some(c.dup()),
                None => match l.old_line {
                    Some(n) => match origins.get(&n) {
                        Some(c) => Some(c.dup()),
                        None => None,
                    },
                    None => None,
                },
            };
            let nl = DiffLine {
                origin: l.origin,
                content: l.content.clone(),
                body_index: l.body_index,
                old_line: l.old_line,
                new_line: l.new_line,
                change_origin: origin,
            };
            assert(nl.deep_view() == transition::line_with_origin(ls[j as int], om));
            vec_push(&mut lines, nl);
            assert(ls.take(j + 1).map_values(
                |l: crate::app::model::DiffLineV| transition::line_with_origin(l, om),
            ) =~= ls.take(j as int).map_values(
                |l: crate::app::model::DiffLineV| transition::line_with_origin(l, om),
            ).push(transition::line_with_origin(ls[j as int], om)));
            j = j + 1;
        }
        assert(ls.take(ls.len() as int) =~= ls);
        let nh = DiffHunk { header: h.header.clone(), lines };
        assert(nh.deep_view() == transition::hunk_with_origins(hs[k as int], om));
        vec_push(&mut hunks, nh);
        assert(hs.take(k + 1).map_values(
            |h: crate::app::model::DiffHunkV| transition::hunk_with_origins(h, om),
        ) =~= hs.take(k as int).map_values(
            |h: crate::app::model::DiffHunkV| transition::hunk_with_origins(h, om),
        ).push(transition::hunk_with_origins(hs[k as int], om)));
        k = k + 1;
    }
    assert(hs.take(hs.len() as int) =~= hs);
    DiffContent { target: content.target, hunks, notice: content.notice }
}

fn enrich_blame(target: DiffTarget, lines: Vec<u32>, g: crate::app::model::Generation) -> (r: Vec<Command>)
    requires
        lines@.len() > 0,
    ensures
        r.deep_view() == seq![
            CommandV::EnrichBlame {
                target: target.deep_view(),
                lines: transition::blame_phases(lines@).0,
                remaining: transition::blame_phases(lines@).1,
                generation: g,
            },
        ],
{
    let (first, rest) = split_phases(lines);
    one(Command::EnrichBlame { target, lines: first, remaining: rest, generation: g })
}


fn repository_opened(state: &mut AppState, result: Result<RepositoryData, String>) -> (r: Vec<Command>)
    ensures
        step_is(final(state).deep_view(), r.deep_view(), transition::on_repository_opened(old(state).deep_view(), crate::dup::result_dv(result))),
{
    proof {
        reveal(transition::on_repository_opened);
    }
    match result {
        Ok(data) => {
            state.repository.status = RepositoryStatus::Ready;
            state.repository.head = data.head;
            let g = state.generation;
            let mut cmds: Vec<Command> = Vec::new();
            vec_push(&mut cmds, Command::LoadStatus { generation: g });
            vec_push(&mut cmds, Command::LoadBranches { generation: g });
            vec_push(&mut cmds, Command::LoadWorktrees { generation: g });
            vec_push(&mut cmds, Command::LoadHistoryPage { filter: state.history.filter.dup(), offset: 0, generation: g });
            assert(cmds.deep_view() =~= seq![
                CommandV::LoadStatus { generation: g },
                CommandV::LoadBranches { generation: g },
                CommandV::LoadWorktrees { generation: g },
                CommandV::LoadHistoryPage { filter: state.deep_view().history.filter, offset: 0, generation: g },
            ]);
            issue(state, cmds)
        },
        Err(err) => {
            state.repository.status = RepositoryStatus::Error(err.clone());
            fail_with(state, err)
        },
    }
}

fn status_loaded(state: &mut AppState, result: Result<StatusData, String>) -> (r: Vec<Command>)
    ensures
        step_is(final(state).deep_view(), r.deep_view(), transition::on_status_loaded(old(state).deep_view(), crate::dup::result_dv(result))),
{
    proof {
        reveal(transition::on_status_loaded);
    }
    match result {
        Ok(st) => {
            state.changes.staged = st.staged;
            state.changes.unstaged = st.unstaged;
            state.changes.untracked = st.untracked;
            state.changes.conflicted = st.conflicted;
            state.changes.loaded = true;
            state.repository.origin_web = st.origin_web;
            none()
        },
        Err(err) => {
            if is_fatal_repo_error(err.as_str()) {
                state.repository.status = RepositoryStatus::Error(err.clone());
            }
            fail_with(state, err)
        },
    }
}

fn diff_loaded(state: &mut AppState, result: Result<DiffContent, String>) -> (r: Vec<Command>)
    ensures
        step_is(final(state).deep_view(), r.deep_view(), transition::on_diff_loaded(old(state).deep_view(), crate::dup::result_dv(result))),
{
    proof {
        reveal(transition::on_diff_loaded);
    }
    let g = state.generation;
    match result {
        Ok(content) => {
            if target_is(&state.diff.target, &content.target) {
                let lines = old_lines(&content);
                let target = content.target.dup();
                state.diff.content = Loadable::Ready(content);
                if lines.len() == 0 {
                    issue(state, none())
                } else {
                    let cmds = enrich_blame(target, lines, g);
                    issue(state, cmds)
                }
            } else {
                issue(state, none())
            }
        },
        Err(err) => {
            if state.diff.content.is_loading() {
                state.diff.content = Loadable::Failed(err);
            }
            none()
        },
    }
}

fn blame_enriched(
    state: &mut AppState,
    target: DiffTarget,
    origins: HashMap<u32, CommitSummary>,
    remaining: Vec<u32>,
) -> (r: Vec<Command>)
    ensures
        step_is(
            final(state).deep_view(),
            r.deep_view(),
            transition::on_blame_enriched(
                old(state).deep_view(),
                target.deep_view(),
                crate::app::message::origins_view(&origins),
                remaining@,
            ),
        ),
{
    proof {
        reveal(transition::on_blame_enriched);
    }
    if target_is(&state.diff.target, &target) {
        let mut cur: Loadable<DiffContent> = Loadable::Idle;
        std::mem::swap(&mut cur, &mut state.diff.content);
        match cur {
            Loadable::Ready(c) => {
                state.diff.content = Loadable::Ready(with_origins(c, &origins));
            },
            other => {
                state.diff.content = other;
            },
        }
    }
    if remaining.len() == 0 {
        none()
    } else {
        let g = state.generation;
        let cmds = enrich_blame(target, remaining, g);
        issue(state, cmds)
    }
}

fn history_page_loaded(
    state: &mut AppState,
    filter: crate::app::state::HistoryFilter,
    offset: usize,
    result: Result<Vec<CommitSummary>, String>,
) -> (r: Vec<Command>)
    ensures
        step_is(
            final(state).deep_view(),
            r.deep_view(),
            transition::on_history_page_loaded(old(state).deep_view(), filter.deep_view(), offset, crate::dup::result_dv(result)),
        ),
{
    proof {
        reveal(transition::on_history_page_loaded);
    }
    state.history.loading = false;
    state.history.filter = filter;
    match result {
        Ok(commits) => {
            state.history.has_more = commits.len() >= HISTORY_PAGE;
            if offset == 0 {
                state.history.commits = commits;
            } else {
                vec_extend(&mut state.history.commits, commits);
            }
            none()
        },
        Err(err) => fail_with(state, err),
    }
}

fn branches_loaded(state: &mut AppState, result: Result<BranchesData, String>) -> (r: Vec<Command>)
    ensures
        step_is(final(state).deep_view(), r.deep_view(), transition::on_branches_loaded(old(state).deep_view(), crate::dup::result_dv(result))),
{
    proof {
        reveal(transition::on_branches_loaded);
    }
    match result {
        Ok(data) => {
            state.branch.branches = data.branches;
            state.branch.current = data.current;
            state.branch.recent = data.recent;
            state.branch.merged_into_base = data.merged_into_base;
            state.branch.loaded = true;
            if data.pending_health.len() == 0 {
                none()
            } else {
                let g = state.generation;
                issue(state, one(Command::EnrichBranchHealth { names: data.pending_health, generation: g }))
            }
        },
        Err(err) => fail_with(state, err),
    }
}

pub(crate) fn branch_name_index(bs: &Vec<BranchInfo>, name: &String) -> (r: Option<usize>)
    ensures
        r matches Some(i) ==> i < bs.len(),
        r matches Some(i) ==> transition::index_of(
            bs.deep_view().map_values(|b: crate::app::model::BranchInfoV| b.name),
            name@,
        ) == Some(i as int),
        r is None ==> transition::index_of(
            bs.deep_view().map_values(|b: crate::app::model::BranchInfoV| b.name),
            name@,
        ) is None,
{
    let ghost s = bs.deep_view().map_values(|b: crate::app::model::BranchInfoV| b.name);
    let mut i: usize = 0;
    while i < bs.len()
        invariant
            i <= bs.len(),
            s == bs.deep_view().map_values(|b: crate::app::model::BranchInfoV| b.name),
            transition::index_of(s, name@) == transition::index_from(s, name@, i as int),
        decreases bs.len() - i,
    {
        if str_eq(bs[i].name.as_str(), name.as_str()) {
            return Some(i);
        }
        i = i + 1;
    }
    None
}

fn branch_health_enriched(state: &mut AppState, result: Result<Vec<BranchHealthUpdate>, String>) -> (r: Vec<Command>)
    ensures
        step_is(final(state).deep_view(), r.deep_view(), transition::on_branch_health_enriched(old(state).deep_view(), crate::dup::result_dv(result))),
{
    proof {
        reveal(transition::on_branch_health_enriched);
    }
    match result {
        Ok(updates) => {
            let ghost orig = state.branch.branches.deep_view();
            let ghost us = updates.deep_view();
            let mut i: usize = 0;
            while i < updates.len()
                invariant
                    i <= updates.len(),
                    us == updates.deep_view(),
                    state.branch.branches.deep_view() == transition::apply_health_updates(orig, us.take(i as int)),
                    state.deep_view() == (crate::app::state::AppStateV {
                        branch: crate::app::state::BranchStateV {
                            branches: state.branch.branches.deep_view(),
                            ..old(state).deep_view().branch
                        },
                        ..old(state).deep_view()
                    }),
                decreases updates.len() - i,
            {
                let u = &updates[i];
                proof {
                    assert(us.take(i + 1).drop_last() =~= us.take(i as int));
                }
                match branch_name_index(&state.branch.branches, &u.name) {
                    Some(k) => {
                        let b = &state.branch.branches[k];
                        let nb = BranchInfo {
                            name: b.name.clone(),
                            upstream: b.upstream.dup(),
                            health: u.health,
                            ahead: u.ahead,
                            behind: u.behind,
                            last_commit: b.last_commit.dup(),
                            is_remote: b.is_remote,
                            stale_days: b.stale_days,
                        };
                        let ghost before = state.branch.branches.deep_view();
                        state.branch.branches.set(k, nb);
                        assert(state.branch.branches.deep_view() =~= before.update(k as int, nb.deep_view()));
                    },
                    None => {},
                }
                i = i + 1;
            }
            assert(us.take(us.len() as int) =~= us);
            none()
        },
        Err(err) => fail_with(state, err),
    }
}

fn divergence_loaded(state: &mut AppState, left: String, right: String, result: Result<DivergenceData, String>) -> (r: Vec<Command>)
    ensures
        step_is(final(state).deep_view(), r.deep_view(), transition::on_divergence_loaded(old(state).deep_view(), left@, right@, crate::dup::result_dv(result))),
{
    proof {
        reveal(transition::on_divergence_loaded);
    }
    state.divergence.loading = false;
    state.divergence.left = Some(left);
    state.divergence.right = Some(right);
    match result {
        Ok(data) => {
            state.divergence.merge_base = data.merge_base;
            state.divergence.left_only = data.left_only;
            state.divergence.right_only = data.right_only;
            none()
        },
        Err(err) => fail_with(state, err),
    }
}

fn worktrees_loaded(state: &mut AppState, result: Result<Vec<WorktreeInfo>, String>) -> (r: Vec<Command>)
    ensures
        step_is(final(state).deep_view(), r.deep_view(), transition::on_worktrees_loaded(old(state).deep_view(), crate::dup::result_dv(result))),
{
    proof {
        reveal(transition::on_worktrees_loaded);
    }
    match result {
        Ok(ws) => {
            state.worktree.worktrees = ws;
            state.worktree.loaded = true;
            none()
        },
        Err(err) => fail_with(state, err),
    }
}

fn stage_done(state: &mut AppState, result: Result<(), String>) -> (r: Vec<Command>)
    ensures
        step_is(final(state).deep_view(), r.deep_view(), transition::stage_done(old(state).deep_view(), crate::dup::result_dv(result))),
{
    let g = state.generation;
    match result {
        Err(err) => {
            set_error(state, err);
            issue(state, one(Command::LoadStatus { generation: g }))
        },
        Ok(()) => match &state.diff.target {
            Some(t) => {
                let target = t.dup();
                let mut cmds: Vec<Command> = Vec::new();
                vec_push(&mut cmds, Command::LoadStatus { generation: g });
                vec_push(&mut cmds, Command::LoadDiff { target, generation: g });
                assert(cmds.deep_view() =~= seq![
                    CommandV::LoadStatus { generation: g },
                    CommandV::LoadDiff { target: target.deep_view(), generation: g },
                ]);
                issue(state, cmds)
            },
            None => issue(state, one(Command::LoadStatus { generation: g })),
        },
    }
}

/// A new generation and the HEAD-dependent views invalidated.
fn bump_after_head_change(state: &mut AppState)
    ensures
        final(state).deep_view() == transition::bump_after_head_change(old(state).deep_view()),
{
    state.generation = state.generation.next();
    state.diff.content = Loadable::Idle;
    vec_clear(&mut state.history.commits);
    state.history.has_more = true;
    state.history.loading = false;
}

fn head_reloads(state: &AppState, branches_first: bool) -> (r: Vec<Command>)
    ensures
        r.deep_view() == transition::head_reloads(state.deep_view(), branches_first),
{
    let g = state.generation;
    let page = Command::LoadHistoryPage { filter: state.history.filter.dup(), offset: 0, generation: g };
    let mut cmds: Vec<Command> = Vec::new();
    vec_push(&mut cmds, Command::LoadStatus { generation: g });
    if branches_first {
        vec_push(&mut cmds, Command::LoadBranches { generation: g });
        vec_push(&mut cmds, page);
    } else {
        vec_push(&mut cmds, page);
        vec_push(&mut cmds, Command::LoadBranches { generation: g });
    }
    assert(cmds.deep_view() =~= transition::head_reloads(state.deep_view(), branches_first));
    cmds
}

fn commit_completed(state: &mut AppState, result: Result<Oid, String>) -> (r: Vec<Command>)
    ensures
        step_is(final(state).deep_view(), r.deep_view(), transition::on_commit_completed(old(state).deep_view(), crate::dup::result_dv(result))),
{
    proof {
        reveal(transition::on_commit_completed);
    }
    match result {
        Ok(oid) => {
            state.ui.commit_message = String::new();
            state.repository.head.oid = Some(oid);
            bump_after_head_change(state);
            let cmds = head_reloads(state, false);
            issue(state, cmds)
        },
        Err(err) => fail_with(state, err),
    }
}

fn checkout_completed(state: &mut AppState, result: Result<HeadInfo, String>) -> (r: Vec<Command>)
    ensures
        step_is(final(state).deep_view(), r.deep_view(), transition::on_checkout_completed(old(state).deep_view(), crate::dup::result_dv(result))),
{
    proof {
        reveal(transition::on_checkout_completed);
    }
    match result {
        Ok(head) => {
            state.repository.head = head;
            state.selection.file = None;
            state.diff = crate::app::state::DiffState::new();
            bump_after_head_change(state);
            let cmds = head_reloads(state, true);
            issue(state, cmds)
        },
        Err(err) => fail_with(state, err),
    }
}

fn branch_op_done(state: &mut AppState, result: Result<(), String>) -> (r: Vec<Command>)
    ensures
        step_is(final(state).deep_view(), r.deep_view(), transition::branch_op_done(old(state).deep_view(), crate::dup::result_dv(result))),
{
    match result {
        Ok(()) => {
            state.ui.confirm_delete_branch = None;
            let g = state.generation;
            issue(state, one(Command::LoadBranches { generation: g }))
        },
        Err(err) => fail_with(state, err),
    }
}

fn worktree_created(state: &mut AppState, result: Result<WorktreeInfo, String>) -> (r: Vec<Command>)
    ensures
        step_is(final(state).deep_view(), r.deep_view(), transition::on_worktree_created(old(state).deep_view(), crate::dup::result_dv(result))),
{
    proof {
        reveal(transition::on_worktree_created);
    }
    match result {
        Ok(info) => {
            state.ui.confirm_remove_worktree = None;
            if state.ui.open_after_instant_worktree {
                state.ui.pending_open_worktree = Some(info.path);
            }
            let g = state.generation;
            issue(state, one(Command::LoadWorktrees { generation: g }))
        },
        Err(err) => fail_with(state, err),
    }
}

fn worktree_removed(state: &mut AppState, result: Result<(), String>) -> (r: Vec<Command>)
    ensures
        step_is(final(state).deep_view(), r.deep_view(), transition::on_worktree_removed(old(state).deep_view(), crate::dup::result_dv(result))),
{
    proof {
        reveal(transition::on_worktree_removed);
    }
    match result {
        Ok(()) => {
            state.ui.confirm_remove_worktree = None;
            let g = state.generation;
            issue(state, one(Command::LoadWorktrees { generation: g }))
        },
        Err(err) => fail_with(state, err),
    }
}

fn has_stash_index(entries: &Vec<StashEntry>, sel: usize) -> (r: bool)
    ensures
        r == exists|i: int| 0 <= i < entries.deep_view().len() && #[trigger] entries.deep_view()[i].index == sel,
{
    let mut i: usize = 0;
    while i < entries.len()
        invariant
            i <= entries.len(),
            forall|k: int| 0 <= k < i ==> #[trigger] entries.deep_view()[k].index != sel,
        decreases entries.len() - i,
    {
        if entries[i].index == sel {
            assert(entries.deep_view()[i as int].index == sel);
            return true;
        }
        i = i + 1;
    }
    false
}

fn stashes_loaded(state: &mut AppState, result: Result<Vec<StashEntry>, String>) -> (r: Vec<Command>)
    ensures
        step_is(final(state).deep_view(), r.deep_view(), transition::on_stashes_loaded(old(state).deep_view(), crate::dup::result_dv(result))),
{
    proof {
        reveal(transition::on_stashes_loaded);
    }
    match result {
        Ok(entries) => {
            let keep = match state.stash.selected {
                Some(sel) => has_stash_index(&entries, sel),
                None => true,
            };
            state.stash.entries = entries;
            state.stash.loaded = true;
            if !keep {
                state.stash.selected = None;
                state.stash.diff = Loadable::Idle;
            }
            none()
        },
        Err(err) => fail_with(state, err),
    }
}

fn stash_diff_loaded(state: &mut AppState, index: usize, result: Result<DiffContent, String>) -> (r: Vec<Command>)
    ensures
        step_is(final(state).deep_view(), r.deep_view(), transition::on_stash_diff_loaded(old(state).deep_view(), index, crate::dup::result_dv(result))),
{
    proof {
        reveal(transition::on_stash_diff_loaded);
    }
    if state.stash.selected == Some(index) {
        state.stash.diff = match result {
            Ok(c) => Loadable::Ready(c),
            Err(e) => Loadable::Failed(e),
        };
    }
    none()
}

fn stash_done(state: &mut AppState, result: Result<(), String>, dropped: bool) -> (r: Vec<Command>)
    ensures
        step_is(final(state).deep_view(), r.deep_view(), transition::stash_done(old(state).deep_view(), crate::dup::result_dv(result), dropped)),
{
    match result {
        Ok(()) => {
            if dropped {
                state.ui.confirm_drop_stash = None;
            }
            state.stash.selected = None;
            state.stash.diff = Loadable::Idle;
            let g = state.generation;
            let mut cmds: Vec<Command> = Vec::new();
            vec_push(&mut cmds, Command::LoadStatus { generation: g });
            vec_push(&mut cmds, Command::LoadStashes { generation: g });
            assert(cmds.deep_view() =~= seq![
                CommandV::LoadStatus { generation: g },
                CommandV::LoadStashes { generation: g },
            ]);
            issue(state, cmds)
        },
        Err(err) => fail_with(state, err),
    }
}

fn commit_detail_loaded(state: &mut AppState, oid: Oid, result: Result<CommitDetail, String>) -> (r: Vec<Command>)
    ensures
        step_is(final(state).deep_view(), r.deep_view(), transition::on_commit_detail_loaded(old(state).deep_view(), oid.deep_view(), crate::dup::result_dv(result))),
{
    proof {
        reveal(transition::on_commit_detail_loaded);
    }
    if crate::app::reducer::same_oid(&state.selection.commit, &oid) {
        state.context.commit = match result {
            Ok(d) => Loadable::Ready(d),
            Err(e) => Loadable::Failed(e),
        };
    }
    none()
}

fn selected_is(a: &Option<String>, b: &String) -> (r: bool)
    ensures
        r == transition::is_path(a.deep_view(), b@),
{
    match a {
        Some(x) => crate::path::same_path_exec(x.as_str(), b.as_str()),
        None => false,
    }
}

fn commit_file_diff_loaded(state: &mut AppState, oid: Oid, path: String, result: Result<DiffContent, String>) -> (r: Vec<Command>)
    ensures
        step_is(final(state).deep_view(), r.deep_view(), transition::on_commit_file_diff_loaded(old(state).deep_view(), oid.deep_view(), path@, crate::dup::result_dv(result))),
{
    proof {
        reveal(transition::on_commit_file_diff_loaded);
    }
    if crate::app::reducer::same_oid(&state.selection.commit, &oid) && selected_is(&state.context.selected_file, &path) {
        state.context.file_diff = match result {
            Ok(c) => Loadable::Ready(c),
            Err(e) => Loadable::Failed(e),
        };
    }
    none()
}

fn remote_completed(state: &mut AppState, op: RemoteOp, result: Result<Option<HeadInfo>, String>) -> (r: Vec<Command>)
    ensures
        step_is(final(state).deep_view(), r.deep_view(), transition::on_remote_completed(old(state).deep_view(), op, crate::dup::result_dv(result))),
{
    proof {
        reveal(transition::on_remote_completed);
    }
    state.background.remote_label = None;
    match result {
        Ok(head) => match op {
            RemoteOp::Pull => {
                match head {
                    Some(h) => {
                        state.repository.head = h;
                    },
                    None => {},
                }
                bump_after_head_change(state);
                let cmds = head_reloads(state, true);
                issue(state, cmds)
            },
            RemoteOp::Fetch => {
                let g = state.generation;
                let mut cmds: Vec<Command> = Vec::new();
                vec_push(&mut cmds, Command::LoadBranches { generation: g });
                vec_push(&mut cmds, Command::LoadStatus { generation: g });
                assert(cmds.deep_view() =~= seq![
                    CommandV::LoadBranches { generation: g },
                    CommandV::LoadStatus { generation: g },
                ]);
                issue(state, cmds)
            },
            RemoteOp::Push => {
                let g = state.generation;
                issue(state, one(Command::LoadBranches { generation: g }))
            },
        },
        Err(err) => fail_with(state, err),
    }
}


fn stage_completed(state: &mut AppState, result: Result<(), String>) -> (r: Vec<Command>)
    ensures
        step_is(final(state).deep_view(), r.deep_view(), transition::on_stage_completed(old(state).deep_view(), crate::dup::result_dv(result))),
{
    proof {
        reveal(transition::on_stage_completed);
    }
    stage_done(state, result)
}

fn unstage_completed(state: &mut AppState, result: Result<(), String>) -> (r: Vec<Command>)
    ensures
        step_is(final(state).deep_view(), r.deep_view(), transition::on_unstage_completed(old(state).deep_view(), crate::dup::result_dv(result))),
{
    proof {
        reveal(transition::on_unstage_completed);
    }
    stage_done(state, result)
}

fn branch_created(state: &mut AppState, result: Result<(), String>) -> (r: Vec<Command>)
    ensures
        step_is(final(state).deep_view(), r.deep_view(), transition::on_branch_created(old(state).deep_view(), crate::dup::result_dv(result))),
{
    proof {
        reveal(transition::on_branch_created);
    }
    branch_op_done(state, result)
}

fn branch_deleted(state: &mut AppState, result: Result<(), String>) -> (r: Vec<Command>)
    ensures
        step_is(final(state).deep_view(), r.deep_view(), transition::on_branch_deleted(old(state).deep_view(), crate::dup::result_dv(result))),
{
    proof {
        reveal(transition::on_branch_deleted);
    }
    branch_op_done(state, result)
}

fn upstream_set(state: &mut AppState, result: Result<(), String>) -> (r: Vec<Command>)
    ensures
        step_is(final(state).deep_view(), r.deep_view(), transition::on_upstream_set(old(state).deep_view(), crate::dup::result_dv(result))),
{
    proof {
        reveal(transition::on_upstream_set);
    }
    branch_op_done(state, result)
}

fn stash_saved(state: &mut AppState, result: Result<(), String>) -> (r: Vec<Command>)
    ensures
        step_is(final(state).deep_view(), r.deep_view(), transition::on_stash_saved(old(state).deep_view(), crate::dup::result_dv(result))),
{
    proof {
        reveal(transition::on_stash_saved);
    }
    stash_done(state, result, false)
}

fn stash_applied(state: &mut AppState, result: Result<(), String>) -> (r: Vec<Command>)
    ensures
        step_is(final(state).deep_view(), r.deep_view(), transition::on_stash_applied(old(state).deep_view(), crate::dup::result_dv(result))),
{
    proof {
        reveal(transition::on_stash_applied);
    }
    stash_done(state, result, false)
}

fn stash_popped(state: &mut AppState, result: Result<(), String>) -> (r: Vec<Command>)
    ensures
        step_is(final(state).deep_view(), r.deep_view(), transition::on_stash_popped(old(state).deep_view(), crate::dup::result_dv(result))),
{
    proof {
        reveal(transition::on_stash_popped);
    }
    stash_done(state, result, false)
}

fn stash_dropped(state: &mut AppState, result: Result<(), String>) -> (r: Vec<Command>)
    ensures
        step_is(final(state).deep_view(), r.deep_view(), transition::on_stash_dropped(old(state).deep_view(), crate::dup::result_dv(result))),
{
    proof {
        reveal(transition::on_stash_dropped);
    }
    stash_done(state, result, true)
}

fn worker_fault(state: &mut AppState, detail: String) -> (r: Vec<Command>)
    ensures
        step_is(final(state).deep_view(), r.deep_view(), transition::on_worker_fault(old(state).deep_view(), detail@)),
{
    proof {
        reveal(transition::on_worker_fault);
    }
    fail_with(state, detail)
}

/// What a message from the current generation does.
#[verifier::rlimit(100)]
#[verifier::spinoff_prover]
pub(crate) fn apply_current(state: &mut AppState, message: AppMessage) -> (r: Vec<Command>)
    ensures
        step_is(
            final(state).deep_view(),
            r.deep_view(),
            transition::apply_current(old(state).deep_view(), message.deep_view()),
        ),
{
    match message {
        AppMessage::RepositoryOpened { result, .. } => repository_opened(state, result),
        AppMessage::StatusLoaded { result, .. } => status_loaded(state, result),
        AppMessage::DiffLoaded { result, .. } => diff_loaded(state, result),
        AppMessage::BlameEnriched { target, origins, remaining, .. } => blame_enriched(state, target, origins, remaining),
        AppMessage::HistoryPageLoaded { filter, offset, result, .. } => history_page_loaded(state, filter, offset, result),
        AppMessage::BranchesLoaded { result, .. } => branches_loaded(state, result),
        AppMessage::BranchHealthEnriched { result, .. } => branch_health_enriched(state, result),
        AppMessage::DivergenceLoaded { left, right, result, .. } => divergence_loaded(state, left, right, result),
        AppMessage::WorktreesLoaded { result, .. } => worktrees_loaded(state, result),
        AppMessage::StageCompleted { result, .. } => stage_completed(state, result),
        AppMessage::UnstageCompleted { result, .. } => unstage_completed(state, result),
        AppMessage::CommitCompleted { result, .. } => commit_completed(state, result),
        AppMessage::CheckoutCompleted { result, .. } => checkout_completed(state, result),
        AppMessage::BranchCreated { result, .. } => branch_created(state, result),
        AppMessage::BranchDeleted { result, .. } => branch_deleted(state, result),
        AppMessage::UpstreamSet { result, .. } => upstream_set(state, result),
        AppMessage::WorktreeCreated { result, .. } => worktree_created(state, result),
        AppMessage::WorktreeRemoved { result, .. } => worktree_removed(state, result),
        AppMessage::StashesLoaded { result, .. } => stashes_loaded(state, result),
        AppMessage::StashDiffLoaded { index, result, .. } => stash_diff_loaded(state, index, result),
        AppMessage::StashSaved { result, .. } => stash_saved(state, result),
        AppMessage::StashApplied { result, .. } => stash_applied(state, result),
        AppMessage::StashPopped { result, .. } => stash_popped(state, result),
        AppMessage::StashDropped { result, .. } => stash_dropped(state, result),
        AppMessage::WorkerFault { detail, .. } => worker_fault(state, detail),
        AppMessage::CommitDetailLoaded { oid, result, .. } => commit_detail_loaded(state, oid, result),
        AppMessage::CommitFileDiffLoaded { oid, path, result, .. } => commit_file_diff_loaded(state, oid, path, result),
        AppMessage::RemoteCompleted { op, result, .. } => remote_completed(state, op, result),
    }
}
} // verus!
