//! The reducer: the single place where state transitions happen.
//!
//! ```text
//! UI -> UiEvent -> [reduce] -> (state update + commands) -> worker
//!    -> AppMessage -> [apply] -> (state update + commands) -> re-render
//! ```
//!
//! [`reduce`] handles user events (optimistic updates and follow-up
//! commands); [`apply`] handles worker results and drops stale ones by
//! [`Generation`]. Each is proved to compute the transition functions of
//! [`crate::app::transition`].
use vstd::prelude::*;

use crate::app::command::Command;
use crate::app::event::UiEvent;
use crate::app::model::{ChangeKind, DiffTarget, FileChange, Generation, Loadable, Oid, View};
use crate::app::state::{AppState, AppStateV, HistoryFilter, Overlay};
use crate::app::transition::{self, Step};
use crate::dup::{vec_clear, vec_pop, vec_push, vec_remove, Dup};
use crate::text::str_eq;
#[allow(unused_imports)]
use vstd::view::View as _;

verus! {

/// The state and commands match a transition's outcome.
pub open spec fn step_is(state: AppStateV, cmds: Seq<crate::app::command::CommandV>, step: Step) -> bool {
    state == step.state && cmds == step.cmds
}

/// A single command.
pub(crate) fn one(c: Command) -> (r: Vec<Command>)
    ensures
        r.deep_view() == seq![c.deep_view()],
{
    let mut v: Vec<Command> = Vec::new();
    vec_push(&mut v, c);
    assert(v.deep_view() =~= seq![c.deep_view()]);
    v
}

/// No command.
pub(crate) fn none() -> (r: Vec<Command>)
    ensures
        r.deep_view() == Seq::<crate::app::command::CommandV>::empty(),
{
    let v: Vec<Command> = Vec::new();
    assert(v.deep_view() =~= Seq::<crate::app::command::CommandV>::empty());
    v
}

/// Registers the commands as in flight and returns them.
pub(crate) fn issue(state: &mut AppState, cmds: Vec<Command>) -> (r: Vec<Command>)
    ensures
        step_is(
            final(state).deep_view(),
            r.deep_view(),
            transition::issue(old(state).deep_view(), cmds.deep_view()),
        ),
{
    let n = cmds.len();
    let cur = state.background.inflight;
    let total: u32 = if n >= u32::MAX as usize {
        u32::MAX
    } else if n as u64 + cur as u64 > u32::MAX as u64 {
        u32::MAX
    } else {
        (n as u64 + cur as u64) as u32
    };
    state.background.inflight = total;
    cmds
}

/// Sets both the error banner and the last background error.
pub(crate) fn set_error(state: &mut AppState, message: String)
    ensures
        final(state).deep_view() == transition::with_error(old(state).deep_view(), message@),
{
    state.ui.copy_feedback = None;
    state.ui.error_banner = Some(message.clone());
    state.background.last_error = Some(message);
}

pub(crate) fn fail(state: &mut AppState, message: &str) -> (r: Vec<Command>)
    ensures
        step_is(final(state).deep_view(), r.deep_view(), transition::fail(old(state).deep_view(), message@)),
{
    set_error(state, String::from_str(message));
    none()
}

/// Loads a view's data the first time it is shown.
fn lazy_load_view(state: &mut AppState, view: View) -> (r: Vec<Command>)
    ensures
        step_is(
            final(state).deep_view(),
            r.deep_view(),
            transition::lazy_load_view(old(state).deep_view(), view),
        ),
{
    proof {
        reveal(transition::lazy_load_view);
    }
    let g = state.generation;
    match view {
        View::History => {
            if state.history.commits.len() == 0 && !state.history.loading {
                state.history.loading = true;
                let c = Command::LoadHistoryPage {
                    filter: state.history.filter.dup(),
                    offset: 0,
                    generation: g,
                };
                issue(state, one(c))
            } else {
                none()
            }
        },
        View::Branches => {
            if !state.branch.loaded {
                issue(state, one(Command::LoadBranches { generation: g }))
            } else {
                none()
            }
        },
        View::Worktrees => {
            if !state.worktree.loaded {
                issue(state, one(Command::LoadWorktrees { generation: g }))
            } else {
                none()
            }
        },
        View::Stashes => {
            if !state.stash.loaded {
                issue(state, one(Command::LoadStashes { generation: g }))
            } else {
                none()
            }
        },
        View::Changes => none(),
    }
}

fn select_view(state: &mut AppState, view: View) -> (r: Vec<Command>)
    ensures
        step_is(
            final(state).deep_view(),
            r.deep_view(),
            transition::select_view(old(state).deep_view(), view),
        ),
{
    proof {
        reveal(transition::select_view);
    }
    if state.navigation.active_view != view {
        let prev = state.navigation.active_view;
        state.navigation.back_stack.push(prev);
        state.navigation.active_view = view;
    }
    lazy_load_view(state, view)
}

fn select_file(state: &mut AppState, path: String, staged: bool) -> (r: Vec<Command>)
    ensures
        step_is(
            final(state).deep_view(),
            r.deep_view(),
            transition::select_file(old(state).deep_view(), path@, staged),
        ),
{
    proof {
        reveal(transition::select_file);
    }
    state.selection.file = Some(path.clone());
    let target = DiffTarget { path, staged };
    state.diff.target = Some(target.dup());
    state.diff.content = Loadable::Loading;
    state.diff.selected_lines.clear();
    state.diff.focused_hunk = 0;
    let g = state.generation;
    let c = Command::LoadDiff { target, generation: g };
    assert(state.deep_view().diff.selected_lines =~= Seq::<usize>::empty());
    issue(state, one(c))
}

pub(crate) fn same_oid(a: &Option<Oid>, b: &Oid) -> (r: bool)
    ensures
        r == (a.deep_view() == Some(b.deep_view())),
{
    match a {
        Some(x) => x.same(b),
        None => false,
    }
}

/// Records (when asked) and shows a commit, loading its detail.
fn select_commit(state: &mut AppState, oid: Oid, record: bool) -> (r: Vec<Command>)
    ensures
        step_is(
            final(state).deep_view(),
            r.deep_view(),
            transition::select_commit(old(state).deep_view(), oid.deep_view(), record),
        ),
{
    proof {
        reveal(transition::select_commit);
    }
    let g = state.generation;
    if record {
        match &state.selection.commit {
            Some(prev) => {
                if !prev.same(&oid) {
                    let p = prev.dup();
                    vec_push(&mut state.navigation.commit_back, p);
                    vec_clear(&mut state.navigation.commit_forward);
                }
            },
            None => {},
        }
    }
    state.selection.commit = Some(oid.dup());
    state.navigation.context_panel_open = true;
    state.context.commit = Loadable::Loading;
    state.context.selected_file = None;
    state.context.file_diff = Loadable::Idle;
    issue(state, one(Command::LoadCommitDetail { oid, generation: g }))
}

/// Browser-like back (negative) and forward (positive) through visited
/// commits.
fn navigate_commit(state: &mut AppState, delta: i32) -> (r: Vec<Command>)
    ensures
        step_is(
            final(state).deep_view(),
            r.deep_view(),
            transition::navigate_commit(old(state).deep_view(), delta),
        ),
{
    proof {
        reveal(transition::navigate_commit);
    }
    if delta < 0 {
        match vec_pop(&mut state.navigation.commit_back) {
            None => none(),
            Some(prev) => {
                match &state.selection.commit {
                    Some(cur) => {
                        let c = cur.dup();
                        vec_push(&mut state.navigation.commit_forward, c);
                    },
                    None => {},
                }
                select_commit(state, prev, false)
            },
        }
    } else if delta > 0 {
        match vec_pop(&mut state.navigation.commit_forward) {
            None => none(),
            Some(next) => {
                match &state.selection.commit {
                    Some(cur) => {
                        let c = cur.dup();
                        vec_push(&mut state.navigation.commit_back, c);
                    },
                    None => {},
                }
                select_commit(state, next, false)
            },
        }
    } else {
        none()
    }
}


/// `(cur + delta)` wrapped into `0..len`.
pub fn wrap_index(cur: usize, delta: i32, len: usize) -> (r: usize)
    requires
        len > 0,
    ensures
        r as int == transition::wrap_index(cur as int, delta, len as int),
        r < len,
{
    let x: i128 = cur as i128 + delta as i128;
    let l: u128 = len as u128;
    if x >= 0 {
        let r = (x as u128) % l;
        r as usize
    } else {
        let nx: u128 = (-x) as u128;
        let k = nx % l;
        proof {
            let q = (nx / l) as int;
            vstd::arithmetic::div_mod::lemma_fundamental_div_mod(nx as int, l as int);
            if k == 0 {
                assert(x == (-q) * (l as int) + 0) by (nonlinear_arith)
                    requires nx == q * l + k, k == 0, x == -(nx as int);
                vstd::arithmetic::div_mod::lemma_fundamental_div_mod_converse(
                    x as int, l as int, -q, 0);
            } else {
                assert(x == (-q - 1) * (l as int) + (l - k)) by (nonlinear_arith)
                    requires nx == q * l + k, x == -(nx as int);
                vstd::arithmetic::div_mod::lemma_fundamental_div_mod_converse(
                    x as int, l as int, -q - 1, (l - k) as int);
            }
        }
        if k == 0 {
            0
        } else {
            (l - k) as usize
        }
    }
}


fn push_entries(out: &mut Vec<(String, bool)>, fs: &Vec<FileChange>, staged: bool)
    ensures
        final(out).deep_view() == old(out).deep_view() + fs.deep_view().map_values(
            |f: crate::app::model::FileChangeV| (f.path, staged),
        ),
{
    let ghost start = out.deep_view();
    let ghost src = fs.deep_view();
    let mut i: usize = 0;
    while i < fs.len()
        invariant
            i <= fs.len(),
            src == fs.deep_view(),
            out.deep_view() == start + src.take(i as int).map_values(
                |f: crate::app::model::FileChangeV| (f.path, staged),
            ),
        decreases fs.len() - i,
    {
        vec_push(out, (fs[i].path.clone(), staged));
        assert(src.take(i + 1).map_values(|f: crate::app::model::FileChangeV| (f.path, staged))
            =~= src.take(i as int).map_values(
            |f: crate::app::model::FileChangeV| (f.path, staged),
        ).push((src[i as int].path, staged)));
        i = i + 1;
    }
    assert(src.take(src.len() as int) =~= src);
}

/// The flat Changes list: staged, conflicted, unstaged, untracked.
fn changes_entries(c: &crate::app::state::ChangesState) -> (r: Vec<(String, bool)>)
    ensures
        r.deep_view() == transition::changes_entries(c.deep_view()),
{
    let mut out: Vec<(String, bool)> = Vec::new();
    assert(out.deep_view() =~= Seq::<(Seq<char>, bool)>::empty());
    push_entries(&mut out, &c.staged, true);
    push_entries(&mut out, &c.conflicted, false);
    push_entries(&mut out, &c.unstaged, false);
    push_entries(&mut out, &c.untracked, false);
    assert(out.deep_view() =~= transition::changes_entries(c.deep_view()));
    out
}

fn entry_index(entries: &Vec<(String, bool)>, path: &String, staged: bool) -> (r: Option<usize>)
    ensures
        r matches Some(i) ==> i < entries.len(),
        r matches Some(i) ==> transition::entry_index_of(entries.deep_view(), path@, staged) == Some(
            i as int,
        ),
        r is None ==> transition::entry_index_of(entries.deep_view(), path@, staged) is None,
{
    let ghost s = entries.deep_view();
    let mut i: usize = 0;
    while i < entries.len()
        invariant
            i <= entries.len(),
            s == entries.deep_view(),
            transition::entry_index_of(s, path@, staged) == transition::entry_index_from(s, path@, staged, i as int),
        decreases entries.len() - i,
    {
        assert(s[i as int] == (entries@[i as int].0@, entries@[i as int].1));
        if entries[i].1 == staged && crate::path::same_path_exec(entries[i].0.as_str(), path.as_str()) {
            return Some(i);
        }
        i = i + 1;
    }
    None
}

fn navigate_changes(state: &mut AppState, delta: i32) -> (r: Vec<Command>)
    ensures
        step_is(
            final(state).deep_view(),
            r.deep_view(),
            transition::navigate_changes(old(state).deep_view(), delta),
        ),
{
    proof {
        reveal(transition::navigate_changes);
    }
    let entries = changes_entries(&state.changes);
    if entries.len() == 0 {
        return none();
    }
    let current = match &state.diff.target {
        Some(t) => entry_index(&entries, &t.path, t.staged),
        None => None,
    };
    let next: usize = match current {
        Some(i) => wrap_index(i, delta, entries.len()),
        None => if delta >= 0 {
            0
        } else {
            entries.len() - 1
        },
    };
    let path = entries[next].0.clone();
    let staged = entries[next].1;
    select_file(state, path, staged)
}

fn commit_index(commits: &Vec<crate::app::model::CommitSummary>, oid: &Oid) -> (r: Option<usize>)
    ensures
        r matches Some(i) ==> transition::index_of(
            commits.deep_view().map_values(|c: crate::app::model::CommitSummaryV| c.oid),
            oid.deep_view(),
        ) == Some(i as int),
        r is None ==> transition::index_of(
            commits.deep_view().map_values(|c: crate::app::model::CommitSummaryV| c.oid),
            oid.deep_view(),
        ) is None,
{
    let ghost s = commits.deep_view().map_values(|c: crate::app::model::CommitSummaryV| c.oid);
    let mut i: usize = 0;
    while i < commits.len()
        invariant
            i <= commits.len(),
            s == commits.deep_view().map_values(|c: crate::app::model::CommitSummaryV| c.oid),
            transition::index_of(s, oid.deep_view()) == transition::index_from(s, oid.deep_view(), i as int),
        decreases commits.len() - i,
    {
        if commits[i].oid.same(oid) {
            return Some(i);
        }
        i = i + 1;
    }
    None
}

fn navigate_history(state: &mut AppState, delta: i32) -> (r: Vec<Command>)
    ensures
        step_is(
            final(state).deep_view(),
            r.deep_view(),
            transition::navigate_history(old(state).deep_view(), delta),
        ),
{
    proof {
        reveal(transition::navigate_history);
    }
    let n = state.history.commits.len();
    if n == 0 {
        return none();
    }
    let current = match &state.selection.commit {
        Some(oid) => commit_index(&state.history.commits, oid),
        None => None,
    };
    let next: usize = match current {
        Some(i) => wrap_index(i, delta, n),
        None => if delta >= 0 {
            0
        } else {
            n - 1
        },
    };
    let oid = state.history.commits[next].oid.dup();
    select_commit(state, oid, true)
}

/// Line-level stage (or unstage) of the selected diff lines.
fn stage_selected_lines(state: &mut AppState, from_staged: bool) -> (r: Vec<Command>)
    ensures
        step_is(
            final(state).deep_view(),
            r.deep_view(),
            transition::stage_selected_lines(old(state).deep_view(), from_staged),
        ),
{
    proof {
        reveal(transition::stage_selected_lines);
    }
    let path = match &state.diff.target {
        None => {
            return fail(state, "差分が選択されていません");
        },
        Some(t) => t.path.clone(),
    };
    if state.diff.selected_lines.len() == 0 {
        return fail(state, "ステージする行が選択されていません");
    }
    let mut lines: Vec<usize> = Vec::new();
    std::mem::swap(&mut lines, &mut state.diff.selected_lines);
    let g = state.generation;
    issue(state, one(Command::StageLines { path, from_staged, lines, generation: g }))
}


fn path_index(fs: &Vec<FileChange>, path: &String) -> (r: Option<usize>)
    ensures
        r matches Some(i) ==> i < fs.len(),
        r matches Some(i) ==> transition::path_index_of(transition::paths_of(fs.deep_view()), path@)
            == Some(i as int),
        r is None ==> transition::path_index_of(transition::paths_of(fs.deep_view()), path@) is None,
{
    let ghost s = transition::paths_of(fs.deep_view());
    let mut i: usize = 0;
    while i < fs.len()
        invariant
            i <= fs.len(),
            s == transition::paths_of(fs.deep_view()),
            transition::path_index_of(s, path@) == transition::path_index_from(s, path@, i as int),
        decreases fs.len() - i,
    {
        assert(s[i as int] == fs@[i as int].path@);
        if crate::path::same_path_exec(fs[i].path.as_str(), path.as_str()) {
            return Some(i);
        }
        i = i + 1;
    }
    None
}

fn stage_file(state: &mut AppState, path: String) -> (r: Vec<Command>)
    ensures
        step_is(
            final(state).deep_view(),
            r.deep_view(),
            transition::stage_file(old(state).deep_view(), path@),
        ),
{
    proof {
        reveal(transition::stage_file);
    }
    match path_index(&state.changes.unstaged, &path) {
        Some(pos) => {
            let f = vec_remove(&mut state.changes.unstaged, pos);
            vec_push(&mut state.changes.staged, f);
        },
        None => match path_index(&state.changes.untracked, &path) {
            Some(pos) => {
                let f = vec_remove(&mut state.changes.untracked, pos);
                vec_push(&mut state.changes.staged, FileChange { path: f.path, kind: ChangeKind::Added });
            },
            None => {},
        },
    }
    let g = state.generation;
    issue(state, one(Command::Stage { path, generation: g }))
}

fn unstage_file(state: &mut AppState, path: String) -> (r: Vec<Command>)
    ensures
        step_is(
            final(state).deep_view(),
            r.deep_view(),
            transition::unstage_file(old(state).deep_view(), path@),
        ),
{
    proof {
        reveal(transition::unstage_file);
    }
    match path_index(&state.changes.staged, &path) {
        Some(pos) => {
            let f = vec_remove(&mut state.changes.staged, pos);
            vec_push(&mut state.changes.unstaged, FileChange::new(f.path, ChangeKind::Modified));
        },
        None => {},
    }
    let g = state.generation;
    issue(state, one(Command::Unstage { path, generation: g }))
}

/// Appends copies of `fs` with their kind replaced by `kind`.
fn push_as_kind(out: &mut Vec<FileChange>, fs: &Vec<FileChange>, kind: ChangeKind)
    ensures
        final(out).deep_view() == old(out).deep_view() + transition::as_kind(fs.deep_view(), kind),
{
    let ghost start = out.deep_view();
    let ghost src = fs.deep_view();
    let mut i: usize = 0;
    while i < fs.len()
        invariant
            i <= fs.len(),
            src == fs.deep_view(),
            out.deep_view() == start + transition::as_kind(src.take(i as int), kind),
        decreases fs.len() - i,
    {
        vec_push(out, FileChange::new(fs[i].path.clone(), kind));
        assert(transition::as_kind(src.take(i + 1), kind) =~= transition::as_kind(src.take(i as int), kind).push(
            crate::app::model::FileChangeV { path: src[i as int].path, kind },
        ));
        i = i + 1;
    }
    assert(src.take(src.len() as int) =~= src);
}

fn stage_all(state: &mut AppState) -> (r: Vec<Command>)
    ensures
        step_is(final(state).deep_view(), r.deep_view(), transition::on_stage_all(old(state).deep_view())),
{
    proof {
        reveal(transition::on_stage_all);
    }
    let unstaged = crate::dup::vec_take(&mut state.changes.unstaged);
    crate::dup::vec_extend(&mut state.changes.staged, unstaged);
    let untracked = crate::dup::vec_take(&mut state.changes.untracked);
    push_as_kind(&mut state.changes.staged, &untracked, ChangeKind::Added);
    let g = state.generation;
    issue(state, one(Command::StageAll { generation: g }))
}

fn unstage_all(state: &mut AppState) -> (r: Vec<Command>)
    ensures
        step_is(final(state).deep_view(), r.deep_view(), transition::on_unstage_all(old(state).deep_view())),
{
    proof {
        reveal(transition::on_unstage_all);
    }
    let staged = crate::dup::vec_take(&mut state.changes.staged);
    push_as_kind(&mut state.changes.unstaged, &staged, ChangeKind::Modified);
    let g = state.generation;
    issue(state, one(Command::UnstageAll { generation: g }))
}

/// `v` sorted ascending.
fn sort_usize(v: &Vec<usize>) -> (r: Vec<usize>)
    ensures
        r@ == transition::sort_usize(v@),
{
    let mut out: Vec<usize> = Vec::new();
    let mut i: usize = 0;
    assert(v@.take(0) =~= Seq::<usize>::empty());
    while i < v.len()
        invariant
            i <= v.len(),
            out@ == transition::sort_usize(v@.take(i as int)),
        decreases v.len() - i,
    {
        let x = v[i];
        let ghost t = out@;
        let mut j: usize = 0;
        while j < out.len() && !(x < out[j])
            invariant
                j <= out.len(),
                t == out@,
                transition::usize_pos(t, x, 0) == transition::usize_pos(t, x, j as int),
            decreases out.len() - j,
        {
            j = j + 1;
        }
        assert(transition::usize_pos(t, x, j as int) == j);
        out.insert(j, x);
        assert(v@.take(i + 1).drop_last() =~= v@.take(i as int));
        i = i + 1;
    }
    assert(v@.take(v.len() as int) =~= v@);
    out
}

fn usize_index(v: &Vec<usize>, x: usize) -> (r: Option<usize>)
    ensures
        r matches Some(i) ==> i < v.len(),
        r matches Some(i) ==> transition::index_of(v@, x) == Some(i as int),
        r is None ==> transition::index_of(v@, x) is None,
{
    let mut i: usize = 0;
    while i < v.len()
        invariant
            i <= v.len(),
            transition::index_of(v@, x) == transition::index_from(v@, x, i as int),
        decreases v.len() - i,
    {
        if v[i] == x {
            return Some(i);
        }
        i = i + 1;
    }
    None
}

fn toggle_diff_line(state: &mut AppState, index: usize)
    ensures
        final(state).deep_view() == (AppStateV {
            diff: crate::app::state::DiffStateV {
                selected_lines: transition::toggle_line(old(state).deep_view().diff.selected_lines, index),
                ..old(state).deep_view().diff
            },
            ..old(state).deep_view()
        }),
{
    match usize_index(&state.diff.selected_lines, index) {
        Some(pos) => {
            state.diff.selected_lines.remove(pos);
        },
        None => {
            let mut v: Vec<usize> = Vec::new();
            std::mem::swap(&mut v, &mut state.diff.selected_lines);
            v.push(index);
            state.diff.selected_lines = sort_usize(&v);
        },
    }
}

/// The changed lines' body indices of a hunk.
fn hunk_change_lines(h: &crate::app::model::DiffHunk) -> (r: Vec<usize>)
    ensures
        r@ == transition::hunk_change_lines(h.deep_view()),
{
    let ghost src = h.lines.deep_view();
    let ghost pred = |l: crate::app::model::DiffLineV| l.origin == '+' || l.origin == '-';
    let mut out: Vec<usize> = Vec::new();
    let mut i: usize = 0;
    while i < h.lines.len()
        invariant
            i <= h.lines.len(),
            src == h.lines.deep_view(),
            pred == (|l: crate::app::model::DiffLineV| l.origin == '+' || l.origin == '-'),
            out@ == src.take(i as int).filter(pred).map_values(|l: crate::app::model::DiffLineV| l.body_index),
        decreases h.lines.len() - i,
    {
        proof {
            assert(src.take(i + 1) =~= src.take(i as int).push(src[i as int]));
            src.take(i as int).lemma_filter_push(src[i as int], pred);
        }
        let l = &h.lines[i];
        if l.origin == '+' || l.origin == '-' {
            out.push(l.body_index);
            assert(out@ =~= src.take(i as int).filter(pred).push(src[i as int]).map_values(
                |l: crate::app::model::DiffLineV| l.body_index,
            ));
        }
        i = i + 1;
    }
    assert(src.take(src.len() as int) =~= src);
    out
}

fn stage_focused_hunk(state: &mut AppState) -> (r: Vec<Command>)
    ensures
        step_is(
            final(state).deep_view(),
            r.deep_view(),
            transition::stage_focused_hunk(old(state).deep_view()),
        ),
{
    proof {
        reveal(transition::stage_focused_hunk);
    }
    let (lines, staged) = match &state.diff.content {
        Loadable::Ready(content) => {
            if state.diff.focused_hunk < content.hunks.len() {
                (hunk_change_lines(&content.hunks[state.diff.focused_hunk]), content.target.staged)
            } else {
                return none();
            }
        },
        _ => {
            return none();
        },
    };
    if lines.len() == 0 {
        return none();
    }
    state.diff.selected_lines = lines;
    stage_selected_lines(state, staged)
}

fn reduce_commit(state: &mut AppState) -> (r: Vec<Command>)
    ensures
        step_is(
            final(state).deep_view(),
            r.deep_view(),
            transition::reduce_commit(old(state).deep_view()),
        ),
{
    proof {
        reveal(transition::reduce_commit);
    }
    let message = crate::text::trim_str(state.ui.commit_message.as_str());
    if crate::text::is_empty_str(message.as_str()) {
        return fail(state, "コミットメッセージが空です");
    }
    if state.changes.staged.len() == 0 {
        return fail(state, "ステージされた変更がありません");
    }
    let g = state.generation;
    issue(state, one(Command::Commit { message, generation: g }))
}

fn is_remote_branch(branches: &Vec<crate::app::model::BranchInfo>, name: &String) -> (r: bool)
    ensures
        r == exists|i: int|
            0 <= i < branches.deep_view().len() && #[trigger] branches.deep_view()[i].name == name@
                && branches.deep_view()[i].is_remote,
{
    let mut i: usize = 0;
    while i < branches.len()
        invariant
            i <= branches.len(),
            forall|k: int|
                0 <= k < i ==> !(#[trigger] branches.deep_view()[k].name == name@
                    && branches.deep_view()[k].is_remote),
        decreases branches.len() - i,
    {
        if str_eq(branches[i].name.as_str(), name.as_str()) && branches[i].is_remote {
            assert(branches.deep_view()[i as int].name == name@);
            return true;
        }
        i = i + 1;
    }
    false
}

fn instant_worktree(state: &mut AppState, branch: String) -> (r: Vec<Command>)
    ensures
        step_is(
            final(state).deep_view(),
            r.deep_view(),
            transition::instant_worktree(old(state).deep_view(), branch@),
        ),
{
    proof {
        reveal(transition::instant_worktree);
    }
    let branch = crate::text::trim_str(branch.as_str());
    if crate::text::is_empty_str(branch.as_str()) {
        return fail(state, "Instant Worktree にはブランチの選択が必要です");
    }
    state.selection.branch = Some(branch.clone());
    if is_remote_branch(&state.branch.branches, &branch) {
        return fail(state, "リモート追跡ブランチからは Instant Worktree できません");
    }
    let repo = match &state.repository.path {
        None => {
            return fail(state, "リポジトリが開かれていません");
        },
        Some(p) => p.clone(),
    };
    let path = crate::git::worktree::default_worktree_path(repo.as_str(), branch.as_str());
    let g = state.generation;
    issue(state, one(Command::CreateWorktree { branch, path, generation: g }))
}

fn show_history(state: &mut AppState, path: String, filter: HistoryFilter) -> (r: Vec<Command>)
    ensures
        step_is(
            final(state).deep_view(),
            r.deep_view(),
            transition::show_history(old(state).deep_view(), path@, filter.deep_view()),
        ),
{
    proof {
        reveal(transition::show_history);
    }
    state.selection.file = Some(path);
    state.navigation.active_view = View::History;
    state.navigation.context_panel_open = true;
    state.history.filter = filter.dup();
    vec_clear(&mut state.history.commits);
    state.history.has_more = true;
    state.history.loading = true;
    let g = state.generation;
    issue(state, one(Command::LoadHistoryPage { filter, offset: 0, generation: g }))
}


fn name_index(v: &Vec<String>, name: &String) -> (r: Option<usize>)
    ensures
        r matches Some(i) ==> i < v.len(),
        r matches Some(i) ==> transition::index_of(v.deep_view(), name@) == Some(i as int),
        r is None ==> transition::index_of(v.deep_view(), name@) is None,
{
    let mut i: usize = 0;
    while i < v.len()
        invariant
            i <= v.len(),
            transition::index_of(v.deep_view(), name@) == transition::index_from(v.deep_view(), name@, i as int),
        decreases v.len() - i,
    {
        if str_eq(v[i].as_str(), name.as_str()) {
            return Some(i);
        }
        i = i + 1;
    }
    None
}

fn open_branch_cleanup(state: &mut AppState)
    ensures
        final(state).deep_view() == transition::with_ui(
            old(state).deep_view(),
            crate::app::state::UiStateV {
                branch_cleanup: Some(
                    crate::app::state::BranchCleanupStateV {
                        selected: transition::cleanup_names(old(state).deep_view()),
                    },
                ),
                ..old(state).deep_view().ui
            },
        ),
{
    let current: Option<String> = match &state.branch.current {
        Some(c) => Some(c.clone()),
        None => state.repository.head.branch.dup(),
    };
    let list = match &current {
        Some(c) => crate::app::branch_cleanup::candidates(
            &state.branch.branches,
            Some(c.as_str()),
            &state.branch.merged_into_base,
        ),
        None => crate::app::branch_cleanup::candidates(
            &state.branch.branches,
            None,
            &state.branch.merged_into_base,
        ),
    };
    let ghost lv = list.deep_view();
    let mut names: Vec<String> = Vec::new();
    let mut i: usize = 0;
    while i < list.len()
        invariant
            i <= list.len(),
            lv == list.deep_view(),
            names.deep_view() == lv.take(i as int).map_values(
                |c: crate::app::branch_cleanup::CleanupCandidateV| c.name,
            ),
        decreases list.len() - i,
    {
        vec_push(&mut names, list[i].name.clone());
        assert(lv.take(i + 1).map_values(|c: crate::app::branch_cleanup::CleanupCandidateV| c.name)
            =~= lv.take(i as int).map_values(
            |c: crate::app::branch_cleanup::CleanupCandidateV| c.name,
        ).push(lv[i as int].name));
        i = i + 1;
    }
    assert(lv.take(lv.len() as int) =~= lv);
    state.ui.branch_cleanup = Some(crate::app::state::BranchCleanupState { selected: names });
}

fn delete_commands(names: &Vec<String>, g: Generation) -> (r: Vec<Command>)
    ensures
        r.deep_view() == transition::delete_commands(names.deep_view(), g),
{
    let ghost src = names.deep_view();
    let mut out: Vec<Command> = Vec::new();
    let mut i: usize = 0;
    while i < names.len()
        invariant
            i <= names.len(),
            src == names.deep_view(),
            out.deep_view() == transition::delete_commands(src.take(i as int), g),
        decreases names.len() - i,
    {
        vec_push(&mut out, Command::DeleteBranch { name: names[i].clone(), generation: g });
        assert(transition::delete_commands(src.take(i + 1), g) =~= transition::delete_commands(
            src.take(i as int),
            g,
        ).push(crate::app::command::CommandV::DeleteBranch { name: src[i as int], generation: g }));
        i = i + 1;
    }
    assert(src.take(src.len() as int) =~= src);
    out
}

/// How many entries the open overlay lists.
fn overlay_item_count(state: &AppState) -> (r: usize)
    ensures
        r == transition::overlay_item_count(state.deep_view()),
{
    match &state.ui.overlay {
        Overlay::Closed => 0,
        Overlay::CommandPalette { query, .. } => crate::app::palette::filter_commands(
            query.as_str(),
        ).len(),
        Overlay::QuickOpen { query, .. } => {
            let items = crate::app::quick_open::collect_items(state);
            crate::app::quick_open::filter_items(&items, query.as_str()).len()
        },
    }
}

fn navigate_overlay(state: &mut AppState, delta: i32) -> (r: Vec<Command>)
    ensures
        step_is(
            final(state).deep_view(),
            r.deep_view(),
            transition::navigate_overlay(old(state).deep_view(), delta),
        ),
{
    proof {
        reveal(transition::navigate_overlay);
    }
    let len = overlay_item_count(state);
    if len == 0 {
        return none();
    }
    let next = match &state.ui.overlay {
        Overlay::CommandPalette { selected, .. } => wrap_index(*selected, delta, len),
        Overlay::QuickOpen { selected, .. } => wrap_index(*selected, delta, len),
        Overlay::Closed => {
            return none();
        },
    };
    let overlay = match &state.ui.overlay {
        Overlay::CommandPalette { query, .. } => Overlay::CommandPalette {
            query: query.clone(),
            selected: next,
        },
        Overlay::QuickOpen { query, .. } => Overlay::QuickOpen { query: query.clone(), selected: next },
        Overlay::Closed => Overlay::Closed,
    };
    state.ui.overlay = overlay;
    none()
}

fn reduce_escape(state: &mut AppState) -> (r: Vec<Command>)
    ensures
        step_is(
            final(state).deep_view(),
            r.deep_view(),
            transition::reduce_escape(old(state).deep_view()),
        ),
{
    proof {
        reveal(transition::reduce_escape);
    }
    let closed = match &state.ui.overlay {
        Overlay::Closed => true,
        _ => false,
    };
    if !closed {
        state.ui.overlay = Overlay::Closed;
        return none();
    }
    if state.ui.confirm_delete_branch.is_some() {
        state.ui.confirm_delete_branch = None;
        return none();
    }
    if state.ui.branch_cleanup.is_some() {
        state.ui.branch_cleanup = None;
        return none();
    }
    if state.ui.confirm_remove_worktree.is_some() {
        state.ui.confirm_remove_worktree = None;
        return none();
    }
    if state.ui.confirm_drop_stash.is_some() {
        state.ui.confirm_drop_stash = None;
        return none();
    }
    if state.ui.error_banner.is_some() {
        state.ui.error_banner = None;
        state.background.last_error = None;
        return none();
    }
    if state.ui.copy_feedback.is_some() {
        state.ui.copy_feedback = None;
        return none();
    }
    if state.ui.searching {
        state.ui.searching = false;
        state.ui.search_query = String::new();
        state.branch.filter = String::new();
        return none();
    }
    if state.context.selected_file.is_some() {
        state.context.selected_file = None;
        state.context.file_diff = Loadable::Idle;
        return none();
    }
    if state.selection.commit.is_some() {
        if state.navigation.commit_back.len() > 0 {
            return navigate_commit(state, -1);
        }
        state.selection.commit = None;
        state.context.commit = Loadable::Idle;
        state.context.selected_file = None;
        state.context.file_diff = Loadable::Idle;
        vec_clear(&mut state.navigation.commit_forward);
        return none();
    }
    match state.navigation.back_stack.pop() {
        Some(prev) => {
            state.navigation.active_view = prev;
            lazy_load_view(state, prev)
        },
        None => none(),
    }
}


fn open_repository(state: &mut AppState, path: String) -> (r: Vec<Command>)
    ensures
        step_is(final(state).deep_view(), r.deep_view(), transition::on_open_repository(old(state).deep_view(), path@)),
{
    proof {
        reveal(transition::on_open_repository);
    }
    let mut recent = state.repository.recent.dup();
    crate::app::recent::push_recent(&mut recent, path.clone());
    let generation = state.generation.next();
    *state = AppState::new();
    state.generation = generation;
    state.repository.recent = recent;
    state.repository.path = Some(path.clone());
    state.repository.status = crate::app::state::RepositoryStatus::Opening;
    issue(state, one(Command::OpenRepository { path, generation }))
}

fn close_repository(state: &mut AppState) -> (r: Vec<Command>)
    ensures
        step_is(final(state).deep_view(), r.deep_view(), transition::on_close_repository(old(state).deep_view())),
{
    proof {
        reveal(transition::on_close_repository);
    }
    let recent = crate::dup::vec_take(&mut state.repository.recent);
    let generation = state.generation.next();
    *state = AppState::new();
    state.generation = generation;
    state.repository.recent = recent;
    none()
}

fn toggle_context_panel(state: &mut AppState) -> (r: Vec<Command>)
    ensures
        step_is(final(state).deep_view(), r.deep_view(), transition::on_toggle_context_panel(old(state).deep_view())),
{
    proof {
        reveal(transition::on_toggle_context_panel);
    }
    state.navigation.context_panel_open = !state.navigation.context_panel_open;
    none()
}

fn select_commit_file(state: &mut AppState, path: String) -> (r: Vec<Command>)
    ensures
        step_is(final(state).deep_view(), r.deep_view(), transition::on_select_commit_file(old(state).deep_view(), path@)),
{
    proof {
        reveal(transition::on_select_commit_file);
    }
    let oid = match &state.selection.commit {
        None => {
            return none();
        },
        Some(o) => o.dup(),
    };
    state.context.selected_file = Some(path.clone());
    state.context.file_diff = Loadable::Loading;
    let g = state.generation;
    issue(state, one(Command::LoadCommitFileDiff { oid, path, generation: g }))
}

fn clear_commit_file_diff(state: &mut AppState) -> (r: Vec<Command>)
    ensures
        step_is(final(state).deep_view(), r.deep_view(), transition::on_clear_commit_file_diff(old(state).deep_view())),
{
    proof {
        reveal(transition::on_clear_commit_file_diff);
    }
    state.context.selected_file = None;
    state.context.file_diff = Loadable::Idle;
    none()
}

fn select_branch(state: &mut AppState, name: String) -> (r: Vec<Command>)
    ensures
        step_is(final(state).deep_view(), r.deep_view(), transition::on_select_branch(old(state).deep_view(), name@)),
{
    proof {
        reveal(transition::on_select_branch);
    }
    state.selection.branch = Some(name);
    state.selection.commit = None;
    state.context.commit = Loadable::Idle;
    state.context.selected_file = None;
    state.context.file_diff = Loadable::Idle;
    vec_clear(&mut state.navigation.commit_back);
    vec_clear(&mut state.navigation.commit_forward);
    state.navigation.context_panel_open = true;
    none()
}

fn set_branch_filter(state: &mut AppState, filter: String) -> (r: Vec<Command>)
    ensures
        step_is(final(state).deep_view(), r.deep_view(), transition::on_set_branch_filter(old(state).deep_view(), filter@)),
{
    proof {
        reveal(transition::on_set_branch_filter);
    }
    state.branch.filter = filter;
    none()
}

fn show_divergence(state: &mut AppState, other: String) -> (r: Vec<Command>)
    ensures
        step_is(final(state).deep_view(), r.deep_view(), transition::on_show_divergence(old(state).deep_view(), other@)),
{
    proof {
        reveal(transition::on_show_divergence);
    }
    let left: String = match &state.repository.head.branch {
        Some(b) => b.clone(),
        None => match &state.branch.current {
            Some(c) => c.clone(),
            None => String::from_str("HEAD"),
        },
    };
    state.divergence.left = Some(left.clone());
    state.divergence.right = Some(other.clone());
    state.divergence.loading = true;
    vec_clear(&mut state.divergence.left_only);
    vec_clear(&mut state.divergence.right_only);
    state.divergence.merge_base = None;
    state.navigation.active_view = View::Branches;
    let g = state.generation;
    issue(state, one(Command::LoadDivergence { left, right: other, generation: g }))
}

fn clear_divergence(state: &mut AppState) -> (r: Vec<Command>)
    ensures
        step_is(final(state).deep_view(), r.deep_view(), transition::on_clear_divergence(old(state).deep_view())),
{
    proof {
        reveal(transition::on_clear_divergence);
    }
    state.divergence = crate::app::state::DivergenceState::new();
    none()
}

fn set_diff_view(state: &mut AppState, view: crate::app::model::DiffView) -> (r: Vec<Command>)
    ensures
        step_is(final(state).deep_view(), r.deep_view(), transition::on_set_diff_view(old(state).deep_view(), view)),
{
    proof {
        reveal(transition::on_set_diff_view);
    }
    state.diff.view = view;
    none()
}

fn toggle_heatmap(state: &mut AppState) -> (r: Vec<Command>)
    ensures
        step_is(final(state).deep_view(), r.deep_view(), transition::on_toggle_heatmap(old(state).deep_view())),
{
    proof {
        reveal(transition::on_toggle_heatmap);
    }
    state.diff.heatmap_enabled = !state.diff.heatmap_enabled;
    none()
}

fn navigate_hunk(state: &mut AppState, delta: i32) -> (r: Vec<Command>)
    ensures
        step_is(final(state).deep_view(), r.deep_view(), transition::on_navigate_hunk(old(state).deep_view(), delta)),
{
    proof {
        reveal(transition::on_navigate_hunk);
    }
    let n = match &state.diff.content {
        Loadable::Ready(c) => c.hunks.len(),
        _ => 0,
    };
    if n == 0 {
        return none();
    }
    state.diff.focused_hunk = wrap_index(state.diff.focused_hunk, delta, n);
    none()
}

fn toggle_line_event(state: &mut AppState, index: usize) -> (r: Vec<Command>)
    ensures
        step_is(final(state).deep_view(), r.deep_view(), transition::on_toggle_diff_line(old(state).deep_view(), index)),
{
    proof {
        reveal(transition::on_toggle_diff_line);
    }
    toggle_diff_line(state, index);
    none()
}

fn clear_line_selection(state: &mut AppState) -> (r: Vec<Command>)
    ensures
        step_is(final(state).deep_view(), r.deep_view(), transition::on_clear_diff_line_selection(old(state).deep_view())),
{
    proof {
        reveal(transition::on_clear_diff_line_selection);
    }
    state.diff.selected_lines.clear();
    none()
}

fn toggle_stage_selection(state: &mut AppState) -> (r: Vec<Command>)
    ensures
        step_is(final(state).deep_view(), r.deep_view(), transition::on_toggle_stage_selection(old(state).deep_view())),
{
    proof {
        reveal(transition::on_toggle_stage_selection);
    }
    let (path, staged) = match &state.diff.target {
        None => {
            return none();
        },
        Some(t) => (t.path.clone(), t.staged),
    };
    if staged {
        unstage_file(state, path)
    } else {
        stage_file(state, path)
    }
}

fn set_commit_message(state: &mut AppState, message: String) -> (r: Vec<Command>)
    ensures
        step_is(final(state).deep_view(), r.deep_view(), transition::on_ui(old(state).deep_view(), crate::app::state::UiStateV { commit_message: message@, ..old(state).deep_view().ui })),
{
    proof {
        reveal(transition::on_ui);
    }
    state.ui.commit_message = message;
    none()
}

fn focus_commit_input(state: &mut AppState) -> (r: Vec<Command>)
    ensures
        step_is(final(state).deep_view(), r.deep_view(), transition::on_focus_commit_input(old(state).deep_view())),
{
    proof {
        reveal(transition::on_focus_commit_input);
    }
    state.navigation.context_panel_open = true;
    state.ui.commit_focus_token = if state.ui.commit_focus_token < u64::MAX {
        state.ui.commit_focus_token + 1
    } else {
        0
    };
    none()
}

fn create_branch(state: &mut AppState, name: String) -> (r: Vec<Command>)
    ensures
        step_is(final(state).deep_view(), r.deep_view(), transition::on_create_branch(old(state).deep_view(), name@)),
{
    proof {
        reveal(transition::on_create_branch);
    }
    let name = crate::text::trim_str(name.as_str());
    if crate::text::is_empty_str(name.as_str()) {
        return fail(state, "ブランチ名を入力してください");
    }
    state.ui.new_branch_name = String::new();
    let g = state.generation;
    issue(state, one(Command::CreateBranch { name, generation: g }))
}

fn request_delete_branch(state: &mut AppState, name: String) -> (r: Vec<Command>)
    ensures
        step_is(final(state).deep_view(), r.deep_view(), transition::on_request_delete_branch(old(state).deep_view(), name@)),
{
    proof {
        reveal(transition::on_request_delete_branch);
    }
    let t = crate::text::trim_str(name.as_str());
    if crate::text::is_empty_str(t.as_str()) {
        return none();
    }
    state.ui.confirm_delete_branch = Some(name);
    none()
}

fn confirm_delete_branch(state: &mut AppState) -> (r: Vec<Command>)
    ensures
        step_is(final(state).deep_view(), r.deep_view(), transition::on_confirm_delete_branch(old(state).deep_view())),
{
    proof {
        reveal(transition::on_confirm_delete_branch);
    }
    let g = state.generation;
    match state.ui.confirm_delete_branch.take() {
        None => none(),
        Some(name) => issue(state, one(Command::DeleteBranch { name, generation: g })),
    }
}

fn cancel_delete_branch(state: &mut AppState) -> (r: Vec<Command>)
    ensures
        step_is(final(state).deep_view(), r.deep_view(), transition::on_ui(old(state).deep_view(), crate::app::state::UiStateV { confirm_delete_branch: None, ..old(state).deep_view().ui })),
{
    proof {
        reveal(transition::on_ui);
    }
    state.ui.confirm_delete_branch = None;
    none()
}

fn open_cleanup_event(state: &mut AppState) -> (r: Vec<Command>)
    ensures
        step_is(final(state).deep_view(), r.deep_view(), transition::on_open_branch_cleanup(old(state).deep_view())),
{
    proof {
        reveal(transition::on_open_branch_cleanup);
    }
    open_branch_cleanup(state);
    none()
}

fn toggle_cleanup_branch(state: &mut AppState, name: String) -> (r: Vec<Command>)
    ensures
        step_is(final(state).deep_view(), r.deep_view(), transition::on_toggle_cleanup_branch(old(state).deep_view(), name@)),
{
    proof {
        reveal(transition::on_toggle_cleanup_branch);
    }
    match &mut state.ui.branch_cleanup {
        Some(c) => {
            match name_index(&c.selected, &name) {
                Some(pos) => {
                    vec_remove(&mut c.selected, pos);
                },
                None => {
                    vec_push(&mut c.selected, name);
                },
            }
        },
        None => {},
    }
    none()
}

fn confirm_branch_cleanup(state: &mut AppState) -> (r: Vec<Command>)
    ensures
        step_is(final(state).deep_view(), r.deep_view(), transition::on_confirm_branch_cleanup(old(state).deep_view())),
{
    proof {
        reveal(transition::on_confirm_branch_cleanup);
    }
    let g = state.generation;
    match state.ui.branch_cleanup.take() {
        None => none(),
        Some(c) => {
            let cmds = delete_commands(&c.selected, g);
            issue(state, cmds)
        },
    }
}

fn cancel_branch_cleanup(state: &mut AppState) -> (r: Vec<Command>)
    ensures
        step_is(final(state).deep_view(), r.deep_view(), transition::on_ui(old(state).deep_view(), crate::app::state::UiStateV { branch_cleanup: None, ..old(state).deep_view().ui })),
{
    proof {
        reveal(transition::on_ui);
    }
    state.ui.branch_cleanup = None;
    none()
}

fn start_remote(state: &mut AppState, label: &str, cmd: Command) -> (r: Vec<Command>)
    ensures
        step_is(final(state).deep_view(), r.deep_view(), transition::on_remote(old(state).deep_view(), label@, cmd.deep_view())),
{
    proof {
        reveal(transition::on_remote);
    }
    state.background.remote_label = Some(String::from_str(label));
    issue(state, one(cmd))
}

fn set_open_after(state: &mut AppState, enabled: bool) -> (r: Vec<Command>)
    ensures
        step_is(final(state).deep_view(), r.deep_view(), transition::on_ui(old(state).deep_view(), crate::app::state::UiStateV { open_after_instant_worktree: enabled, ..old(state).deep_view().ui })),
{
    proof {
        reveal(transition::on_ui);
    }
    state.ui.open_after_instant_worktree = enabled;
    none()
}

fn create_worktree(state: &mut AppState, branch: String, path: String) -> (r: Vec<Command>)
    ensures
        step_is(final(state).deep_view(), r.deep_view(), transition::on_create_worktree(old(state).deep_view(), branch@, path@)),
{
    proof {
        reveal(transition::on_create_worktree);
    }
    let t = crate::text::trim_str(branch.as_str());
    if crate::text::is_empty_str(t.as_str()) {
        return fail(state, "ブランチ名を入力してください");
    }
    let g = state.generation;
    issue(state, one(Command::CreateWorktree { branch, path, generation: g }))
}

fn request_remove_worktree(state: &mut AppState, path: String) -> (r: Vec<Command>)
    ensures
        step_is(final(state).deep_view(), r.deep_view(), transition::on_ui(old(state).deep_view(), crate::app::state::UiStateV { confirm_remove_worktree: Some(path@), ..old(state).deep_view().ui })),
{
    proof {
        reveal(transition::on_ui);
    }
    state.ui.confirm_remove_worktree = Some(path);
    none()
}

fn confirm_remove_worktree(state: &mut AppState) -> (r: Vec<Command>)
    ensures
        step_is(final(state).deep_view(), r.deep_view(), transition::on_confirm_remove_worktree(old(state).deep_view())),
{
    proof {
        reveal(transition::on_confirm_remove_worktree);
    }
    let g = state.generation;
    match state.ui.confirm_remove_worktree.take() {
        None => none(),
        Some(path) => issue(state, one(Command::RemoveWorktree { path, generation: g })),
    }
}

fn cancel_remove_worktree(state: &mut AppState) -> (r: Vec<Command>)
    ensures
        step_is(final(state).deep_view(), r.deep_view(), transition::on_ui(old(state).deep_view(), crate::app::state::UiStateV { confirm_remove_worktree: None, ..old(state).deep_view().ui })),
{
    proof {
        reveal(transition::on_ui);
    }
    state.ui.confirm_remove_worktree = None;
    none()
}

fn select_stash(state: &mut AppState, index: usize) -> (r: Vec<Command>)
    ensures
        step_is(final(state).deep_view(), r.deep_view(), transition::on_select_stash(old(state).deep_view(), index)),
{
    proof {
        reveal(transition::on_select_stash);
    }
    state.stash.selected = Some(index);
    state.stash.diff = Loadable::Loading;
    let g = state.generation;
    issue(state, one(Command::LoadStashDiff { index, generation: g }))
}

fn request_drop_stash(state: &mut AppState, index: usize) -> (r: Vec<Command>)
    ensures
        step_is(final(state).deep_view(), r.deep_view(), transition::on_ui(old(state).deep_view(), crate::app::state::UiStateV { confirm_drop_stash: Some(index), ..old(state).deep_view().ui })),
{
    proof {
        reveal(transition::on_ui);
    }
    state.ui.confirm_drop_stash = Some(index);
    none()
}

fn confirm_drop_stash(state: &mut AppState) -> (r: Vec<Command>)
    ensures
        step_is(final(state).deep_view(), r.deep_view(), transition::on_confirm_drop_stash(old(state).deep_view())),
{
    proof {
        reveal(transition::on_confirm_drop_stash);
    }
    let g = state.generation;
    match state.ui.confirm_drop_stash.take() {
        None => none(),
        Some(index) => issue(state, one(Command::StashDrop { index, generation: g })),
    }
}

fn cancel_drop_stash(state: &mut AppState) -> (r: Vec<Command>)
    ensures
        step_is(final(state).deep_view(), r.deep_view(), transition::on_ui(old(state).deep_view(), crate::app::state::UiStateV { confirm_drop_stash: None, ..old(state).deep_view().ui })),
{
    proof {
        reveal(transition::on_ui);
    }
    state.ui.confirm_drop_stash = None;
    none()
}

fn load_more_history(state: &mut AppState) -> (r: Vec<Command>)
    ensures
        step_is(final(state).deep_view(), r.deep_view(), transition::on_load_more_history(old(state).deep_view())),
{
    proof {
        reveal(transition::on_load_more_history);
    }
    if state.history.loading || !state.history.has_more {
        return none();
    }
    state.history.loading = true;
    let offset = state.history.commits.len();
    let g = state.generation;
    let filter = state.history.filter.dup();
    issue(state, one(Command::LoadHistoryPage { filter, offset, generation: g }))
}

fn clear_history_filter(state: &mut AppState) -> (r: Vec<Command>)
    ensures
        step_is(final(state).deep_view(), r.deep_view(), transition::on_clear_history_filter(old(state).deep_view())),
{
    proof {
        reveal(transition::on_clear_history_filter);
    }
    state.history.filter = HistoryFilter::All;
    vec_clear(&mut state.history.commits);
    state.history.has_more = true;
    state.history.loading = true;
    let g = state.generation;
    issue(state, one(Command::LoadHistoryPage { filter: HistoryFilter::All, offset: 0, generation: g }))
}

fn search(state: &mut AppState, query: String) -> (r: Vec<Command>)
    ensures
        step_is(final(state).deep_view(), r.deep_view(), transition::on_search(old(state).deep_view(), query@)),
{
    proof {
        reveal(transition::on_search);
    }
    state.ui.searching = !crate::text::is_empty_str(query.as_str());
    state.ui.search_query = query.clone();
    if state.navigation.active_view == View::Branches {
        state.branch.filter = query;
    }
    none()
}

fn open_overlay(state: &mut AppState, palette: bool) -> (r: Vec<Command>)
    ensures
        palette ==> step_is(final(state).deep_view(), r.deep_view(), transition::on_overlay(old(state).deep_view(), crate::app::state::OverlayV::CommandPalette { query: Seq::empty(), selected: 0 })),
        !palette ==> step_is(final(state).deep_view(), r.deep_view(), transition::on_overlay(old(state).deep_view(), crate::app::state::OverlayV::QuickOpen { query: Seq::empty(), selected: 0 })),
{
    proof {
        reveal(transition::on_overlay);
    }
    state.ui.overlay = if palette {
        Overlay::CommandPalette { query: String::new(), selected: 0 }
    } else {
        Overlay::QuickOpen { query: String::new(), selected: 0 }
    };
    none()
}

fn close_overlay(state: &mut AppState) -> (r: Vec<Command>)
    ensures
        step_is(final(state).deep_view(), r.deep_view(), transition::on_overlay(old(state).deep_view(), crate::app::state::OverlayV::Closed)),
{
    proof {
        reveal(transition::on_overlay);
    }
    state.ui.overlay = Overlay::Closed;
    none()
}

fn set_overlay_query(state: &mut AppState, query: String) -> (r: Vec<Command>)
    ensures
        step_is(final(state).deep_view(), r.deep_view(), transition::on_set_overlay_query(old(state).deep_view(), query@)),
{
    proof {
        reveal(transition::on_set_overlay_query);
    }
    let overlay = match &state.ui.overlay {
        Overlay::CommandPalette { .. } => Overlay::CommandPalette { query, selected: 0 },
        Overlay::QuickOpen { .. } => Overlay::QuickOpen { query, selected: 0 },
        Overlay::Closed => {
            return none();
        },
    };
    state.ui.overlay = overlay;
    none()
}

fn select_overlay_index(state: &mut AppState, index: usize)
    ensures
        final(state).deep_view() == transition::select_overlay_index(old(state).deep_view(), index),
{
    let overlay = match &state.ui.overlay {
        Overlay::CommandPalette { query, .. } => Overlay::CommandPalette {
            query: query.clone(),
            selected: index,
        },
        Overlay::QuickOpen { query, .. } => Overlay::QuickOpen { query: query.clone(), selected: index },
        Overlay::Closed => {
            return;
        },
    };
    state.ui.overlay = overlay;
}

fn copy_text(state: &mut AppState, text: String) -> (r: Vec<Command>)
    ensures
        step_is(final(state).deep_view(), r.deep_view(), transition::on_ui(old(state).deep_view(), crate::app::state::UiStateV { copy_feedback: None, ..old(state).deep_view().ui })),
{
    proof {
        reveal(transition::on_ui);
    }
    state.ui.copy_feedback = None;
    none()
}

fn dismiss_error(state: &mut AppState) -> (r: Vec<Command>)
    ensures
        step_is(final(state).deep_view(), r.deep_view(), transition::on_dismiss_error(old(state).deep_view())),
{
    proof {
        reveal(transition::on_dismiss_error);
    }
    state.ui.error_banner = None;
    state.background.last_error = None;
    none()
}

fn command_only(state: &mut AppState, c: Command) -> (r: Vec<Command>)
    ensures
        step_is(final(state).deep_view(), r.deep_view(), transition::on_command(old(state).deep_view(), c.deep_view())),
{
    proof {
        reveal(transition::on_command);
    }
    issue(state, one(c))
}

fn event_group_exec(e: &UiEvent) -> (r: u8)
    ensures
        r as int == transition::event_group(e.deep_view()),
{
    match e {
        UiEvent::OpenRepository { .. } => 0,
        UiEvent::CloseRepository { .. } => 0,
        UiEvent::SelectView { .. } => 0,
        UiEvent::ToggleContextPanel { .. } => 0,
        UiEvent::SelectFile { .. } => 0,
        UiEvent::NavigateChanges { .. } => 0,
        UiEvent::SelectCommit { .. } => 0,
        UiEvent::SelectCommitFile { .. } => 0,
        UiEvent::ClearCommitFileDiff { .. } => 0,
        UiEvent::NavigateCommit { .. } => 0,
        UiEvent::SelectBranch { .. } => 1,
        UiEvent::SetBranchFilter { .. } => 1,
        UiEvent::SetUpstream { .. } => 1,
        UiEvent::ShowDivergence { .. } => 1,
        UiEvent::ClearDivergence { .. } => 1,
        UiEvent::NavigateHistory { .. } => 1,
        UiEvent::Escape { .. } => 1,
        UiEvent::CopyText { .. } => 1,
        UiEvent::OpenUrl { .. } => 1,
        UiEvent::DismissError { .. } => 1,
        UiEvent::SetDiffView { .. } => 2,
        UiEvent::ToggleHeatmap { .. } => 2,
        UiEvent::NavigateHunk { .. } => 2,
        UiEvent::ToggleDiffLine { .. } => 2,
        UiEvent::ClearDiffLineSelection { .. } => 2,
        UiEvent::StageSelectedLines { .. } => 2,
        UiEvent::UnstageSelectedLines { .. } => 2,
        UiEvent::StageFile { .. } => 2,
        UiEvent::UnstageFile { .. } => 3,
        UiEvent::StageAll { .. } => 3,
        UiEvent::UnstageAll { .. } => 3,
        UiEvent::ToggleStageSelection { .. } => 3,
        UiEvent::StageFocusedHunk { .. } => 3,
        UiEvent::SetCommitMessage { .. } => 3,
        UiEvent::FocusCommitInput { .. } => 3,
        UiEvent::Commit { .. } => 3,
        UiEvent::CreateBranch { .. } => 4,
        UiEvent::CheckoutBranch { .. } => 4,
        UiEvent::RequestDeleteBranch { .. } => 4,
        UiEvent::ConfirmDeleteBranch { .. } => 4,
        UiEvent::CancelDeleteBranch { .. } => 4,
        UiEvent::OpenBranchCleanup { .. } => 4,
        UiEvent::ToggleCleanupBranch { .. } => 4,
        UiEvent::ConfirmBranchCleanup { .. } => 4,
        UiEvent::CancelBranchCleanup { .. } => 4,
        UiEvent::Fetch { .. } => 5,
        UiEvent::Pull { .. } => 5,
        UiEvent::Push { .. } => 5,
        UiEvent::SetOpenAfterInstantWorktree { .. } => 5,
        UiEvent::CreateWorktree { .. } => 5,
        UiEvent::InstantWorktree { .. } => 5,
        UiEvent::RequestRemoveWorktree { .. } => 5,
        UiEvent::ConfirmRemoveWorktree { .. } => 5,
        UiEvent::CancelRemoveWorktree { .. } => 5,
        UiEvent::StashSave { .. } => 6,
        UiEvent::SelectStash { .. } => 6,
        UiEvent::StashApply { .. } => 6,
        UiEvent::StashPop { .. } => 6,
        UiEvent::RequestDropStash { .. } => 6,
        UiEvent::ConfirmDropStash { .. } => 6,
        UiEvent::CancelDropStash { .. } => 6,
        UiEvent::LoadMoreHistory { .. } => 6,
        UiEvent::ShowFileHistory { .. } => 6,
        UiEvent::ShowLineHistory { .. } => 6,
        UiEvent::ClearHistoryFilter { .. } => 7,
        UiEvent::Search { .. } => 7,
        UiEvent::OpenCommandPalette { .. } => 7,
        UiEvent::OpenQuickOpen { .. } => 7,
        UiEvent::CloseOverlay { .. } => 7,
        UiEvent::SetOverlayQuery { .. } => 7,
        UiEvent::NavigateOverlay { .. } => 7,
        UiEvent::SelectOverlayItem { .. } => 7,
        UiEvent::ConfirmOverlay { .. } => 7,
    }
}

#[verifier::rlimit(60)]
#[verifier::spinoff_prover]
fn reduce_repository(state: &mut AppState, event: UiEvent) -> (r: Vec<Command>)
    ensures
        step_is(
            final(state).deep_view(),
            r.deep_view(),
            transition::reduce_repository_of(old(state).deep_view(), event.deep_view()),
        ),
{
    let g = state.generation;
    match event {
        UiEvent::OpenRepository(path) => open_repository(state, path),
        UiEvent::CloseRepository => close_repository(state),
        UiEvent::SelectView(view) => select_view(state, view),
        UiEvent::ToggleContextPanel => toggle_context_panel(state),
        UiEvent::SelectFile { path, staged } => select_file(state, path, staged),
        UiEvent::NavigateChanges { delta } => navigate_changes(state, delta),
        UiEvent::SelectCommit(oid) => select_commit(state, oid, true),
        UiEvent::SelectCommitFile(path) => select_commit_file(state, path),
        UiEvent::ClearCommitFileDiff => clear_commit_file_diff(state),
        UiEvent::NavigateCommit { delta } => navigate_commit(state, delta),
        _ => none(),
    }
}

#[verifier::rlimit(60)]
#[verifier::spinoff_prover]
fn reduce_navigation(state: &mut AppState, event: UiEvent) -> (r: Vec<Command>)
    ensures
        step_is(
            final(state).deep_view(),
            r.deep_view(),
            transition::reduce_navigation_of(old(state).deep_view(), event.deep_view()),
        ),
{
    let g = state.generation;
    match event {
        UiEvent::SelectBranch(name) => select_branch(state, name),
        UiEvent::SetBranchFilter(filter) => set_branch_filter(state, filter),
        UiEvent::SetUpstream { branch, upstream } => command_only(
            state,
            Command::SetUpstream { branch, upstream, generation: g },
        ),
        UiEvent::ShowDivergence { other } => show_divergence(state, other),
        UiEvent::ClearDivergence => clear_divergence(state),
        UiEvent::NavigateHistory { delta } => navigate_history(state, delta),
        UiEvent::Escape => reduce_escape(state),
        UiEvent::CopyText(text) => copy_text(state, text),
        UiEvent::OpenUrl(_) => none(),
        UiEvent::DismissError => dismiss_error(state),
        _ => none(),
    }
}

#[verifier::rlimit(60)]
#[verifier::spinoff_prover]
fn reduce_diff(state: &mut AppState, event: UiEvent) -> (r: Vec<Command>)
    ensures
        step_is(
            final(state).deep_view(),
            r.deep_view(),
            transition::reduce_diff_of(old(state).deep_view(), event.deep_view()),
        ),
{
    let g = state.generation;
    match event {
        UiEvent::SetDiffView(view) => set_diff_view(state, view),
        UiEvent::ToggleHeatmap => toggle_heatmap(state),
        UiEvent::NavigateHunk { delta } => navigate_hunk(state, delta),
        UiEvent::ToggleDiffLine(index) => toggle_line_event(state, index),
        UiEvent::ClearDiffLineSelection => clear_line_selection(state),
        UiEvent::StageSelectedLines => stage_selected_lines(state, false),
        UiEvent::UnstageSelectedLines => stage_selected_lines(state, true),
        UiEvent::StageFile(path) => stage_file(state, path),
        _ => none(),
    }
}

#[verifier::rlimit(60)]
#[verifier::spinoff_prover]
fn reduce_staging(state: &mut AppState, event: UiEvent) -> (r: Vec<Command>)
    ensures
        step_is(
            final(state).deep_view(),
            r.deep_view(),
            transition::reduce_staging_of(old(state).deep_view(), event.deep_view()),
        ),
{
    let g = state.generation;
    match event {
        UiEvent::UnstageFile(path) => unstage_file(state, path),
        UiEvent::StageAll => stage_all(state),
        UiEvent::UnstageAll => unstage_all(state),
        UiEvent::ToggleStageSelection => toggle_stage_selection(state),
        UiEvent::StageFocusedHunk => stage_focused_hunk(state),
        UiEvent::SetCommitMessage(message) => set_commit_message(state, message),
        UiEvent::FocusCommitInput => focus_commit_input(state),
        UiEvent::Commit => reduce_commit(state),
        _ => none(),
    }
}

#[verifier::rlimit(60)]
#[verifier::spinoff_prover]
fn reduce_branch_ops(state: &mut AppState, event: UiEvent) -> (r: Vec<Command>)
    ensures
        step_is(
            final(state).deep_view(),
            r.deep_view(),
            transition::reduce_branch_ops_of(old(state).deep_view(), event.deep_view()),
        ),
{
    let g = state.generation;
    match event {
        UiEvent::CreateBranch(name) => create_branch(state, name),
        UiEvent::CheckoutBranch(name) => command_only(state, Command::Checkout { name, generation: g }),
        UiEvent::RequestDeleteBranch(name) => request_delete_branch(state, name),
        UiEvent::ConfirmDeleteBranch => confirm_delete_branch(state),
        UiEvent::CancelDeleteBranch => cancel_delete_branch(state),
        UiEvent::OpenBranchCleanup => open_cleanup_event(state),
        UiEvent::ToggleCleanupBranch(name) => toggle_cleanup_branch(state, name),
        UiEvent::ConfirmBranchCleanup => confirm_branch_cleanup(state),
        UiEvent::CancelBranchCleanup => cancel_branch_cleanup(state),
        _ => none(),
    }
}

#[verifier::rlimit(60)]
#[verifier::spinoff_prover]
fn reduce_worktrees(state: &mut AppState, event: UiEvent) -> (r: Vec<Command>)
    ensures
        step_is(
            final(state).deep_view(),
            r.deep_view(),
            transition::reduce_worktrees_of(old(state).deep_view(), event.deep_view()),
        ),
{
    let g = state.generation;
    match event {
        UiEvent::Fetch => start_remote(state, "fetching…", Command::Fetch { generation: g }),
        UiEvent::Pull => start_remote(state, "pulling…", Command::Pull { generation: g }),
        UiEvent::Push => start_remote(state, "pushing…", Command::Push { generation: g }),
        UiEvent::SetOpenAfterInstantWorktree(enabled) => set_open_after(state, enabled),
        UiEvent::CreateWorktree { branch, path } => create_worktree(state, branch, path),
        UiEvent::InstantWorktree { branch } => instant_worktree(state, branch),
        UiEvent::RequestRemoveWorktree(path) => request_remove_worktree(state, path),
        UiEvent::ConfirmRemoveWorktree => confirm_remove_worktree(state),
        UiEvent::CancelRemoveWorktree => cancel_remove_worktree(state),
        _ => none(),
    }
}

#[verifier::rlimit(60)]
#[verifier::spinoff_prover]
fn reduce_stashes(state: &mut AppState, event: UiEvent) -> (r: Vec<Command>)
    ensures
        step_is(
            final(state).deep_view(),
            r.deep_view(),
            transition::reduce_stashes_of(old(state).deep_view(), event.deep_view()),
        ),
{
    let g = state.generation;
    match event {
        UiEvent::StashSave { message } => command_only(state, Command::StashSave { message, generation: g }),
        UiEvent::SelectStash(index) => select_stash(state, index),
        UiEvent::StashApply(index) => command_only(state, Command::StashApply { index, generation: g }),
        UiEvent::StashPop(index) => command_only(state, Command::StashPop { index, generation: g }),
        UiEvent::RequestDropStash(index) => request_drop_stash(state, index),
        UiEvent::ConfirmDropStash => confirm_drop_stash(state),
        UiEvent::CancelDropStash => cancel_drop_stash(state),
        UiEvent::LoadMoreHistory => load_more_history(state),
        UiEvent::ShowFileHistory { path } => {
            let f = HistoryFilter::File { path: path.clone() };
            show_history(state, path, f)
        },
        UiEvent::ShowLineHistory { path, line } => {
            let f = HistoryFilter::Line { path: path.clone(), line };
            show_history(state, path, f)
        },
        _ => none(),
    }
}

#[verifier::rlimit(60)]
#[verifier::spinoff_prover]
fn reduce_overlay(state: &mut AppState, event: UiEvent) -> (r: Vec<Command>)
    ensures
        step_is(
            final(state).deep_view(),
            r.deep_view(),
            transition::reduce_overlay_of(old(state).deep_view(), event.deep_view()),
        ),
{
    let g = state.generation;
    match event {
        UiEvent::ClearHistoryFilter => clear_history_filter(state),
        UiEvent::Search(query) => search(state, query),
        UiEvent::OpenCommandPalette => open_overlay(state, true),
        UiEvent::OpenQuickOpen => open_overlay(state, false),
        UiEvent::CloseOverlay => close_overlay(state),
        UiEvent::SetOverlayQuery(query) => set_overlay_query(state, query),
        UiEvent::NavigateOverlay { delta } => navigate_overlay(state, delta),
        UiEvent::SelectOverlayItem(_) => none(),
        UiEvent::ConfirmOverlay => none(),
        _ => none(),
    }
}

/// What a user event does, for every event but the overlay confirmations.
fn reduce_basic(state: &mut AppState, event: UiEvent) -> (r: Vec<Command>)
    ensures
        step_is(
            final(state).deep_view(),
            r.deep_view(),
            transition::reduce_basic_of(old(state).deep_view(), event.deep_view()),
        ),
{
    proof {
        reveal(transition::reduce_basic_of);
    }
    let k = event_group_exec(&event);
    if k == 0 {
        reduce_repository(state, event)
    } else if k == 1 {
        reduce_navigation(state, event)
    } else if k == 2 {
        reduce_diff(state, event)
    } else if k == 3 {
        reduce_staging(state, event)
    } else if k == 4 {
        reduce_branch_ops(state, event)
    } else if k == 5 {
        reduce_worktrees(state, event)
    } else if k == 6 {
        reduce_stashes(state, event)
    } else {
        reduce_overlay(state, event)
    }
}


fn view_for_item(e: &UiEvent) -> (r: Option<View>)
    ensures
        r == transition::view_for_item(e.deep_view()),
{
    match e {
        UiEvent::OpenRepository { .. } => None,
        UiEvent::CloseRepository { .. } => None,
        UiEvent::SelectView { .. } => None,
        UiEvent::ToggleContextPanel { .. } => None,
        UiEvent::SelectFile { .. } => Some(View::Changes),
        UiEvent::NavigateChanges { .. } => None,
        UiEvent::SelectCommit(_) => Some(View::History),
        UiEvent::SelectCommitFile { .. } => None,
        UiEvent::ClearCommitFileDiff { .. } => None,
        UiEvent::NavigateCommit { .. } => None,
        UiEvent::SelectBranch(_) => Some(View::Branches),
        UiEvent::SetBranchFilter { .. } => None,
        UiEvent::SetUpstream { .. } => None,
        UiEvent::ShowDivergence { .. } => None,
        UiEvent::ClearDivergence { .. } => None,
        UiEvent::NavigateHistory { .. } => None,
        UiEvent::Escape { .. } => None,
        UiEvent::CopyText { .. } => None,
        UiEvent::OpenUrl { .. } => None,
        UiEvent::DismissError { .. } => None,
        UiEvent::SetDiffView { .. } => None,
        UiEvent::ToggleHeatmap { .. } => None,
        UiEvent::NavigateHunk { .. } => None,
        UiEvent::ToggleDiffLine { .. } => None,
        UiEvent::ClearDiffLineSelection { .. } => None,
        UiEvent::StageSelectedLines { .. } => None,
        UiEvent::UnstageSelectedLines { .. } => None,
        UiEvent::StageFile { .. } => None,
        UiEvent::UnstageFile { .. } => None,
        UiEvent::StageAll { .. } => None,
        UiEvent::UnstageAll { .. } => None,
        UiEvent::ToggleStageSelection { .. } => None,
        UiEvent::StageFocusedHunk { .. } => None,
        UiEvent::SetCommitMessage { .. } => None,
        UiEvent::FocusCommitInput { .. } => None,
        UiEvent::Commit { .. } => None,
        UiEvent::CreateBranch { .. } => None,
        UiEvent::CheckoutBranch { .. } => None,
        UiEvent::RequestDeleteBranch { .. } => None,
        UiEvent::ConfirmDeleteBranch { .. } => None,
        UiEvent::CancelDeleteBranch { .. } => None,
        UiEvent::OpenBranchCleanup { .. } => None,
        UiEvent::ToggleCleanupBranch { .. } => None,
        UiEvent::ConfirmBranchCleanup { .. } => None,
        UiEvent::CancelBranchCleanup { .. } => None,
        UiEvent::Fetch { .. } => None,
        UiEvent::Pull { .. } => None,
        UiEvent::Push { .. } => None,
        UiEvent::SetOpenAfterInstantWorktree { .. } => None,
        UiEvent::CreateWorktree { .. } => None,
        UiEvent::InstantWorktree { .. } => None,
        UiEvent::RequestRemoveWorktree { .. } => None,
        UiEvent::ConfirmRemoveWorktree { .. } => None,
        UiEvent::CancelRemoveWorktree { .. } => None,
        UiEvent::StashSave { .. } => None,
        UiEvent::SelectStash { .. } => None,
        UiEvent::StashApply { .. } => None,
        UiEvent::StashPop { .. } => None,
        UiEvent::RequestDropStash { .. } => None,
        UiEvent::ConfirmDropStash { .. } => None,
        UiEvent::CancelDropStash { .. } => None,
        UiEvent::LoadMoreHistory { .. } => None,
        UiEvent::ShowFileHistory { .. } => None,
        UiEvent::ShowLineHistory { .. } => None,
        UiEvent::ClearHistoryFilter { .. } => None,
        UiEvent::Search { .. } => None,
        UiEvent::OpenCommandPalette { .. } => None,
        UiEvent::OpenQuickOpen { .. } => None,
        UiEvent::CloseOverlay { .. } => None,
        UiEvent::SetOverlayQuery { .. } => None,
        UiEvent::NavigateOverlay { .. } => None,
        UiEvent::SelectOverlayItem { .. } => None,
        UiEvent::ConfirmOverlay { .. } => None,
    }
}

fn overlay_confirmation(e: &UiEvent) -> (r: Option<Option<usize>>)
    ensures
        r == transition::overlay_confirmation(e.deep_view()),
{
    match e {
        UiEvent::OpenRepository { .. } => None,
        UiEvent::CloseRepository { .. } => None,
        UiEvent::SelectView { .. } => None,
        UiEvent::ToggleContextPanel { .. } => None,
        UiEvent::SelectFile { .. } => None,
        UiEvent::NavigateChanges { .. } => None,
        UiEvent::SelectCommit { .. } => None,
        UiEvent::SelectCommitFile { .. } => None,
        UiEvent::ClearCommitFileDiff { .. } => None,
        UiEvent::NavigateCommit { .. } => None,
        UiEvent::SelectBranch { .. } => None,
        UiEvent::SetBranchFilter { .. } => None,
        UiEvent::SetUpstream { .. } => None,
        UiEvent::ShowDivergence { .. } => None,
        UiEvent::ClearDivergence { .. } => None,
        UiEvent::NavigateHistory { .. } => None,
        UiEvent::Escape { .. } => None,
        UiEvent::CopyText { .. } => None,
        UiEvent::OpenUrl { .. } => None,
        UiEvent::DismissError { .. } => None,
        UiEvent::SetDiffView { .. } => None,
        UiEvent::ToggleHeatmap { .. } => None,
        UiEvent::NavigateHunk { .. } => None,
        UiEvent::ToggleDiffLine { .. } => None,
        UiEvent::ClearDiffLineSelection { .. } => None,
        UiEvent::StageSelectedLines { .. } => None,
        UiEvent::UnstageSelectedLines { .. } => None,
        UiEvent::StageFile { .. } => None,
        UiEvent::UnstageFile { .. } => None,
        UiEvent::StageAll { .. } => None,
        UiEvent::UnstageAll { .. } => None,
        UiEvent::ToggleStageSelection { .. } => None,
        UiEvent::StageFocusedHunk { .. } => None,
        UiEvent::SetCommitMessage { .. } => None,
        UiEvent::FocusCommitInput { .. } => None,
        UiEvent::Commit { .. } => None,
        UiEvent::CreateBranch { .. } => None,
        UiEvent::CheckoutBranch { .. } => None,
        UiEvent::RequestDeleteBranch { .. } => None,
        UiEvent::ConfirmDeleteBranch { .. } => None,
        UiEvent::CancelDeleteBranch { .. } => None,
        UiEvent::OpenBranchCleanup { .. } => None,
        UiEvent::ToggleCleanupBranch { .. } => None,
        UiEvent::ConfirmBranchCleanup { .. } => None,
        UiEvent::CancelBranchCleanup { .. } => None,
        UiEvent::Fetch { .. } => None,
        UiEvent::Pull { .. } => None,
        UiEvent::Push { .. } => None,
        UiEvent::SetOpenAfterInstantWorktree { .. } => None,
        UiEvent::CreateWorktree { .. } => None,
        UiEvent::InstantWorktree { .. } => None,
        UiEvent::RequestRemoveWorktree { .. } => None,
        UiEvent::ConfirmRemoveWorktree { .. } => None,
        UiEvent::CancelRemoveWorktree { .. } => None,
        UiEvent::StashSave { .. } => None,
        UiEvent::SelectStash { .. } => None,
        UiEvent::StashApply { .. } => None,
        UiEvent::StashPop { .. } => None,
        UiEvent::RequestDropStash { .. } => None,
        UiEvent::ConfirmDropStash { .. } => None,
        UiEvent::CancelDropStash { .. } => None,
        UiEvent::LoadMoreHistory { .. } => None,
        UiEvent::ShowFileHistory { .. } => None,
        UiEvent::ShowLineHistory { .. } => None,
        UiEvent::ClearHistoryFilter { .. } => None,
        UiEvent::Search { .. } => None,
        UiEvent::OpenCommandPalette { .. } => None,
        UiEvent::OpenQuickOpen { .. } => None,
        UiEvent::CloseOverlay { .. } => None,
        UiEvent::SetOverlayQuery { .. } => None,
        UiEvent::NavigateOverlay { .. } => None,
        UiEvent::SelectOverlayItem(i) => Some(Some(*i)),
        UiEvent::ConfirmOverlay => Some(None),
    }
}

fn conventional_type(a: crate::app::palette::PaletteAction) -> (r: Option<&'static str>)
    ensures
        r matches Some(t) ==> transition::conventional_type(a.deep_view()) == Some(t@),
        r is None ==> transition::conventional_type(a.deep_view()) is None,
{
    match a {
        crate::app::palette::PaletteAction::GoChanges => None,
        crate::app::palette::PaletteAction::GoHistory => None,
        crate::app::palette::PaletteAction::GoBranches => None,
        crate::app::palette::PaletteAction::InstantWorktree => None,
        crate::app::palette::PaletteAction::Fetch => None,
        crate::app::palette::PaletteAction::Pull => None,
        crate::app::palette::PaletteAction::Push => None,
        crate::app::palette::PaletteAction::StageAll => None,
        crate::app::palette::PaletteAction::UnstageAll => None,
        crate::app::palette::PaletteAction::FocusCommit => None,
        crate::app::palette::PaletteAction::Commit => None,
        crate::app::palette::PaletteAction::ToggleContext => None,
        crate::app::palette::PaletteAction::StashSave => None,
        crate::app::palette::PaletteAction::ToggleQuickOpen => None,
        crate::app::palette::PaletteAction::CommitBack => None,
        crate::app::palette::PaletteAction::CommitForward => None,
        crate::app::palette::PaletteAction::ToggleHeatmap => None,
        crate::app::palette::PaletteAction::ConventionalType(t) => Some(t),
        crate::app::palette::PaletteAction::SwitchRepository => None,
    }
}

fn confirm_overlay(state: &mut AppState) -> (r: Vec<Command>)
    ensures
        step_is(
            final(state).deep_view(),
            r.deep_view(),
            transition::confirm_overlay(old(state).deep_view()),
        ),
{
    proof {
        reveal(transition::confirm_overlay);
    }
    let (palette, query, selected) = match &state.ui.overlay {
        Overlay::Closed => {
            return none();
        },
        Overlay::CommandPalette { query, selected } => (true, query.clone(), *selected),
        Overlay::QuickOpen { query, selected } => (false, query.clone(), *selected),
    };
    if palette {
        let cmds = crate::app::palette::filter_commands(query.as_str());
        if selected >= cmds.len() {
            return none();
        }
        let action = cmds[selected].event;
        state.ui.overlay = Overlay::Closed;
        match conventional_type(action) {
            Some(ty) => {
                let next = crate::app::conventional::apply_type(state.ui.commit_message.as_str(), ty);
                state.navigation.context_panel_open = true;
                state.navigation.active_view = View::Changes;
                state.ui.commit_focus_token = if state.ui.commit_focus_token < u64::MAX {
                    state.ui.commit_focus_token + 1
                } else {
                    u64::MAX
                };
                reduce_basic(state, UiEvent::SetCommitMessage(next))
            },
            None => reduce_basic(state, crate::app::palette::action_to_event(action)),
        }
    } else {
        let items = crate::app::quick_open::collect_items(state);
        let filtered = crate::app::quick_open::filter_items(&items, query.as_str());
        if selected >= filtered.len() {
            return none();
        }
        state.ui.overlay = Overlay::Closed;
        let ev = filtered[selected].event.dup();
        match view_for_item(&ev) {
            Some(v) => {
                let mut first = reduce_basic(state, UiEvent::SelectView(v));
                let second = reduce_basic(state, ev);
                crate::dup::vec_extend(&mut first, second);
                first
            },
            None => reduce_basic(state, ev),
        }
    }
}

/// Applies a user event to the state and returns the commands to run.
pub fn reduce(state: &mut AppState, event: UiEvent) -> (r: Vec<Command>)
    ensures
        step_is(
            final(state).deep_view(),
            r.deep_view(),
            transition::reduce_of(old(state).deep_view(), event.deep_view()),
        ),
{
    match overlay_confirmation(&event) {
        Some(None) => confirm_overlay(state),
        Some(Some(index)) => {
            select_overlay_index(state, index);
            confirm_overlay(state)
        },
        None => reduce_basic(state, event),
    }
}

/// Applies a worker message to the state and returns follow-up commands.
///
/// Every message completes one in-flight command; a message from an older
/// generation changes nothing else.
pub fn apply(state: &mut AppState, message: crate::app::message::AppMessage) -> (r: Vec<Command>)
    ensures
        step_is(
            final(state).deep_view(),
            r.deep_view(),
            transition::apply_of(old(state).deep_view(), message.deep_view()),
        ),
{
    state.background.inflight = if state.background.inflight > 0 {
        state.background.inflight - 1
    } else {
        0
    };
    if message.generation() != state.generation {
        return none();
    }
    crate::app::completion::apply_current(state, message)
}

} // verus!
