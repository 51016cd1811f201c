//! Executes [`Command`]s against a [`GitService`] and answers each with the
//! [`AppMessage`] the reducer expects.
use vstd::prelude::*;

use crate::app::command::{command_generation, Command, CommandV};
use std::collections::HashMap;

use crate::app::diff_parse::{
    attach_change_origins, attach_origins_of, blame_view, parse_diff_content, parse_diff_of,
    to_summary, to_summary_of,
};
use crate::app::message::{
    AppMessage, AppMessageV, BranchesData, BranchesDataV, DivergenceData, DivergenceDataV,
    RemoteOp, RepositoryData, RepositoryDataV, StatusData, StatusDataV,
};
use crate::app::model::{
    BranchHealth, BranchInfo, BranchInfoV, ChangeKind, Generation, CommitSummary, DiffContent, DiffContentV,
    DiffTarget, DiffTargetV, FileChange, FileChangeV, HeadInfo, HeadInfoV, Oid, WorktreeInfo,
    WorktreeInfoV,
};
use crate::app::state::{HistoryFilter, HistoryFilterV};
use crate::app::transition::HISTORY_PAGE;
use crate::dup::{result_dv, vec_push, Dup};
use crate::git::error::{user_message_of, GitError, GitErrorV};
use crate::git::service::{
    BranchRef, BranchRefV, ChangeStatus, CommitInfo, CommitInfoV, DiffText, GitService, Head,
    RepoStatus, WorktreeRef, WorktreeRefV,
};
use crate::git::status::{changes_view, groups_of};
use crate::text::{chars_of, string_of};
#[allow(unused_imports)]
use vstd::view::View as _;

verus! {

// ---------------------------------------------------------------------------
// Plain conversions
// ---------------------------------------------------------------------------
/// The app's change kind for a backend change status.
pub open spec fn kind_of_status(s: ChangeStatus) -> ChangeKind {
    match s {
        ChangeStatus::Added => ChangeKind::Added,
        ChangeStatus::Modified => ChangeKind::Modified,
        ChangeStatus::Deleted => ChangeKind::Deleted,
        ChangeStatus::Renamed => ChangeKind::Renamed,
        ChangeStatus::Copied => ChangeKind::Copied,
        ChangeStatus::TypeChange => ChangeKind::TypeChanged,
        ChangeStatus::Untracked => ChangeKind::Untracked,
        ChangeStatus::Conflicted => ChangeKind::Conflicted,
    }
}

fn map_kind(s: ChangeStatus) -> (r: ChangeKind)
    ensures
        r == kind_of_status(s),
{
    match s {
        ChangeStatus::Added => ChangeKind::Added,
        ChangeStatus::Modified => ChangeKind::Modified,
        ChangeStatus::Deleted => ChangeKind::Deleted,
        ChangeStatus::Renamed => ChangeKind::Renamed,
        ChangeStatus::Copied => ChangeKind::Copied,
        ChangeStatus::TypeChange => ChangeKind::TypeChanged,
        ChangeStatus::Untracked => ChangeKind::Untracked,
        ChangeStatus::Conflicted => ChangeKind::Conflicted,
    }
}

pub open spec fn file_changes_of(v: Seq<(Seq<char>, ChangeStatus)>) -> Seq<FileChangeV> {
    v.map_values(|p: (Seq<char>, ChangeStatus)| FileChangeV { path: p.0, kind: kind_of_status(p.1) })
}

fn map_changes(changes: &Vec<crate::git::service::FileChange>) -> (r: Vec<FileChange>)
    ensures
        r.deep_view() == file_changes_of(changes_view(changes@)),
{
    let ghost cv = file_changes_of(changes_view(changes@));
    let mut out: Vec<FileChange> = Vec::new();
    let mut i: usize = 0;
    while i < changes.len()
        invariant
            i <= changes.len(),
            cv == file_changes_of(changes_view(changes@)),
            out.deep_view() == cv.take(i as int),
        decreases changes.len() - i,
    {
        let c = &changes[i];
        let f = FileChange::new(c.path.clone(), map_kind(c.status));
        vec_push(&mut out, f);
        assert(out.deep_view() =~= cv.take(i + 1));
        i = i + 1;
    }
    assert(cv.take(cv.len() as int) =~= cv);
    out
}

/// The status message data of a backend status (no web links).
pub open spec fn status_data_of(s: &RepoStatus) -> StatusDataV {
    let g = groups_of(s);
    StatusDataV {
        staged: file_changes_of(g.staged),
        unstaged: file_changes_of(g.unstaged),
        untracked: file_changes_of(g.untracked),
        conflicted: file_changes_of(g.conflicted),
        origin_web: None,
    }
}

/// Maps a backend status to the status message data.
pub fn status_data(status: &RepoStatus) -> (r: StatusData)
    ensures
        r.deep_view() == status_data_of(status),
{
    StatusData {
        staged: map_changes(&status.staged),
        unstaged: map_changes(&status.unstaged),
        untracked: map_changes(&status.untracked),
        conflicted: map_changes(&status.conflicted),
        origin_web: None,
    }
}

pub open spec fn head_info_of(h: &Head) -> HeadInfoV {
    HeadInfoV { branch: h.branch.deep_view(), oid: h.oid.deep_view(), detached: h.detached }
}

/// The app's HEAD summary of a backend HEAD.
pub fn head_info(h: &Head) -> (r: HeadInfo)
    ensures
        r.deep_view() == head_info_of(h),
{
    HeadInfo {
        branch: match &h.branch {
            Some(b) => Some(b.clone()),
            None => None,
        },
        oid: match &h.oid {
            Some(o) => Some(Oid(o.clone())),
            None => None,
        },
        detached: h.detached,
    }
}

/// The health of a tracking branch from ahead/behind counts.
pub open spec fn health_of(ahead: u32, behind: u32) -> BranchHealth {
    if ahead == 0 && behind == 0 {
        BranchHealth::Synced
    } else if behind == 0 {
        BranchHealth::Ahead
    } else if ahead == 0 {
        BranchHealth::Behind
    } else {
        BranchHealth::Diverged
    }
}

fn health(ahead: u32, behind: u32) -> (r: BranchHealth)
    ensures
        r == health_of(ahead, behind),
{
    if ahead == 0 && behind == 0 {
        BranchHealth::Synced
    } else if behind == 0 {
        BranchHealth::Ahead
    } else if ahead == 0 {
        BranchHealth::Behind
    } else {
        BranchHealth::Diverged
    }
}

/// A branch of the list: remote branches and branches without upstream (or
/// whose counts could not be read) are local with zero counts; others
/// carry their counts and the health they give.
pub open spec fn branch_info_of(r: BranchRefV, counts: Option<(u32, u32)>, last: Option<CommitInfoV>) -> BranchInfoV {
    let (a, b, h) = match counts {
        Some((x, y)) => if !r.is_remote && r.upstream is Some {
            (x, y, health_of(x, y))
        } else {
            (0u32, 0u32, BranchHealth::Local)
        },
        None => (0u32, 0u32, BranchHealth::Local),
    };
    BranchInfoV {
        name: r.name,
        upstream: r.upstream,
        health: h,
        ahead: a,
        behind: b,
        last_commit: match last {
            Some(c) => Some(to_summary_of(c)),
            None => None,
        },
        is_remote: r.is_remote,
        stale_days: None,
    }
}

/// The name of the first local branch that is HEAD.
pub open spec fn current_from(refs: Seq<BranchRefV>, i: int) -> Option<Seq<char>>
    decreases refs.len() - i,
{
    if i < 0 || i >= refs.len() {
        None
    } else if refs[i].is_head && !refs[i].is_remote {
        Some(refs[i].name)
    } else {
        current_from(refs, i + 1)
    }
}

pub open spec fn branches_data_of(
    refs: Seq<BranchRefV>,
    counts: Seq<Option<(u32, u32)>>,
    last: Seq<Option<CommitInfoV>>,
    recent: Seq<Seq<char>>,
) -> BranchesDataV {
    BranchesDataV {
        branches: Seq::new(refs.len(), |i: int| branch_info_of(refs[i], counts[i], last[i])),
        current: current_from(refs, 0),
        recent,
        pending_health: seq![],
        merged_into_base: seq![],
    }
}

/// The branch list message data from the listed refs, each one's
/// ahead/behind counts against its upstream and its tip commit (none where
/// not read), and the recent branch names.
#[verifier::spinoff_prover]
pub fn branches_data(
    refs: &Vec<BranchRef>,
    counts: &Vec<Option<(u32, u32)>>,
    last: &Vec<Option<CommitInfo>>,
    recent: Vec<String>,
) -> (r: BranchesData)
    requires
        counts.len() == refs.len(),
        last.len() == refs.len(),
    ensures
        r.deep_view() == branches_data_of(refs.deep_view(), counts@, last.deep_view(), recent.deep_view()),
{
    let ghost rv = refs.deep_view();
    let ghost lv = last.deep_view();
    let ghost want = Seq::new(rv.len(), |i: int| branch_info_of(rv[i], counts@[i], lv[i]));
    let mut infos: Vec<BranchInfo> = Vec::new();
    let mut current: Option<String> = None;
    let mut i: usize = 0;
    while i < refs.len()
        invariant
            i <= refs.len(),
            counts.len() == refs.len(),
            last.len() == refs.len(),
            rv == refs.deep_view(),
            lv == last.deep_view(),
            want == Seq::new(rv.len(), |i: int| branch_info_of(rv[i], counts@[i], lv[i])),
            infos.deep_view() == want.take(i as int),
            current_from(rv, 0) == (match current {
                Some(c) => Some(c@),
                None => current_from(rv, i as int),
            }),
        decreases refs.len() - i,
    {
        let b = &refs[i];
        assert(rv[i as int] == b.deep_view());
        assert(lv[i as int] == last[i as int].deep_view());
        if current.is_none() && b.is_head && !b.is_remote {
            current = Some(b.name.clone());
        }
        let (a, be, h) = if !b.is_remote && b.upstream.is_some() {
            match counts[i] {
                Some((a, be)) => (a, be, health(a, be)),
                None => (0u32, 0u32, BranchHealth::Local),
            }
        } else {
            (0u32, 0u32, BranchHealth::Local)
        };
        let info = BranchInfo {
            name: b.name.clone(),
            upstream: match &b.upstream {
                Some(u) => Some(u.clone()),
                None => None,
            },
            health: h,
            ahead: a,
            behind: be,
            last_commit: match &last[i] {
                Some(c) => Some(to_summary(c)),
                None => None,
            },
            is_remote: b.is_remote,
            stale_days: None,
        };
        assert(info.deep_view() == want[i as int]);
        vec_push(&mut infos, info);
        assert(infos.deep_view() =~= want.take(i + 1));
        i = i + 1;
    }
    assert(want.take(want.len() as int) =~= want);
    let none: Vec<String> = Vec::new();
    let none2: Vec<String> = Vec::new();
    assert(none.deep_view() =~= Seq::<Seq<char>>::empty());
    assert(none2.deep_view() =~= Seq::<Seq<char>>::empty());
    BranchesData { branches: infos, current, recent, pending_health: none, merged_into_base: none2 }
}

pub open spec fn worktree_infos_of(ws: Seq<WorktreeRefV>) -> Seq<WorktreeInfoV> {
    ws.map_values(|w: WorktreeRefV| WorktreeInfoV { path: w.path, branch: w.branch, is_primary: w.is_primary })
}

/// The app's worktree list of backend worktree references.
pub fn worktree_infos(ws: &Vec<WorktreeRef>) -> (r: Vec<WorktreeInfo>)
    ensures
        r.deep_view() == worktree_infos_of(ws.deep_view()),
{
    let ghost want = worktree_infos_of(ws.deep_view());
    let mut out: Vec<WorktreeInfo> = Vec::new();
    let mut i: usize = 0;
    while i < ws.len()
        invariant
            i <= ws.len(),
            want == worktree_infos_of(ws.deep_view()),
            out.deep_view() == want.take(i as int),
        decreases ws.len() - i,
    {
        let w = &ws[i];
        let info = WorktreeInfo {
            path: w.path.clone(),
            branch: match &w.branch {
                Some(b) => Some(b.clone()),
                None => None,
            },
            is_primary: w.is_primary,
        };
        vec_push(&mut out, info);
        assert(out.deep_view() =~= want.take(i + 1));
        i = i + 1;
    }
    assert(want.take(want.len() as int) =~= want);
    out
}

pub open spec fn summaries_of(cs: Seq<CommitInfoV>) -> Seq<crate::app::model::CommitSummaryV> {
    cs.map_values(|c: CommitInfoV| to_summary_of(c))
}

fn summaries(cs: &Vec<CommitInfo>) -> (r: Vec<CommitSummary>)
    ensures
        r.deep_view() == summaries_of(cs.deep_view()),
{
    let ghost want = summaries_of(cs.deep_view());
    let mut out: Vec<CommitSummary> = Vec::new();
    let mut i: usize = 0;
    while i < cs.len()
        invariant
            i <= cs.len(),
            want == summaries_of(cs.deep_view()),
            out.deep_view() == want.take(i as int),
        decreases cs.len() - i,
    {
        vec_push(&mut out, to_summary(&cs[i]));
        assert(out.deep_view() =~= want.take(i + 1));
        i = i + 1;
    }
    assert(want.take(want.len() as int) =~= want);
    out
}

// ---------------------------------------------------------------------------
// Which command gets which answer
// ---------------------------------------------------------------------------
pub open spec fn no_repo_msg() -> Seq<char> {
    "リポジトリが開かれていません"@
}

/// The commands this executor carries out.
pub open spec fn is_supported(c: CommandV) -> bool {
    ||| c is OpenRepository
    ||| c is LoadStatus
    ||| c is LoadDiff
    ||| c is Stage
    ||| c is Unstage
    ||| c is StageLines
    ||| c is LoadHistoryPage
    ||| c is LoadBranches
    ||| c is LoadDivergence
    ||| c is SetUpstream
    ||| c is LoadWorktrees
    ||| c is StageAll
    ||| c is UnstageAll
    ||| c is Commit
    ||| c is CreateBranch
    ||| c is Checkout
    ||| c is DeleteBranch
}

/// The operation name reported for a command the executor does not carry out.
pub open spec fn command_name_of(c: CommandV) -> Seq<char> {
    match c {
        CommandV::EnrichBlame { .. } => "blame"@,
        CommandV::EnrichBranchHealth { .. } => "ahead_behind"@,
        CommandV::Fetch { .. } | CommandV::AutoFetch { .. } => "fetch"@,
        CommandV::Pull { .. } => "pull"@,
        CommandV::Push { .. } => "push"@,
        CommandV::CreateWorktree { .. } => "create_worktree"@,
        CommandV::RemoveWorktree { .. } => "remove_worktree"@,
        CommandV::StashSave { .. } => "stash_save"@,
        CommandV::LoadStashes { .. } => "stash_list"@,
        CommandV::LoadStashDiff { .. } => "stash_diff"@,
        CommandV::StashApply { .. } => "stash_apply"@,
        CommandV::StashPop { .. } => "stash_pop"@,
        CommandV::StashDrop { .. } => "stash_drop"@,
        CommandV::LoadCommitDetail { .. } => "commit_detail"@,
        CommandV::LoadCommitFileDiff { .. } => "commit_file_diff"@,
        _ => "command"@,
    }
}

/// The answer to a command the executor does not carry out: its message
/// with the unsupported-operation error.
pub open spec fn unsupported_reply(c: CommandV) -> AppMessageV {
    let generation = command_generation(c);
    let err = user_message_of(GitErrorV::Unsupported(command_name_of(c)));
    match c {
        CommandV::Fetch { .. } | CommandV::AutoFetch { .. } => AppMessageV::RemoteCompleted {
            generation,
            op: RemoteOp::Fetch,
            result: Err(err),
        },
        CommandV::Pull { .. } => AppMessageV::RemoteCompleted { generation, op: RemoteOp::Pull, result: Err(err) },
        CommandV::Push { .. } => AppMessageV::RemoteCompleted { generation, op: RemoteOp::Push, result: Err(err) },
        CommandV::CreateWorktree { .. } => AppMessageV::WorktreeCreated { generation, result: Err(err) },
        CommandV::RemoveWorktree { .. } => AppMessageV::WorktreeRemoved { generation, result: Err(err) },
        CommandV::StashSave { .. } => AppMessageV::StashSaved { generation, result: Err(err) },
        CommandV::LoadStashes { .. } => AppMessageV::StashesLoaded { generation, result: Err(err) },
        CommandV::LoadStashDiff { index, .. } => AppMessageV::StashDiffLoaded { generation, index, result: Err(err) },
        CommandV::StashApply { .. } => AppMessageV::StashApplied { generation, result: Err(err) },
        CommandV::StashPop { .. } => AppMessageV::StashPopped { generation, result: Err(err) },
        CommandV::StashDrop { .. } => AppMessageV::StashDropped { generation, result: Err(err) },
        CommandV::EnrichBranchHealth { .. } => AppMessageV::BranchHealthEnriched { generation, result: Err(err) },
        CommandV::LoadCommitDetail { oid, .. } => AppMessageV::CommitDetailLoaded { generation, oid, result: Err(err) },
        CommandV::LoadCommitFileDiff { oid, path, .. } => AppMessageV::CommitFileDiffLoaded {
            generation,
            oid,
            path,
            result: Err(err),
        },
        _ => AppMessageV::WorkerFault { generation, detail: err },
    }
}

/// The message kind (and carried fields) that answers a carried-out command.
pub open spec fn answers(c: CommandV, m: AppMessageV) -> bool {
    match c {
        CommandV::OpenRepository { .. } => m is RepositoryOpened,
        CommandV::LoadStatus { .. } => m is StatusLoaded,
        CommandV::LoadDiff { .. } => m is DiffLoaded,
        CommandV::Stage { path, .. } | CommandV::StageLines { path, .. } => m matches AppMessageV::StageCompleted { path: p, .. } && p == path,
        CommandV::Unstage { path, .. } => m matches AppMessageV::UnstageCompleted { path: p, .. } && p == path,
        CommandV::StageAll { .. } => m matches AppMessageV::StageCompleted { path: p, .. } && p == seq!['.'],
        CommandV::UnstageAll { .. } => m matches AppMessageV::UnstageCompleted { path: p, .. } && p == seq!['.'],
        CommandV::LoadHistoryPage { filter, offset, .. } => m matches AppMessageV::HistoryPageLoaded { filter: f, offset: o, .. } && f == filter && o == offset,
        CommandV::LoadBranches { .. } => m is BranchesLoaded,
        CommandV::LoadDivergence { left, right, .. } => m matches AppMessageV::DivergenceLoaded { left: l, right: r, .. } && l == left && r == right,
        CommandV::SetUpstream { .. } => m is UpstreamSet,
        CommandV::LoadWorktrees { .. } => m is WorktreesLoaded,
        CommandV::Commit { .. } => m is CommitCompleted,
        CommandV::CreateBranch { .. } => m is BranchCreated,
        CommandV::Checkout { .. } => m is CheckoutCompleted,
        CommandV::DeleteBranch { .. } => m is BranchDeleted,
        _ => m == unsupported_reply(c),
    }
}

/// The error text a message carries, if its result failed.
pub open spec fn reply_error(m: AppMessageV) -> Option<Seq<char>> {
    match m {
        AppMessageV::RepositoryOpened { result: Err(e), .. } => Some(e),
        AppMessageV::StatusLoaded { result: Err(e), .. } => Some(e),
        AppMessageV::DiffLoaded { result: Err(e), .. } => Some(e),
        AppMessageV::HistoryPageLoaded { result: Err(e), .. } => Some(e),
        AppMessageV::BranchesLoaded { result: Err(e), .. } => Some(e),
        AppMessageV::DivergenceLoaded { result: Err(e), .. } => Some(e),
        AppMessageV::WorktreesLoaded { result: Err(e), .. } => Some(e),
        AppMessageV::StageCompleted { result: Err(e), .. } => Some(e),
        AppMessageV::UnstageCompleted { result: Err(e), .. } => Some(e),
        AppMessageV::CommitCompleted { result: Err(e), .. } => Some(e),
        AppMessageV::CheckoutCompleted { result: Err(e), .. } => Some(e),
        AppMessageV::BranchCreated { result: Err(e), .. } => Some(e),
        AppMessageV::BranchDeleted { result: Err(e), .. } => Some(e),
        AppMessageV::UpstreamSet { result: Err(e), .. } => Some(e),
        _ => None,
    }
}

fn command_name(cmd: &Command) -> (r: &'static str)
    ensures
        r@ == command_name_of(cmd.deep_view()),
{
    match cmd {
        Command::EnrichBlame { .. } => "blame",
        Command::EnrichBranchHealth { .. } => "ahead_behind",
        Command::Fetch { .. } | Command::AutoFetch { .. } => "fetch",
        Command::Pull { .. } => "pull",
        Command::Push { .. } => "push",
        Command::CreateWorktree { .. } => "create_worktree",
        Command::RemoveWorktree { .. } => "remove_worktree",
        Command::StashSave { .. } => "stash_save",
        Command::LoadStashes { .. } => "stash_list",
        Command::LoadStashDiff { .. } => "stash_diff",
        Command::StashApply { .. } => "stash_apply",
        Command::StashPop { .. } => "stash_pop",
        Command::StashDrop { .. } => "stash_drop",
        Command::LoadCommitDetail { .. } => "commit_detail",
        Command::LoadCommitFileDiff { .. } => "commit_file_diff",
        _ => "command",
    }
}

/// The answer to a command this executor does not carry out.
pub fn unsupported(cmd: &Command) -> (m: AppMessage)
    requires
        !is_supported(cmd.deep_view()),
    ensures
        m.deep_view() == unsupported_reply(cmd.deep_view()),
{
    let generation = cmd.generation();
    let err = GitError::unsupported(command_name(cmd)).user_message();
    match cmd {
        Command::Fetch { .. } | Command::AutoFetch { .. } => AppMessage::RemoteCompleted {
            generation,
            op: RemoteOp::Fetch,
            result: Err(err),
        },
        Command::Pull { .. } => AppMessage::RemoteCompleted { generation, op: RemoteOp::Pull, result: Err(err) },
        Command::Push { .. } => AppMessage::RemoteCompleted { generation, op: RemoteOp::Push, result: Err(err) },
        Command::CreateWorktree { .. } => AppMessage::WorktreeCreated { generation, result: Err(err) },
        Command::RemoveWorktree { .. } => AppMessage::WorktreeRemoved { generation, result: Err(err) },
        Command::StashSave { .. } => AppMessage::StashSaved { generation, result: Err(err) },
        Command::LoadStashes { .. } => AppMessage::StashesLoaded { generation, result: Err(err) },
        Command::LoadStashDiff { index, .. } => AppMessage::StashDiffLoaded { generation, index: *index, result: Err(err) },
        Command::StashApply { .. } => AppMessage::StashApplied { generation, result: Err(err) },
        Command::StashPop { .. } => AppMessage::StashPopped { generation, result: Err(err) },
        Command::StashDrop { .. } => AppMessage::StashDropped { generation, result: Err(err) },
        Command::EnrichBranchHealth { .. } => AppMessage::BranchHealthEnriched { generation, result: Err(err) },
        Command::LoadCommitDetail { oid, .. } => AppMessage::CommitDetailLoaded { generation, oid: oid.dup(), result: Err(err) },
        Command::LoadCommitFileDiff { oid, path, .. } => AppMessage::CommitFileDiffLoaded {
            generation,
            oid: oid.dup(),
            path: path.clone(),
            result: Err(err),
        },
        _ => AppMessage::WorkerFault { generation, detail: err },
    }
}

fn is_supported_exec(cmd: &Command) -> (b: bool)
    ensures
        b == is_supported(cmd.deep_view()),
{
    match cmd {
        Command::OpenRepository { .. } | Command::LoadStatus { .. } | Command::LoadDiff { .. }
        | Command::Stage { .. } | Command::Unstage { .. } | Command::StageLines { .. }
        | Command::LoadHistoryPage { .. } | Command::LoadBranches { .. }
        | Command::LoadDivergence { .. } | Command::SetUpstream { .. }
        | Command::LoadWorktrees { .. } | Command::StageAll { .. } | Command::UnstageAll { .. }
        | Command::Commit { .. } | Command::CreateBranch { .. } | Command::Checkout { .. }
        | Command::DeleteBranch { .. } => true,
        _ => false,
    }
}

// ---------------------------------------------------------------------------
// What a carried-out command answers
// ---------------------------------------------------------------------------
/// How many recent branch names a branch listing asks for.
pub const RECENT_BRANCHES: usize = 10;

/// How many commits each side of a divergence view lists at most.
pub const DIVERGENCE_LIMIT: usize = 100;

/// The text a failed operation is reported with.
pub open spec fn err_text(e: GitError) -> Seq<char> {
    user_message_of(e.deep_view())
}

/// A result without a value, as reported.
pub open spec fn unit_result(r: Result<(), GitError>) -> Result<(), Seq<char>> {
    match r {
        Ok(_) => Ok(()),
        Err(e) => Err(err_text(e)),
    }
}

/// What each operation may give on a service, as the service describes it.
pub open spec fn diff_may<S: GitService>(svc: S, path: Seq<char>, staged: bool, r: Result<DiffText, GitError>) -> bool {
    svc.diff_gives(path, staged, r)
}

pub open spec fn blame_may<S: GitService>(svc: S, path: Seq<char>, r: Result<HashMap<u32, CommitInfo>, GitError>) -> bool {
    svc.blame_gives(path, r)
}

pub open spec fn stage_may<S: GitService>(svc: S, path: Seq<char>, r: Result<(), GitError>) -> bool {
    svc.stage_gives(path, r)
}

pub open spec fn unstage_may<S: GitService>(svc: S, path: Seq<char>, r: Result<(), GitError>) -> bool {
    svc.unstage_gives(path, r)
}

pub open spec fn stage_lines_may<S: GitService>(svc: S, path: Seq<char>, from_staged: bool, selected: Seq<usize>, r: Result<(), GitError>) -> bool {
    svc.stage_lines_gives(path, from_staged, selected, r)
}

pub open spec fn stage_all_may<S: GitService>(svc: S, r: Result<(), GitError>) -> bool {
    svc.stage_all_gives(r)
}

pub open spec fn unstage_all_may<S: GitService>(svc: S, r: Result<(), GitError>) -> bool {
    svc.unstage_all_gives(r)
}

pub open spec fn commit_may<S: GitService>(svc: S, message: Seq<char>, r: Result<String, GitError>) -> bool {
    svc.commit_gives(message, r)
}

pub open spec fn log_page_may<S: GitService>(svc: S, skip: usize, limit: usize, r: Result<Vec<CommitInfo>, GitError>) -> bool {
    svc.log_page_gives(skip, limit, r)
}

pub open spec fn branches_may<S: GitService>(svc: S, r: Result<Vec<BranchRef>, GitError>) -> bool {
    svc.branches_gives(r)
}

pub open spec fn merge_base_may<S: GitService>(svc: S, a: Seq<char>, b: Seq<char>, r: Result<String, GitError>) -> bool {
    svc.merge_base_gives(a, b, r)
}

pub open spec fn ahead_behind_may<S: GitService>(svc: S, tip: Seq<char>, other: Seq<char>, r: Result<(u32, u32), GitError>) -> bool {
    svc.ahead_behind_gives(tip, other, r)
}

pub open spec fn recent_branches_may<S: GitService>(svc: S, limit: usize, r: Result<Vec<String>, GitError>) -> bool {
    svc.recent_branches_gives(limit, r)
}

pub open spec fn branch_last_commit_may<S: GitService>(svc: S, branch: Seq<char>, r: Result<Option<CommitInfo>, GitError>) -> bool {
    svc.branch_last_commit_gives(branch, r)
}

pub open spec fn set_upstream_may<S: GitService>(svc: S, branch: Seq<char>, upstream: Seq<char>, r: Result<(), GitError>) -> bool {
    svc.set_upstream_gives(branch, upstream, r)
}

pub open spec fn create_branch_may<S: GitService>(svc: S, name: Seq<char>, r: Result<(), GitError>) -> bool {
    svc.create_branch_gives(name, r)
}

pub open spec fn checkout_may<S: GitService>(svc: S, name: Seq<char>, r: Result<Head, GitError>) -> bool {
    svc.checkout_gives(name, r)
}

pub open spec fn delete_branch_may<S: GitService>(svc: S, name: Seq<char>, r: Result<(), GitError>) -> bool {
    svc.delete_branch_gives(name, r)
}

pub open spec fn worktrees_may<S: GitService>(svc: S, r: Result<Vec<WorktreeRef>, GitError>) -> bool {
    svc.worktrees_gives(r)
}

/// The blame map a diff is annotated with: none when blame failed.
pub open spec fn blame_or_empty(r: Result<HashMap<u32, CommitInfo>, GitError>) -> Map<u32, CommitInfoV> {
    match r {
        Ok(b) => blame_view(&b),
        Err(_) => Map::empty(),
    }
}

/// A diff for `t`: the service's diff text parsed, annotated with the
/// file's blame (an empty blame when that call fails).
pub open spec fn diff_outcome<S: GitService>(svc: S, t: DiffTargetV, res: Result<DiffContentV, Seq<char>>) -> bool {
    exists|dr: Result<DiffText, GitError>|
        #[trigger] diff_may(svc, t.path, t.staged, dr)
        && match dr {
            Err(e) => res == Err::<DiffContentV, Seq<char>>(err_text(e)),
            Ok(d) => exists|br: Result<HashMap<u32, CommitInfo>, GitError>|
                #[trigger] blame_may(svc, t.path, br)
                && res == Ok::<DiffContentV, Seq<char>>(
                    attach_origins_of(parse_diff_of(t, d.text@), blame_or_empty(br)),
                ),
        }
}

/// Whether a branch gets ahead/behind counts: a local branch with an upstream.
pub open spec fn wants_counts(b: BranchRef) -> bool {
    !b.is_remote && b.upstream is Some
}

/// The counts recorded for `b`: the service's ahead/behind against its
/// upstream (none when that fails), none for a branch that gets no counts.
pub open spec fn count_from<S: GitService>(svc: S, b: BranchRef, c: Option<(u32, u32)>) -> bool {
    if wants_counts(b) {
        exists|ar: Result<(u32, u32), GitError>|
            #[trigger] ahead_behind_may(svc, b.name@, b.upstream.unwrap()@, ar)
            && c == match ar {
                Ok(ab) => Some(ab),
                Err(_) => None::<(u32, u32)>,
            }
    } else {
        c is None
    }
}

/// The last commit recorded for `b`: the service's answer, none when it
/// fails or has none.
pub open spec fn last_from<S: GitService>(svc: S, b: BranchRef, l: Option<CommitInfo>) -> bool {
    exists|lr: Result<Option<CommitInfo>, GitError>|
        #[trigger] branch_last_commit_may(svc, b.name@, lr)
        && l == match lr {
            Ok(Some(ci)) => Some(ci),
            _ => None::<CommitInfo>,
        }
}

/// Counts and last commits gathered branch by branch.
pub open spec fn extras_from<S: GitService>(
    svc: S,
    refs: Seq<BranchRef>,
    counts: Seq<Option<(u32, u32)>>,
    last: Seq<Option<CommitInfo>>,
) -> bool {
    &&& counts.len() == refs.len()
    &&& last.len() == refs.len()
    &&& forall|i: int| 0 <= i < refs.len() ==> count_from(svc, refs[i], counts[i]) && last_from(svc, refs[i], last[i])
}

/// A branch listing: the service's branches and recent names, with counts
/// and last commits per branch; the first failing call's error otherwise.
pub open spec fn branches_outcome<S: GitService>(svc: S, res: Result<BranchesDataV, Seq<char>>) -> bool {
    exists|br: Result<Vec<BranchRef>, GitError>|
        #[trigger] branches_may(svc, br)
        && match br {
            Err(e) => res == Err::<BranchesDataV, Seq<char>>(err_text(e)),
            Ok(refs) => exists|rr: Result<Vec<String>, GitError>|
                #[trigger] recent_branches_may(svc, RECENT_BRANCHES, rr)
                && match rr {
                    Err(e) => res == Err::<BranchesDataV, Seq<char>>(err_text(e)),
                    Ok(recent) => exists|counts: Vec<Option<(u32, u32)>>, last: Vec<Option<CommitInfo>>|
                        #[trigger] extras_from(svc, refs@, counts@, last@)
                        && res == Ok::<BranchesDataV, Seq<char>>(
                            branches_data_of(refs.deep_view(), counts@, last.deep_view(), recent.deep_view()),
                        ),
                },
        }
}

/// The commits on `tip` that `base` lacks, as asked for a divergence view.
pub open spec fn side_from<S: GitService>(svc: S, tip: Seq<char>, base: Seq<char>, r: Result<Vec<CommitInfo>, GitError>) -> bool {
    svc.commits_not_in_gives(tip, base, DIVERGENCE_LIMIT, r)
}

/// A divergence view of `left` and `right`: their merge base and, up to the
/// limit, the commits on each side since it.
pub open spec fn divergence_outcome<S: GitService>(
    svc: S,
    left: Seq<char>,
    right: Seq<char>,
    res: Result<DivergenceDataV, Seq<char>>,
) -> bool {
    exists|mb: Result<String, GitError>|
        #[trigger] merge_base_may(svc, left, right, mb)
        && match mb {
            Err(e) => res == Err::<DivergenceDataV, Seq<char>>(err_text(e)),
            Ok(base) => exists|lr: Result<Vec<CommitInfo>, GitError>|
                #[trigger] side_from(svc, left, base@, lr) && match lr {
                    Err(e) => res == Err::<DivergenceDataV, Seq<char>>(err_text(e)),
                    Ok(lc) => exists|rr: Result<Vec<CommitInfo>, GitError>|
                        #[trigger] side_from(svc, right, base@, rr) && match rr {
                            Err(e) => res == Err::<DivergenceDataV, Seq<char>>(err_text(e)),
                            Ok(rc) => res == Ok::<DivergenceDataV, Seq<char>>(DivergenceDataV {
                                merge_base: Some(base@),
                                left_only: summaries_of(lc.deep_view()),
                                right_only: summaries_of(rc.deep_view()),
                            }),
                        },
                },
        }
}

/// The answer to a carried-out command, given the service it ran on: the
/// command's own operation, with the command's own arguments, and its
/// outcome turned into the reply.
/// The answer to `LoadStatus` on `svc`.
pub open spec fn load_status_reply<S: GitService>(svc: S, generation: Generation, m: AppMessageV) -> bool {
    exists|r: Result<RepoStatus, GitError>|
        #[trigger] svc.status_gives(r) && m == AppMessageV::StatusLoaded {
            generation,
            result: match r {
                Ok(st) => Ok(status_data_of(&st)),
                Err(e) => Err(err_text(e)),
            },
        }
}

/// The answer to `Stage` on `svc`.
pub open spec fn stage_reply<S: GitService>(svc: S, path: Seq<char>, generation: Generation, m: AppMessageV) -> bool {
    exists|r: Result<(), GitError>|
        #[trigger] stage_may(svc, path, r)
        && m == AppMessageV::StageCompleted { generation, path, result: unit_result(r) }
}

/// The answer to `Unstage` on `svc`.
pub open spec fn unstage_reply<S: GitService>(svc: S, path: Seq<char>, generation: Generation, m: AppMessageV) -> bool {
    exists|r: Result<(), GitError>|
        #[trigger] unstage_may(svc, path, r)
        && m == AppMessageV::UnstageCompleted { generation, path, result: unit_result(r) }
}

/// The answer to `StageLines` on `svc`.
pub open spec fn stage_lines_reply<S: GitService>(svc: S, path: Seq<char>, from_staged: bool, lines: Seq<usize>, generation: Generation, m: AppMessageV) -> bool {
    exists|r: Result<(), GitError>|
        #[trigger] stage_lines_may(svc, path, from_staged, lines, r)
        && m == AppMessageV::StageCompleted { generation, path, result: unit_result(r) }
}

/// The answer to `StageAll` on `svc`.
pub open spec fn stage_all_reply<S: GitService>(svc: S, generation: Generation, m: AppMessageV) -> bool {
    exists|r: Result<(), GitError>|
        #[trigger] stage_all_may(svc, r)
        && m == AppMessageV::StageCompleted { generation, path: seq!['.'], result: unit_result(r) }
}

/// The answer to `UnstageAll` on `svc`.
pub open spec fn unstage_all_reply<S: GitService>(svc: S, generation: Generation, m: AppMessageV) -> bool {
    exists|r: Result<(), GitError>|
        #[trigger] unstage_all_may(svc, r)
        && m == AppMessageV::UnstageCompleted { generation, path: seq!['.'], result: unit_result(r) }
}

/// The answer to `LoadHistoryPage` on `svc`.
pub open spec fn load_history_page_reply<S: GitService>(svc: S, filter: HistoryFilterV, offset: usize, generation: Generation, m: AppMessageV) -> bool {
    exists|r: Result<Vec<CommitInfo>, GitError>|
        #[trigger] log_page_may(svc, offset, HISTORY_PAGE, r)
        && m == AppMessageV::HistoryPageLoaded {
            generation,
            filter,
            offset,
            result: match r {
                Ok(p) => Ok(summaries_of(p.deep_view())),
                Err(e) => Err(err_text(e)),
            },
        }
}

/// The answer to `SetUpstream` on `svc`.
pub open spec fn set_upstream_reply<S: GitService>(svc: S, branch: Seq<char>, upstream: Seq<char>, generation: Generation, m: AppMessageV) -> bool {
    exists|r: Result<(), GitError>|
        #[trigger] set_upstream_may(svc, branch, upstream, r)
        && m == AppMessageV::UpstreamSet { generation, result: unit_result(r) }
}

/// The answer to `LoadWorktrees` on `svc`.
pub open spec fn load_worktrees_reply<S: GitService>(svc: S, generation: Generation, m: AppMessageV) -> bool {
    exists|r: Result<Vec<WorktreeRef>, GitError>|
        #[trigger] worktrees_may(svc, r)
        && m == AppMessageV::WorktreesLoaded {
            generation,
            result: match r {
                Ok(ws) => Ok(worktree_infos_of(ws.deep_view())),
                Err(e) => Err(err_text(e)),
            },
        }
}

/// The answer to `Commit` on `svc`.
pub open spec fn commit_reply<S: GitService>(svc: S, message: Seq<char>, generation: Generation, m: AppMessageV) -> bool {
    exists|r: Result<String, GitError>|
        #[trigger] commit_may(svc, message, r)
        && m == AppMessageV::CommitCompleted {
            generation,
            result: match r {
                Ok(oid) => Ok(oid@),
                Err(e) => Err(err_text(e)),
            },
        }
}

/// The answer to `CreateBranch` on `svc`.
pub open spec fn create_branch_reply<S: GitService>(svc: S, name: Seq<char>, generation: Generation, m: AppMessageV) -> bool {
    exists|r: Result<(), GitError>|
        #[trigger] create_branch_may(svc, name, r)
        && m == AppMessageV::BranchCreated { generation, result: unit_result(r) }
}

/// The answer to `Checkout` on `svc`.
pub open spec fn checkout_reply<S: GitService>(svc: S, name: Seq<char>, generation: Generation, m: AppMessageV) -> bool {
    exists|r: Result<Head, GitError>|
        #[trigger] checkout_may(svc, name, r)
        && m == AppMessageV::CheckoutCompleted {
            generation,
            result: match r {
                Ok(h) => Ok(head_info_of(&h)),
                Err(e) => Err(err_text(e)),
            },
        }
}

/// The answer to `DeleteBranch` on `svc`.
pub open spec fn delete_branch_reply<S: GitService>(svc: S, name: Seq<char>, generation: Generation, m: AppMessageV) -> bool {
    exists|r: Result<(), GitError>|
        #[trigger] delete_branch_may(svc, name, r)
        && m == AppMessageV::BranchDeleted { generation, result: unit_result(r) }
}

pub open spec fn reply_of<S: GitService>(svc: S, c: CommandV, m: AppMessageV) -> bool {
    match c {
        CommandV::LoadStatus { generation } => load_status_reply(svc, generation, m),
        CommandV::LoadDiff { target, generation } => match m {
            AppMessageV::DiffLoaded { generation: g, result } => g == generation && diff_outcome(svc, target, result),
            _ => false,
        },
        CommandV::Stage { path, generation } => stage_reply(svc, path, generation, m),
        CommandV::Unstage { path, generation } => unstage_reply(svc, path, generation, m),
        CommandV::StageLines { path, from_staged, lines, generation } => stage_lines_reply(svc, path, from_staged, lines, generation, m),
        CommandV::StageAll { generation } => stage_all_reply(svc, generation, m),
        CommandV::UnstageAll { generation } => unstage_all_reply(svc, generation, m),
        CommandV::LoadHistoryPage { filter, offset, generation } => load_history_page_reply(svc, filter, offset, generation, m),
        CommandV::LoadBranches { generation } => match m {
            AppMessageV::BranchesLoaded { generation: g, result } => g == generation && branches_outcome(svc, result),
            _ => false,
        },
        CommandV::LoadDivergence { left, right, generation } => match m {
            AppMessageV::DivergenceLoaded { generation: g, left: l, right: r, result } => g == generation && l == left
                && r == right && divergence_outcome(svc, left, right, result),
            _ => false,
        },
        CommandV::SetUpstream { branch, upstream, generation } => set_upstream_reply(svc, branch, upstream, generation, m),
        CommandV::LoadWorktrees { generation } => load_worktrees_reply(svc, generation, m),
        CommandV::Commit { message, generation } => commit_reply(svc, message, generation, m),
        CommandV::CreateBranch { name, generation } => create_branch_reply(svc, name, generation, m),
        CommandV::Checkout { name, generation } => checkout_reply(svc, name, generation, m),
        CommandV::DeleteBranch { name, generation } => delete_branch_reply(svc, name, generation, m),
        _ => m == unsupported_reply(c),
    }
}

/// The reply of a carried-out command that failed before its operation ran.
pub open spec fn failed_reply(c: CommandV, e: Seq<char>) -> AppMessageV {
    match c {
        CommandV::OpenRepository { generation, .. } => AppMessageV::RepositoryOpened { generation, result: Err(e) },
        CommandV::LoadStatus { generation } => AppMessageV::StatusLoaded { generation, result: Err(e) },
        CommandV::LoadDiff { generation, .. } => AppMessageV::DiffLoaded { generation, result: Err(e) },
        CommandV::Stage { path, generation } => AppMessageV::StageCompleted { generation, path, result: Err(e) },
        CommandV::StageLines { path, generation, .. } => AppMessageV::StageCompleted { generation, path, result: Err(e) },
        CommandV::Unstage { path, generation } => AppMessageV::UnstageCompleted { generation, path, result: Err(e) },
        CommandV::StageAll { generation } => AppMessageV::StageCompleted { generation, path: seq!['.'], result: Err(e) },
        CommandV::UnstageAll { generation } => AppMessageV::UnstageCompleted { generation, path: seq!['.'], result: Err(e) },
        CommandV::LoadHistoryPage { filter, offset, generation } => AppMessageV::HistoryPageLoaded {
            generation,
            filter,
            offset,
            result: Err(e),
        },
        CommandV::LoadBranches { generation } => AppMessageV::BranchesLoaded { generation, result: Err(e) },
        CommandV::LoadDivergence { left, right, generation } => AppMessageV::DivergenceLoaded {
            generation,
            left,
            right,
            result: Err(e),
        },
        CommandV::SetUpstream { generation, .. } => AppMessageV::UpstreamSet { generation, result: Err(e) },
        CommandV::LoadWorktrees { generation } => AppMessageV::WorktreesLoaded { generation, result: Err(e) },
        CommandV::Commit { generation, .. } => AppMessageV::CommitCompleted { generation, result: Err(e) },
        CommandV::CreateBranch { generation, .. } => AppMessageV::BranchCreated { generation, result: Err(e) },
        CommandV::Checkout { generation, .. } => AppMessageV::CheckoutCompleted { generation, result: Err(e) },
        CommandV::DeleteBranch { generation, .. } => AppMessageV::BranchDeleted { generation, result: Err(e) },
        _ => unsupported_reply(c),
    }
}

/// The answer to opening a repository once the service is open: its HEAD.
pub open spec fn head_reply<S: GitService>(svc: S, generation: Generation, m: AppMessageV) -> bool {
    exists|hr: Result<Head, GitError>|
        #[trigger] svc.head_gives(hr) && m == AppMessageV::RepositoryOpened {
            generation,
            result: match hr {
                Ok(h) => Ok(RepositoryDataV { head: head_info_of(&h) }),
                Err(e) => Err(err_text(e)),
            },
        }
}

/// The answer to `c` once a service is opened at `path`: the open error, or
/// `then` on the opened service.
pub open spec fn open_then<S: GitService>(c: CommandV, path: Seq<char>, m: AppMessageV, head_only: bool) -> bool {
    exists|or: Result<S, GitError>|
        #[trigger] S::open_gives(path, or) && match or {
            Err(e) => m == failed_reply(c, err_text(e)),
            Ok(svc) => if head_only {
                head_reply(svc, command_generation(c), m)
            } else {
                reply_of(svc, c, m)
            },
        }
}

/// The answer `execute` gives to `c` with the repository path `rp`.
///
/// Opening a repository opens the service at the command's path and reads
/// its HEAD. Any other carried-out command fails with the no-repository text
/// when no path is given, with the open error when the service cannot be
/// opened at the path, and is otherwise answered by [`reply_of`] on the
/// opened service. Every other command gets the unsupported reply.
pub open spec fn execute_reply<S: GitService>(c: CommandV, rp: Option<Seq<char>>, m: AppMessageV) -> bool {
    if !is_supported(c) {
        m == unsupported_reply(c)
    } else {
        match c {
            CommandV::OpenRepository { path, .. } => open_then::<S>(c, path, m, true),
            _ => match rp {
                None => m == failed_reply(c, no_repo_msg()),
                Some(p) => open_then::<S>(c, p, m, false),
            },
        }
    }
}

/// The model of an optional path argument.
pub open spec fn path_view(p: Option<&str>) -> Option<Seq<char>> {
    match p {
        Some(s) => Some(s@),
        None => None,
    }
}

// ---------------------------------------------------------------------------
// Carrying commands out
// ---------------------------------------------------------------------------
fn err_of(e: &GitError) -> (s: String)
    ensures
        s@ == err_text(*e),
{
    e.user_message()
}

fn unit_of(r: Result<(), GitError>) -> (o: Result<(), String>)
    ensures
        result_dv(o) == unit_result(r),
{
    match r {
        Ok(()) => Ok(()),
        Err(e) => Err(err_of(&e)),
    }
}

fn dot() -> (s: String)
    ensures
        s@ == seq!['.'],
{
    let v = vec!['.'];
    assert(v@ =~= seq!['.']);
    string_of(&v)
}

fn no_repo() -> (s: String)
    ensures
        s@ == no_repo_msg(),
{
    string_of(&chars_of("リポジトリが開かれていません"))
}

fn load_branches<S: GitService>(svc: &S) -> (r: Result<BranchesData, String>)
    ensures
        branches_outcome(*svc, result_dv(r)),
{
    let br = svc.branches();
    assert(branches_may(*svc, br));
    let refs = match br {
        Ok(refs) => refs,
        Err(e) => return Err(err_of(&e)),
    };
    let rr = svc.recent_branches(RECENT_BRANCHES);
    assert(recent_branches_may(*svc, RECENT_BRANCHES, rr));
    let recent = match rr {
        Ok(recent) => recent,
        Err(e) => {
            return Err(err_of(&e));
        },
    };
    let mut counts: Vec<Option<(u32, u32)>> = Vec::new();
    let mut last: Vec<Option<CommitInfo>> = Vec::new();
    let mut i: usize = 0;
    while i < refs.len()
        invariant
            i <= refs.len(),
            counts.len() == i,
            last.len() == i,
            forall|j: int| 0 <= j < i ==> count_from(*svc, refs@[j], counts@[j]) && last_from(*svc, refs@[j], last@[j]),
        decreases refs.len() - i,
    {
        let b = &refs[i];
        let c = if b.is_remote {
            None
        } else {
            match &b.upstream {
                Some(up) => {
                    let ar = svc.ahead_behind(b.name.as_str(), up.as_str());
                    assert(ahead_behind_may(*svc, b.name@, b.upstream.unwrap()@, ar));
                    let c = match ar {
                        Ok(ab) => Some(ab),
                        Err(_) => None,
                    };
                    assert(count_from(*svc, *b, c));
                    c
                },
                None => None,
            }
        };
        let lr = svc.branch_last_commit(b.name.as_str());
        assert(branch_last_commit_may(*svc, b.name@, lr));
        let l = match lr {
            Ok(Some(ci)) => Some(ci),
            _ => None,
        };
        assert(last_from(*svc, *b, l));
        counts.push(c);
        last.push(l);
        i = i + 1;
    }
    assert(extras_from(*svc, refs@, counts@, last@));
    Ok(branches_data(&refs, &counts, &last, recent))
}

fn load_divergence<S: GitService>(svc: &S, left: &str, right: &str) -> (r: Result<DivergenceData, String>)
    ensures
        divergence_outcome(*svc, left@, right@, result_dv(r)),
{
    let mb = svc.merge_base(left, right);
    assert(merge_base_may(*svc, left@, right@, mb));
    let base = match mb {
        Ok(b) => b,
        Err(e) => return Err(err_of(&e)),
    };
    let lr = svc.commits_not_in(left, base.as_str(), DIVERGENCE_LIMIT);
    assert(side_from(*svc, left@, base@, lr));
    let left_only = match lr {
        Ok(cs) => summaries(&cs),
        Err(e) => return Err(err_of(&e)),
    };
    let rr = svc.commits_not_in(right, base.as_str(), DIVERGENCE_LIMIT);
    assert(side_from(*svc, right@, base@, rr));
    let right_only = match rr {
        Ok(cs) => summaries(&cs),
        Err(e) => return Err(err_of(&e)),
    };
    Ok(DivergenceData { merge_base: Some(Oid(base)), left_only, right_only })
}

fn load_diff<S: GitService>(svc: &S, target: &DiffTarget) -> (r: Result<DiffContent, String>)
    ensures
        diff_outcome(*svc, target.deep_view(), result_dv(r)),
{
    let ghost t = target.deep_view();
    let dr = svc.diff(target.path.as_str(), target.staged);
    assert(diff_may(*svc, t.path, t.staged, dr));
    let diff = match dr {
        Ok(d) => d,
        Err(e) => return Err(err_of(&e)),
    };
    let content = parse_diff_content(target.dup(), diff.text.as_str());
    let br = svc.blame(target.path.as_str());
    let blame = match br {
        Ok(b) => b,
        Err(_) => HashMap::new(),
    };
    assert(blame_may(*svc, t.path, br));
    assert(blame_view(&blame) =~= blame_or_empty(br));
    Ok(attach_change_origins(content, &blame))
}

fn status_result(r: &Result<RepoStatus, GitError>) -> (o: Result<StatusData, String>)
    ensures
        result_dv(o) == match *r {
            Ok(st) => Ok(status_data_of(&st)),
            Err(e) => Err::<StatusDataV, Seq<char>>(err_text(e)),
        },
{
    match r {
        Ok(st) => Ok(status_data(st)),
        Err(e) => Err(err_of(e)),
    }
}

fn run_status<S: GitService>(svc: &S, generation: Generation) -> (m: AppMessage)
    ensures
        load_status_reply(*svc, generation, m.deep_view()),
{
    let r = svc.status();
    assert(svc.status_gives(r));
    AppMessage::StatusLoaded { generation, result: status_result(&r) }
}

fn run_stage<S: GitService>(svc: &S, path: &String, generation: Generation) -> (m: AppMessage)
    ensures
        stage_reply(*svc, path@, generation, m.deep_view()),
{
    let r = svc.stage(path.as_str());
    assert(stage_may(*svc, path@, r));
    AppMessage::StageCompleted { generation, path: path.clone(), result: unit_of(r) }
}

fn run_unstage<S: GitService>(svc: &S, path: &String, generation: Generation) -> (m: AppMessage)
    ensures
        unstage_reply(*svc, path@, generation, m.deep_view()),
{
    let r = svc.unstage(path.as_str());
    assert(unstage_may(*svc, path@, r));
    AppMessage::UnstageCompleted { generation, path: path.clone(), result: unit_of(r) }
}

fn run_stage_lines<S: GitService>(
    svc: &S,
    path: &String,
    from_staged: bool,
    lines: &Vec<usize>,
    generation: Generation,
) -> (m: AppMessage)
    ensures
        stage_lines_reply(*svc, path@, from_staged, lines@, generation, m.deep_view()),
{
    let r = svc.stage_lines(path.as_str(), from_staged, lines.as_slice());
    assert(stage_lines_may(*svc, path@, from_staged, lines@, r));
    AppMessage::StageCompleted { generation, path: path.clone(), result: unit_of(r) }
}

fn run_stage_all<S: GitService>(svc: &S, generation: Generation) -> (m: AppMessage)
    ensures
        stage_all_reply(*svc, generation, m.deep_view()),
{
    let r = svc.stage_all();
    assert(stage_all_may(*svc, r));
    AppMessage::StageCompleted { generation, path: dot(), result: unit_of(r) }
}

fn run_unstage_all<S: GitService>(svc: &S, generation: Generation) -> (m: AppMessage)
    ensures
        unstage_all_reply(*svc, generation, m.deep_view()),
{
    let r = svc.unstage_all();
    assert(unstage_all_may(*svc, r));
    AppMessage::UnstageCompleted { generation, path: dot(), result: unit_of(r) }
}

fn page_result(r: &Result<Vec<CommitInfo>, GitError>) -> (o: Result<Vec<CommitSummary>, String>)
    ensures
        result_dv(o) == match *r {
            Ok(p) => Ok(summaries_of(p.deep_view())),
            Err(e) => Err::<Seq<crate::app::model::CommitSummaryV>, Seq<char>>(err_text(e)),
        },
{
    match r {
        Ok(p) => Ok(summaries(p)),
        Err(e) => Err(err_of(e)),
    }
}

fn run_history<S: GitService>(svc: &S, filter: &HistoryFilter, offset: usize, generation: Generation) -> (m: AppMessage)
    ensures
        load_history_page_reply(*svc, filter.deep_view(), offset, generation, m.deep_view()),
{
    let r = svc.log_page(offset, HISTORY_PAGE);
    assert(log_page_may(*svc, offset, HISTORY_PAGE, r));
    AppMessage::HistoryPageLoaded { generation, filter: filter.dup(), offset, result: page_result(&r) }
}

fn run_set_upstream<S: GitService>(svc: &S, branch: &String, upstream: &String, generation: Generation) -> (m: AppMessage)
    ensures
        set_upstream_reply(*svc, branch@, upstream@, generation, m.deep_view()),
{
    let r = svc.set_upstream(branch.as_str(), upstream.as_str());
    assert(set_upstream_may(*svc, branch@, upstream@, r));
    AppMessage::UpstreamSet { generation, result: unit_of(r) }
}

fn worktrees_result(r: &Result<Vec<WorktreeRef>, GitError>) -> (o: Result<Vec<WorktreeInfo>, String>)
    ensures
        result_dv(o) == match *r {
            Ok(ws) => Ok(worktree_infos_of(ws.deep_view())),
            Err(e) => Err::<Seq<WorktreeInfoV>, Seq<char>>(err_text(e)),
        },
{
    match r {
        Ok(ws) => Ok(worktree_infos(ws)),
        Err(e) => Err(err_of(e)),
    }
}

fn run_worktrees<S: GitService>(svc: &S, generation: Generation) -> (m: AppMessage)
    ensures
        load_worktrees_reply(*svc, generation, m.deep_view()),
{
    let r = svc.worktrees();
    assert(worktrees_may(*svc, r));
    AppMessage::WorktreesLoaded { generation, result: worktrees_result(&r) }
}

fn commit_result(r: &Result<String, GitError>) -> (o: Result<Oid, String>)
    ensures
        result_dv(o) == match *r {
            Ok(oid) => Ok(oid@),
            Err(e) => Err::<Seq<char>, Seq<char>>(err_text(e)),
        },
{
    match r {
        Ok(oid) => Ok(Oid(oid.clone())),
        Err(e) => Err(err_of(e)),
    }
}

fn run_commit<S: GitService>(svc: &S, message: &String, generation: Generation) -> (m: AppMessage)
    ensures
        commit_reply(*svc, message@, generation, m.deep_view()),
{
    let r = svc.commit(message.as_str());
    assert(commit_may(*svc, message@, r));
    AppMessage::CommitCompleted { generation, result: commit_result(&r) }
}

fn run_create_branch<S: GitService>(svc: &S, name: &String, generation: Generation) -> (m: AppMessage)
    ensures
        create_branch_reply(*svc, name@, generation, m.deep_view()),
{
    let r = svc.create_branch(name.as_str());
    assert(create_branch_may(*svc, name@, r));
    AppMessage::BranchCreated { generation, result: unit_of(r) }
}

fn head_result(r: &Result<Head, GitError>) -> (o: Result<HeadInfo, String>)
    ensures
        result_dv(o) == match *r {
            Ok(h) => Ok(head_info_of(&h)),
            Err(e) => Err::<HeadInfoV, Seq<char>>(err_text(e)),
        },
{
    match r {
        Ok(h) => Ok(head_info(h)),
        Err(e) => Err(err_of(e)),
    }
}

fn run_checkout<S: GitService>(svc: &S, name: &String, generation: Generation) -> (m: AppMessage)
    ensures
        checkout_reply(*svc, name@, generation, m.deep_view()),
{
    let r = svc.checkout(name.as_str());
    assert(checkout_may(*svc, name@, r));
    AppMessage::CheckoutCompleted { generation, result: head_result(&r) }
}

fn run_delete_branch<S: GitService>(svc: &S, name: &String, generation: Generation) -> (m: AppMessage)
    ensures
        delete_branch_reply(*svc, name@, generation, m.deep_view()),
{
    let r = svc.delete_branch(name.as_str());
    assert(delete_branch_may(*svc, name@, r));
    AppMessage::BranchDeleted { generation, result: unit_of(r) }
}

fn run_diff<S: GitService>(svc: &S, target: &DiffTarget, generation: Generation) -> (m: AppMessage)
    ensures
        reply_of(*svc, CommandV::LoadDiff { target: target.deep_view(), generation }, m.deep_view()),
{
    AppMessage::DiffLoaded { generation, result: load_diff(svc, target) }
}

fn run_branches<S: GitService>(svc: &S, generation: Generation) -> (m: AppMessage)
    ensures
        reply_of(*svc, CommandV::LoadBranches { generation }, m.deep_view()),
{
    AppMessage::BranchesLoaded { generation, result: load_branches(svc) }
}

fn run_divergence<S: GitService>(svc: &S, left: &String, right: &String, generation: Generation) -> (m: AppMessage)
    ensures
        reply_of(*svc, CommandV::LoadDivergence { left: left@, right: right@, generation }, m.deep_view()),
{
    let result = load_divergence(svc, left.as_str(), right.as_str());
    AppMessage::DivergenceLoaded { generation, left: left.clone(), right: right.clone(), result }
}

/// Runs a carried-out command (other than opening a repository) on an open
/// service and returns the message that answers it.
#[verifier::spinoff_prover]
pub fn execute_on<S: GitService>(svc: &S, cmd: &Command) -> (m: AppMessage)
    requires
        is_supported(cmd.deep_view()),
        !(cmd.deep_view() is OpenRepository),
    ensures
        reply_of(*svc, cmd.deep_view(), m.deep_view()),
        crate::app::message::message_generation(m.deep_view()) == command_generation(cmd.deep_view()),
        answers(cmd.deep_view(), m.deep_view()),
{
    let m = match cmd {
        Command::LoadStatus { generation } => run_status(svc, *generation),
        Command::LoadDiff { target, generation } => run_diff(svc, target, *generation),
        Command::Stage { path, generation } => run_stage(svc, path, *generation),
        Command::Unstage { path, generation } => run_unstage(svc, path, *generation),
        Command::StageLines { path, from_staged, lines, generation } => run_stage_lines(svc, path, *from_staged, lines, *generation),
        Command::LoadHistoryPage { filter, offset, generation } => run_history(svc, filter, *offset, *generation),
        Command::LoadBranches { generation } => run_branches(svc, *generation),
        Command::LoadDivergence { left, right, generation } => run_divergence(svc, left, right, *generation),
        Command::SetUpstream { branch, upstream, generation } => run_set_upstream(svc, branch, upstream, *generation),
        Command::LoadWorktrees { generation } => run_worktrees(svc, *generation),
        Command::StageAll { generation } => run_stage_all(svc, *generation),
        Command::UnstageAll { generation } => run_unstage_all(svc, *generation),
        Command::Commit { message, generation } => run_commit(svc, message, *generation),
        Command::CreateBranch { name, generation } => run_create_branch(svc, name, *generation),
        Command::Checkout { name, generation } => run_checkout(svc, name, *generation),
        Command::DeleteBranch { name, generation } => run_delete_branch(svc, name, *generation),
        _ => unsupported(cmd),
    };
    proof {
        lemma_reply_answers(*svc, cmd.deep_view(), m.deep_view());
    }
    m
}

/// A reply of a carried-out command carries the command's generation and
/// is of the kind that answers it.
proof fn lemma_reply_answers<S: GitService>(svc: S, c: CommandV, m: AppMessageV)
    requires
        is_supported(c),
        !(c is OpenRepository),
        reply_of(svc, c, m),
    ensures
        crate::app::message::message_generation(m) == command_generation(c),
        answers(c, m),
{
}

/// The reply of a carried-out command that failed before its operation ran.
fn failed(cmd: &Command, e: String) -> (m: AppMessage)
    requires
        is_supported(cmd.deep_view()),
    ensures
        m.deep_view() == failed_reply(cmd.deep_view(), e@),
{
    match cmd {
        Command::OpenRepository { generation, .. } => AppMessage::RepositoryOpened { generation: *generation, result: Err(e) },
        Command::LoadStatus { generation } => AppMessage::StatusLoaded { generation: *generation, result: Err(e) },
        Command::LoadDiff { generation, .. } => AppMessage::DiffLoaded { generation: *generation, result: Err(e) },
        Command::Stage { path, generation } => AppMessage::StageCompleted { generation: *generation, path: path.clone(), result: Err(e) },
        Command::StageLines { path, generation, .. } => AppMessage::StageCompleted {
            generation: *generation,
            path: path.clone(),
            result: Err(e),
        },
        Command::Unstage { path, generation } => AppMessage::UnstageCompleted { generation: *generation, path: path.clone(), result: Err(e) },
        Command::StageAll { generation } => AppMessage::StageCompleted { generation: *generation, path: dot(), result: Err(e) },
        Command::UnstageAll { generation } => AppMessage::UnstageCompleted { generation: *generation, path: dot(), result: Err(e) },
        Command::LoadHistoryPage { filter, offset, generation } => AppMessage::HistoryPageLoaded {
            generation: *generation,
            filter: filter.dup(),
            offset: *offset,
            result: Err(e),
        },
        Command::LoadBranches { generation } => AppMessage::BranchesLoaded { generation: *generation, result: Err(e) },
        Command::LoadDivergence { left, right, generation } => AppMessage::DivergenceLoaded {
            generation: *generation,
            left: left.clone(),
            right: right.clone(),
            result: Err(e),
        },
        Command::SetUpstream { generation, .. } => AppMessage::UpstreamSet { generation: *generation, result: Err(e) },
        Command::LoadWorktrees { generation } => AppMessage::WorktreesLoaded { generation: *generation, result: Err(e) },
        Command::Commit { generation, .. } => AppMessage::CommitCompleted { generation: *generation, result: Err(e) },
        Command::CreateBranch { generation, .. } => AppMessage::BranchCreated { generation: *generation, result: Err(e) },
        Command::Checkout { generation, .. } => AppMessage::CheckoutCompleted { generation: *generation, result: Err(e) },
        Command::DeleteBranch { generation, .. } => AppMessage::BranchDeleted { generation: *generation, result: Err(e) },
        _ => unsupported(cmd),
    }
}

fn run_open<S: GitService>(cmd: &Command, path: &str) -> (m: AppMessage)
    requires
        cmd.deep_view() is OpenRepository,
        cmd.deep_view()->OpenRepository_path == path@,
    ensures
        open_then::<S>(cmd.deep_view(), path@, m.deep_view(), true),
{
    let or = S::open(path);
    assert(S::open_gives(path@, or));
    match or {
        Err(e) => failed(cmd, err_of(&e)),
        Ok(svc) => {
            let hr = svc.head();
            assert(svc.head_gives(hr));
            let result = match &hr {
                Ok(h) => Ok(RepositoryData { head: head_info(h) }),
                Err(e) => Err(err_of(e)),
            };
            AppMessage::RepositoryOpened { generation: cmd.generation(), result }
        },
    }
}

fn run_at<S: GitService>(cmd: &Command, path: &str) -> (m: AppMessage)
    requires
        is_supported(cmd.deep_view()),
        !(cmd.deep_view() is OpenRepository),
    ensures
        open_then::<S>(cmd.deep_view(), path@, m.deep_view(), false),
{
    let or = S::open(path);
    assert(S::open_gives(path@, or));
    match or {
        Err(e) => failed(cmd, err_of(&e)),
        Ok(svc) => execute_on(&svc, cmd),
    }
}

/// Runs a single command against the repository at `repo_path` and returns
/// the message that answers it: see [`execute_reply`]. Every answer carries
/// the command's generation; a command that needs the repository fails with
/// the no-repository text when none is open; a command this executor does
/// not carry out is answered as unsupported.
#[verifier::spinoff_prover]
pub fn execute<S: GitService>(cmd: &Command, repo_path: Option<&str>) -> (m: AppMessage)
    ensures
        execute_reply::<S>(cmd.deep_view(), path_view(repo_path), m.deep_view()),
        crate::app::message::message_generation(m.deep_view()) == command_generation(cmd.deep_view()),
        answers(cmd.deep_view(), m.deep_view()),
        is_supported(cmd.deep_view()) && !(cmd.deep_view() is OpenRepository) && repo_path is None
            ==> reply_error(m.deep_view()) == Some(no_repo_msg()),
{
    if !is_supported_exec(cmd) {
        return unsupported(cmd);
    }
    match cmd {
        Command::OpenRepository { path, .. } => run_open::<S>(cmd, path.as_str()),
        _ => match repo_path {
            None => failed(cmd, no_repo()),
            Some(p) => run_at::<S>(cmd, p),
        },
    }
}

} // verus!
