//! The decisions of the application session: how urgent each command is,
//! what a file-system change or a finished message asks for, and when a
//! background fetch starts. The session loop itself (threads, channels,
//! timers, the watcher) runs these.
use vstd::prelude::*;

use crate::app::command::{Command, CommandV};
use crate::app::message::{AppMessage, AppMessageV, RemoteOp};
use crate::app::model::{DiffContent, DiffContentV, Generation};
use crate::cache::{Cache, CacheKey, CacheKeyV};
use crate::path::path_parts;
use crate::dup::Dup;
use crate::app::state::{AppState, AppStateV, RepositoryStatus, RepositoryStatusV};
use crate::app::transition::sat_add;
use crate::task::Priority;
use crate::text::{chars_of, string_of};
#[allow(unused_imports)]
use vstd::view::View as _;

verus! {

/// Number of worker threads for Git and I/O work.
pub const WORKERS: usize = 4;

/// How urgent a command is: user actions first, then what is on screen,
/// then what is near it, then hidden metadata.
pub open spec fn command_priority_of(c: CommandV) -> Priority {
    match c {
        CommandV::OpenRepository { .. } | CommandV::Stage { .. } | CommandV::Unstage { .. }
        | CommandV::StageLines { .. } | CommandV::StageAll { .. } | CommandV::UnstageAll { .. }
        | CommandV::Commit { .. } | CommandV::Checkout { .. } | CommandV::Fetch { .. }
        | CommandV::Pull { .. } | CommandV::Push { .. } | CommandV::StashSave { .. }
        | CommandV::StashApply { .. } | CommandV::StashPop { .. } | CommandV::StashDrop { .. } => Priority::P0,
        CommandV::LoadDiff { .. } | CommandV::EnrichBlame { .. } | CommandV::LoadStashDiff { .. }
        | CommandV::LoadCommitDetail { .. } | CommandV::LoadCommitFileDiff { .. } => Priority::P1,
        CommandV::LoadStatus { .. } | CommandV::LoadHistoryPage { .. } | CommandV::LoadBranches { .. }
        | CommandV::LoadDivergence { .. } | CommandV::LoadWorktrees { .. } | CommandV::SetUpstream { .. }
        | CommandV::LoadStashes { .. } => Priority::P2,
        CommandV::EnrichBranchHealth { .. } | CommandV::CreateBranch { .. } | CommandV::DeleteBranch { .. }
        | CommandV::AutoFetch { .. } | CommandV::CreateWorktree { .. } | CommandV::RemoveWorktree { .. } => Priority::P3,
    }
}

/// The priority a command is scheduled at.
pub fn command_priority(cmd: &Command) -> (r: Priority)
    ensures
        r == command_priority_of(cmd.deep_view()),
{
    match cmd {
        Command::OpenRepository { .. } | Command::Stage { .. } | Command::Unstage { .. }
        | Command::StageLines { .. } | Command::StageAll { .. } | Command::UnstageAll { .. }
        | Command::Commit { .. } | Command::Checkout { .. } | Command::Fetch { .. }
        | Command::Pull { .. } | Command::Push { .. } | Command::StashSave { .. }
        | Command::StashApply { .. } | Command::StashPop { .. } | Command::StashDrop { .. } => Priority::P0,
        Command::LoadDiff { .. } | Command::EnrichBlame { .. } | Command::LoadStashDiff { .. }
        | Command::LoadCommitDetail { .. } | Command::LoadCommitFileDiff { .. } => Priority::P1,
        Command::LoadStatus { .. } | Command::LoadHistoryPage { .. } | Command::LoadBranches { .. }
        | Command::LoadDivergence { .. } | Command::LoadWorktrees { .. } | Command::SetUpstream { .. }
        | Command::LoadStashes { .. } => Priority::P2,
        Command::EnrichBranchHealth { .. } | Command::CreateBranch { .. } | Command::DeleteBranch { .. }
        | Command::AutoFetch { .. } | Command::CreateWorktree { .. } | Command::RemoveWorktree { .. } => Priority::P3,
    }
}

/// What a batch of file-system events asks for: the status always, and the
/// branches and worktrees too when HEAD moved.
pub open spec fn watch_commands_of(saw_head: bool, g: Generation) -> Seq<CommandV> {
    if saw_head {
        seq![
            CommandV::LoadStatus { generation: g },
            CommandV::LoadBranches { generation: g },
            CommandV::LoadWorktrees { generation: g },
        ]
    } else {
        seq![CommandV::LoadStatus { generation: g }]
    }
}

/// The reloads after file-system events under generation `g`.
pub fn watch_commands(saw_head: bool, g: Generation) -> (r: Vec<Command>)
    ensures
        r.deep_view() == watch_commands_of(saw_head, g),
{
    let mut cmds: Vec<Command> = Vec::new();
    cmds.push(Command::LoadStatus { generation: g });
    if saw_head {
        cmds.push(Command::LoadBranches { generation: g });
        cmds.push(Command::LoadWorktrees { generation: g });
    }
    assert(cmds.deep_view() =~= watch_commands_of(saw_head, g));
    cmds
}

/// Whether a message reports that HEAD moved: a successful checkout,
/// commit or pull.
pub open spec fn moves_head_of(m: AppMessageV) -> bool {
    ||| m matches AppMessageV::CheckoutCompleted { result: Ok(_), .. }
    ||| m matches AppMessageV::CommitCompleted { result: Ok(_), .. }
    ||| m matches AppMessageV::RemoteCompleted { op: RemoteOp::Pull, result: Ok(_), .. }
}

/// Whether a finished message moved HEAD (so HEAD-scoped caches go stale).
pub fn moves_head(m: &AppMessage) -> (r: bool)
    ensures
        r == moves_head_of(m.deep_view()),
{
    match m {
        AppMessage::CheckoutCompleted { result: Ok(_), .. } => true,
        AppMessage::CommitCompleted { result: Ok(_), .. } => true,
        AppMessage::RemoteCompleted { op: RemoteOp::Pull, result: Ok(_), .. } => true,
        _ => false,
    }
}

/// Whether a finished message restarts the background-fetch timer: a
/// successful fetch (and, when waiting, a successful open).
pub open spec fn restarts_fetch_timer_of(m: AppMessageV, waiting: bool) -> bool {
    ||| m matches AppMessageV::RemoteCompleted { op: RemoteOp::Fetch, result: Ok(_), .. }
    ||| (waiting && m matches AppMessageV::RepositoryOpened { result: Ok(_), .. })
}

/// Whether a finished message restarts the background-fetch timer.
pub fn restarts_fetch_timer(m: &AppMessage, waiting: bool) -> (r: bool)
    ensures
        r == restarts_fetch_timer_of(m.deep_view(), waiting),
{
    match m {
        AppMessage::RemoteCompleted { op: RemoteOp::Fetch, result: Ok(_), .. } => true,
        AppMessage::RepositoryOpened { result: Ok(_), .. } => waiting,
        _ => false,
    }
}

pub open spec fn is_ready_of(s: AppStateV) -> bool {
    s.repository.status is Ready
}

/// Seconds until the next background fetch: none when disabled or no
/// repository is ready.
pub open spec fn auto_fetch_delay_of(s: AppStateV) -> Option<u64> {
    if s.ui.auto_fetch_secs == 0 || !is_ready_of(s) {
        None
    } else {
        Some(s.ui.auto_fetch_secs)
    }
}

/// The delay before the next background fetch.
pub fn auto_fetch_delay(state: &AppState) -> (r: Option<u64>)
    ensures
        r == auto_fetch_delay_of(state.deep_view()),
{
    let ready = match state.repository.status {
        RepositoryStatus::Ready => true,
        _ => false,
    };
    if state.ui.auto_fetch_secs == 0 || !ready {
        None
    } else {
        Some(state.ui.auto_fetch_secs)
    }
}

pub open spec fn fetching_label() -> Seq<char> {
    "fetching…"@
}

/// When the fetch timer fires: nothing (only a reschedule) unless a
/// repository is ready and no remote operation runs; else the remote label
/// shows, one more command is in flight, and a background fetch is issued
/// under the current generation.
pub open spec fn start_auto_fetch_of(s: AppStateV) -> (AppStateV, Option<CommandV>) {
    if !is_ready_of(s) || s.background.remote_label is Some {
        (s, None)
    } else {
        (
            AppStateV {
                background: crate::app::state::BackgroundTaskStateV {
                    remote_label: Some(fetching_label()),
                    inflight: sat_add(s.background.inflight, 1),
                    ..s.background
                },
                ..s
            },
            Some(CommandV::AutoFetch { generation: s.generation }),
        )
    }
}

/// Starts a background fetch when the timer fires, if one may run now.
pub fn start_auto_fetch(state: &mut AppState) -> (r: Option<Command>)
    ensures
        (final(state).deep_view(), match r {
            Some(c) => Some(c.deep_view()),
            None => None,
        }) == start_auto_fetch_of(old(state).deep_view()),
{
    let ready = match state.repository.status {
        RepositoryStatus::Ready => true,
        _ => false,
    };
    if !ready || state.background.remote_label.is_some() {
        return None;
    }
    state.background.remote_label = Some(string_of(&chars_of("fetching…")));
    state.background.inflight = state.background.inflight.saturating_add(1);
    Some(Command::AutoFetch { generation: state.generation })
}


/// The cache key a diff of `path` takes under the current HEAD (none while
/// HEAD is unknown).
pub open spec fn diff_key_of(s: AppStateV, path: Seq<char>) -> Option<CacheKeyV> {
    match s.repository.head.oid {
        Some(h) => Some(CacheKeyV { head: h, path: path_parts(path) }),
        None => None,
    }
}

/// What a finished message leaves in the diff cache: a loaded diff, under
/// its file's key at the current HEAD.
pub open spec fn diff_to_keep_of(s: AppStateV, m: AppMessageV) -> Option<(CacheKeyV, DiffContentV)> {
    match m {
        AppMessageV::DiffLoaded { result: Ok(c), .. } => match diff_key_of(s, c.target.path) {
            Some(k) => Some((k, c)),
            None => None,
        },
        _ => None,
    }
}

/// The diff (and its key) a finished message leaves in the diff cache.
pub fn diff_to_keep(state: &AppState, message: &AppMessage) -> (r: Option<(CacheKey, DiffContent)>)
    ensures
        match r {
            Some((k, c)) => diff_to_keep_of(state.deep_view(), message.deep_view()) == Some((k.deep_view(), c.deep_view())),
            None => diff_to_keep_of(state.deep_view(), message.deep_view()) is None,
        },
{
    match message {
        AppMessage::DiffLoaded { result: Ok(content), .. } => match &state.repository.head.oid {
            Some(head) => Some((CacheKey::new(head.dup(), content.target.path.clone()), content.dup())),
            None => None,
        },
        _ => None,
    }
}

/// The answer the diff cache gives to a command: for a diff request whose
/// file is cached at the current HEAD for the same side (staged or not), the
/// cached diff as the loaded result; none otherwise.
pub open spec fn cached_reply_of(s: AppStateV, cache: Map<CacheKeyV, DiffContent>, c: CommandV) -> Option<AppMessageV> {
    match c {
        CommandV::LoadDiff { target, generation } => match diff_key_of(s, target.path) {
            Some(k) => if cache.contains_key(k) && cache[k].target.staged == target.staged {
                Some(AppMessageV::DiffLoaded { generation, result: Ok(cache[k].deep_view()) })
            } else {
                None
            },
            None => None,
        },
        _ => None,
    }
}

/// Answers a diff request from the cache when it can.
pub fn cached_diff_reply(state: &AppState, cache: &Cache<DiffContent>, cmd: &Command) -> (r: Option<AppMessage>)
    ensures
        match r {
            Some(m) => cached_reply_of(state.deep_view(), cache@, cmd.deep_view()) == Some(m.deep_view()),
            None => cached_reply_of(state.deep_view(), cache@, cmd.deep_view()) is None,
        },
{
    match cmd {
        Command::LoadDiff { target, generation } => match &state.repository.head.oid {
            Some(head) => {
                let key = CacheKey::new(head.dup(), target.path.clone());
                match cache.get(&key) {
                    Some(c) => if c.target.staged == target.staged {
                        Some(AppMessage::DiffLoaded { generation: *generation, result: Ok(c.dup()) })
                    } else {
                        None
                    },
                    None => None,
                }
            },
            None => None,
        },
        _ => None,
    }
}

} // verus!
