//! Repository Pulse: the one-line header summary of branch, divergence,
//! change counts and worktrees.
use vstd::prelude::*;

use crate::app::blame_format::{byte_cut_ok, can_cut, short_oid, short_oid_text};
use crate::app::branch_health::{badge_of, format_badge};
use crate::app::completion::branch_name_index;
use crate::app::model::{BranchHealth, BranchInfoV, HeadInfoV, View};
use crate::app::state::{AppState, AppStateV};
use crate::app::transition::index_of;
use crate::text::{decimal, decimal_exec, push_all, push_str, string_of};
#[allow(unused_imports)]
use vstd::view::View as _;

verus! {

/// Derived pulse values for the shell header.
#[derive(Debug, Clone, PartialEq, Eq)]
pub struct PulseSnapshot {
    /// Branch name, `detached HEAD`, or `detached` and a short object id.
    pub branch_label: String,
    pub ahead: Option<u32>,
    pub behind: Option<u32>,
    /// Unstaged + untracked + conflicted file count.
    pub changes: u32,
    pub staged: u32,
    pub worktrees: u32,
    pub has_upstream: bool,
    pub detached: bool,
    pub health: Option<BranchHealth>,
    pub stale_days: Option<u32>,
}

pub struct PulseSnapshotV {
    pub branch_label: Seq<char>,
    pub ahead: Option<u32>,
    pub behind: Option<u32>,
    pub changes: u32,
    pub staged: u32,
    pub worktrees: u32,
    pub has_upstream: bool,
    pub detached: bool,
    pub health: Option<BranchHealth>,
    pub stale_days: Option<u32>,
}

impl DeepView for PulseSnapshot {
    type V = PulseSnapshotV;

    open spec fn deep_view(&self) -> PulseSnapshotV {
        PulseSnapshotV {
            branch_label: self.branch_label@,
            ahead: self.ahead,
            behind: self.behind,
            changes: self.changes,
            staged: self.staged,
            worktrees: self.worktrees,
            has_upstream: self.has_upstream,
            detached: self.detached,
            health: self.health,
            stale_days: self.stale_days,
        }
    }
}

/// A count saturated at `u32::MAX`.
pub open spec fn clamp_u32_of(n: nat) -> u32 {
    if n <= u32::MAX {
        n as u32
    } else {
        u32::MAX
    }
}

/// The label of HEAD: its branch (or the current branch) when attached,
/// `detached` and the first seven bytes of its object id when detached.
pub open spec fn branch_label_of(head: HeadInfoV, current: Option<Seq<char>>) -> Seq<char> {
    if head.detached {
        match head.oid {
            None => seq!['d', 'e', 't', 'a', 'c', 'h', 'e', 'd', ' ', 'H', 'E', 'A', 'D'],
            Some(o) => seq!['d', 'e', 't', 'a', 'c', 'h', 'e', 'd', ' '] + short_oid(o),
        }
    } else {
        match head.branch {
            Some(b) => b,
            None => match current {
                Some(c) => c,
                None => seq!['(', 'n', 'o', ' ', 'b', 'r', 'a', 'n', 'c', 'h', ')'],
            },
        }
    }
}

/// The first listed branch named like HEAD's branch (or the current branch).
pub open spec fn current_branch_of(s: AppStateV) -> Option<BranchInfoV> {
    let name = match s.repository.head.branch {
        Some(b) => Some(b),
        None => s.branch.current,
    };
    match name {
        None => None,
        Some(n) => match index_of(s.branch.branches.map_values(|b: BranchInfoV| b.name), n) {
            Some(i) => Some(s.branch.branches[i]),
            None => None,
        },
    }
}

/// The pulse of a state.
pub open spec fn summary_of(s: AppStateV) -> PulseSnapshotV {
    let cur = current_branch_of(s);
    PulseSnapshotV {
        branch_label: branch_label_of(s.repository.head, s.branch.current),
        ahead: match cur {
            Some(b) => Some(b.ahead),
            None => None,
        },
        behind: match cur {
            Some(b) => Some(b.behind),
            None => None,
        },
        changes: clamp_u32_of(
            s.changes.unstaged.len() + s.changes.untracked.len() + s.changes.conflicted.len(),
        ),
        staged: clamp_u32_of(s.changes.staged.len()),
        worktrees: if s.worktree.loaded {
            clamp_u32_of(
                if s.worktree.worktrees.len() >= 1 {
                    s.worktree.worktrees.len()
                } else {
                    1
                },
            )
        } else {
            1
        },
        has_upstream: match cur {
            Some(b) => b.upstream is Some,
            None => false,
        },
        detached: s.repository.head.detached,
        health: match cur {
            Some(b) => Some(b.health),
            None => None,
        },
        stale_days: match cur {
            Some(b) => b.stale_days,
            None => None,
        },
    }
}

fn clamp_u32(n: u128) -> (r: u32)
    ensures
        r == clamp_u32_of(n as nat),
{
    if n <= u32::MAX as u128 {
        n as u32
    } else {
        u32::MAX
    }
}

/// A detached HEAD's object id, when longer than seven bytes, has a
/// character boundary after seven bytes (the label cuts it there).
pub open spec fn labelable(s: AppStateV) -> bool {
    s.repository.head.detached ==> match s.repository.head.oid {
        Some(o) => can_cut(o, 7, 7),
        None => true,
    }
}

/// Whether [`summary`] can label the state's HEAD.
pub fn head_labelable(state: &AppState) -> (r: bool)
    ensures
        r == labelable(state.deep_view()),
{
    if !state.repository.head.detached {
        return true;
    }
    match &state.repository.head.oid {
        Some(o) => byte_cut_ok(o.0.as_str(), 7, 7),
        None => true,
    }
}

/// Builds a [`PulseSnapshot`] from current app state.
#[verifier::spinoff_prover]
pub fn summary(state: &AppState) -> (r: PulseSnapshot)
    requires
        labelable(state.deep_view()),
    ensures
        r.deep_view() == summary_of(state.deep_view()),
{
    let head = &state.repository.head;
    let detached = head.detached;
    let branch_label = if detached {
        match &head.oid {
            None => string_of(&vec!['d', 'e', 't', 'a', 'c', 'h', 'e', 'd', ' ', 'H', 'E', 'A', 'D']),
            Some(o) => {
                let text = crate::text::chars_of(o.0.as_str());
                let mut out: Vec<char> = vec!['d', 'e', 't', 'a', 'c', 'h', 'e', 'd', ' '];
                let short = short_oid_text(&text);
                push_all(&mut out, &short);
                string_of(&out)
            },
        }
    } else {
        match &head.branch {
            Some(b) => b.clone(),
            None => match &state.branch.current {
                Some(c) => c.clone(),
                None => string_of(&vec!['(', 'n', 'o', ' ', 'b', 'r', 'a', 'n', 'c', 'h', ')']),
            },
        }
    };
    let name: Option<&String> = match &head.branch {
        Some(b) => Some(b),
        None => match &state.branch.current {
            Some(c) => Some(c),
            None => None,
        },
    };
    let bs = &state.branch.branches;
    let found: Option<usize> = match name {
        Some(n) => branch_name_index(bs, n),
        None => None,
    };
    let (ahead, behind, has_upstream, health, stale_days) = match found {
        Some(i) => {
            let b = &bs[i];
            (Some(b.ahead), Some(b.behind), b.upstream.is_some(), Some(b.health), b.stale_days)
        },
        None => (None, None, false, None, None),
    };
    let staged = clamp_u32(state.changes.staged.len() as u128);
    let changes = clamp_u32(
        state.changes.unstaged.len() as u128 + state.changes.untracked.len() as u128
            + state.changes.conflicted.len() as u128,
    );
    let worktrees = if state.worktree.loaded {
        let n = state.worktree.worktrees.len();
        clamp_u32(
            if n >= 1 {
                n as u128
            } else {
                1
            },
        )
    } else {
        1
    };
    let r = PulseSnapshot {
        branch_label,
        ahead,
        behind,
        changes,
        staged,
        worktrees,
        has_upstream,
        detached,
        health,
        stale_days,
    };
    proof {
        let s = state.deep_view();
        assert(s.branch.branches.len() == bs.len());
        assert(r.deep_view().branch_label == branch_label_of(s.repository.head, s.branch.current));
    }
    r
}

/// The divergence segment of a pulse: empty when detached, the stale badge
/// for a stale branch, `no upstream`, `✓` when synced, else `↑a ↓b` with the
/// zero parts left out.
pub open spec fn divergence_of(p: PulseSnapshotV) -> Seq<char> {
    let a = match p.ahead {
        Some(x) => x,
        None => 0,
    };
    let b = match p.behind {
        Some(x) => x,
        None => 0,
    };
    if p.detached {
        seq![]
    } else if p.health == Some(BranchHealth::Stale) {
        badge_of(BranchHealth::Stale, a, b, p.stale_days)
    } else if !p.has_upstream {
        seq!['n', 'o', ' ', 'u', 'p', 's', 't', 'r', 'e', 'a', 'm']
    } else if a == 0 && b == 0 {
        seq!['✓']
    } else {
        (if a > 0 {
            seq!['↑'] + decimal(a as nat)
        } else {
            seq![]
        }) + (if a > 0 && b > 0 {
            seq![' ']
        } else {
            seq![]
        }) + (if b > 0 {
            seq!['↓'] + decimal(b as nat)
        } else {
            seq![]
        })
    }
}

/// Formats the divergence segment (`↑3 ↓1`, `◌ 42d`, `no upstream`, or `✓`
/// when synced).
pub fn format_divergence(pulse: &PulseSnapshot) -> (r: String)
    ensures
        r@ == divergence_of(pulse.deep_view()),
{
    let a = match pulse.ahead {
        Some(x) => x,
        None => 0,
    };
    let b = match pulse.behind {
        Some(x) => x,
        None => 0,
    };
    if pulse.detached {
        return String::new();
    }
    if let Some(BranchHealth::Stale) = pulse.health {
        return format_badge(BranchHealth::Stale, a, b, pulse.stale_days);
    }
    if !pulse.has_upstream {
        let mut out: Vec<char> = Vec::new();
        push_str(&mut out, "no upstream");
        proof {
            reveal_strlit("no upstream");
        }
        return string_of(&out);
    }
    let mut out: Vec<char> = Vec::new();
    if a == 0 && b == 0 {
        out.push('✓');
        return string_of(&out);
    }
    if a > 0 {
        out.push('↑');
        push_all(&mut out, &decimal_exec(a as u64));
    }
    if a > 0 && b > 0 {
        out.push(' ');
    }
    if b > 0 {
        out.push('↓');
        push_all(&mut out, &decimal_exec(b as u64));
    }
    string_of(&out)
}

/// Clickable pulse segments.
#[derive(Debug, Clone, Copy, PartialEq, Eq, Structural)]
pub enum PulseSegment {
    Branch,
    Divergence,
    Changes,
    Staged,
    Worktrees,
}

/// The view a pulse segment opens.
pub open spec fn segment_view_of(segment: PulseSegment) -> View {
    match segment {
        PulseSegment::Branch | PulseSegment::Divergence => View::Branches,
        PulseSegment::Changes | PulseSegment::Staged => View::Changes,
        PulseSegment::Worktrees => View::Worktrees,
    }
}

/// Which navigation view a pulse segment opens.
pub fn segment_view(segment: PulseSegment) -> (r: View)
    ensures
        r == segment_view_of(segment),
{
    match segment {
        PulseSegment::Branch | PulseSegment::Divergence => View::Branches,
        PulseSegment::Changes | PulseSegment::Staged => View::Changes,
        PulseSegment::Worktrees => View::Worktrees,
    }
}

} // verus!
