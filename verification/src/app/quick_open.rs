//! Quick Open: jump to a changed file, a local branch or a recent commit.
use vstd::prelude::*;

use crate::app::event::{UiEvent, UiEventV};
use crate::app::model::{BranchInfoV, CommitSummaryV, FileChange, FileChangeV, Oid};
use crate::app::recent::cap;
use crate::app::state::{AppState, AppStateV};
use crate::dup::{vec_push, Dup};
use crate::text::{chars_of, contains, contains_exec, lowercase_of, string_of, to_lowercase, trim, trim_str};

verus! {

/// What a Quick Open entry points at.
#[derive(Debug, Clone, Copy, PartialEq, Eq)]
pub enum QuickOpenKind {
    File,
    Branch,
    Commit,
}

/// One Quick Open entry and the event it triggers.
#[derive(Debug, Clone, PartialEq, Eq)]
pub struct QuickOpenItem {
    pub kind: QuickOpenKind,
    pub label: String,
    pub detail: String,
    pub event: UiEvent,
}

pub struct QuickOpenItemV {
    pub kind: QuickOpenKind,
    pub label: Seq<char>,
    pub detail: Seq<char>,
    pub event: UiEventV,
}

impl DeepView for QuickOpenItem {
    type V = QuickOpenItemV;

    open spec fn deep_view(&self) -> QuickOpenItemV {
        QuickOpenItemV {
            kind: self.kind,
            label: self.label@,
            detail: self.detail@,
            event: self.event.deep_view(),
        }
    }
}

impl Dup for QuickOpenItem {
    fn dup(&self) -> (r: QuickOpenItem) {
        QuickOpenItem {
            kind: self.kind,
            label: self.label.clone(),
            detail: self.detail.clone(),
            event: self.event.dup(),
        }
    }
}

/// How many recent commits Quick Open offers.
pub const QUICK_OPEN_COMMITS: usize = 50;

pub open spec fn file_item(f: FileChangeV, staged: bool) -> QuickOpenItemV {
    QuickOpenItemV {
        kind: QuickOpenKind::File,
        label: f.path,
        detail: if staged {
            "staged"@
        } else {
            "working tree"@
        },
        event: UiEventV::SelectFile { path: f.path, staged },
    }
}

pub open spec fn file_items(fs: Seq<FileChangeV>, staged: bool) -> Seq<QuickOpenItemV> {
    fs.map_values(|f: FileChangeV| file_item(f, staged))
}

pub open spec fn branch_item(b: BranchInfoV) -> QuickOpenItemV {
    QuickOpenItemV {
        kind: QuickOpenKind::Branch,
        label: b.name,
        detail: "branch"@,
        event: UiEventV::SelectBranch(b.name),
    }
}

pub open spec fn is_local_branch() -> spec_fn(BranchInfoV) -> bool {
    |b: BranchInfoV| !b.is_remote
}

/// The first seven characters of an object id (all of a shorter one).
pub open spec fn short_oid(oid: Seq<char>) -> Seq<char> {
    if oid.len() > 7 {
        oid.take(7)
    } else {
        oid
    }
}

pub open spec fn commit_item(c: CommitSummaryV) -> QuickOpenItemV {
    QuickOpenItemV {
        kind: QuickOpenKind::Commit,
        label: short_oid(c.oid) + seq![' '] + c.summary,
        detail: c.author,
        event: UiEventV::SelectCommit(c.oid),
    }
}

/// Staged files, then the other changed files (unstaged, untracked,
/// conflicted), then local branches, then the first fifty commits.
pub open spec fn collect_items_of(s: AppStateV) -> Seq<QuickOpenItemV> {
    file_items(s.changes.staged, true) + file_items(
        s.changes.unstaged + s.changes.untracked + s.changes.conflicted,
        false,
    ) + s.branch.branches.filter(is_local_branch()).map_values(|b: BranchInfoV| branch_item(b))
        + cap(s.history.commits, QUICK_OPEN_COMMITS as nat).map_values(
        |c: CommitSummaryV| commit_item(c),
    )
}

fn push_file_items(out: &mut Vec<QuickOpenItem>, fs: &Vec<FileChange>, staged: bool)
    ensures
        final(out).deep_view() == old(out).deep_view() + file_items(fs.deep_view(), staged),
{
    let ghost start = out.deep_view();
    let ghost src = fs.deep_view();
    let mut i: usize = 0;
    proof {
        reveal_strlit("staged");
        reveal_strlit("working tree");
    }
    while i < fs.len()
        invariant
            i <= fs.len(),
            src == fs.deep_view(),
            out.deep_view() == start + file_items(src.take(i as int), staged),
        decreases fs.len() - i,
    {
        let f = &fs[i];
        let detail = if staged {
            String::from_str("staged")
        } else {
            String::from_str("working tree")
        };
        let item = QuickOpenItem {
            kind: QuickOpenKind::File,
            label: f.path.clone(),
            detail,
            event: UiEvent::SelectFile { path: f.path.clone(), staged },
        };
        assert(item.deep_view() == file_item(src[i as int], staged));
        vec_push(out, item);
        assert(file_items(src.take(i + 1), staged) =~= file_items(src.take(i as int), staged).push(
            file_item(src[i as int], staged),
        ));
        i = i + 1;
    }
    assert(src.take(src.len() as int) =~= src);
}

/// Builds the Quick Open entries for the current state.
pub fn collect_items(state: &AppState) -> (r: Vec<QuickOpenItem>)
    ensures
        r.deep_view() == collect_items_of(state.deep_view()),
{
    let ghost s = state.deep_view();
    let mut items: Vec<QuickOpenItem> = Vec::new();
    push_file_items(&mut items, &state.changes.staged, true);
    push_file_items(&mut items, &state.changes.unstaged, false);
    push_file_items(&mut items, &state.changes.untracked, false);
    push_file_items(&mut items, &state.changes.conflicted, false);
    proof {
        let u = s.changes.unstaged;
        let t = s.changes.untracked;
        let c = s.changes.conflicted;
        assert(file_items(u + t + c, false) =~= file_items(u, false) + file_items(t, false)
            + file_items(c, false));
        assert(items.deep_view() =~= file_items(s.changes.staged, true) + file_items(
            u + t + c,
            false,
        ));
    }
    let ghost mid = items.deep_view();
    let ghost bs = s.branch.branches;
    let ghost pred = is_local_branch();
    proof {
        reveal_strlit("branch");
    }
    let mut i: usize = 0;
    while i < state.branch.branches.len()
        invariant
            i <= state.branch.branches.len(),
            bs == state.branch.branches.deep_view(),
            pred == is_local_branch(),
            items.deep_view() == mid + bs.take(i as int).filter(pred).map_values(
                |b: BranchInfoV| branch_item(b),
            ),
        decreases state.branch.branches.len() - i,
    {
        proof {
            assert(bs.take(i + 1) =~= bs.take(i as int).push(bs[i as int]));
            bs.take(i as int).lemma_filter_push(bs[i as int], pred);
        }
        let b = &state.branch.branches[i];
        if !b.is_remote {
            let item = QuickOpenItem {
                kind: QuickOpenKind::Branch,
                label: b.name.clone(),
                detail: String::from_str("branch"),
                event: UiEvent::SelectBranch(b.name.clone()),
            };
            vec_push(&mut items, item);
            assert(bs.take(i as int).filter(pred).push(bs[i as int]).map_values(
                |b: BranchInfoV| branch_item(b),
            ) =~= bs.take(i as int).filter(pred).map_values(|b: BranchInfoV| branch_item(b)).push(
                branch_item(bs[i as int]),
            ));
        }
        i = i + 1;
    }
    assert(bs.take(bs.len() as int) =~= bs);
    let ghost mid2 = items.deep_view();
    let ghost cs = s.history.commits;
    let n = if state.history.commits.len() > QUICK_OPEN_COMMITS {
        QUICK_OPEN_COMMITS
    } else {
        state.history.commits.len()
    };
    assert(cap(cs, QUICK_OPEN_COMMITS as nat) =~= cs.take(n as int));
    let mut k: usize = 0;
    while k < n
        invariant
            k <= n <= state.history.commits.len(),
            cs == state.history.commits.deep_view(),
            items.deep_view() == mid2 + cs.take(k as int).map_values(
                |c: CommitSummaryV| commit_item(c),
            ),
        decreases n - k,
    {
        let c = &state.history.commits[k];
        let ov = chars_of(c.oid.0.as_str());
        let mut label: Vec<char> = if ov.len() > 7 {
            crate::text::slice_of(&ov, 0, 7)
        } else {
            crate::text::slice_of(&ov, 0, ov.len())
        };
        label.push(' ');
        crate::text::push_str(&mut label, c.summary.as_str());
        assert(label@ =~= commit_item(cs[k as int]).label);
        let item = QuickOpenItem {
            kind: QuickOpenKind::Commit,
            label: string_of(&label),
            detail: c.author.clone(),
            event: UiEvent::SelectCommit(Oid(c.oid.0.clone())),
        };
        vec_push(&mut items, item);
        assert(cs.take(k + 1).map_values(|c: CommitSummaryV| commit_item(c)) =~= cs.take(
            k as int,
        ).map_values(|c: CommitSummaryV| commit_item(c)).push(commit_item(cs[k as int])));
        k = k + 1;
    }
    assert(items.deep_view() =~= collect_items_of(s));
    items
}

/// Whether an entry matches the lower-cased `needle`: every entry matches an
/// empty needle, else its label or detail (lower-cased) must contain it.
pub open spec fn item_matches(needle: Seq<char>) -> spec_fn(QuickOpenItemV) -> bool {
    |it: QuickOpenItemV| item_lowered_match(needle, lowercase_of(it.label), lowercase_of(it.detail))
}

/// Whether the lower-cased `needle` is empty or occurs in the lower-cased
/// label or detail.
pub open spec fn item_lowered_match(needle: Seq<char>, label: Seq<char>, detail: Seq<char>) -> bool {
    needle.len() == 0 || contains(label, needle) || contains(detail, needle)
}

/// Matches a lower-cased needle against an entry's lower-cased texts.
pub fn item_matches_lowered(needle: &str, label: &str, detail: &str) -> (r: bool)
    ensures
        r == item_lowered_match(needle@, label@, detail@),
{
    let n = chars_of(needle);
    n.len() == 0 || contains_exec(&chars_of(label), &n) || contains_exec(&chars_of(detail), &n)
}

/// The entries of `items` that match `query` (trimmed, lower-cased), in order.
pub open spec fn filter_items_of(items: Seq<QuickOpenItemV>, query: Seq<char>) -> Seq<
    QuickOpenItemV,
> {
    items.filter(item_matches(lowercase_of(trim(query))))
}

/// Filters entries by a case-insensitive substring of label or detail.
pub fn filter_items(items: &Vec<QuickOpenItem>, query: &str) -> (r: Vec<QuickOpenItem>)
    ensures
        r.deep_view() == filter_items_of(items.deep_view(), query@),
{
    let t = trim_str(query);
    let needle_s = to_lowercase(t.as_str());
    let needle = chars_of(needle_s.as_str());
    let ghost pred = item_matches(needle@);
    let ghost src = items.deep_view();
    let mut out: Vec<QuickOpenItem> = Vec::new();
    let mut i: usize = 0;
    while i < items.len()
        invariant
            i <= items.len(),
            src == items.deep_view(),
            pred == item_matches(needle@),
            needle@ == needle_s@,
            out.deep_view() == src.take(i as int).filter(pred),
        decreases items.len() - i,
    {
        proof {
            assert(src.take(i + 1) =~= src.take(i as int).push(src[i as int]));
            src.take(i as int).lemma_filter_push(src[i as int], pred);
        }
        let it = &items[i];
        let keep = if needle.len() == 0 {
            true
        } else {
            let l = to_lowercase(it.label.as_str());
            let d = to_lowercase(it.detail.as_str());
            item_matches_lowered(needle_s.as_str(), l.as_str(), d.as_str())
        };
        assert(keep == pred(src[i as int]));
        if keep {
            vec_push(&mut out, it.dup());
        }
        i = i + 1;
    }
    assert(src.take(src.len() as int) =~= src);
    out
}

} // verus!
