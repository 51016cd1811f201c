//! Grouping working-tree status entries into staged, unstaged, untracked
//! and conflicted files.
//!
//! The backend reports each entry as a [`StatusItem`]: a change between HEAD
//! and the index, a change between the index and the working tree, an
//! untracked directory entry, or a rename in the working tree.
use vstd::prelude::*;

use crate::git::error::{GitError, GitErrorV};
use crate::git::service::{ChangeStatus, FileChange, RepoStatus};
#[allow(unused_imports)]
use vstd::view::View as _;

verus! {

/// A change between HEAD and the index.
#[derive(Debug, Clone, Copy, PartialEq, Eq)]
pub enum IndexChange {
    Addition,
    Deletion,
    Modification,
    Rewrite { copy: bool },
}

/// The state of an index entry in the working tree.
#[derive(Debug, Clone, Copy, PartialEq, Eq)]
pub enum WorktreeChange {
    Conflict,
    Removed,
    TypeChange,
    Modification,
    SubmoduleModification,
    NeedsUpdate,
    IntentToAdd,
}

/// One status entry as the backend reports it.
#[derive(Debug, Clone, PartialEq, Eq)]
pub enum StatusItem {
    TreeIndex { path: String, change: IndexChange },
    IndexWorktree { path: String, status: WorktreeChange },
    DirectoryContents { path: String },
    Rewrite { path: String },
}

pub enum StatusItemV {
    TreeIndex { path: Seq<char>, change: IndexChange },
    IndexWorktree { path: Seq<char>, status: WorktreeChange },
    DirectoryContents { path: Seq<char> },
    Rewrite { path: Seq<char> },
}

impl DeepView for StatusItem {
    type V = StatusItemV;

    open spec fn deep_view(&self) -> StatusItemV {
        match self {
            StatusItem::TreeIndex { path, change } => StatusItemV::TreeIndex {
                path: path@,
                change: *change,
            },
            StatusItem::IndexWorktree { path, status } => StatusItemV::IndexWorktree {
                path: path@,
                status: *status,
            },
            StatusItem::DirectoryContents { path } => StatusItemV::DirectoryContents { path: path@ },
            StatusItem::Rewrite { path } => StatusItemV::Rewrite { path: path@ },
        }
    }
}

/// The four groups, each a list of (path, status).
pub struct StatusGroups {
    pub staged: Seq<(Seq<char>, ChangeStatus)>,
    pub unstaged: Seq<(Seq<char>, ChangeStatus)>,
    pub untracked: Seq<(Seq<char>, ChangeStatus)>,
    pub conflicted: Seq<(Seq<char>, ChangeStatus)>,
}

pub open spec fn changes_view(v: Seq<FileChange>) -> Seq<(Seq<char>, ChangeStatus)> {
    v.map_values(|f: FileChange| (f.path@, f.status))
}

pub open spec fn groups_of(s: &RepoStatus) -> StatusGroups {
    StatusGroups {
        staged: changes_view(s.staged@),
        unstaged: changes_view(s.unstaged@),
        untracked: changes_view(s.untracked@),
        conflicted: changes_view(s.conflicted@),
    }
}

/// Where one entry goes: index changes are staged (a rewrite is a copy or a
/// rename); a conflict is conflicted; a removal, type change or content
/// change in the working tree is unstaged; an untracked entry is untracked;
/// a working-tree rename is unstaged as renamed; entries that only need a
/// stat update or are intent-to-add go nowhere.
pub open spec fn add_item(g: StatusGroups, item: StatusItemV) -> StatusGroups {
    match item {
        StatusItemV::TreeIndex { path, change } => {
            let kind = match change {
                IndexChange::Addition => ChangeStatus::Added,
                IndexChange::Deletion => ChangeStatus::Deleted,
                IndexChange::Modification => ChangeStatus::Modified,
                IndexChange::Rewrite { copy } => if copy {
                    ChangeStatus::Copied
                } else {
                    ChangeStatus::Renamed
                },
            };
            StatusGroups { staged: g.staged.push((path, kind)), ..g }
        },
        StatusItemV::IndexWorktree { path, status } => match status {
            WorktreeChange::Conflict => StatusGroups {
                conflicted: g.conflicted.push((path, ChangeStatus::Conflicted)),
                ..g
            },
            WorktreeChange::Removed => StatusGroups {
                unstaged: g.unstaged.push((path, ChangeStatus::Deleted)),
                ..g
            },
            WorktreeChange::TypeChange => StatusGroups {
                unstaged: g.unstaged.push((path, ChangeStatus::TypeChange)),
                ..g
            },
            WorktreeChange::Modification | WorktreeChange::SubmoduleModification => StatusGroups {
                unstaged: g.unstaged.push((path, ChangeStatus::Modified)),
                ..g
            },
            WorktreeChange::NeedsUpdate | WorktreeChange::IntentToAdd => g,
        },
        StatusItemV::DirectoryContents { path } => StatusGroups {
            untracked: g.untracked.push((path, ChangeStatus::Untracked)),
            ..g
        },
        StatusItemV::Rewrite { path } => StatusGroups {
            unstaged: g.unstaged.push((path, ChangeStatus::Renamed)),
            ..g
        },
    }
}

/// The groups of a list of entries, in order.
pub open spec fn groups_from(items: Seq<StatusItemV>) -> StatusGroups
    decreases items.len(),
{
    if items.len() == 0 {
        StatusGroups { staged: seq![], unstaged: seq![], untracked: seq![], conflicted: seq![] }
    } else {
        add_item(groups_from(items.drop_last()), items.last())
    }
}

/// The index of the first failed entry.
pub open spec fn first_failure(items: Seq<Result<StatusItemV, Seq<char>>>, i: int) -> Option<int>
    decreases items.len() - i,
{
    if i < 0 || i >= items.len() {
        None
    } else if items[i] is Err {
        Some(i)
    } else {
        first_failure(items, i + 1)
    }
}

pub open spec fn item_results(items: Seq<Result<StatusItem, String>>) -> Seq<
    Result<StatusItemV, Seq<char>>,
> {
    items.map_values(
        |r: Result<StatusItem, String>|
            match r {
                Ok(it) => Ok(it.deep_view()),
                Err(e) => Err(e@),
            },
    )
}

fn push_change(v: &mut Vec<FileChange>, path: &String, status: ChangeStatus)
    ensures
        changes_view(final(v)@) == changes_view(old(v)@).push((path@, status)),
{
    let ghost before = v@;
    v.push(FileChange::new(path.clone(), status));
    assert(changes_view(v@) =~= changes_view(before).push((path@, status)));
}

/// Groups backend status entries; the first failed entry is the error.
#[verifier::spinoff_prover]
pub fn status_from_items(items: Vec<Result<StatusItem, String>>) -> (r: Result<RepoStatus, GitError>)
    ensures
        match first_failure(item_results(items@), 0) {
            Some(k) => r matches Err(e) && e.deep_view() == GitErrorV::Backend(
                item_results(items@)[k]->Err_0,
            ),
            None => r matches Ok(st) && groups_of(&st) == groups_from(
                item_results(items@).map_values(|x: Result<StatusItemV, Seq<char>>| x->Ok_0),
            ),
        },
{
    let ghost iv = item_results(items@);
    let ghost oks = iv.map_values(|x: Result<StatusItemV, Seq<char>>| x->Ok_0);
    let mut st = RepoStatus::new();
    assert(groups_of(&st) == groups_from(oks.take(0))) by {
        assert(changes_view(st.staged@) =~= seq![]);
        assert(changes_view(st.unstaged@) =~= seq![]);
        assert(changes_view(st.untracked@) =~= seq![]);
        assert(changes_view(st.conflicted@) =~= seq![]);
    }
    let mut i: usize = 0;
    while i < items.len()
        invariant
            i <= items.len(),
            iv == item_results(items@),
            oks == iv.map_values(|x: Result<StatusItemV, Seq<char>>| x->Ok_0),
            first_failure(iv, 0) == first_failure(iv, i as int),
            groups_of(&st) == groups_from(oks.take(i as int)),
        decreases items.len() - i,
    {
        assert(oks.take(i + 1).drop_last() =~= oks.take(i as int));
        match &items[i] {
            Err(e) => {
                return Err(GitError::Backend(e.clone()));
            },
            Ok(item) => {
                assert(oks[i as int] == item.deep_view());
                match item {
                    StatusItem::TreeIndex { path, change } => {
                        let kind = match change {
                            IndexChange::Addition => ChangeStatus::Added,
                            IndexChange::Deletion => ChangeStatus::Deleted,
                            IndexChange::Modification => ChangeStatus::Modified,
                            IndexChange::Rewrite { copy } => if *copy {
                                ChangeStatus::Copied
                            } else {
                                ChangeStatus::Renamed
                            },
                        };
                        push_change(&mut st.staged, path, kind);
                    },
                    StatusItem::IndexWorktree { path, status } => match status {
                        WorktreeChange::Conflict => push_change(
                            &mut st.conflicted,
                            path,
                            ChangeStatus::Conflicted,
                        ),
                        WorktreeChange::Removed => push_change(
                            &mut st.unstaged,
                            path,
                            ChangeStatus::Deleted,
                        ),
                        WorktreeChange::TypeChange => push_change(
                            &mut st.unstaged,
                            path,
                            ChangeStatus::TypeChange,
                        ),
                        WorktreeChange::Modification | WorktreeChange::SubmoduleModification => {
                            push_change(&mut st.unstaged, path, ChangeStatus::Modified)
                        },
                        WorktreeChange::NeedsUpdate | WorktreeChange::IntentToAdd => {},
                    },
                    StatusItem::DirectoryContents { path } => push_change(
                        &mut st.untracked,
                        path,
                        ChangeStatus::Untracked,
                    ),
                    StatusItem::Rewrite { path } => push_change(
                        &mut st.unstaged,
                        path,
                        ChangeStatus::Renamed,
                    ),
                }
            },
        }
        i = i + 1;
    }
    assert(oks.take(oks.len() as int) =~= oks);
    Ok(st)
}


/// Whether an entry is listed in some group: every entry but one that only
/// needs a stat update or is intent-to-add.
pub open spec fn is_listed(item: StatusItemV) -> bool {
    !(item matches StatusItemV::IndexWorktree { status: WorktreeChange::NeedsUpdate, .. })
        && !(item matches StatusItemV::IndexWorktree { status: WorktreeChange::IntentToAdd, .. })
}

/// How many entries the four groups hold together.
pub open spec fn group_total(g: StatusGroups) -> nat {
    g.staged.len() + g.unstaged.len() + g.untracked.len() + g.conflicted.len()
}

/// Where the documentation puts an entry, and with which status.
pub open spec fn placed(g: StatusGroups, item: StatusItemV) -> bool {
    match item {
        StatusItemV::TreeIndex { path, change: IndexChange::Addition } => g.staged.contains((path, ChangeStatus::Added)),
        StatusItemV::TreeIndex { path, change: IndexChange::Deletion } => g.staged.contains((path, ChangeStatus::Deleted)),
        StatusItemV::TreeIndex { path, change: IndexChange::Modification } => g.staged.contains((path, ChangeStatus::Modified)),
        StatusItemV::TreeIndex { path, change: IndexChange::Rewrite { copy: true } } => g.staged.contains((path, ChangeStatus::Copied)),
        StatusItemV::TreeIndex { path, change: IndexChange::Rewrite { copy: false } } => g.staged.contains((path, ChangeStatus::Renamed)),
        StatusItemV::IndexWorktree { path, status: WorktreeChange::Conflict } => g.conflicted.contains((path, ChangeStatus::Conflicted)),
        StatusItemV::IndexWorktree { path, status: WorktreeChange::Removed } => g.unstaged.contains((path, ChangeStatus::Deleted)),
        StatusItemV::IndexWorktree { path, status: WorktreeChange::TypeChange } => g.unstaged.contains((path, ChangeStatus::TypeChange)),
        StatusItemV::IndexWorktree { path, status: WorktreeChange::Modification } => g.unstaged.contains((path, ChangeStatus::Modified)),
        StatusItemV::IndexWorktree { path, status: WorktreeChange::SubmoduleModification } => g.unstaged.contains((path, ChangeStatus::Modified)),
        StatusItemV::IndexWorktree { .. } => true,
        StatusItemV::DirectoryContents { path } => g.untracked.contains((path, ChangeStatus::Untracked)),
        StatusItemV::Rewrite { path } => g.unstaged.contains((path, ChangeStatus::Renamed)),
    }
}

/// Grouping accounts for every entry: each listed entry lands in its group
/// with its status (a file removed in the working tree is unstaged and
/// deleted, an untracked entry is untracked, and so on), and the groups hold
/// exactly as many files as there are listed entries.
pub proof fn lemma_status_accounts_for_every_entry(items: Seq<StatusItemV>)
    ensures
        group_total(groups_from(items)) == items.filter(|it: StatusItemV| is_listed(it)).len(),
        forall|k: int| 0 <= k < items.len() ==> placed(groups_from(items), #[trigger] items[k]),
    decreases items.len(),
{
    let pred = |it: StatusItemV| is_listed(it);
    if items.len() == 0 {
        assert(items.filter(pred) =~= Seq::<StatusItemV>::empty());
    } else {
        let init = items.drop_last();
        let last = items.last();
        lemma_status_accounts_for_every_entry(init);
        assert(init.push(last) =~= items);
        init.lemma_filter_push(last, pred);
        let g0 = groups_from(init);
        let g1 = groups_from(items);
        assert(g1 == add_item(g0, last));
        assert forall|k: int| 0 <= k < items.len() implies placed(g1, #[trigger] items[k]) by {
            if k < init.len() {
                assert(items[k] == init[k]);
                assert(placed(g0, init[k]));
                assert forall|e: (Seq<char>, ChangeStatus)| g0.staged.contains(e) implies g1.staged.contains(e) by {
                    let w = choose|w: int| 0 <= w < g0.staged.len() && g0.staged[w] == e;
                    assert(g1.staged.len() >= g0.staged.len() && g1.staged[w] == g0.staged[w]);
                }
                assert forall|e: (Seq<char>, ChangeStatus)| g0.unstaged.contains(e) implies g1.unstaged.contains(e) by {
                    let w = choose|w: int| 0 <= w < g0.unstaged.len() && g0.unstaged[w] == e;
                    assert(g1.unstaged.len() >= g0.unstaged.len() && g1.unstaged[w] == g0.unstaged[w]);
                }
                assert forall|e: (Seq<char>, ChangeStatus)| g0.untracked.contains(e) implies g1.untracked.contains(e) by {
                    let w = choose|w: int| 0 <= w < g0.untracked.len() && g0.untracked[w] == e;
                    assert(g1.untracked.len() >= g0.untracked.len() && g1.untracked[w] == g0.untracked[w]);
                }
                assert forall|e: (Seq<char>, ChangeStatus)| g0.conflicted.contains(e) implies g1.conflicted.contains(e) by {
                    let w = choose|w: int| 0 <= w < g0.conflicted.len() && g0.conflicted[w] == e;
                    assert(g1.conflicted.len() >= g0.conflicted.len() && g1.conflicted[w] == g0.conflicted[w]);
                }
            } else {
                assert(items[k] == last);
                match last {
                    StatusItemV::TreeIndex { .. } => {
                        assert(g1.staged.last() == g1.staged[g1.staged.len() - 1]);
                    },
                    StatusItemV::IndexWorktree { status, .. } => {
                        assert(g1.unstaged.len() > 0 ==> g1.unstaged[g1.unstaged.len() - 1] == g1.unstaged.last());
                        assert(g1.conflicted.len() > 0 ==> g1.conflicted[g1.conflicted.len() - 1] == g1.conflicted.last());
                    },
                    StatusItemV::DirectoryContents { .. } => {
                        assert(g1.untracked[g1.untracked.len() - 1] == g1.untracked.last());
                    },
                    StatusItemV::Rewrite { .. } => {
                        assert(g1.unstaged[g1.unstaged.len() - 1] == g1.unstaged.last());
                    },
                }
            }
        }
    }
}

} // verus!
