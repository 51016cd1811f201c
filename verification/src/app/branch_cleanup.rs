//! Outdated or merged local branches offered for cleanup.
use vstd::prelude::*;

use crate::app::branch_health::STALE_DAYS_THRESHOLD;
use crate::app::model::{BranchHealth, BranchInfo, BranchInfoV};
use crate::dup::vec_push;
use crate::text::{chars_of, lower_ascii_exec, lower_ascii_seq, seq_eq};

verus! {

/// Branch names that never appear in cleanup lists.
pub open spec fn protected_names() -> Seq<Seq<char>> {
    seq!["main"@, "master"@, "develop"@, "trunk"@, "release"@]
}

fn protected_list() -> (r: Vec<&'static str>)
    ensures
        r@.len() == protected_names().len(),
        forall|i: int| 0 <= i < r@.len() ==> #[trigger] r@[i]@ == protected_names()[i],
{
    let mut v: Vec<&'static str> = Vec::new();
    v.push("main");
    v.push("master");
    v.push("develop");
    v.push("trunk");
    v.push("release");
    v
}

/// Why a branch was offered for cleanup.
#[derive(Debug, Clone, Copy, PartialEq, Eq)]
pub enum CleanupReason {
    Merged,
    Stale,
    Both,
}

/// A cleanup candidate with its reason.
#[derive(Debug, Clone, PartialEq, Eq)]
pub struct CleanupCandidate {
    pub name: String,
    pub reason: CleanupReason,
}

pub struct CleanupCandidateV {
    pub name: Seq<char>,
    pub reason: CleanupReason,
}

impl DeepView for CleanupCandidate {
    type V = CleanupCandidateV;

    open spec fn deep_view(&self) -> CleanupCandidateV {
        CleanupCandidateV { name: self.name@, reason: self.reason }
    }
}

/// A name equal to a protected one, ignoring ASCII case.
pub open spec fn is_protected_name(name: Seq<char>) -> bool {
    exists|i: int|
        0 <= i < protected_names().len() && lower_ascii_seq(#[trigger] protected_names()[i])
            == lower_ascii_seq(name)
}

/// Returns whether `name` is a protected branch (ASCII case ignored).
pub fn is_protected(name: &str) -> (r: bool)
    ensures
        r == is_protected_name(name@),
{
    let list = protected_list();
    let n = lower_ascii_exec(&chars_of(name));
    let mut i: usize = 0;
    while i < list.len()
        invariant
            i <= list.len(),
            list@.len() == protected_names().len(),
            forall|k: int| 0 <= k < list@.len() ==> #[trigger] list@[k]@ == protected_names()[k],
            n@ == lower_ascii_seq(name@),
            forall|k: int|
                0 <= k < i ==> lower_ascii_seq(#[trigger] protected_names()[k]) != lower_ascii_seq(
                    name@,
                ),
        decreases list.len() - i,
    {
        let p = lower_ascii_exec(&chars_of(list[i]));
        if seq_eq(&p, &n) {
            assert(lower_ascii_seq(protected_names()[i as int]) == lower_ascii_seq(name@));
            return true;
        }
        i = i + 1;
    }
    false
}

/// The reason a branch is a candidate, if it is one.
pub open spec fn cleanup_reason_of(
    b: BranchInfoV,
    current: Option<Seq<char>>,
    merged: Seq<Seq<char>>,
) -> Option<CleanupReason> {
    if b.is_remote || current == Some(b.name) || is_protected_name(b.name) {
        None
    } else {
        let is_merged = merged.contains(b.name);
        let is_stale = b.health == BranchHealth::Stale || (b.stale_days matches Some(d) && d
            >= STALE_DAYS_THRESHOLD);
        if is_merged && is_stale {
            Some(CleanupReason::Both)
        } else if is_merged {
            Some(CleanupReason::Merged)
        } else if is_stale {
            Some(CleanupReason::Stale)
        } else {
            None
        }
    }
}

/// `a` sorts strictly before `b` (code point by code point, a proper prefix
/// first), the order of `str::cmp`.
pub open spec fn lex_lt(a: Seq<char>, b: Seq<char>) -> bool
    decreases a.len(),
{
    if b.len() == 0 {
        false
    } else if a.len() == 0 {
        true
    } else if a[0] != b[0] {
        (a[0] as u32) < (b[0] as u32)
    } else {
        lex_lt(a.drop_first(), b.drop_first())
    }
}

/// Where `x` goes in `s`: before the first element whose name sorts after
/// its name, so that equal names keep their order.
pub open spec fn insert_pos(s: Seq<CleanupCandidateV>, x: CleanupCandidateV, i: int) -> int
    decreases s.len() - i,
{
    if i >= s.len() {
        s.len() as int
    } else if lex_lt(x.name, s[i].name) {
        i
    } else {
        insert_pos(s, x, i + 1)
    }
}

/// A stable sort by name: each element inserted in turn after the equal ones.
pub open spec fn sort_by_name(s: Seq<CleanupCandidateV>) -> Seq<CleanupCandidateV>
    decreases s.len(),
{
    if s.len() == 0 {
        s
    } else {
        let sorted = sort_by_name(s.drop_last());
        sorted.insert(insert_pos(sorted, s.last(), 0), s.last())
    }
}

/// The candidates in branch order, before sorting.
pub open spec fn raw_candidates(
    branches: Seq<BranchInfoV>,
    current: Option<Seq<char>>,
    merged: Seq<Seq<char>>,
) -> Seq<CleanupCandidateV>
    decreases branches.len(),
{
    if branches.len() == 0 {
        Seq::empty()
    } else {
        let prev = raw_candidates(branches.drop_last(), current, merged);
        let b = branches.last();
        match cleanup_reason_of(b, current, merged) {
            Some(reason) => prev.push(CleanupCandidateV { name: b.name, reason }),
            None => prev,
        }
    }
}

/// The cleanup candidates sorted by name.
pub open spec fn candidates_of(
    branches: Seq<BranchInfoV>,
    current: Option<Seq<char>>,
    merged: Seq<Seq<char>>,
) -> Seq<CleanupCandidateV> {
    sort_by_name(raw_candidates(branches, current, merged))
}

pub(crate) fn lex_lt_exec(a: &Vec<char>, b: &Vec<char>) -> (r: bool)
    ensures
        r == lex_lt(a@, b@),
{
    let mut i: usize = 0;
    assert(a@.skip(0) =~= a@);
    assert(b@.skip(0) =~= b@);
    while i < a.len() && i < b.len() && a[i] == b[i]
        invariant
            i <= a.len(),
            i <= b.len(),
            lex_lt(a@, b@) == lex_lt(a@.skip(i as int), b@.skip(i as int)),
        decreases a.len() - i,
    {
        assert(a@.skip(i as int).drop_first() =~= a@.skip(i + 1));
        assert(b@.skip(i as int).drop_first() =~= b@.skip(i + 1));
        i = i + 1;
    }
    if i >= b.len() {
        false
    } else if i >= a.len() {
        true
    } else {
        (a[i] as u32) < (b[i] as u32)
    }
}

fn contains_name(v: &Vec<String>, s: &Vec<char>) -> (r: bool)
    ensures
        r == v.deep_view().contains(s@),
{
    let mut i: usize = 0;
    while i < v.len()
        invariant
            i <= v.len(),
            forall|k: int| 0 <= k < i ==> v.deep_view()[k] != s@,
        decreases v.len() - i,
    {
        let c = chars_of(v[i].as_str());
        if seq_eq(&c, s) {
            assert(v.deep_view()[i as int] == s@);
            return true;
        }
        i = i + 1;
    }
    false
}

fn insert_sorted(out: &mut Vec<CleanupCandidate>, x: CleanupCandidate)
    ensures
        final(out).deep_view() == old(out).deep_view().insert(
            insert_pos(old(out).deep_view(), x.deep_view(), 0),
            x.deep_view(),
        ),
{
    let ghost s = out.deep_view();
    let xv = chars_of(x.name.as_str());
    let mut i: usize = 0;
    while i < out.len() && !lex_lt_exec(&xv, &chars_of(out[i].name.as_str()))
        invariant
            i <= out.len(),
            s == out.deep_view(),
            xv@ == x.name@,
            insert_pos(s, x.deep_view(), 0) == insert_pos(s, x.deep_view(), i as int),
        decreases out.len() - i,
    {
        i = i + 1;
    }
    assert(insert_pos(s, x.deep_view(), i as int) == i);
    let ghost xd = x.deep_view();
    out.insert(i, x);
    assert(out.deep_view() =~= s.insert(i as int, xd));
}

/// Builds cleanup candidates from the branch list and the names merged into
/// the base branch: local branches other than the current and the protected
/// ones that are merged, stale or both, sorted by name.
pub fn candidates(branches: &Vec<BranchInfo>, current: Option<&str>, merged_names: &Vec<String>) -> (r:
    Vec<CleanupCandidate>)
    ensures
        r.deep_view() == candidates_of(
            branches.deep_view(),
            match current {
                Some(c) => Some(c@),
                None => None,
            },
            merged_names.deep_view(),
        ),
{
    let ghost cur = match current {
        Some(c) => Some(c@),
        None => None::<Seq<char>>,
    };
    let ghost bs = branches.deep_view();
    let ghost md = merged_names.deep_view();
    let mut out: Vec<CleanupCandidate> = Vec::new();
    let mut i: usize = 0;
    while i < branches.len()
        invariant
            i <= branches.len(),
            bs == branches.deep_view(),
            md == merged_names.deep_view(),
            cur == (match current {
                Some(c) => Some(c@),
                None => None::<Seq<char>>,
            }),
            out.deep_view() == sort_by_name(raw_candidates(bs.take(i as int), cur, md)),
        decreases branches.len() - i,
    {
        let b = &branches[i];
        proof {
            assert(bs.take(i + 1).drop_last() =~= bs.take(i as int));
        }
        let nv = chars_of(b.name.as_str());
        let is_current = match current {
            Some(c) => seq_eq(&chars_of(c), &nv),
            None => false,
        };
        if !b.is_remote && !is_current && !is_protected(b.name.as_str()) {
            let merged = contains_name(merged_names, &nv);
            let stale = b.health == BranchHealth::Stale || match b.stale_days {
                Some(d) => d >= STALE_DAYS_THRESHOLD,
                None => false,
            };
            let reason = if merged && stale {
                Some(CleanupReason::Both)
            } else if merged {
                Some(CleanupReason::Merged)
            } else if stale {
                Some(CleanupReason::Stale)
            } else {
                None
            };
            assert(reason == cleanup_reason_of(bs[i as int], cur, md));
            match reason {
                Some(reason) => {
                    let c = CleanupCandidate { name: b.name.clone(), reason };
                    proof {
                        let raw = raw_candidates(bs.take(i as int), cur, md);
                        assert(raw_candidates(bs.take(i + 1), cur, md) == raw.push(c.deep_view()));
                        assert(raw.push(c.deep_view()).drop_last() =~= raw);
                    }
                    insert_sorted(&mut out, c);
                },
                None => {},
            }
        } else {
            assert(cleanup_reason_of(bs[i as int], cur, md) is None);
        }
        i = i + 1;
    }
    assert(bs.take(bs.len() as int) =~= bs);
    out
}

/// Human label for a reason.
pub fn reason_label(reason: CleanupReason) -> (r: &'static str)
    ensures
        r@ == match reason {
            CleanupReason::Merged => "merged"@,
            CleanupReason::Stale => "stale"@,
            CleanupReason::Both => "merged + stale"@,
        },
{
    match reason {
        CleanupReason::Merged => "merged",
        CleanupReason::Stale => "stale",
        CleanupReason::Both => "merged + stale",
    }
}

} // verus!
