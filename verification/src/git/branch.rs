//! Branches: reading `git for-each-ref`, `git status --porcelain`, reflog,
//! `rev-list` and `cherry` output, checking names, and deciding what a
//! checkout or a delete does.
use vstd::prelude::*;

use crate::app::branch_cleanup::{lex_lt, lex_lt_exec};
use crate::dup::vec_push;
use crate::git::error::{GitError, GitErrorV};
use crate::git::patch::{skip_ws, skip_ws_exec, tok_end, tok_end_exec};
use crate::git::service::{BranchRef, BranchRefV, Head};
use crate::text::{
    char_is_ws, chars_of, contains, contains_str, ends_with, ends_with_str, field, field_exec,
    is_ws, lines, lines_exec, lower_ascii_exec, lower_ascii_seq, parse_u32, parse_unsigned,
    push_all, push_str, seq_eq, slice_of, split_all, split_all_exec, split_once,
    split_once_exec, split_once_pat, split_once_pat_exec, starts_with, starts_with_str,
    string_of, trim, trim_exec, views,
};
#[allow(unused_imports)]
use vstd::view::View as _;

verus! {

// ---------------------------------------------------------------------------
// `git for-each-ref`
// ---------------------------------------------------------------------------
/// The ref of one `refname<TAB>short<TAB>HEAD<TAB>upstream` line.
pub open spec fn ref_of_line(line: Seq<char>) -> BranchRefV {
    let parts = split_all(line, '\t');
    BranchRefV {
        name: field(parts, 1),
        is_head: parts.len() > 2 && parts[2] == seq!['*'],
        upstream: if parts.len() > 3 && parts[3].len() > 0 {
            Some(parts[3])
        } else {
            None
        },
        is_remote: starts_with(field(parts, 0), "refs/remotes/"@),
    }
}

/// Whether a line lists a branch: not empty, and not a remote's symbolic
/// `HEAD`.
pub open spec fn keeps_ref(line: Seq<char>) -> bool {
    let r = ref_of_line(line);
    line.len() > 0 && !(r.is_remote && (ends_with(r.name, "/HEAD"@) || r.name == "HEAD"@))
}

pub open spec fn refs_upto(ls: Seq<Seq<char>>, n: int) -> Seq<BranchRefV>
    decreases n,
{
    if n <= 0 {
        seq![]
    } else if keeps_ref(ls[n - 1]) {
        refs_upto(ls, n - 1).push(ref_of_line(ls[n - 1]))
    } else {
        refs_upto(ls, n - 1)
    }
}

/// The branches listed by `git for-each-ref` with the format above.
pub open spec fn branch_refs_of(out: Seq<char>) -> Seq<BranchRefV> {
    let ls = lines(out);
    refs_upto(ls, ls.len() as int)
}

fn text_eq(v: &Vec<char>, s: &str) -> (r: bool)
    ensures
        r == (v@ == s@),
{
    seq_eq(v, &chars_of(s))
}

/// Reads `git for-each-ref` output into branch references.
#[verifier::spinoff_prover]
pub fn parse_branch_refs(out: &str) -> (r: Vec<BranchRef>)
    ensures
        r.deep_view() == branch_refs_of(out@),
{
    let ls = lines_exec(&chars_of(out));
    let ghost lv = views(ls@);
    let mut refs: Vec<BranchRef> = Vec::new();
    assert(refs.deep_view() =~= refs_upto(lv, 0));
    let mut i: usize = 0;
    while i < ls.len()
        invariant
            i <= ls.len(),
            lv == views(ls@),
            refs.deep_view() == refs_upto(lv, i as int),
        decreases ls.len() - i,
    {
        let line = &ls[i];
        assert(lv[i as int] == line@);
        let parts = split_all_exec(line, '\t');
        let ghost pv = views(parts@);
        let full = field_exec(&parts, 0);
        let name = field_exec(&parts, 1);
        let is_head = parts.len() > 2 && text_eq(&parts[2], "*");
        proof {
            reveal_strlit("*");
            if parts.len() > 2 {
                assert(pv[2] == parts[2]@);
            }
        }
        let upstream = if parts.len() > 3 && parts[3].len() > 0 {
            assert(pv[3] == parts[3]@);
            Some(string_of(&parts[3]))
        } else {
            None
        };
        let is_remote = starts_with_str(&full, "refs/remotes/");
        let skip = line.len() == 0 || (is_remote && (ends_with_str(&name, "/HEAD") || text_eq(
            &name,
            "HEAD",
        )));
        if !skip {
            let b = BranchRef { name: string_of(&name), is_head, upstream, is_remote };
            assert(pv == split_all(line@, '\t'));
            assert(name@ == field(pv, 1));
            assert("*"@ =~= seq!['*']);
            assert(is_head == (pv.len() > 2 && pv[2] == seq!['*']));
            assert(is_remote == starts_with(field(pv, 0), "refs/remotes/"@));
            assert(b.deep_view().upstream == ref_of_line(line@).upstream);
            assert(b.deep_view() == ref_of_line(line@));
            vec_push(&mut refs, b);
        }
        i = i + 1;
    }
    refs
}

// ---------------------------------------------------------------------------
// Names
// ---------------------------------------------------------------------------
pub open spec fn has_ws(s: Seq<char>) -> bool {
    exists|i: int| 0 <= i < s.len() && is_ws(#[trigger] s[i])
}

/// A branch name as given, trimmed: an error when empty, or when it holds
/// whitespace, `..`, a NUL, or starts with `-`.
pub open spec fn validate_branch_name_of(name: Seq<char>) -> Result<Seq<char>, GitErrorV> {
    let t = trim(name);
    if t.len() == 0 {
        Err(GitErrorV::Backend("branch name is empty"@))
    } else if has_ws(t) || contains(t, ".."@) || t[0] == '-' || contains(t, seq!['\0']) {
        Err(GitErrorV::Backend("invalid branch name: "@ + t))
    } else {
        Ok(t)
    }
}

fn any_ws(s: &Vec<char>) -> (r: bool)
    ensures
        r == has_ws(s@),
{
    let mut i: usize = 0;
    while i < s.len()
        invariant
            i <= s.len(),
            forall|k: int| 0 <= k < i ==> !is_ws(#[trigger] s@[k]),
        decreases s.len() - i,
    {
        if char_is_ws(s[i]) {
            assert(is_ws(s@[i as int]));
            return true;
        }
        i = i + 1;
    }
    false
}

/// Checks a branch name and answers it trimmed.
pub fn validate_branch_name(name: &str) -> (r: Result<String, GitError>)
    ensures
        crate::dup::result_dv(r) == validate_branch_name_of(name@),
{
    let t = trim_exec(&chars_of(name));
    if t.len() == 0 {
        return Err(GitError::Backend(string_of(&chars_of("branch name is empty"))));
    }
    let nul = vec!['\0'];
    assert(nul@ =~= seq!['\0']);
    if any_ws(&t) || contains_str(&t, "..") || t[0] == '-' || crate::text::contains_exec(&t, &nul) {
        let mut msg: Vec<char> = Vec::new();
        push_str(&mut msg, "invalid branch name: ");
        push_all(&mut msg, &t);
        return Err(GitError::Backend(string_of(&msg)));
    }
    Ok(string_of(&t))
}

/// The local name for a remote-tracking name: what follows the first `/`,
/// unless that is empty (then the name itself).
pub open spec fn local_name_for_remote_of(remote: Seq<char>) -> Seq<char> {
    match split_once(remote, '/') {
        Some((_, rest)) => if rest.len() > 0 {
            rest
        } else {
            remote
        },
        None => remote,
    }
}

/// `origin/feature/nested` → `feature/nested`.
pub fn local_name_for_remote(remote: &str) -> (r: String)
    ensures
        r@ == local_name_for_remote_of(remote@),
{
    let v = chars_of(remote);
    match split_once_exec(&v, '/') {
        Some((_, rest)) => if rest.len() > 0 {
            string_of(&rest)
        } else {
            string_of(&v)
        },
        None => string_of(&v),
    }
}

// ---------------------------------------------------------------------------
// Checkout
// ---------------------------------------------------------------------------
/// What a checkout does.
#[derive(Debug, Clone, PartialEq, Eq)]
pub enum CheckoutPlan {
    /// Switch to an existing local branch.
    Switch { name: String },
    /// Create a local branch tracking a remote-tracking branch.
    Track { local: String, remote: String },
}

pub enum CheckoutPlanV {
    Switch { name: Seq<char> },
    Track { local: Seq<char>, remote: Seq<char> },
}

impl DeepView for CheckoutPlan {
    type V = CheckoutPlanV;

    open spec fn deep_view(&self) -> CheckoutPlanV {
        match self {
            CheckoutPlan::Switch { name } => CheckoutPlanV::Switch { name: name@ },
            CheckoutPlan::Track { local, remote } => CheckoutPlanV::Track {
                local: local@,
                remote: remote@,
            },
        }
    }
}

pub open spec fn has_branch(bs: Seq<BranchRefV>, name: Seq<char>, remote: bool) -> bool {
    exists|k: int| 0 <= k < bs.len() && (#[trigger] bs[k]).is_remote == remote && bs[k].name == name
}

/// The branch to check out: the trimmed name, an error when empty.
pub open spec fn checkout_target_of(name: Seq<char>) -> Result<Seq<char>, GitErrorV> {
    if trim(name).len() == 0 {
        Err(GitErrorV::Backend("branch name is empty"@))
    } else {
        Ok(trim(name))
    }
}

/// Trims a checkout target and refuses an empty one.
pub fn checkout_target(name: &str) -> (r: Result<String, GitError>)
    ensures
        crate::dup::result_dv(r) == checkout_target_of(name@),
{
    let t = trim_exec(&chars_of(name));
    if t.len() == 0 {
        return Err(GitError::Backend(string_of(&chars_of("branch name is empty"))));
    }
    Ok(string_of(&t))
}

/// A local branch of that name is switched to; a remote-tracking one
/// switches to (or creates, tracking it) the local branch named without the
/// remote prefix; any other name is switched to as given.
pub open spec fn checkout_plan_of(name: Seq<char>, bs: Seq<BranchRefV>) -> CheckoutPlanV {
    if has_branch(bs, name, false) {
        CheckoutPlanV::Switch { name }
    } else if has_branch(bs, name, true) {
        let short = local_name_for_remote_of(name);
        if has_branch(bs, short, false) {
            CheckoutPlanV::Switch { name: short }
        } else {
            CheckoutPlanV::Track { local: short, remote: name }
        }
    } else {
        CheckoutPlanV::Switch { name }
    }
}

fn find_branch(bs: &Vec<BranchRef>, name: &Vec<char>, remote: bool) -> (r: bool)
    ensures
        r == has_branch(bs.deep_view(), name@, remote),
{
    let ghost v = bs.deep_view();
    let mut k: usize = 0;
    while k < bs.len()
        invariant
            k <= bs.len(),
            v == bs.deep_view(),
            forall|j: int| 0 <= j < k ==> !((#[trigger] v[j]).is_remote == remote && v[j].name == name@),
        decreases bs.len() - k,
    {
        assert(v[k as int] == bs[k as int].deep_view());
        if bs[k].is_remote == remote && seq_eq(&chars_of(bs[k].name.as_str()), name) {
            return true;
        }
        k = k + 1;
    }
    false
}

/// Decides how to check out `name` among the listed branches.
pub fn checkout_plan(name: &str, branches: &Vec<BranchRef>) -> (r: CheckoutPlan)
    ensures
        r.deep_view() == checkout_plan_of(name@, branches.deep_view()),
{
    let n = chars_of(name);
    if find_branch(branches, &n, false) {
        return CheckoutPlan::Switch { name: string_of(&n) };
    }
    if find_branch(branches, &n, true) {
        let short = local_name_for_remote(name);
        let sv = chars_of(short.as_str());
        if find_branch(branches, &sv, false) {
            return CheckoutPlan::Switch { name: short };
        }
        return CheckoutPlan::Track { local: short, remote: string_of(&n) };
    }
    CheckoutPlan::Switch { name: string_of(&n) }
}

/// Names in ascending order, each once: every name inserted in turn unless
/// already present.
pub open spec fn name_pos(s: Seq<Seq<char>>, x: Seq<char>, i: int) -> int
    decreases s.len() - i,
{
    if i >= s.len() {
        s.len() as int
    } else if lex_lt(x, s[i]) {
        i
    } else {
        name_pos(s, x, i + 1)
    }
}

pub open spec fn sorted_names(s: Seq<Seq<char>>) -> Seq<Seq<char>>
    decreases s.len(),
{
    if s.len() == 0 {
        s
    } else {
        let t = sorted_names(s.drop_last());
        if t.contains(s.last()) {
            t
        } else {
            t.insert(name_pos(t, s.last(), 0), s.last())
        }
    }
}

/// The paths a porcelain status line names: both sides of a rename, else
/// its path (none for a line shorter than four characters or an empty
/// path).
pub open spec fn line_paths(line: Seq<char>) -> Seq<Seq<char>> {
    if line.len() < 4 {
        seq![]
    } else {
        let rest = trim(line.skip(3));
        match split_once_pat(rest, " -> "@) {
            Some((from, to)) => seq![from, to],
            None => if rest.len() > 0 {
                seq![rest]
            } else {
                seq![]
            },
        }
    }
}

/// The names in order, each kept at its first occurrence.
pub open spec fn distinct_names(s: Seq<Seq<char>>) -> Seq<Seq<char>>
    decreases s.len(),
{
    if s.len() == 0 {
        s
    } else {
        let t = distinct_names(s.drop_last());
        if t.contains(s.last()) {
            t
        } else {
            t.push(s.last())
        }
    }
}

pub open spec fn all_line_paths(ls: Seq<Seq<char>>) -> Seq<Seq<char>>
    decreases ls.len(),
{
    if ls.len() == 0 {
        seq![]
    } else {
        all_line_paths(ls.drop_last()) + line_paths(ls.last())
    }
}

/// The dirty paths of `git status --porcelain`, each once.
pub open spec fn dirty_paths_of(porcelain: Seq<char>) -> Seq<Seq<char>> {
    distinct_names(all_line_paths(lines(porcelain)))
}

fn push_distinct(out: &mut Vec<String>, x: &Vec<char>)
    ensures
        final(out).deep_view() == (if old(out).deep_view().contains(x@) {
            old(out).deep_view()
        } else {
            old(out).deep_view().push(x@)
        }),
{
    if !has_text(out, x) {
        vec_push(out, string_of(x));
    }
}

/// The dirty paths named by `git status --porcelain` output.
#[verifier::spinoff_prover]
pub fn dirty_paths(porcelain: &str) -> (r: Vec<String>)
    ensures
        r.deep_view() == dirty_paths_of(porcelain@),
{
    let ls = lines_exec(&chars_of(porcelain));
    let ghost lv = views(ls@);
    let mut out: Vec<String> = Vec::new();
    let ghost mut flat: Seq<Seq<char>> = seq![];
    assert(out.deep_view() =~= distinct_names(flat));
    let mut i: usize = 0;
    while i < ls.len()
        invariant
            i <= ls.len(),
            lv == views(ls@),
            flat == all_line_paths(lv.take(i as int)),
            out.deep_view() == distinct_names(flat),
        decreases ls.len() - i,
    {
        let line = &ls[i];
        assert(lv[i as int] == line@);
        assert(lv.take(i + 1).drop_last() =~= lv.take(i as int));
        if line.len() >= 4 {
            let rest = trim_exec(&slice_of(line, 3, line.len()));
            assert(line@.skip(3) =~= line@.subrange(3, line@.len() as int));
            match split_once_pat_exec(&rest, " -> ") {
                Some((from, to)) => {
                    proof {
                        reveal_strlit(" -> ");
                    }
                    push_distinct(&mut out, &from);
                    assert(flat.push(from@).drop_last() =~= flat);
                    assert(out.deep_view() == distinct_names(flat.push(from@)));
                    proof {
                        assert(flat.push(from@).drop_last() =~= flat);
                        flat = flat.push(from@);
                    }
                    push_distinct(&mut out, &to);
                    assert(flat.push(to@).drop_last() =~= flat);
                    assert(out.deep_view() == distinct_names(flat.push(to@)));
                    proof {
                        assert(flat.push(to@).drop_last() =~= flat);
                        flat = flat.push(to@);
                    }
                },
                None => {
                    if rest.len() > 0 {
                        push_distinct(&mut out, &rest);
                        assert(flat.push(rest@).drop_last() =~= flat);
                    assert(out.deep_view() == distinct_names(flat.push(rest@)));
                        proof {
                            assert(flat.push(rest@).drop_last() =~= flat);
                            flat = flat.push(rest@);
                        }
                    }
                },
            }
        }
        proof {
            assert(flat =~= all_line_paths(lv.take(i + 1)));
        }
        i = i + 1;
    }
    assert(lv.take(lv.len() as int) =~= lv);
    out
}

/// Whether some porcelain line marks `path` untracked (`?? path`).
pub open spec fn is_untracked_in(ls: Seq<Seq<char>>, path: Seq<char>) -> bool {
    exists|k: int|
        0 <= k < ls.len() && (#[trigger] ls[k]).len() >= 3 && ls[k].take(2) == "??"@ && trim(
            ls[k].skip(3),
        ) == path
}

/// The delta paths (trimmed, non-empty) that are dirty.
pub open spec fn delta_conflicts(delta: Seq<Seq<char>>, dirty: Seq<Seq<char>>) -> Seq<Seq<char>>
    decreases delta.len(),
{
    if delta.len() == 0 {
        seq![]
    } else {
        let p = trim(delta.last());
        delta_conflicts(delta.drop_last(), dirty) + if p.len() > 0 && dirty.contains(p) {
            seq![p]
        } else {
            seq![]
        }
    }
}

/// The dirty untracked paths that exist at the target and are not already
/// conflicting.
pub open spec fn untracked_conflicts(
    dirty: Seq<Seq<char>>,
    tree: Seq<Seq<char>>,
    status: Seq<Seq<char>>,
    found: Seq<Seq<char>>,
) -> Seq<Seq<char>>
    decreases dirty.len(),
{
    if dirty.len() == 0 {
        seq![]
    } else {
        let prev = untracked_conflicts(dirty.drop_last(), tree, status, found);
        let p = dirty.last();
        if tree.contains(p) && p.len() > 0 && !(found + prev).contains(p) && is_untracked_in(
            status,
            p,
        ) {
            prev.push(p)
        } else {
            prev
        }
    }
}

/// Whether a checkout to a target would overwrite local work, from the
/// porcelain status, the paths that differ between HEAD and the target, and
/// the paths of the target's tree: dirty paths among the differing ones,
/// and dirty untracked paths present in the target, sorted, are the
/// conflict.
pub open spec fn checkout_conflicts_of(porcelain: Seq<char>, delta: Seq<char>, tree: Seq<char>) -> Result<
    (),
    GitErrorV,
> {
    let dirty = dirty_paths_of(porcelain);
    if trim(porcelain).len() == 0 || dirty.len() == 0 {
        Ok(())
    } else {
        let found = delta_conflicts(lines(delta), dirty);
        let all = found + untracked_conflicts(dirty, lines(tree), lines(porcelain), found);
        if all.len() == 0 {
            Ok(())
        } else {
            Err(
                GitErrorV::Conflict(
                    "local changes would be overwritten by checkout: "@ + join_comma(sorted_names(all)),
                ),
            )
        }
    }
}

/// The names joined by `, `.
pub open spec fn join_comma(s: Seq<Seq<char>>) -> Seq<char>
    decreases s.len(),
{
    if s.len() == 0 {
        seq![]
    } else if s.len() == 1 {
        s[0]
    } else {
        join_comma(s.drop_last()) + ", "@ + s.last()
    }
}

fn has_name(v: &Vec<Vec<char>>, x: &Vec<char>) -> (r: bool)
    ensures
        r == views(v@).contains(x@),
{
    let ghost vv = views(v@);
    let mut k: usize = 0;
    while k < v.len()
        invariant
            k <= v.len(),
            vv == views(v@),
            forall|j: int| 0 <= j < k ==> vv[j] != x@,
        decreases v.len() - k,
    {
        assert(vv[k as int] == v[k as int]@);
        if seq_eq(&v[k], x) {
            return true;
        }
        k = k + 1;
    }
    false
}

fn untracked_in(ls: &Vec<Vec<char>>, path: &Vec<char>) -> (r: bool)
    ensures
        r == is_untracked_in(views(ls@), path@),
{
    let ghost lv = views(ls@);
    proof {
        reveal_strlit("??");
    }
    let mut k: usize = 0;
    while k < ls.len()
        invariant
            k <= ls.len(),
            lv == views(ls@),
            "??"@ == seq!['?', '?'],
            forall|j: int|
                0 <= j < k ==> !((#[trigger] lv[j]).len() >= 3 && lv[j].take(2) == "??"@ && trim(
                    lv[j].skip(3),
                ) == path@),
        decreases ls.len() - k,
    {
        let l = &ls[k];
        assert(lv[k as int] == l@);
        if l.len() >= 3 && l[0] == '?' && l[1] == '?' {
            assert(l@.take(2) =~= seq!['?', '?']);
            let rest = trim_exec(&slice_of(l, 3, l.len()));
            assert(l@.skip(3) =~= l@.subrange(3, l@.len() as int));
            if seq_eq(&rest, path) {
                return true;
            }
        } else {
            proof {
                if l@.len() >= 3 && l@.take(2) == seq!['?', '?'] {
                    assert(l@.take(2)[0] == l@[0]);
                    assert(l@.take(2)[1] == l@[1]);
                }
            }
        }
        k = k + 1;
    }
    false
}

fn insert_name(out: &mut Vec<Vec<char>>, x: &Vec<char>)
    ensures
        views(final(out)@) == (if views(old(out)@).contains(x@) {
            views(old(out)@)
        } else {
            views(old(out)@).insert(name_pos(views(old(out)@), x@, 0), x@)
        }),
{
    if has_name(out, x) {
        return;
    }
    let ghost s = views(out@);
    let mut i: usize = 0;
    while i < out.len() && !lex_lt_exec(x, &out[i])
        invariant
            i <= out.len(),
            s == views(out@),
            name_pos(s, x@, 0) == name_pos(s, x@, i as int),
        decreases out.len() - i,
    {
        assert(s[i as int] == out[i as int]@);
        i = i + 1;
    }
    proof {
        if i < out.len() {
            assert(s[i as int] == out[i as int]@);
        }
    }
    let ghost before = out@;
    out.insert(i, crate::text::copy_chars(x));
    assert(views(out@) =~= s.insert(i as int, x@));
}

/// Checks whether switching to the target overwrites local work.
#[verifier::spinoff_prover]
pub fn checkout_conflicts(porcelain: &str, delta: &str, tree: &str) -> (r: Result<(), GitError>)
    ensures
        crate::dup::result_dv(r) == checkout_conflicts_of(porcelain@, delta@, tree@),
{
    let pv = chars_of(porcelain);
    let dirty = dirty_paths(porcelain);
    if trim_exec(&pv).len() == 0 || dirty.len() == 0 {
        return Ok(());
    }
    let ghost dv = dirty.deep_view();
    let mut dirty_v: Vec<Vec<char>> = Vec::new();
    let mut k: usize = 0;
    while k < dirty.len()
        invariant
            k <= dirty.len(),
            dv == dirty.deep_view(),
            views(dirty_v@) == dv.take(k as int),
        decreases dirty.len() - k,
    {
        assert(dv[k as int] == dirty[k as int]@);
        let ghost before = views(dirty_v@);
        dirty_v.push(chars_of(dirty[k].as_str()));
        assert(views(dirty_v@) =~= before.push(dv[k as int]));
        assert(views(dirty_v@) =~= dv.take(k + 1));
        k = k + 1;
    }
    assert(dv.take(dv.len() as int) =~= dv);
    let dl = lines_exec(&chars_of(delta));
    let ghost dlv = views(dl@);
    let mut found: Vec<Vec<char>> = Vec::new();
    let mut i: usize = 0;
    while i < dl.len()
        invariant
            i <= dl.len(),
            dlv == views(dl@),
            views(dirty_v@) == dv,
            views(found@) == delta_conflicts(dlv.take(i as int), dv),
        decreases dl.len() - i,
    {
        assert(dlv.take(i + 1).drop_last() =~= dlv.take(i as int));
        assert(dlv[i as int] == dl[i as int]@);
        let p = trim_exec(&dl[i]);
        let ghost before = views(found@);
        if p.len() > 0 && has_name(&dirty_v, &p) {
            found.push(p);
            assert(views(found@) =~= before + seq![p@]);
        } else {
            assert(views(found@) =~= before + Seq::<Seq<char>>::empty());
        }
        i = i + 1;
    }
    assert(dlv.take(dlv.len() as int) =~= dlv);
    let tl = lines_exec(&chars_of(tree));
    let sl = lines_exec(&pv);
    let ghost fv = views(found@);
    let mut all: Vec<Vec<char>> = found;
    let mut j: usize = 0;
    while j < dirty_v.len()
        invariant
            j <= dirty_v.len(),
            views(dirty_v@) == dv,
            fv == delta_conflicts(dlv, dv),
            views(all@) == fv + untracked_conflicts(dv.take(j as int), views(tl@), views(sl@), fv),
        decreases dirty_v.len() - j,
    {
        let p = &dirty_v[j];
        assert(dv[j as int] == p@);
        assert(dv.take(j + 1).drop_last() =~= dv.take(j as int));
        assert(dv.take(j + 1).last() == p@);
        let ghost prev = untracked_conflicts(dv.take(j as int), views(tl@), views(sl@), fv);
        let ghost before = views(all@);
        if has_name(&tl, p) && p.len() > 0 && !has_name(&all, p) && untracked_in(&sl, p) {
            all.push(crate::text::copy_chars(p));
            assert(views(all@) =~= before.push(p@));
            assert(before == fv + prev);
            assert(views(all@) =~= fv + prev.push(p@));
        }
        j = j + 1;
    }
    assert(dv.take(dv.len() as int) =~= dv);
    if all.len() == 0 {
        return Ok(());
    }
    let ghost av = views(all@);
    let mut sorted: Vec<Vec<char>> = Vec::new();
    let mut m: usize = 0;
    while m < all.len()
        invariant
            m <= all.len(),
            av == views(all@),
            views(sorted@) == sorted_names(av.take(m as int)),
        decreases all.len() - m,
    {
        assert(av.take(m + 1).drop_last() =~= av.take(m as int));
        assert(av[m as int] == all[m as int]@);
        insert_name(&mut sorted, &all[m]);
        m = m + 1;
    }
    assert(av.take(av.len() as int) =~= av);
    let ghost sv = views(sorted@);
    let mut msg: Vec<char> = Vec::new();
    push_str(&mut msg, "local changes would be overwritten by checkout: ");
    let ghost head = msg@;
    let mut q: usize = 0;
    while q < sorted.len()
        invariant
            q <= sorted.len(),
            sv == views(sorted@),
            msg@ == head + join_comma(sv.take(q as int)),
        decreases sorted.len() - q,
    {
        assert(sv.take(q + 1).drop_last() =~= sv.take(q as int));
        assert(sv[q as int] == sorted[q as int]@);
        if q > 0 {
            push_str(&mut msg, ", ");
        }
        push_all(&mut msg, &sorted[q]);
        proof {
            if q == 0 {
                assert(sv.take(1) =~= seq![sv[0]]);
            }
        }
        assert(msg@ =~= head + join_comma(sv.take(q + 1)));
        q = q + 1;
    }
    assert(sv.take(sv.len() as int) =~= sv);
    Err(GitError::Conflict(string_of(&msg)))
}

// ---------------------------------------------------------------------------
// Reflog, rev-list, cherry, merged
// ---------------------------------------------------------------------------
/// The branch a reflog `checkout: moving from A to B` summary moved to (the
/// text after its last ` to `, trimmed); none for other summaries, an empty
/// target or `HEAD`.
pub open spec fn checkout_branch_of(summary: Seq<char>) -> Option<Seq<char>> {
    if !starts_with(lower_ascii_seq(summary), "checkout: moving from "@) {
        None
    } else {
        let to = trim(
            match crate::text::rfind(summary, " to "@) {
                Some(i) => summary.skip(i + 4),
                None => summary,
            },
        );
        if to.len() == 0 || to == "HEAD"@ {
            None
        } else {
            Some(to)
        }
    }
}

fn checkout_branch(line: &Vec<char>) -> (r: Option<Vec<char>>)
    ensures
        r matches Some(v) ==> checkout_branch_of(line@) == Some(v@),
        r is None ==> checkout_branch_of(line@) is None,
{
    let lower = lower_ascii_exec(line);
    if !starts_with_str(&lower, "checkout: moving from ") {
        return None;
    }
    let pat = chars_of(" to ");
    proof {
        reveal_strlit(" to ");
    }
    let tail = match crate::text::rfind_exec(line, &pat) {
        Some(i) => {
            proof {
                crate::text::lemma_rfind_bounds(line@, pat@);
            }
            let n = line.len();
            assert(i + 4 <= n);
            let t = slice_of(line, i + 4, n);
            assert(t@ =~= line@.skip(i + 4));
            t
        },
        None => crate::text::copy_chars(line),
    };
    let to = trim_exec(&tail);
    if to.len() == 0 || text_eq(&to, "HEAD") {
        return None;
    }
    Some(to)
}

/// Adds the branch a reflog line moved to, unless absent or already listed.
pub open spec fn add_recent(acc: Seq<Seq<char>>, line: Seq<char>) -> Seq<Seq<char>> {
    match checkout_branch_of(line) {
        Some(name) => if acc.contains(name) {
            acc
        } else {
            acc.push(name)
        },
        None => acc,
    }
}

/// The names gathered from the first `n` lines, and whether the limit was
/// reached (reading stops there).
pub open spec fn recent_fold(ls: Seq<Seq<char>>, limit: nat, n: int) -> (Seq<Seq<char>>, bool)
    decreases n,
{
    if n <= 0 {
        (seq![], false)
    } else {
        let (acc, done) = recent_fold(ls, limit, n - 1);
        if done {
            (acc, true)
        } else {
            let next = add_recent(acc, ls[n - 1]);
            (next, next.len() >= limit)
        }
    }
}

/// Recent branch names from reflog summaries, most recent first, each once;
/// reading stops once `limit` names are gathered.
pub open spec fn recent_branches_of(out: Seq<char>, limit: nat) -> Seq<Seq<char>> {
    let ls = lines(out);
    recent_fold(ls, limit, ls.len() as int).0
}

fn has_text(v: &Vec<String>, x: &Vec<char>) -> (r: bool)
    ensures
        r == v.deep_view().contains(x@),
{
    let ghost vv = v.deep_view();
    let mut k: usize = 0;
    while k < v.len()
        invariant
            k <= v.len(),
            vv == v.deep_view(),
            forall|j: int| 0 <= j < k ==> vv[j] != x@,
        decreases v.len() - k,
    {
        assert(vv[k as int] == v[k as int]@);
        if seq_eq(&chars_of(v[k].as_str()), x) {
            return true;
        }
        k = k + 1;
    }
    false
}

/// Reads recent branch names from `git reflog --format=%gs` output.
#[verifier::spinoff_prover]
pub fn recent_branches(out: &str, limit: usize) -> (r: Vec<String>)
    ensures
        r.deep_view() == recent_branches_of(out@, limit as nat),
{
    let ls = lines_exec(&chars_of(out));
    let ghost lv = views(ls@);
    let mut recent: Vec<String> = Vec::new();
    let mut done = false;
    assert(recent.deep_view() =~= Seq::<Seq<char>>::empty());
    let mut i: usize = 0;
    while i < ls.len()
        invariant
            i <= ls.len(),
            lv == views(ls@),
            recent_fold(lv, limit as nat, i as int) == (recent.deep_view(), done),
        decreases ls.len() - i,
    {
        assert(lv[i as int] == ls[i as int]@);
        if !done {
            match checkout_branch(&ls[i]) {
                Some(name) => {
                    if !has_text(&recent, &name) {
                        vec_push(&mut recent, string_of(&name));
                    }
                },
                None => {},
            }
            done = recent.len() >= limit;
        }
        i = i + 1;
    }
    recent
}

/// Ahead and behind counts of `rev-list --left-right --count` output: its
/// first two words, 0 where missing or not a `u32`.
pub open spec fn ahead_behind_of(out: Seq<char>) -> (u32, u32) {
    let a = skip_ws(out, 0);
    let b = tok_end(out, a);
    let c = skip_ws(out, b);
    let d = tok_end(out, c);
    (
        match parse_unsigned(out.subrange(a, b), u32::MAX as nat) {
            Some(v) => v as u32,
            None => 0,
        },
        match parse_unsigned(out.subrange(c, d), u32::MAX as nat) {
            Some(v) => v as u32,
            None => 0,
        },
    )
}

/// Reads ahead/behind counts.
pub fn parse_ahead_behind(out: &str) -> (r: (u32, u32))
    ensures
        r == ahead_behind_of(out@),
{
    let v = chars_of(out);
    let a = skip_ws_exec(&v, 0);
    let b = tok_end_exec(&v, a);
    let c = skip_ws_exec(&v, b);
    let d = tok_end_exec(&v, c);
    let x = match parse_u32(&slice_of(&v, a, b)) {
        Some(n) => n,
        None => 0,
    };
    let y = match parse_u32(&slice_of(&v, c, d)) {
        Some(n) => n,
        None => 0,
    };
    (x, y)
}

/// Whether `git cherry` output says every commit of the branch has an
/// equivalent on the base: some non-blank line, and none starting with `+`.
pub open spec fn squash_merged_of(out: Seq<char>) -> bool {
    let ls = lines(out).map_values(|l: Seq<char>| trim(l));
    (exists|k: int| 0 <= k < ls.len() && (#[trigger] ls[k]).len() > 0) && !(exists|k: int|
        0 <= k < ls.len() && (#[trigger] ls[k]).len() > 0 && ls[k][0] == '+')
}

/// Reads `git cherry <base> <branch>` output.
pub fn parse_squash_merged(out: &str) -> (r: bool)
    ensures
        r == squash_merged_of(out@),
{
    let ls = lines_exec(&chars_of(out));
    let ghost tv = lines(out@).map_values(|l: Seq<char>| trim(l));
    let mut saw = false;
    let mut i: usize = 0;
    while i < ls.len()
        invariant
            i <= ls.len(),
            views(ls@) == lines(out@),
            tv == lines(out@).map_values(|l: Seq<char>| trim(l)),
            saw == (exists|k: int| 0 <= k < i && (#[trigger] tv[k]).len() > 0),
            forall|k: int| 0 <= k < i ==> !((#[trigger] tv[k]).len() > 0 && tv[k][0] == '+'),
        decreases ls.len() - i,
    {
        assert(views(ls@)[i as int] == ls[i as int]@);
        let t = trim_exec(&ls[i]);
        assert(tv[i as int] == t@);
        if t.len() > 0 {
            saw = true;
            if t[0] == '+' {
                return false;
            }
        }
        i = i + 1;
    }
    saw
}

pub open spec fn merged_upto(ls: Seq<Seq<char>>, base: Seq<char>, n: int) -> Seq<Seq<char>>
    decreases n,
{
    if n <= 0 {
        seq![]
    } else {
        let t = trim(ls[n - 1]);
        if t.len() > 0 && t != base {
            merged_upto(ls, base, n - 1).push(t)
        } else {
            merged_upto(ls, base, n - 1)
        }
    }
}

/// The branch names of `git branch --merged` output, trimmed, without blank
/// lines and without the base itself.
pub open spec fn merged_names_of(out: Seq<char>, base: Seq<char>) -> Seq<Seq<char>> {
    let ls = lines(out);
    merged_upto(ls, base, ls.len() as int)
}

/// Reads `git branch --merged <base>` output.
pub fn parse_merged(out: &str, base: &str) -> (r: Vec<String>)
    ensures
        r.deep_view() == merged_names_of(out@, base@),
{
    let ls = lines_exec(&chars_of(out));
    let ghost lv = views(ls@);
    let bv = chars_of(base);
    let mut names: Vec<String> = Vec::new();
    assert(names.deep_view() =~= merged_upto(lv, base@, 0));
    let mut i: usize = 0;
    while i < ls.len()
        invariant
            i <= ls.len(),
            lv == views(ls@),
            bv@ == base@,
            names.deep_view() == merged_upto(lv, base@, i as int),
        decreases ls.len() - i,
    {
        assert(lv[i as int] == ls[i as int]@);
        let t = trim_exec(&ls[i]);
        if t.len() > 0 && !seq_eq(&t, &bv) {
            vec_push(&mut names, string_of(&t));
        }
        i = i + 1;
    }
    names
}

// ---------------------------------------------------------------------------
// HEAD and delete
// ---------------------------------------------------------------------------
/// HEAD from `rev-parse HEAD` and `symbolic-ref --short HEAD`: on a branch
/// when the latter names one, else detached.
pub open spec fn head_of(oid: Seq<char>, symbolic: Option<Seq<char>>) -> (Option<Seq<char>>, Seq<char>, bool) {
    match symbolic {
        Some(b) => if b.len() > 0 {
            (Some(b), oid, false)
        } else {
            (None, oid, true)
        },
        None => (None, oid, true),
    }
}

/// HEAD from the object id and the symbolic ref (none when it failed).
pub fn read_head(oid: String, symbolic: Option<String>) -> (r: Head)
    ensures
        (r.branch.deep_view(), r.oid.deep_view()->0, r.detached) == head_of(oid@, symbolic.deep_view()),
        r.oid is Some,
{
    match symbolic {
        Some(b) => if !crate::text::is_empty_str(b.as_str()) {
            Head { branch: Some(b), oid: Some(oid), detached: false }
        } else {
            Head { branch: None, oid: Some(oid), detached: true }
        },
        None => Head { branch: None, oid: Some(oid), detached: true },
    }
}

/// The branch to delete: a valid name that is not the current branch.
pub open spec fn delete_target_of(name: Seq<char>, current: Option<Seq<char>>) -> Result<Seq<char>, GitErrorV> {
    match validate_branch_name_of(name) {
        Err(e) => Err(e),
        Ok(n) => if current == Some(n) {
            Err(GitErrorV::Backend("cannot delete the branch currently checked out"@))
        } else {
            Ok(n)
        },
    }
}

/// The `git branch` flag for a delete: `-D` when forced, else `-d`.
pub fn delete_flag(force: bool) -> (r: &'static str)
    ensures
        r@ == (if force { "-D"@ } else { "-d"@ }),
{
    if force {
        "-D"
    } else {
        "-d"
    }
}

/// Checks a delete: the name must be valid and not the branch HEAD is on.
pub fn delete_target(name: &str, current: Option<&str>) -> (r: Result<String, GitError>)
    ensures
        crate::dup::result_dv(r) == delete_target_of(
            name@,
            match current {
                Some(c) => Some(c@),
                None => None,
            },
        ),
{
    let n = match validate_branch_name(name) {
        Ok(n) => n,
        Err(e) => return Err(e),
    };
    match current {
        Some(c) => if crate::text::str_eq(c, n.as_str()) {
            return Err(
                GitError::Backend(string_of(&chars_of("cannot delete the branch currently checked out"))),
            );
        },
        None => {},
    }
    Ok(n)
}

} // verus!
