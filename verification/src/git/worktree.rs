//! Worktree paths and the parsing of `git worktree list --porcelain`.
//!
//! Paths are `/`-separated text read as `Path` reads them at their end:
//! trailing separators and `.` segments are skipped (a lone root and a
//! leading `.` stay), the last segment is the file name and what comes
//! before it, so trimmed, is the parent.
use vstd::prelude::*;

use crate::dup::vec_push;
use crate::git::error::{GitError, GitErrorV};
use crate::git::service::{WorktreeRef, WorktreeRefV};
use crate::path::{same_path, same_path_exec};
use crate::text::{
    chars_of, lines, lines_exec, push_all, push_str, rfind, rfind_exec, seq_eq, slice_of,
    starts_with, starts_with_str, string_of, views,
};
#[allow(unused_imports)]
use vstd::view::View as _;

verus! {

pub open spec fn slash() -> Seq<char> {
    seq!['/']
}

/// `p` without trailing separators and trailing `.` segments; a lone root
/// and a leading `.` stay.
pub open spec fn trim_tail(p: Seq<char>) -> Seq<char>
    decreases p.len(),
{
    if p.len() > 1 && p.last() == '/' {
        trim_tail(p.drop_last())
    } else if p.len() >= 2 && p.last() == '.' && p[p.len() - 2] == '/' {
        trim_tail(p.drop_last())
    } else {
        p
    }
}

/// The last component of `p` when it is a name: none for empty text, the
/// root, `.` and `..`.
pub open spec fn file_name_of(p: Seq<char>) -> Option<Seq<char>> {
    let t = trim_tail(p);
    let seg = match rfind(t, slash()) {
        Some(i) => t.skip(i + 1),
        None => t,
    };
    if seg.len() == 0 || seg == seq!['.', '.'] || seg == seq!['.'] {
        None
    } else {
        Some(seg)
    }
}

/// Everything before the last component of `p`, trimmed the same way (the
/// root for a top-level entry, empty text for a single component); none for
/// the root or empty text.
pub open spec fn parent_of(p: Seq<char>) -> Option<Seq<char>> {
    let t = trim_tail(p);
    if t.len() == 0 || t == slash() {
        None
    } else {
        match rfind(t, slash()) {
            Some(i) => Some(trim_tail(t.take(i + 1))),
            None => Some(Seq::empty()),
        }
    }
}

/// `b` below `a`; an absolute `b` stands alone.
pub open spec fn join_path(a: Seq<char>, b: Seq<char>) -> Seq<char> {
    if b.len() > 0 && b[0] == '/' {
        b
    } else if a.len() == 0 {
        b
    } else if a.last() == '/' {
        a + b
    } else {
        a + slash() + b
    }
}

/// A branch name as one path segment: separators become `-`.
pub open spec fn path_safe(branch: Seq<char>) -> Seq<char> {
    branch.map_values(|c: char| if c == '/' || c == '\\' { '-' } else { c })
}

/// `<repo-parent>/<repo-name>-worktrees/<branch with separators as dashes>`.
pub open spec fn default_worktree_path_of(repo: Seq<char>, branch: Seq<char>) -> Seq<char> {
    let name = match file_name_of(repo) {
        Some(n) => n,
        None => seq!['r', 'e', 'p', 'o'],
    };
    let parent = match parent_of(repo) {
        Some(p) => p,
        None => repo,
    };
    join_path(
        join_path(parent, name + seq!['-', 'w', 'o', 'r', 'k', 't', 'r', 'e', 'e', 's']),
        path_safe(branch),
    )
}

fn trim_tail_exec(p: &Vec<char>) -> (r: Vec<char>)
    ensures
        r@ == trim_tail(p@),
{
    let mut n: usize = p.len();
    assert(p@.take(n as int) =~= p@);
    while (n > 1 && p[n - 1] == '/') || (n >= 2 && p[n - 1] == '.' && p[n - 2] == '/')
        invariant
            n <= p.len(),
            trim_tail(p@.take(n as int)) == trim_tail(p@),
        decreases n,
    {
        assert(p@.take(n as int).drop_last() =~= p@.take(n - 1));
        n = n - 1;
    }
    slice_of(p, 0, n)
}

pub(crate) fn file_name_exec(p: &Vec<char>) -> (r: Option<Vec<char>>)
    ensures
        r matches Some(v) ==> file_name_of(p@) == Some(v@),
        r is None ==> file_name_of(p@) is None,
{
    let sl = chars_of("/");
    proof {
        reveal_strlit("/");
    }
    assert(sl@ =~= slash());
    let t = trim_tail_exec(p);
    let seg = match rfind_exec(&t, &sl) {
        Some(i) => {
            proof {
                crate::text::lemma_rfind_bounds(t@, sl@);
                assert(crate::text::match_at(t@, sl@, i as int));
                assert(sl@.len() == 1);
            }
            let n = t.len();
            assert(i + 1 <= n);
            slice_of(&t, i + 1, n)
        },
        None => slice_of(&t, 0, t.len()),
    };
    assert(t@.subrange(0, t.len() as int) =~= t@);
    proof {
        if rfind(t@, slash()) is Some {
            assert(t@.skip(rfind(t@, slash())->0 + 1) =~= seg@);
        }
    }
    let dotdot = seg.len() == 2 && seg[0] == '.' && seg[1] == '.';
    let dot = seg.len() == 1 && seg[0] == '.';
    proof {
        if dotdot {
            assert(seg@ =~= seq!['.', '.']);
        }
        if dot {
            assert(seg@ =~= seq!['.']);
        }
        if seg@ == seq!['.', '.'] {
            assert(seg[0] == '.' && seg[1] == '.');
        }
        if seg@ == seq!['.'] {
            assert(seg[0] == '.');
        }
    }
    if seg.len() == 0 || dotdot || dot {
        None
    } else {
        Some(seg)
    }
}

pub(crate) fn parent_exec(p: &Vec<char>) -> (r: Option<Vec<char>>)
    ensures
        r matches Some(v) ==> parent_of(p@) == Some(v@),
        r is None ==> parent_of(p@) is None,
{
    let sl = chars_of("/");
    proof {
        reveal_strlit("/");
    }
    assert(sl@ =~= slash());
    let t = trim_tail_exec(p);
    if t.len() == 0 {
        return None;
    }
    if t.len() == 1 && t[0] == '/' {
        assert(t@ =~= slash());
        return None;
    }
    proof {
        if t@ == slash() {
            assert(t[0] == '/');
        }
    }
    match rfind_exec(&t, &sl) {
        Some(i) => {
            proof {
                crate::text::lemma_rfind_bounds(t@, sl@);
                assert(crate::text::match_at(t@, sl@, i as int));
            }
            let n = t.len();
            assert(i + 1 <= n);
            let head = slice_of(&t, 0, i + 1);
            assert(head@ =~= t@.take(i + 1));
            Some(trim_tail_exec(&head))
        },
        None => Some(Vec::new()),
    }
}

fn join_exec(a: &Vec<char>, b: &Vec<char>) -> (r: Vec<char>)
    ensures
        r@ == join_path(a@, b@),
{
    if b.len() > 0 && b[0] == '/' {
        slice_of(b, 0, b.len())
    } else if a.len() == 0 {
        slice_of(b, 0, b.len())
    } else if a[a.len() - 1] == '/' {
        let mut r = slice_of(a, 0, a.len());
        push_all(&mut r, b);
        r
    } else {
        let mut r = slice_of(a, 0, a.len());
        r.push('/');
        push_all(&mut r, b);
        assert(r@ =~= a@ + slash() + b@);
        r
    }
}

/// Default worktree path for `branch` beside the repository at `repo`.
#[verifier::spinoff_prover]
#[verifier::rlimit(50)]
pub fn default_worktree_path(repo: &str, branch: &str) -> (r: String)
    ensures
        r@ == default_worktree_path_of(repo@, branch@),
{
    let rv = chars_of(repo);
    let name = match file_name_exec(&rv) {
        Some(n) => n,
        None => chars_of("repo"),
    };
    proof {
        reveal_strlit("repo");
        reveal_strlit("-worktrees");
    }
    let parent = match parent_exec(&rv) {
        Some(p) => p,
        None => slice_of(&rv, 0, rv.len()),
    };
    assert(rv@.subrange(0, rv.len() as int) =~= rv@);
    let mut dir_name = slice_of(&name, 0, name.len());
    push_str(&mut dir_name, "-worktrees");
    assert(name@.subrange(0, name.len() as int) =~= name@);
    let bv = chars_of(branch);
    let mut safe: Vec<char> = Vec::new();
    let mut i: usize = 0;
    while i < bv.len()
        invariant
            i <= bv.len(),
            safe@ =~= path_safe(bv@).take(i as int),
        decreases bv.len() - i,
    {
        let c = bv[i];
        if c == '/' || c == '\\' {
            safe.push('-');
        } else {
            safe.push(c);
        }
        i = i + 1;
    }
    assert(safe@ =~= path_safe(bv@));
    let dir = join_exec(&parent, &dir_name);
    let full = join_exec(&dir, &safe);
    string_of(&full)
}


// ---------------------------------------------------------------------------
// `git worktree list --porcelain`
// ---------------------------------------------------------------------------
/// A listed worktree before its primary flag is known: its path and branch.
#[derive(Debug, Clone, PartialEq, Eq)]
pub struct WorktreeRecord {
    pub path: String,
    pub branch: Option<String>,
}

pub struct WorktreeRecordV {
    pub path: Seq<char>,
    pub branch: Option<Seq<char>>,
}

impl DeepView for WorktreeRecord {
    type V = WorktreeRecordV;

    open spec fn deep_view(&self) -> WorktreeRecordV {
        WorktreeRecordV { path: self.path@, branch: self.branch.deep_view() }
    }
}

/// The reading so far: finished records, the open path and branch.
pub struct PorcelainList {
    pub records: Seq<WorktreeRecordV>,
    pub path: Option<Seq<char>>,
    pub branch: Option<Seq<char>>,
}

/// Closes the open record, if a path is open.
pub open spec fn flush_record(st: PorcelainList) -> PorcelainList {
    match st.path {
        Some(p) => PorcelainList {
            records: st.records.push(WorktreeRecordV { path: p, branch: st.branch }),
            path: None,
            branch: None,
        },
        None => st,
    }
}

/// One porcelain line: a blank line closes a record, `worktree <path>` opens
/// one, `branch <ref>` names its branch (without `refs/heads/`), `detached`
/// clears it.
pub open spec fn worktree_step(st: PorcelainList, line: Seq<char>) -> PorcelainList {
    if line.len() == 0 {
        flush_record(st)
    } else if starts_with(line, "worktree "@) {
        PorcelainList { path: Some(line.skip(9)), ..flush_record(st) }
    } else if starts_with(line, "branch "@) {
        let rest = line.skip(7);
        PorcelainList {
            branch: Some(
                if starts_with(rest, "refs/heads/"@) {
                    rest.skip(11)
                } else {
                    rest
                },
            ),
            ..st
        }
    } else if line == "detached"@ {
        PorcelainList { branch: None, ..st }
    } else {
        st
    }
}

pub open spec fn worktree_run(ls: Seq<Seq<char>>, n: int) -> PorcelainList
    decreases n,
{
    if n <= 0 {
        PorcelainList { records: seq![], path: None, branch: None }
    } else {
        worktree_step(worktree_run(ls, n - 1), ls[n - 1])
    }
}

/// The worktrees listed by `git worktree list --porcelain`, in order.
pub open spec fn worktree_records_of(out: Seq<char>) -> Seq<WorktreeRecordV> {
    let ls = lines(out);
    flush_record(worktree_run(ls, ls.len() as int)).records
}

/// Reads the records of `git worktree list --porcelain` output.
#[verifier::spinoff_prover]
pub fn parse_worktree_porcelain(out: &str) -> (r: Vec<WorktreeRecord>)
    ensures
        r.deep_view() == worktree_records_of(out@),
{
    let text = chars_of(out);
    let ls = lines_exec(&text);
    let ghost lv = views(ls@);
    let mut records: Vec<WorktreeRecord> = Vec::new();
    let mut path: Option<Vec<char>> = None;
    let mut branch: Option<Vec<char>> = None;
    assert(records.deep_view() =~= Seq::<WorktreeRecordV>::empty());
    let mut i: usize = 0;
    let detached = chars_of("detached");
    while i < ls.len()
        invariant
            i <= ls.len(),
            lv == views(ls@),
            detached@ == "detached"@,
            records.deep_view() == worktree_run(lv, i as int).records,
            (match path {
                Some(p) => Some(p@),
                None => None,
            }) == worktree_run(lv, i as int).path,
            (match branch {
                Some(b) => Some(b@),
                None => None,
            }) == worktree_run(lv, i as int).branch,
        decreases ls.len() - i,
    {
        let line = &ls[i];
        assert(lv[i as int] == line@);
        let is_open = line.len() == 0 || starts_with_str(line, "worktree ");
        if is_open {
            match path {
                Some(p) => {
                    let rec = WorktreeRecord {
                        path: string_of(&p),
                        branch: match branch {
                            Some(b) => Some(string_of(&b)),
                            None => None,
                        },
                    };
                    vec_push(&mut records, rec);
                    branch = None;
                },
                None => {},
            }
            path = None;
            if line.len() > 0 {
                proof {
                    reveal_strlit("worktree ");
                }
                path = Some(slice_of(line, 9, line.len()));
            }
        } else if starts_with_str(line, "branch ") {
            proof {
                reveal_strlit("branch ");
                reveal_strlit("refs/heads/");
            }
            let rest = slice_of(line, 7, line.len());
            if starts_with_str(&rest, "refs/heads/") {
                branch = Some(slice_of(&rest, 11, rest.len()));
            } else {
                branch = Some(rest);
            }
        } else if seq_eq(line, &detached) {
            branch = None;
        }
        i = i + 1;
    }
    match path {
        Some(p) => {
            let rec = WorktreeRecord {
                path: string_of(&p),
                branch: match branch {
                    Some(b) => Some(string_of(&b)),
                    None => None,
                },
            };
            vec_push(&mut records, rec);
        },
        None => {},
    }
    records
}

/// Which listed worktrees are primary. With the repository's canonical
/// path known, those whose canonical path equals it (the first one when
/// none does); otherwise the first, and any whose canonical (else listed)
/// path is, by components, the repository path as given.
pub open spec fn primary_flags(
    records: Seq<WorktreeRecordV>,
    canonical: Seq<Option<Seq<char>>>,
    hint: Seq<char>,
    hint_canonical: Option<Seq<char>>,
) -> Seq<bool> {
    match hint_canonical {
        Some(h) => {
            let flags = Seq::new(records.len(), |i: int| canonical[i] == Some(h));
            if records.len() > 0 && !flags.contains(true) {
                flags.update(0, true)
            } else {
                flags
            }
        },
        None => Seq::new(
            records.len(),
            |i: int|
                i == 0 || same_path(
                    match canonical[i] {
                        Some(c) => c,
                        None => records[i].path,
                    },
                    hint,
                ),
        ),
    }
}

/// The worktree list of porcelain records, given each record's canonical
/// path (none where it could not be resolved) and the repository path with
/// its canonical form.
#[verifier::spinoff_prover]
pub fn mark_primary(
    records: Vec<WorktreeRecord>,
    canonical: &Vec<Option<String>>,
    hint: &str,
    hint_canonical: Option<String>,
) -> (r: Vec<WorktreeRef>)
    requires
        canonical.len() == records.len(),
    ensures
        r.len() == records.len(),
        forall|i: int|
            0 <= i < r.len() ==> #[trigger] r.deep_view()[i] == (WorktreeRefV {
                path: records.deep_view()[i].path,
                branch: records.deep_view()[i].branch,
                is_primary: primary_flags(
                    records.deep_view(),
                    canonical.deep_view(),
                    hint@,
                    hint_canonical.deep_view(),
                )[i],
            }),
{
    let ghost rv = records.deep_view();
    let ghost cv = canonical.deep_view();
    let ghost flags = primary_flags(rv, cv, hint@, hint_canonical.deep_view());
    let mut out: Vec<WorktreeRef> = Vec::new();
    let mut any = false;
    let mut i: usize = 0;
    let hv = chars_of(hint);
    while i < records.len()
        invariant
            i <= records.len(),
            records.len() == canonical.len(),
            rv == records.deep_view(),
            cv == canonical.deep_view(),
            hv@ == hint@,
            out.len() == i,
            any == (exists|k: int| 0 <= k < i && #[trigger] cv[k] == hint_canonical.deep_view() && hint_canonical is Some),
            forall|k: int|
                0 <= k < i ==> #[trigger] out.deep_view()[k] == (WorktreeRefV {
                    path: rv[k].path,
                    branch: rv[k].branch,
                    is_primary: match hint_canonical.deep_view() {
                        Some(h) => cv[k] == Some(h),
                        None => k == 0 || same_path(
                            match cv[k] {
                                Some(c) => c,
                                None => rv[k].path,
                            },
                            hint@,
                        ),
                    },
                }),
        decreases records.len() - i,
    {
        let rec = &records[i];
        let own: &str = match &canonical[i] {
            Some(c) => c.as_str(),
            None => rec.path.as_str(),
        };
        let primary = match &hint_canonical {
            Some(h) => match &canonical[i] {
                Some(c) => crate::text::str_eq(c.as_str(), h.as_str()),
                None => false,
            },
            None => i == 0 || same_path_exec(own, hint),
        };
        assert(cv[i as int] == canonical[i as int].deep_view());
        assert(rv[i as int] == records[i as int].deep_view());
        if hint_canonical.is_some() && primary {
            any = true;
            assert(cv[i as int] == hint_canonical.deep_view());
        }
        let wr = WorktreeRef {
            path: rec.path.clone(),
            branch: match &rec.branch {
                Some(b) => Some(b.clone()),
                None => None,
            },
            is_primary: primary,
        };
        let ghost before = out.deep_view();
        out.push(wr);
        assert(out.deep_view() =~= before.push(wr.deep_view()));
        i = i + 1;
    }
    if hint_canonical.is_some() && !any && out.len() > 0 {
        let ghost before = out.deep_view();
        let first = WorktreeRef {
            path: out[0].path.clone(),
            branch: match &out[0].branch {
                Some(b) => Some(b.clone()),
                None => None,
            },
            is_primary: true,
        };
        out.set(0, first);
        assert(out.deep_view() =~= before.update(0, first.deep_view()));
    }
    proof {
        match hint_canonical.deep_view() {
            Some(h) => {
                let fl = Seq::new(rv.len(), |k: int| cv[k] == Some(h));
                assert(fl.contains(true) <==> any) by {
                    if fl.contains(true) {
                        let k = choose|k: int| 0 <= k < fl.len() && fl[k] == true;
                        assert(cv[k] == hint_canonical.deep_view());
                    }
                    if any {
                        let k = choose|k: int| 0 <= k < rv.len() && #[trigger] cv[k] == hint_canonical.deep_view() && hint_canonical is Some;
                        assert(fl[k]);
                    }
                }
            },
            None => {},
        }
    }
    out
}


// ---------------------------------------------------------------------------
// Create and remove
// ---------------------------------------------------------------------------
pub open spec fn checked_out_in(trees: Seq<WorktreeRefV>, branch: Seq<char>) -> bool {
    exists|k: int| 0 <= k < trees.len() && (#[trigger] trees[k]).branch == Some(branch)
}

/// The branch a new worktree gets: the trimmed name; an error when it is
/// empty, when the target path exists, or when another worktree has the
/// branch checked out.
pub open spec fn worktree_create_check_of(
    branch: Seq<char>,
    path: Seq<char>,
    path_exists: bool,
    trees: Seq<WorktreeRefV>,
) -> Result<Seq<char>, GitErrorV> {
    let t = crate::text::trim(branch);
    if t.len() == 0 {
        Err(GitErrorV::Backend("branch name is empty"@))
    } else if path_exists {
        Err(GitErrorV::Backend("worktree path already exists: "@ + path))
    } else if checked_out_in(trees, t) {
        Err(GitErrorV::Backend("branch '"@ + t + "' is already checked out in another worktree"@))
    } else {
        Ok(t)
    }
}

fn has_branch_tree(trees: &Vec<WorktreeRef>, b: &Vec<char>) -> (r: bool)
    ensures
        r == checked_out_in(trees.deep_view(), b@),
{
    let ghost v = trees.deep_view();
    let mut k: usize = 0;
    while k < trees.len()
        invariant
            k <= trees.len(),
            v == trees.deep_view(),
            forall|j: int| 0 <= j < k ==> (#[trigger] v[j]).branch != Some(b@),
        decreases trees.len() - k,
    {
        assert(v[k as int] == trees[k as int].deep_view());
        match &trees[k].branch {
            Some(x) => {
                if seq_eq(&chars_of(x.as_str()), b) {
                    return true;
                }
            },
            None => {},
        }
        k = k + 1;
    }
    false
}

/// Checks a worktree creation for `branch` at `path` (whether the path
/// exists, and the worktrees listed, come from outside).
pub fn worktree_create_check(branch: &str, path: &str, path_exists: bool, trees: &Vec<WorktreeRef>) -> (r:
    Result<String, GitError>)
    ensures
        crate::dup::result_dv(r) == worktree_create_check_of(branch@, path@, path_exists, trees.deep_view()),
{
    let t = crate::text::trim_exec(&chars_of(branch));
    if t.len() == 0 {
        return Err(GitError::Backend(string_of(&chars_of("branch name is empty"))));
    }
    if path_exists {
        let mut msg: Vec<char> = Vec::new();
        push_str(&mut msg, "worktree path already exists: ");
        push_str(&mut msg, path);
        return Err(GitError::Backend(string_of(&msg)));
    }
    if has_branch_tree(trees, &t) {
        let mut msg: Vec<char> = Vec::new();
        push_str(&mut msg, "branch '");
        push_all(&mut msg, &t);
        push_str(&mut msg, "' is already checked out in another worktree");
        return Err(GitError::Backend(string_of(&msg)));
    }
    Ok(string_of(&t))
}

/// Whether a listed worktree is the one just created: same path, same
/// canonical path, or the branch it was created for.
pub open spec fn is_created(w: WorktreeRefV, w_canonical: Option<Seq<char>>, path: Seq<char>, canonical: Seq<char>, branch: Seq<char>) -> bool {
    same_path(w.path, path) || (match w_canonical {
        Some(c) => same_path(c, canonical),
        None => false,
    }) || w.branch == Some(branch)
}

pub open spec fn created_from(
    trees: Seq<WorktreeRefV>,
    canon: Seq<Option<Seq<char>>>,
    path: Seq<char>,
    canonical: Seq<char>,
    branch: Seq<char>,
    i: int,
) -> Option<int>
    decreases trees.len() - i,
{
    if i < 0 || i >= trees.len() {
        None
    } else if is_created(trees[i], canon[i], path, canonical, branch) {
        Some(i)
    } else {
        created_from(trees, canon, path, canonical, branch, i + 1)
    }
}

/// Finds the worktree just created among those listed after creation (with
/// their canonical paths, and the canonical form of the requested path).
pub fn find_created(
    trees: &Vec<WorktreeRef>,
    canon: &Vec<Option<String>>,
    path: &str,
    canonical: &str,
    branch: &str,
) -> (r: Result<usize, GitError>)
    requires
        canon.len() == trees.len(),
    ensures
        match created_from(trees.deep_view(), canon.deep_view(), path@, canonical@, branch@, 0) {
            Some(k) => r == Ok::<usize, GitError>(k as usize),
            None => r matches Err(e) && e.deep_view() == GitErrorV::Backend("worktree created but not listed"@),
        },
{
    let ghost v = trees.deep_view();
    let ghost cv = canon.deep_view();
    let pv = chars_of(path);
    let kv = chars_of(canonical);
    let bv = chars_of(branch);
    let mut i: usize = 0;
    while i < trees.len()
        invariant
            i <= trees.len(),
            canon.len() == trees.len(),
            v == trees.deep_view(),
            cv == canon.deep_view(),
            pv@ == path@,
            kv@ == canonical@,
            bv@ == branch@,
            created_from(v, cv, path@, canonical@, branch@, 0) == created_from(v, cv, path@, canonical@, branch@, i as int),
        decreases trees.len() - i,
    {
        assert(v[i as int] == trees[i as int].deep_view());
        assert(cv[i as int] == canon[i as int].deep_view());
        let w = &trees[i];
        let same_listed = same_path_exec(w.path.as_str(), path);
        let same_canon = match &canon[i] {
            Some(c) => same_path_exec(c.as_str(), canonical),
            None => false,
        };
        let same_branch = match &w.branch {
            Some(b) => seq_eq(&chars_of(b.as_str()), &bv),
            None => false,
        };
        if same_listed || same_canon || same_branch {
            return Ok(i);
        }
        i = i + 1;
    }
    Err(GitError::Backend(string_of(&chars_of("worktree created but not listed"))))
}

pub open spec fn tree_at(trees: Seq<WorktreeRefV>, path: Seq<char>, i: int) -> Option<int>
    decreases trees.len() - i,
{
    if i < 0 || i >= trees.len() {
        None
    } else if same_path(trees[i].path, path) {
        Some(i)
    } else {
        tree_at(trees, path, i + 1)
    }
}

/// Whether the worktree at `path` may be removed: it must be listed (its
/// path compared by components) and not be the primary one.
pub open spec fn worktree_remove_check_of(trees: Seq<WorktreeRefV>, path: Seq<char>) -> Result<(), GitErrorV> {
    match tree_at(trees, path, 0) {
        None => Err(GitErrorV::Backend("worktree not found: "@ + path)),
        Some(k) => if trees[k].is_primary {
            Err(GitErrorV::Backend("cannot remove the primary worktree"@))
        } else {
            Ok(())
        },
    }
}

/// Checks a worktree removal against the listed worktrees.
pub fn worktree_remove_check(trees: &Vec<WorktreeRef>, path: &str) -> (r: Result<(), GitError>)
    ensures
        crate::dup::result_dv(r) == worktree_remove_check_of(trees.deep_view(), path@),
{
    let ghost v = trees.deep_view();
    let pv = chars_of(path);
    let mut i: usize = 0;
    while i < trees.len()
        invariant
            i <= trees.len(),
            v == trees.deep_view(),
            pv@ == path@,
            tree_at(v, path@, 0) == tree_at(v, path@, i as int),
        decreases trees.len() - i,
    {
        assert(v[i as int] == trees[i as int].deep_view());
        if same_path_exec(trees[i].path.as_str(), path) {
            if trees[i].is_primary {
                return Err(GitError::Backend(string_of(&chars_of("cannot remove the primary worktree"))));
            }
            return Ok(());
        }
        i = i + 1;
    }
    let mut msg: Vec<char> = Vec::new();
    push_str(&mut msg, "worktree not found: ");
    push_str(&mut msg, path);
    Err(GitError::Backend(string_of(&msg)))
}

} // verus!
