//! Issue and pull-request references in commit messages and branch names:
//! `#123`, `GH-123`, and host issue / pull-request URLs.
use vstd::prelude::*;

use crate::dup::{vec_push, Dup};
use crate::git::remote_link::{RemoteWeb, RemoteWebV, WebHostKind};
use crate::text::{
    char_is_alnum, char_is_digit, chars_of, decimal, decimal_exec, find_from, find_from_exec,
    is_alnum, is_digit, lower_ascii_exec, lower_ascii_seq, parse_u32, parse_unsigned, push_all,
    push_str, rfind, rfind_exec, slice_of, string_of,
};
#[allow(unused_imports)]
use vstd::view::View as _;

verus! {

/// Kind of tracked reference.
#[derive(Debug, Clone, Copy, PartialEq, Eq, Hash, Structural)]
pub enum IssueKind {
    Issue,
    PullRequest,
}

/// A detected issue or pull-request reference.
#[derive(Debug, Clone, PartialEq, Eq, Hash)]
pub struct IssueRef {
    pub kind: IssueKind,
    pub number: u32,
    pub raw: String,
}

pub struct IssueRefV {
    pub kind: IssueKind,
    pub number: u32,
    pub raw: Seq<char>,
}

impl DeepView for IssueRef {
    type V = IssueRefV;

    open spec fn deep_view(&self) -> IssueRefV {
        IssueRefV { kind: self.kind, number: self.number, raw: self.raw@ }
    }
}

impl Dup for IssueRef {
    fn dup(&self) -> (r: IssueRef) {
        IssueRef { kind: self.kind, number: self.number, raw: self.raw.clone() }
    }
}

// ---------------------------------------------------------------------------
// Numbers
// ---------------------------------------------------------------------------
/// The index of the first non-digit of `s` at or after `i`.
pub open spec fn digit_end(s: Seq<char>, i: int) -> int
    decreases s.len() - i,
{
    if i < 0 || i >= s.len() || !is_digit(s[i]) {
        i
    } else {
        digit_end(s, i + 1)
    }
}

/// The `u32` whose digits start at `i`, with the index just past them; none
/// without a digit there or when the value does not fit.
pub open spec fn u32_at(s: Seq<char>, i: int) -> Option<(u32, int)> {
    let e = digit_end(s, i);
    if e == i {
        None
    } else {
        match parse_unsigned(s.subrange(i, e), u32::MAX as nat) {
            Some(v) => Some((v as u32, e)),
            None => None,
        }
    }
}

proof fn lemma_digit_end(s: Seq<char>, i: int)
    requires
        0 <= i <= s.len(),
    ensures
        i <= digit_end(s, i) <= s.len(),
    decreases s.len() - i,
{
    if i < s.len() && is_digit(s[i]) {
        lemma_digit_end(s, i + 1);
    }
}

fn u32_at_exec(s: &Vec<char>, i: usize) -> (r: Option<(u32, usize)>)
    requires
        i <= s.len(),
    ensures
        r matches Some((n, e)) ==> u32_at(s@, i as int) == Some((n, e as int)) && i < e <= s.len(),
        r is None ==> u32_at(s@, i as int) is None,
{
    let mut e = i;
    while e < s.len() && char_is_digit(s[e])
        invariant
            i <= e <= s.len(),
            digit_end(s@, i as int) == digit_end(s@, e as int),
        decreases s.len() - e,
    {
        e = e + 1;
    }
    if e == i {
        return None;
    }
    let digits = slice_of(s, i, e);
    match parse_u32(&digits) {
        Some(n) => Some((n, e)),
        None => None,
    }
}

// ---------------------------------------------------------------------------
// The three scans
// ---------------------------------------------------------------------------
/// Where the URL around a path marker starts: the last `http://` before the
/// marker, else the last `https://`, else the marker itself.
pub open spec fn url_start(text: Seq<char>, marker: int) -> int {
    match rfind(text.take(marker), "http://"@) {
        Some(i) => i,
        None => match rfind(text.take(marker), "https://"@) {
            Some(i) => i,
            None => marker,
        },
    }
}

/// References found by a path marker such as `/issues/`, from `start` on:
/// each occurrence followed by a number gives a reference whose raw text
/// runs from the URL's start to the number's end; the scan resumes after the
/// number, or after the marker when no number follows.
pub open spec fn url_scan(text: Seq<char>, needle: Seq<char>, kind: IssueKind, start: int) -> Seq<
    IssueRefV,
>
    decreases text.len() - start,
{
    if start < 0 || start > text.len() || needle.len() == 0 {
        seq![]
    } else {
        match find_from(text, needle, start) {
            None => seq![],
            Some(pos) => {
                let at = pos + needle.len();
                if pos < start || at > text.len() {
                    seq![]
                } else {
                    match u32_at(text, at) {
                        Some((n, e)) => if at < e <= text.len() {
                            seq![IssueRefV { kind, number: n, raw: text.subrange(url_start(text, pos), e) }]
                                + url_scan(text, needle, kind, e)
                        } else {
                            seq![]
                        },
                        None => url_scan(text, needle, kind, at),
                    }
                }
            },
        }
    }
}

/// References written `GH-<n>` (any case) not preceded by a letter, digit
/// or `_`, from `start` on.
pub open spec fn gh_scan(text: Seq<char>, start: int) -> Seq<IssueRefV>
    decreases text.len() - start,
{
    if start < 0 || start > text.len() {
        seq![]
    } else {
        match find_from(lower_ascii_seq(text), "gh-"@, start) {
            None => seq![],
            Some(at) => {
                if at < start || at + 3 > text.len() {
                    seq![]
                } else {
                    let ok_before = at == 0 || !(is_alnum(text[at - 1]) || text[at - 1] == '_');
                    match u32_at(text, at + 3) {
                        Some((n, e)) => if !ok_before {
                            gh_scan(text, at + 3)
                        } else if at + 3 < e <= text.len() {
                            seq![IssueRefV { kind: IssueKind::Issue, number: n, raw: text.subrange(at, e) }]
                                + gh_scan(text, e)
                        } else {
                            seq![]
                        },
                        None => gh_scan(text, at + 3),
                    }
                }
            },
        }
    }
}

/// References written `#<n>` not preceded by a letter or digit, from `i`
/// on; numbers of more than eight digits are skipped.
pub open spec fn hash_scan(text: Seq<char>, i: int) -> Seq<IssueRefV>
    decreases text.len() - i,
{
    if i < 0 || i >= text.len() {
        seq![]
    } else if text[i] == '#' && (i == 0 || !is_alnum(text[i - 1])) && u32_at(text, i + 1) is Some {
        let (n, e) = u32_at(text, i + 1)->0;
        if i + 1 < e <= text.len() {
            (if e - (i + 1) <= 8 {
                seq![IssueRefV { kind: IssueKind::Issue, number: n, raw: text.subrange(i, e) }]
            } else {
                seq![]
            }) + hash_scan(text, e)
        } else {
            seq![]
        }
    } else {
        hash_scan(text, i + 1)
    }
}

/// Whether a reference of this kind and number is already among `rs`.
pub open spec fn has_key(rs: Seq<IssueRefV>, kind: IssueKind, number: u32) -> bool {
    exists|m: int| 0 <= m < rs.len() && rs[m].kind == kind && rs[m].number == number
}

/// The references in order, each kind and number kept at its first
/// occurrence only.
pub open spec fn first_of_each(rs: Seq<IssueRefV>) -> Seq<IssueRefV>
    decreases rs.len(),
{
    if rs.len() == 0 {
        seq![]
    } else {
        let d = first_of_each(rs.drop_last());
        if has_key(d, rs.last().kind, rs.last().number) {
            d
        } else {
            d.push(rs.last())
        }
    }
}

/// No two detected references share a kind and number, and every one of
/// them was found in the text.
pub proof fn lemma_refs_distinct(rs: Seq<IssueRefV>)
    ensures
        forall|a: int, b: int|
            0 <= a < b < first_of_each(rs).len() ==> !(first_of_each(rs)[a].kind == first_of_each(
                rs,
            )[b].kind && first_of_each(rs)[a].number == first_of_each(rs)[b].number),
        forall|k: int| 0 <= k < first_of_each(rs).len() ==> rs.contains(#[trigger] first_of_each(rs)[k]),
    decreases rs.len(),
{
    if rs.len() > 0 {
        let t = rs.drop_last();
        lemma_refs_distinct(t);
        let d = first_of_each(t);
        let x = rs.last();
        assert forall|k: int| 0 <= k < d.len() implies rs.contains(#[trigger] d[k]) by {
            assert(t.contains(d[k]));
            let i = choose|i: int| 0 <= i < t.len() && t[i] == d[k];
            assert(rs[i] == d[k]);
        }
        if !has_key(d, x.kind, x.number) {
            let e = d.push(x);
            assert forall|a: int, b: int| 0 <= a < b < e.len() implies !(e[a].kind == e[b].kind
                && e[a].number == e[b].number) by {
                if b == d.len() {
                    if e[a].kind == x.kind && e[a].number == x.number {
                        assert(d[a] == e[a]);
                        assert(has_key(d, x.kind, x.number));
                    }
                } else {
                    assert(e[a] == d[a] && e[b] == d[b]);
                }
            }
            assert forall|k: int| 0 <= k < e.len() implies rs.contains(#[trigger] e[k]) by {
                if k == d.len() {
                    assert(rs[rs.len() - 1] == e[k]);
                } else {
                    assert(e[k] == d[k]);
                }
            }
        }
    }
}

/// Every candidate in scan order: the URL markers, then `GH-`, then `#`.
pub open spec fn candidates_of(text: Seq<char>) -> Seq<IssueRefV> {
    url_scan(text, "/issues/"@, IssueKind::Issue, 0) + url_scan(text, "/-/issues/"@, IssueKind::Issue, 0)
        + url_scan(text, "/pull/"@, IssueKind::PullRequest, 0) + url_scan(
        text,
        "/-/merge_requests/"@,
        IssueKind::PullRequest,
        0,
    ) + url_scan(text, "/pull-requests/"@, IssueKind::PullRequest, 0) + gh_scan(text, 0)
        + hash_scan(text, 0)
}

/// The references of a text.
pub open spec fn detect_of(text: Seq<char>) -> Seq<IssueRefV> {
    first_of_each(candidates_of(text))
}

fn url_start_exec(text: &Vec<char>, marker: usize) -> (r: usize)
    requires
        marker <= text.len(),
    ensures
        r == url_start(text@, marker as int),
        r <= marker,
{
    let head = slice_of(text, 0, marker);
    assert(head@ == text@.take(marker as int));
    let http = chars_of("http://");
    match rfind_exec(&head, &http) {
        Some(i) => {
            proof {
                crate::text::lemma_rfind_bounds(head@, http@);
            }
            i
        },
        None => {
            let https = chars_of("https://");
            match rfind_exec(&head, &https) {
                Some(i) => {
                    proof {
                        crate::text::lemma_rfind_bounds(head@, https@);
                    }
                    i
                },
                None => marker,
            }
        },
    }
}

#[verifier::spinoff_prover]
fn url_refs(text: &Vec<char>, needle: &str, kind: IssueKind, out: &mut Vec<IssueRef>)
    requires
        needle@.len() > 0,
    ensures
        final(out).deep_view() == old(out).deep_view() + url_scan(text@, needle@, kind, 0),
{
    let nd = chars_of(needle);
    let ghost base = out.deep_view();
    let mut start: usize = 0;
    loop
        invariant
            start <= text.len(),
            base == old(out).deep_view(),
            nd@ == needle@,
            nd@.len() > 0,
            base + url_scan(text@, needle@, kind, 0) == out.deep_view() + url_scan(
                text@,
                needle@,
                kind,
                start as int,
            ),
        decreases text.len() - start,
    {
        proof {
            crate::text::lemma_find_from_bounds(text@, nd@, start as int);
        }
        match find_from_exec(text, &nd, start) {
            None => {
                assert(out.deep_view() + url_scan(text@, needle@, kind, start as int)
                    =~= out.deep_view());
                return;
            },
            Some(pos) => {
                let at = pos + nd.len();
                match u32_at_exec(text, at) {
                    Some((n, e)) => {
                        let from = url_start_exec(text, pos);
                        let raw = string_of(&slice_of(text, from, e));
                        let ghost before = out.deep_view();
                        vec_push(out, IssueRef { kind, number: n, raw });
                        assert(out.deep_view() + url_scan(text@, needle@, kind, e as int) =~= before
                            + url_scan(text@, needle@, kind, start as int));
                        start = e;
                    },
                    None => {
                        start = at;
                    },
                }
            },
        }
    }
}

#[verifier::spinoff_prover]
fn gh_refs(text: &Vec<char>, out: &mut Vec<IssueRef>)
    ensures
        final(out).deep_view() == old(out).deep_view() + gh_scan(text@, 0),
{
    let lower = lower_ascii_exec(text);
    let nd = chars_of("gh-");
    proof {
        reveal_strlit("gh-");
    }
    let ghost base = out.deep_view();
    let mut start: usize = 0;
    loop
        invariant
            start <= text.len(),
            base == old(out).deep_view(),
            lower@ == lower_ascii_seq(text@),
            lower@.len() == text@.len(),
            nd@ == "gh-"@,
            nd@.len() == 3,
            base + gh_scan(text@, 0) == out.deep_view() + gh_scan(text@, start as int),
        decreases text.len() - start,
    {
        proof {
            crate::text::lemma_find_from_bounds(lower@, nd@, start as int);
        }
        match find_from_exec(&lower, &nd, start) {
            None => {
                assert(out.deep_view() + gh_scan(text@, start as int) =~= out.deep_view());
                return;
            },
            Some(at) => {
                let ok_before = at == 0 || !(char_is_alnum(text[at - 1]) || text[at - 1] == '_');
                match u32_at_exec(text, at + 3) {
                    Some((n, e)) => {
                        if ok_before {
                            let raw = string_of(&slice_of(text, at, e));
                            let ghost before = out.deep_view();
                            vec_push(out, IssueRef { kind: IssueKind::Issue, number: n, raw });
                            assert(out.deep_view() + gh_scan(text@, e as int) =~= before + gh_scan(
                                text@,
                                start as int,
                            ));
                            start = e;
                        } else {
                            start = at + 3;
                        }
                    },
                    None => {
                        start = at + 3;
                    },
                }
            },
        }
    }
}

#[verifier::spinoff_prover]
fn hash_refs(text: &Vec<char>, out: &mut Vec<IssueRef>)
    ensures
        final(out).deep_view() == old(out).deep_view() + hash_scan(text@, 0),
{
    let ghost base = out.deep_view();
    let mut i: usize = 0;
    while i < text.len()
        invariant
            i <= text.len(),
            base + hash_scan(text@, 0) == out.deep_view() + hash_scan(text@, i as int),
        decreases text.len() - i,
    {
        if text[i] == '#' && (i == 0 || !char_is_alnum(text[i - 1])) {
            match u32_at_exec(text, i + 1) {
                Some((n, e)) => {
                    let ghost before = out.deep_view();
                    if e - (i + 1) <= 8 {
                        let raw = string_of(&slice_of(text, i, e));
                        vec_push(out, IssueRef { kind: IssueKind::Issue, number: n, raw });
                    }
                    assert(out.deep_view() + hash_scan(text@, e as int) =~= before + hash_scan(
                        text@,
                        i as int,
                    ));
                    i = e;
                },
                None => {
                    i = i + 1;
                },
            }
        } else {
            i = i + 1;
        }
    }
    assert(out.deep_view() + hash_scan(text@, i as int) =~= out.deep_view());
}

fn has_key_exec(rs: &Vec<IssueRef>, kind: IssueKind, number: u32) -> (r: bool)
    ensures
        r == has_key(rs.deep_view(), kind, number),
{
    let ghost v = rs.deep_view();
    let mut m: usize = 0;
    while m < rs.len()
        invariant
            m <= rs.len(),
            v == rs.deep_view(),
            forall|j: int| 0 <= j < m ==> !(v[j].kind == kind && v[j].number == number),
        decreases rs.len() - m,
    {
        if rs[m].kind == kind && rs[m].number == number {
            assert(v[m as int].kind == kind && v[m as int].number == number);
            return true;
        }
        m = m + 1;
    }
    false
}

fn candidates(t: &Vec<char>) -> (r: Vec<IssueRef>)
    ensures
        r.deep_view() == candidates_of(t@),
{
    let mut cands: Vec<IssueRef> = Vec::new();
    assert(cands.deep_view() =~= Seq::<IssueRefV>::empty());
    proof {
        reveal_strlit("/issues/");
        reveal_strlit("/-/issues/");
        reveal_strlit("/pull/");
        reveal_strlit("/-/merge_requests/");
        reveal_strlit("/pull-requests/");
    }
    url_refs(t, "/issues/", IssueKind::Issue, &mut cands);
    url_refs(t, "/-/issues/", IssueKind::Issue, &mut cands);
    url_refs(t, "/pull/", IssueKind::PullRequest, &mut cands);
    url_refs(t, "/-/merge_requests/", IssueKind::PullRequest, &mut cands);
    url_refs(t, "/pull-requests/", IssueKind::PullRequest, &mut cands);
    gh_refs(t, &mut cands);
    hash_refs(t, &mut cands);
    cands
}

#[verifier::spinoff_prover]
fn keep_first(cands: &Vec<IssueRef>) -> (r: Vec<IssueRef>)
    ensures
        r.deep_view() == first_of_each(cands.deep_view()),
{
    let ghost cv = cands.deep_view();
    let mut out: Vec<IssueRef> = Vec::new();
    assert(out.deep_view() =~= first_of_each(cv.take(0)));
    let mut i: usize = 0;
    while i < cands.len()
        invariant
            i <= cands.len(),
            cv == cands.deep_view(),
            out.deep_view() == first_of_each(cv.take(i as int)),
        decreases cands.len() - i,
    {
        let c = &cands[i];
        assert(cv.take(i + 1).drop_last() =~= cv.take(i as int));
        if !has_key_exec(&out, c.kind, c.number) {
            vec_push(&mut out, c.dup());
        }
        i = i + 1;
    }
    assert(cv.take(cv.len() as int) =~= cv);
    out
}

/// Scans `text` for `#123`, `GH-123`, and full host issue/PR URLs.
pub fn detect_issue_refs(text: &str) -> (r: Vec<IssueRef>)
    ensures
        r.deep_view() == detect_of(text@),
{
    let t = chars_of(text);
    let cands = candidates(&t);
    keep_first(&cands)
}

/// The browser URL of a reference on a remote's web host.
pub open spec fn issue_url_of(web: RemoteWebV, kind: IssueKind, number: u32) -> Seq<char> {
    let tail = match web.kind {
        WebHostKind::GitLab => match kind {
            IssueKind::Issue => "/-/issues/"@,
            IssueKind::PullRequest => "/-/merge_requests/"@,
        },
        WebHostKind::Bitbucket => match kind {
            IssueKind::Issue => "/issues/"@,
            IssueKind::PullRequest => "/pull-requests/"@,
        },
        _ => match kind {
            IssueKind::Issue => "/issues/"@,
            IssueKind::PullRequest => "/pull/"@,
        },
    };
    web.web_base + tail + decimal(number as nat)
}

/// Builds a browser URL for `r` on `web`; every host family has one.
pub fn resolve_issue_url(web: &RemoteWeb, r: &IssueRef) -> (u: Option<String>)
    ensures
        u matches Some(s) && s@ == issue_url_of(web.deep_view(), r.kind, r.number),
{
    let mut v = chars_of(web.web_base.as_str());
    match web.kind {
        WebHostKind::GitLab => match r.kind {
            IssueKind::Issue => push_str(&mut v, "/-/issues/"),
            IssueKind::PullRequest => push_str(&mut v, "/-/merge_requests/"),
        },
        WebHostKind::Bitbucket => match r.kind {
            IssueKind::Issue => push_str(&mut v, "/issues/"),
            IssueKind::PullRequest => push_str(&mut v, "/pull-requests/"),
        },
        _ => match r.kind {
            IssueKind::Issue => push_str(&mut v, "/issues/"),
            IssueKind::PullRequest => push_str(&mut v, "/pull/"),
        },
    }
    push_all(&mut v, &decimal_exec(r.number as u64));
    Some(string_of(&v))
}


/// An issue and a pull request with the same number never resolve to the
/// same page, and every URL is the web base, the host's path for the kind
/// of reference, and the number: GitLab `/-/issues/` and
/// `/-/merge_requests/`, Bitbucket `/issues/` and `/pull-requests/`, other
/// hosts `/issues/` and `/pull/`.
pub proof fn lemma_issue_and_pull_request_urls(web: RemoteWebV, n: u32)
    ensures
        issue_url_of(web, IssueKind::Issue, n) != issue_url_of(web, IssueKind::PullRequest, n),
        web.kind == WebHostKind::GitLab ==> issue_url_of(web, IssueKind::Issue, n) == web.web_base
            + "/-/issues/"@ + decimal(n as nat),
        web.kind == WebHostKind::GitLab ==> issue_url_of(web, IssueKind::PullRequest, n)
            == web.web_base + "/-/merge_requests/"@ + decimal(n as nat),
        web.kind == WebHostKind::Bitbucket ==> issue_url_of(web, IssueKind::Issue, n)
            == web.web_base + "/issues/"@ + decimal(n as nat),
        web.kind == WebHostKind::Bitbucket ==> issue_url_of(web, IssueKind::PullRequest, n)
            == web.web_base + "/pull-requests/"@ + decimal(n as nat),
        (web.kind == WebHostKind::GitHub || web.kind == WebHostKind::Unknown) ==> issue_url_of(
            web,
            IssueKind::Issue,
            n,
        ) == web.web_base + "/issues/"@ + decimal(n as nat),
        (web.kind == WebHostKind::GitHub || web.kind == WebHostKind::Unknown) ==> issue_url_of(
            web,
            IssueKind::PullRequest,
            n,
        ) == web.web_base + "/pull/"@ + decimal(n as nat),
{
    reveal_strlit("/-/issues/");
    reveal_strlit("/-/merge_requests/");
    reveal_strlit("/issues/");
    reveal_strlit("/pull-requests/");
    reveal_strlit("/pull/");
    let i = issue_url_of(web, IssueKind::Issue, n);
    let q = issue_url_of(web, IssueKind::PullRequest, n);
    assert(i.len() != q.len());
}

} // verus!
