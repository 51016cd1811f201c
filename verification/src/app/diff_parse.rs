//! Parsing unified diff text into [`DiffContent`], and joining blame
//! results onto its old-side lines.
use vstd::prelude::*;

use std::collections::HashMap;

use crate::app::blame_format::{utf8_len, utf8_len_exec};
use crate::app::model::{
    CommitSummary, CommitSummaryV, DiffContent, DiffContentV, DiffHunk, DiffHunkV, DiffLine,
    DiffLineV, DiffTarget, DiffTargetV, Oid,
};
use crate::dup::vec_push;
use crate::git::service::{CommitInfo, CommitInfoV};
use crate::text::{
    chars_of, contains, contains_exec, decimal, decimal_exec, find, find_exec, lines, lines_exec,
    parse_u32, parse_unsigned, push_all, push_str, rfind, rfind_exec, slice_of, starts_with,
    starts_with_str, string_of, views,
};
#[allow(unused_imports)]
use vstd::view::View as _;

verus! {

/// Max unified-diff size in bytes before the view is truncated.
pub const MAX_DIFF_CHARS: usize = 512_000;

// ---------------------------------------------------------------------------
// Hunk header numbers
// ---------------------------------------------------------------------------
/// The index of the first character of `s` at or after `i` that is one of
/// `stops` (the length when there is none).
pub open spec fn stop_from(s: Seq<char>, stops: Seq<char>, i: int) -> int
    decreases s.len() - i,
{
    if i < 0 || i >= s.len() {
        s.len() as int
    } else if stops.contains(s[i]) {
        i
    } else {
        stop_from(s, stops, i + 1)
    }
}

/// The `u32` written at the start of `s`, up to the first of `stops`.
pub open spec fn number_before(s: Seq<char>, stops: Seq<char>) -> Option<u32> {
    match parse_unsigned(s.take(stop_from(s, stops, 0)), u32::MAX as nat) {
        Some(v) => Some(v as u32),
        None => None,
    }
}

/// The old-file start of a hunk header: `@@ -12,3 +14,4 @@` gives 12.
pub open spec fn old_start_of(header: Seq<char>) -> Option<u32> {
    if !starts_with(header, seq!['@', '@']) {
        None
    } else {
        let rest = header.skip(2);
        match find(rest, seq!['-']) {
            Some(m) => number_before(rest.skip(m + 1), seq![',', ' ', '+']),
            None => None,
        }
    }
}

/// The new-file start of a hunk header: `@@ -12,3 +14,4 @@` gives 14.
pub open spec fn new_start_of(header: Seq<char>) -> Option<u32> {
    match rfind(header, seq!['+']) {
        Some(p) => number_before(header.skip(p + 1), seq![',', ' ']),
        None => None,
    }
}

fn char_in(c: char, set: &Vec<char>) -> (r: bool)
    ensures
        r == set@.contains(c),
{
    let mut i: usize = 0;
    while i < set.len()
        invariant
            i <= set.len(),
            forall|j: int| 0 <= j < i ==> set@[j] != c,
        decreases set.len() - i,
    {
        if set[i] == c {
            assert(set@[i as int] == c);
            return true;
        }
        i = i + 1;
    }
    false
}

fn stop_index(s: &Vec<char>, stops: &Vec<char>) -> (k: usize)
    ensures
        k == stop_from(s@, stops@, 0),
        k <= s.len(),
{
    let mut i: usize = 0;
    while i < s.len()
        invariant
            i <= s.len(),
            stop_from(s@, stops@, 0) == stop_from(s@, stops@, i as int),
        decreases s.len() - i,
    {
        if char_in(s[i], stops) {
            return i;
        }
        i = i + 1;
    }
    i
}

fn number_before_exec(s: &Vec<char>, stops: &Vec<char>) -> (r: Option<u32>)
    ensures
        r == number_before(s@, stops@),
{
    let k = stop_index(s, stops);
    let head = slice_of(s, 0, k);
    assert(head@ == s@.take(stop_from(s@, stops@, 0)));
    parse_u32(&head)
}

fn old_start(header: &Vec<char>) -> (r: Option<u32>)
    ensures
        r == old_start_of(header@),
{
    let at = vec!['@', '@'];
    assert(at@ =~= seq!['@', '@']);
    if !crate::text::starts_with_exec(header, &at) {
        return None;
    }
    let rest = slice_of(header, 2, header.len());
    assert(rest@ == header@.skip(2));
    let dash = vec!['-'];
    assert(dash@ =~= seq!['-']);
    match find_exec(&rest, &dash) {
        Some(m) => {
            proof {
                crate::text::lemma_find_from_bounds(rest@, dash@, 0);
            }
            let after = slice_of(&rest, m + 1, rest.len());
            assert(after@ == rest@.skip(m + 1));
            let stops = vec![',', ' ', '+'];
            assert(stops@ =~= seq![',', ' ', '+']);
            number_before_exec(&after, &stops)
        },
        None => None,
    }
}

fn new_start(header: &Vec<char>) -> (r: Option<u32>)
    ensures
        r == new_start_of(header@),
{
    let plus = vec!['+'];
    assert(plus@ =~= seq!['+']);
    match rfind_exec(header, &plus) {
        Some(p) => {
            proof {
                crate::text::lemma_rfind_bounds(header@, plus@);
                assert(crate::text::match_at(header@, plus@, p as int));
                assert(plus@.len() == 1);
            }
            let n = header.len();
            assert(p + 1 <= n);
            let after = slice_of(header, p + 1, n);
            assert(after@ == header@.skip(p + 1));
            let stops = vec![',', ' '];
            assert(stops@ =~= seq![',', ' ']);
            number_before_exec(&after, &stops)
        },
        None => None,
    }
}

// ---------------------------------------------------------------------------
// Truncation
// ---------------------------------------------------------------------------
/// How many leading characters of `s`, from `i` on, fit in `budget` bytes of
/// UTF-8 (the index reached).
pub open spec fn fit_from(s: Seq<char>, budget: int, i: int) -> int
    decreases s.len() - i,
{
    if i < 0 || i >= s.len() || utf8_len(s[i]) > budget {
        i
    } else {
        fit_from(s, budget - utf8_len(s[i]), i + 1)
    }
}

fn fit_count(s: &Vec<char>, max: usize) -> (k: usize)
    ensures
        k == fit_from(s@, max as int, 0),
        k <= s.len(),
{
    let mut i: usize = 0;
    let mut budget: usize = max;
    while i < s.len()
        invariant
            i <= s.len(),
            fit_from(s@, max as int, 0) == fit_from(s@, budget as int, i as int),
        decreases s.len() - i,
    {
        let w = utf8_len_exec(s[i]);
        if w > budget as u64 {
            return i;
        }
        budget = budget - w as usize;
        i = i + 1;
    }
    i
}

// ---------------------------------------------------------------------------
// The line-by-line parse
// ---------------------------------------------------------------------------
/// What the parse holds after some lines: finished hunks, the open hunk,
/// whether the `+++ ` header has passed, the body index of the next line,
/// and the next old and new line numbers (0 when unknown).
pub struct DiffParse {
    pub hunks: Seq<DiffHunkV>,
    pub current: Option<DiffHunkV>,
    pub past_headers: bool,
    pub body_index: nat,
    pub old_line: u32,
    pub new_line: u32,
}

pub open spec fn start_parse() -> DiffParse {
    DiffParse {
        hunks: seq![],
        current: None,
        past_headers: false,
        body_index: 0,
        old_line: 0,
        new_line: 0,
    }
}

/// The line number after `n` (wrapping past `u32::MAX`).
pub open spec fn next_line_no(n: u32) -> u32 {
    if n == u32::MAX {
        0
    } else {
        (n + 1) as u32
    }
}

/// The diff line that a body line gives: its first character is the origin
/// (a space when empty), the rest its content; context and removed lines
/// carry the old number, context and added lines the new one.
pub open spec fn body_line(st: DiffParse, line: Seq<char>) -> DiffLineV {
    let origin = if line.len() > 0 {
        line[0]
    } else {
        ' '
    };
    DiffLineV {
        origin,
        content: if line.len() > 0 {
            line.skip(1)
        } else {
            seq![]
        },
        body_index: st.body_index as usize,
        old_line: if origin != '+' && st.old_line > 0 {
            Some(st.old_line)
        } else {
            None
        },
        new_line: if origin != '-' && st.new_line > 0 {
            Some(st.new_line)
        } else {
            None
        },
        change_origin: None,
    }
}

/// One line of the parse: preamble lines up to `+++ ` are skipped; an `@@`
/// line closes the open hunk and opens a new one; any other line joins the
/// open hunk. Every line after the preamble takes one body index.
pub open spec fn parse_step(st: DiffParse, line: Seq<char>) -> DiffParse {
    if !st.past_headers {
        DiffParse { past_headers: starts_with(line, "+++ "@), ..st }
    } else if starts_with(line, "@@"@) {
        DiffParse {
            hunks: match st.current {
                Some(h) => st.hunks.push(h),
                None => st.hunks,
            },
            current: Some(DiffHunkV { header: line, lines: seq![] }),
            past_headers: true,
            body_index: st.body_index + 1,
            old_line: match old_start_of(line) {
                Some(n) => n,
                None => 0,
            },
            new_line: match new_start_of(line) {
                Some(n) => n,
                None => 0,
            },
        }
    } else {
        let l = body_line(st, line);
        DiffParse {
            current: match st.current {
                Some(h) => Some(DiffHunkV { header: h.header, lines: h.lines.push(l) }),
                None => None,
            },
            body_index: st.body_index + 1,
            old_line: if l.origin != '+' && st.old_line > 0 {
                next_line_no(st.old_line)
            } else {
                st.old_line
            },
            new_line: if l.origin != '-' && st.new_line > 0 {
                next_line_no(st.new_line)
            } else {
                st.new_line
            },
            ..st
        }
    }
}

/// The parse after the first `n` lines.
pub open spec fn parse_run(ls: Seq<Seq<char>>, n: int) -> DiffParse
    decreases n,
{
    if n <= 0 {
        start_parse()
    } else {
        parse_step(parse_run(ls, n - 1), ls[n - 1])
    }
}

pub open spec fn binary_notice() -> Seq<char> {
    "Binary file (diff omitted)"@
}

pub open spec fn truncated_notice() -> Seq<char> {
    "Diff truncated to first "@ + decimal(MAX_DIFF_CHARS as nat) + " bytes (file too large)"@
}

pub open spec fn empty_notice() -> Seq<char> {
    "No textual diff"@
}

/// The diff content of `text`: a binary notice and no hunks when it holds a
/// NUL; else the hunks of its first `MAX_DIFF_CHARS` bytes (cut at the last
/// whole character, with a notice) or of all of it, and a notice when no
/// hunk was found.
pub open spec fn parse_diff_of(target: DiffTargetV, text: Seq<char>) -> DiffContentV {
    if contains(text, seq!['\0']) {
        DiffContentV { target, hunks: seq![], notice: Some(binary_notice()) }
    } else {
        let k = fit_from(text, MAX_DIFF_CHARS as int, 0);
        let body = if k < text.len() {
            text.take(k)
        } else {
            text
        };
        let notice = if k < text.len() {
            Some(truncated_notice())
        } else {
            None
        };
        let ls = lines(body);
        let st = parse_run(ls, ls.len() as int);
        let hunks = match st.current {
            Some(h) => st.hunks.push(h),
            None => st.hunks,
        };
        DiffContentV {
            target,
            hunks,
            notice: if hunks.len() == 0 && notice is None {
                Some(empty_notice())
            } else {
                notice
            },
        }
    }
}

fn text_of(s: &str) -> (r: String)
    ensures
        r@ == s@,
{
    let v = chars_of(s);
    string_of(&v)
}

/// Parses a unified diff into [`DiffContent`], tagging each line with its
/// body index (as line-stage patches count them) and its old-side and
/// new-side line numbers.
#[verifier::spinoff_prover]
pub fn parse_diff_content(target: DiffTarget, text: &str) -> (r: DiffContent)
    ensures
        r.deep_view() == parse_diff_of(target.deep_view(), text@),
{
    let all = chars_of(text);
    let nul = vec!['\0'];
    assert(nul@ =~= seq!['\0']);
    if contains_exec(&all, &nul) {
        let none: Vec<DiffHunk> = Vec::new();
        assert(none.deep_view() =~= Seq::<DiffHunkV>::empty());
        return DiffContent { target, hunks: none, notice: Some(text_of("Binary file (diff omitted)")) };
    }
    let k = fit_count(&all, MAX_DIFF_CHARS);
    let truncated = k < all.len();
    let body = if truncated {
        slice_of(&all, 0, k)
    } else {
        all
    };
    let mut notice: Option<String> = if truncated {
        let mut n: Vec<char> = Vec::new();
        push_str(&mut n, "Diff truncated to first ");
        push_all(&mut n, &decimal_exec(MAX_DIFF_CHARS as u64));
        push_str(&mut n, " bytes (file too large)");
        Some(string_of(&n))
    } else {
        None
    };
    assert(body@ == (if k < text@.len() {
        text@.take(k as int)
    } else {
        text@
    }));
    let ls = lines_exec(&body);
    let ghost lsv = views(ls@);
    let mut hunks: Vec<DiffHunk> = Vec::new();
    let mut current: Option<DiffHunk> = None;
    let mut past_headers = false;
    let mut body_index: usize = 0;
    let mut old_line: u32 = 0;
    let mut new_line: u32 = 0;
    let mut i: usize = 0;
    while i < ls.len()
        invariant
            i <= ls.len(),
            lsv == views(ls@),
            body_index <= i,
            hunks.deep_view() == parse_run(lsv, i as int).hunks,
            current.deep_view() == parse_run(lsv, i as int).current,
            past_headers == parse_run(lsv, i as int).past_headers,
            body_index == parse_run(lsv, i as int).body_index,
            old_line == parse_run(lsv, i as int).old_line,
            new_line == parse_run(lsv, i as int).new_line,
        decreases ls.len() - i,
    {
        let line = &ls[i];
        let ghost st = parse_run(lsv, i as int);
        assert(lsv[i as int] == line@);
        assert(parse_run(lsv, i + 1) == parse_step(st, line@));
        if !past_headers {
            if starts_with_str(line, "+++ ") {
                past_headers = true;
            }
        } else if starts_with_str(line, "@@") {
            match current {
                Some(h) => vec_push(&mut hunks, h),
                None => {},
            }
            old_line = match old_start(line) {
                Some(n) => n,
                None => 0,
            };
            new_line = match new_start(line) {
                Some(n) => n,
                None => 0,
            };
            let fresh: Vec<DiffLine> = Vec::new();
            assert(fresh.deep_view() =~= Seq::<DiffLineV>::empty());
            current = Some(DiffHunk { header: string_of(line), lines: fresh });
            body_index = body_index + 1;
        } else {
            let origin = if line.len() > 0 {
                line[0]
            } else {
                ' '
            };
            let content = if line.len() > 0 {
                let rest = slice_of(line, 1, line.len());
                assert(rest@ == line@.skip(1));
                string_of(&rest)
            } else {
                String::new()
            };
            let lo = if origin != '+' && old_line > 0 {
                Some(old_line)
            } else {
                None
            };
            let ln = if origin != '-' && new_line > 0 {
                Some(new_line)
            } else {
                None
            };
            if origin != '+' && old_line > 0 {
                old_line = if old_line == u32::MAX {
                    0
                } else {
                    old_line + 1
                };
            }
            if origin != '-' && new_line > 0 {
                new_line = if new_line == u32::MAX {
                    0
                } else {
                    new_line + 1
                };
            }
            let dl = DiffLine {
                origin,
                content,
                body_index,
                old_line: lo,
                new_line: ln,
                change_origin: None,
            };
            assert(dl.deep_view() == body_line(st, line@));
            current = match current {
                Some(h) => {
                    let mut h = h;
                    vec_push(&mut h.lines, dl);
                    Some(h)
                },
                None => None,
            };
            body_index = body_index + 1;
        }
        i = i + 1;
    }
    match current {
        Some(h) => vec_push(&mut hunks, h),
        None => {},
    }
    if hunks.len() == 0 && notice.is_none() {
        notice = Some(text_of("No textual diff"));
    }
    DiffContent { target, hunks, notice }
}

// ---------------------------------------------------------------------------
// Change origins
// ---------------------------------------------------------------------------
/// The history-list form of a commit.
pub open spec fn to_summary_of(c: CommitInfoV) -> CommitSummaryV {
    CommitSummaryV { oid: c.oid, summary: c.summary, author: c.author, timestamp: c.time }
}

/// The model of a blame map: old-side line number to commit.
pub open spec fn blame_view(m: &HashMap<u32, CommitInfo>) -> Map<u32, CommitInfoV> {
    m@.map_values(|c: CommitInfo| c.deep_view())
}

/// A line whose change origin is the blame commit of its old-side number
/// (none without one).
pub open spec fn line_origin_of(l: DiffLineV, blame: Map<u32, CommitInfoV>) -> DiffLineV {
    DiffLineV {
        change_origin: match l.old_line {
            Some(n) => if blame.contains_key(n) {
                Some(to_summary_of(blame[n]))
            } else {
                None
            },
            None => None,
        },
        ..l
    }
}

pub open spec fn hunk_origins_of(h: DiffHunkV, blame: Map<u32, CommitInfoV>) -> DiffHunkV {
    DiffHunkV { header: h.header, lines: h.lines.map_values(|l: DiffLineV| line_origin_of(l, blame)) }
}

pub open spec fn attach_origins_of(c: DiffContentV, blame: Map<u32, CommitInfoV>) -> DiffContentV {
    DiffContentV { hunks: c.hunks.map_values(|h: DiffHunkV| hunk_origins_of(h, blame)), ..c }
}

pub(crate) fn to_summary(c: &CommitInfo) -> (r: CommitSummary)
    ensures
        r.deep_view() == to_summary_of(c.deep_view()),
{
    CommitSummary {
        oid: Oid(c.oid.clone()),
        summary: c.summary.clone(),
        author: c.author.clone(),
        timestamp: c.time,
    }
}

/// Attaches HEAD blame commits onto lines that have an old-side line number.
#[verifier::spinoff_prover]
pub fn attach_change_origins(content: DiffContent, blame: &HashMap<u32, CommitInfo>) -> (r:
    DiffContent)
    ensures
        r.deep_view() == attach_origins_of(content.deep_view(), blame_view(blame)),
{
    let ghost bm = blame_view(blame);
    let ghost hs = content.hunks.deep_view();
    let mut hunks: Vec<DiffHunk> = Vec::new();
    let mut k: usize = 0;
    while k < content.hunks.len()
        invariant
            k <= content.hunks.len(),
            hs == content.hunks.deep_view(),
            bm == blame_view(blame),
            hunks.deep_view() == hs.take(k as int).map_values(
                |h: DiffHunkV| hunk_origins_of(h, bm),
            ),
        decreases content.hunks.len() - k,
    {
        let h = &content.hunks[k];
        let ghost ls = h.lines.deep_view();
        let mut out: Vec<DiffLine> = Vec::new();
        let mut j: usize = 0;
        while j < h.lines.len()
            invariant
                j <= h.lines.len(),
                ls == h.lines.deep_view(),
                bm == blame_view(blame),
                out.deep_view() == ls.take(j as int).map_values(
                    |l: DiffLineV| line_origin_of(l, bm),
                ),
            decreases h.lines.len() - j,
        {
            let l = &h.lines[j];
            let origin: Option<CommitSummary> = match l.old_line {
                Some(n) => match blame.get(&n) {
                    Some(c) => Some(to_summary(c)),
                    None => None,
                },
                None => None,
            };
            let nl = DiffLine {
                origin: l.origin,
                content: l.content.clone(),
                body_index: l.body_index,
                old_line: l.old_line,
                new_line: l.new_line,
                change_origin: origin,
            };
            assert(nl.deep_view() == line_origin_of(ls[j as int], bm));
            vec_push(&mut out, nl);
            assert(ls.take(j + 1).map_values(|l: DiffLineV| line_origin_of(l, bm))
                =~= ls.take(j as int).map_values(|l: DiffLineV| line_origin_of(l, bm)).push(
                line_origin_of(ls[j as int], bm),
            ));
            j = j + 1;
        }
        assert(ls.take(ls.len() as int) =~= ls);
        let nh = DiffHunk { header: h.header.clone(), lines: out };
        assert(nh.deep_view() == hunk_origins_of(hs[k as int], bm));
        vec_push(&mut hunks, nh);
        assert(hs.take(k + 1).map_values(|h: DiffHunkV| hunk_origins_of(h, bm)) =~= hs.take(
            k as int,
        ).map_values(|h: DiffHunkV| hunk_origins_of(h, bm)).push(hunk_origins_of(hs[k as int], bm)));
        k = k + 1;
    }
    assert(hs.take(hs.len() as int) =~= hs);
    DiffContent { target: content.target, hunks, notice: content.notice }
}


/// How many of the first `j` lines of a hunk are on the old side (context
/// or removed lines).
pub open spec fn old_side_before(ls: Seq<DiffLineV>, j: int) -> nat
    decreases j,
{
    if j <= 0 || j > ls.len() {
        0
    } else {
        old_side_before(ls, j - 1) + if ls[j - 1].origin != '+' {
            1nat
        } else {
            0nat
        }
    }
}

/// The old-file start a hunk's header gives (0 when it gives none).
pub open spec fn header_old_start(h: DiffHunkV) -> nat {
    match old_start_of(h.header) {
        Some(n) => n as nat,
        None => 0,
    }
}

/// Line `j` of a hunk is numbered on the old side as the documentation
/// says: an added line has no old number; a context or removed line is the
/// hunk's old start plus the number of context and removed lines before it
/// (while that is a `u32` and the start is known).
pub open spec fn old_line_ok(h: DiffHunkV, j: int) -> bool {
    let o = header_old_start(h);
    let c = old_side_before(h.lines, j);
    &&& h.lines[j].origin == '+' ==> h.lines[j].old_line is None
    &&& (h.lines[j].origin != '+' && o > 0 && o + c <= u32::MAX) ==> h.lines[j].old_line == Some(
        (o + c) as u32,
    )
}

/// Every line of a hunk is numbered on the old side as documented.
pub open spec fn old_numbered(h: DiffHunkV) -> bool {
    forall|j: int| 0 <= j < h.lines.len() ==> #[trigger] old_line_ok(h, j)
}

spec fn numbering_holds(st: DiffParse) -> bool {
    &&& forall|k: int| 0 <= k < st.hunks.len() ==> old_numbered(#[trigger] st.hunks[k])
    &&& st.current matches Some(h) ==> {
        &&& old_numbered(h)
        &&& (header_old_start(h) > 0 && header_old_start(h) + old_side_before(h.lines, h.lines.len() as int)
            <= u32::MAX) ==> st.old_line == header_old_start(h) + old_side_before(
            h.lines,
            h.lines.len() as int,
        )
    }
}

proof fn lemma_old_side_prefix(ls: Seq<DiffLineV>, l: DiffLineV, j: int)
    requires
        0 <= j <= ls.len(),
    ensures
        old_side_before(ls.push(l), j) == old_side_before(ls, j),
    decreases j,
{
    if j > 0 {
        lemma_old_side_prefix(ls, l, j - 1);
        assert(ls.push(l)[j - 1] == ls[j - 1]);
    }
}

proof fn lemma_numbering_step(st: DiffParse, line: Seq<char>)
    requires
        numbering_holds(st),
    ensures
        numbering_holds(parse_step(st, line)),
{
    let nx = parse_step(st, line);
    if !st.past_headers {
    } else if starts_with(line, "@@"@) {
        assert forall|k: int| 0 <= k < nx.hunks.len() implies old_numbered(#[trigger] nx.hunks[k]) by {
            if k < st.hunks.len() {
                assert(nx.hunks[k] == st.hunks[k]);
            }
        }
        let h = nx.current->Some_0;
        assert(h.lines.len() == 0);
        assert(old_side_before(h.lines, 0) == 0);
    } else {
        let l = body_line(st, line);
        assert(nx.hunks == st.hunks);
        if let Some(h) = st.current {
            let h2 = DiffHunkV { header: h.header, lines: h.lines.push(l) };
            assert(nx.current == Some(h2));
            let n = h.lines.len() as int;
            let o = header_old_start(h);
            assert(header_old_start(h2) == o);
            assert forall|j: int| 0 <= j < h2.lines.len() implies #[trigger] old_line_ok(h2, j) by {
                lemma_old_side_prefix(h.lines, l, j);
                if j < n {
                    assert(h2.lines[j] == h.lines[j]);
                    assert(old_line_ok(h, j));
                } else {
                    assert(h2.lines[j] == l);
                }
            }
            lemma_old_side_prefix(h.lines, l, n);
            assert(old_side_before(h2.lines, n + 1) == old_side_before(h.lines, n) + if l.origin
                != '+' {
                1nat
            } else {
                0nat
            });
        }
    }
}

proof fn lemma_numbering_run(ls: Seq<Seq<char>>, n: int)
    requires
        0 <= n <= ls.len(),
    ensures
        numbering_holds(parse_run(ls, n)),
    decreases n,
{
    if n > 0 {
        lemma_numbering_run(ls, n - 1);
        lemma_numbering_step(parse_run(ls, n - 1), ls[n - 1]);
    }
}

/// Old-side line numbers follow the old file: in every hunk of a parsed
/// diff, a context or removed line is numbered the hunk's old start plus the
/// number of context and removed lines before it, and added lines neither
/// carry an old number nor move the numbering.
pub proof fn lemma_old_side_numbering(target: DiffTargetV, text: Seq<char>)
    ensures
        forall|k: int|
            0 <= k < parse_diff_of(target, text).hunks.len() ==> old_numbered(
                #[trigger] parse_diff_of(target, text).hunks[k],
            ),
{
    if !contains(text, seq!['\0']) {
        let k = fit_from(text, MAX_DIFF_CHARS as int, 0);
        let body = if k < text.len() {
            text.take(k)
        } else {
            text
        };
        let ls = lines(body);
        lemma_numbering_run(ls, ls.len() as int);
        let st = parse_run(ls, ls.len() as int);
        let hunks = parse_diff_of(target, text).hunks;
        assert forall|j: int| 0 <= j < hunks.len() implies old_numbered(#[trigger] hunks[j]) by {
            if j < st.hunks.len() {
                assert(hunks[j] == st.hunks[j]);
            }
        }
    }
}


/// How many of the first `j` lines of a hunk are on the new side (context
/// or added lines).
pub open spec fn new_side_before(ls: Seq<DiffLineV>, j: int) -> nat
    decreases j,
{
    if j <= 0 || j > ls.len() {
        0
    } else {
        new_side_before(ls, j - 1) + if ls[j - 1].origin != '-' {
            1nat
        } else {
            0nat
        }
    }
}

/// The new-file start a hunk's header gives (0 when it gives none).
pub open spec fn header_new_start(h: DiffHunkV) -> nat {
    match new_start_of(h.header) {
        Some(n) => n as nat,
        None => 0,
    }
}

/// Line `j` of a hunk is numbered on the new side as the documentation
/// says: a removed line has no new number; a context or added line is the
/// hunk's new start plus the number of context and added lines before it
/// (while that is a `u32` and the start is known).
pub open spec fn new_line_ok(h: DiffHunkV, j: int) -> bool {
    let o = header_new_start(h);
    let c = new_side_before(h.lines, j);
    &&& h.lines[j].origin == '-' ==> h.lines[j].new_line is None
    &&& (h.lines[j].origin != '-' && o > 0 && o + c <= u32::MAX) ==> h.lines[j].new_line == Some(
        (o + c) as u32,
    )
}

/// Every line of a hunk is numbered on the new side as documented.
pub open spec fn new_numbered(h: DiffHunkV) -> bool {
    forall|j: int| 0 <= j < h.lines.len() ==> #[trigger] new_line_ok(h, j)
}

spec fn new_numbering_holds(st: DiffParse) -> bool {
    &&& forall|k: int| 0 <= k < st.hunks.len() ==> new_numbered(#[trigger] st.hunks[k])
    &&& st.current matches Some(h) ==> {
        &&& new_numbered(h)
        &&& (header_new_start(h) > 0 && header_new_start(h) + new_side_before(h.lines, h.lines.len() as int)
            <= u32::MAX) ==> st.new_line == header_new_start(h) + new_side_before(
            h.lines,
            h.lines.len() as int,
        )
    }
}

proof fn lemma_new_side_prefix(ls: Seq<DiffLineV>, l: DiffLineV, j: int)
    requires
        0 <= j <= ls.len(),
    ensures
        new_side_before(ls.push(l), j) == new_side_before(ls, j),
    decreases j,
{
    if j > 0 {
        lemma_new_side_prefix(ls, l, j - 1);
        assert(ls.push(l)[j - 1] == ls[j - 1]);
    }
}

proof fn lemma_new_numbering_step(st: DiffParse, line: Seq<char>)
    requires
        new_numbering_holds(st),
    ensures
        new_numbering_holds(parse_step(st, line)),
{
    let nx = parse_step(st, line);
    if !st.past_headers {
    } else if starts_with(line, "@@"@) {
        assert forall|k: int| 0 <= k < nx.hunks.len() implies new_numbered(#[trigger] nx.hunks[k]) by {
            if k < st.hunks.len() {
                assert(nx.hunks[k] == st.hunks[k]);
            }
        }
        let h = nx.current->Some_0;
        assert(h.lines.len() == 0);
        assert(new_side_before(h.lines, 0) == 0);
    } else {
        let l = body_line(st, line);
        assert(nx.hunks == st.hunks);
        if let Some(h) = st.current {
            let h2 = DiffHunkV { header: h.header, lines: h.lines.push(l) };
            assert(nx.current == Some(h2));
            let n = h.lines.len() as int;
            let o = header_new_start(h);
            assert(header_new_start(h2) == o);
            assert forall|j: int| 0 <= j < h2.lines.len() implies #[trigger] new_line_ok(h2, j) by {
                lemma_new_side_prefix(h.lines, l, j);
                if j < n {
                    assert(h2.lines[j] == h.lines[j]);
                    assert(new_line_ok(h, j));
                } else {
                    assert(h2.lines[j] == l);
                }
            }
            lemma_new_side_prefix(h.lines, l, n);
            assert(new_side_before(h2.lines, n + 1) == new_side_before(h.lines, n) + if l.origin
                != '-' {
                1nat
            } else {
                0nat
            });
        }
    }
}

proof fn lemma_new_numbering_run(ls: Seq<Seq<char>>, n: int)
    requires
        0 <= n <= ls.len(),
    ensures
        new_numbering_holds(parse_run(ls, n)),
    decreases n,
{
    if n > 0 {
        lemma_new_numbering_run(ls, n - 1);
        lemma_new_numbering_step(parse_run(ls, n - 1), ls[n - 1]);
    }
}

/// New-side line numbers follow the new file: in every hunk of a parsed
/// diff, a context or added line is numbered the hunk's new start plus the
/// number of context and added lines before it, and removed lines neither
/// carry a new number nor move the numbering.
pub proof fn lemma_new_side_numbering(target: DiffTargetV, text: Seq<char>)
    ensures
        forall|k: int|
            0 <= k < parse_diff_of(target, text).hunks.len() ==> new_numbered(
                #[trigger] parse_diff_of(target, text).hunks[k],
            ),
{
    if !contains(text, seq!['\0']) {
        let k = fit_from(text, MAX_DIFF_CHARS as int, 0);
        let body = if k < text.len() {
            text.take(k)
        } else {
            text
        };
        let ls = lines(body);
        lemma_new_numbering_run(ls, ls.len() as int);
        let st = parse_run(ls, ls.len() as int);
        let hunks = parse_diff_of(target, text).hunks;
        assert forall|j: int| 0 <= j < hunks.len() implies new_numbered(#[trigger] hunks[j]) by {
            if j < st.hunks.len() {
                assert(hunks[j] == st.hunks[j]);
            }
        }
    }
}


} // verus!
