//! Blame at HEAD for Change Origin and Smart Blame: which line ranges to ask
//! `git blame` for, which of its failures mean "nothing to blame", and the
//! reading of its `--line-porcelain` output.
use vstd::prelude::*;

use std::collections::HashMap;

use crate::app::diff_parse::blame_view;
use crate::app::transition::{sorted_distinct, u32_pos};
use crate::git::patch::{skip_ws, tok_end};
use crate::git::service::{CommitInfo, CommitInfoV};
use crate::text::{
    all_digits, char_is_hex, chars_of, contains, contains_str, digits_value, is_hex, is_ws,
    lines, lines_exec, parse_i64, parse_signed, parse_u32, parse_unsigned, seq_eq, slice_of,
    starts_with, starts_with_str, string_of, views,
};
#[allow(unused_imports)]
use vstd::view::View as _;

verus! {

broadcast use vstd::std_specs::hash::group_hash_axioms;

// ---------------------------------------------------------------------------
// Line ranges
// ---------------------------------------------------------------------------
pub open spec fn strictly_increasing(s: Seq<u32>) -> bool {
    forall|i: int, j: int| 0 <= i < j < s.len() ==> s[i] < s[j]
}

/// Inclusive `(start, end)` ranges of a sorted list: each run of consecutive
/// numbers becomes one range.
pub open spec fn ranges_of(s: Seq<u32>) -> Seq<(u32, u32)>
    decreases s.len(),
{
    if s.len() == 0 {
        seq![]
    } else if s.len() == 1 {
        seq![(s[0], s[0])]
    } else {
        let r = ranges_of(s.drop_last());
        let x = s.last();
        if x == r.last().1 + 1 {
            r.update(r.len() - 1, (r.last().0, x))
        } else {
            r.push((x, x))
        }
    }
}

/// Whether some range holds `x`.
pub open spec fn in_ranges(r: Seq<(u32, u32)>, x: u32) -> bool {
    exists|k: int| 0 <= k < r.len() && (#[trigger] r[k]).0 <= x <= r[k].1
}

proof fn lemma_ranges_shape(s: Seq<u32>)
    requires
        strictly_increasing(s),
    ensures
        s.len() > 0 ==> ranges_of(s).len() > 0 && ranges_of(s).last().1 == s.last(),
        forall|k: int| 0 <= k < ranges_of(s).len() ==> ranges_of(s)[k].0 <= ranges_of(s)[k].1,
        forall|k: int|
            0 <= k < ranges_of(s).len() - 1 ==> ranges_of(s)[k].1 + 1 < ranges_of(s)[k + 1].0,
    decreases s.len(),
{
    if s.len() > 1 {
        let t = s.drop_last();
        assert(strictly_increasing(t));
        lemma_ranges_shape(t);
        assert(t.last() == s[s.len() - 2]);
    }
}

/// Coalescing loses no line and adds none: a number lies in one of the
/// ranges of a strictly increasing list exactly when the list holds it, and
/// every range is ordered.
#[verifier::spinoff_prover]
pub proof fn lemma_ranges_cover(s: Seq<u32>, x: u32)
    requires
        strictly_increasing(s),
    ensures
        in_ranges(ranges_of(s), x) <==> s.contains(x),
        forall|k: int| 0 <= k < ranges_of(s).len() ==> ranges_of(s)[k].0 <= ranges_of(s)[k].1,
    decreases s.len(),
{
    lemma_ranges_shape(s);
    if s.len() == 0 {
    } else if s.len() == 1 {
        if s.contains(x) {
            assert(s[0] == x);
            assert(ranges_of(s)[0].0 <= x <= ranges_of(s)[0].1);
        }
        if in_ranges(ranges_of(s), x) {
            assert(s[0] == x);
        }
    } else {
        let t = s.drop_last();
        let y = s.last();
        assert(strictly_increasing(t));
        lemma_ranges_cover(t, x);
        lemma_ranges_shape(t);
        let r = ranges_of(t);
        assert(t.last() == s[s.len() - 2]);
        assert(s.contains(x) <==> (t.contains(x) || x == y)) by {
            if s.contains(x) {
                let i = choose|i: int| 0 <= i < s.len() && s[i] == x;
                if i < s.len() - 1 {
                    assert(t[i] == x);
                }
            }
            if t.contains(x) {
                let i = choose|i: int| 0 <= i < t.len() && t[i] == x;
                assert(s[i] == x);
            }
            if x == y {
                assert(s[s.len() - 1] == x);
            }
        }
        if y == r.last().1 + 1 {
            let r2 = r.update(r.len() - 1, (r.last().0, y));
            assert(ranges_of(s) == r2);
            if in_ranges(r2, x) {
                let k = choose|k: int| 0 <= k < r2.len() && (#[trigger] r2[k]).0 <= x <= r2[k].1;
                if k < r.len() - 1 {
                    assert(r[k] == r2[k]);
                    assert(in_ranges(r, x));
                } else if x <= r.last().1 {
                    assert(in_ranges(r, x));
                } else {
                    assert(x == y);
                }
            }
            if s.contains(x) {
                if x == y {
                    assert(r2[r2.len() - 1].0 <= x <= r2[r2.len() - 1].1);
                } else {
                    let k = choose|k: int| 0 <= k < r.len() && (#[trigger] r[k]).0 <= x <= r[k].1;
                    if k < r.len() - 1 {
                        assert(r2[k] == r[k]);
                    } else {
                        assert(r2[k].0 <= x <= r2[k].1);
                    }
                }
            }
        } else {
            let r2 = r.push((y, y));
            assert(ranges_of(s) == r2);
            if in_ranges(r2, x) {
                let k = choose|k: int| 0 <= k < r2.len() && (#[trigger] r2[k]).0 <= x <= r2[k].1;
                if k < r.len() {
                    assert(r[k] == r2[k]);
                    assert(in_ranges(r, x));
                }
            }
            if s.contains(x) {
                if x == y {
                    assert(r2[r2.len() - 1].0 <= x <= r2[r2.len() - 1].1);
                } else {
                    let k = choose|k: int| 0 <= k < r.len() && (#[trigger] r[k]).0 <= x <= r[k].1;
                    assert(r2[k] == r[k]);
                }
            }
        }
    }
}

/// Coalesce sorted unique line numbers into inclusive `(start, end)` ranges.
#[verifier::spinoff_prover]
pub fn coalesce_ranges(sorted: &[u32]) -> (r: Vec<(u32, u32)>)
    requires
        strictly_increasing(sorted@),
    ensures
        r@ == ranges_of(sorted@),
{
    let mut ranges: Vec<(u32, u32)> = Vec::new();
    if sorted.len() == 0 {
        assert(ranges@ =~= ranges_of(sorted@));
        return ranges;
    }
    let first = sorted[0];
    let mut start = first;
    let mut prev = first;
    assert(sorted@.take(1).len() == 1);
    assert(ranges@.push((start, prev)) =~= ranges_of(sorted@.take(1)));
    let mut i: usize = 1;
    while i < sorted.len()
        invariant
            1 <= i <= sorted.len(),
            strictly_increasing(sorted@),
            prev == sorted@[i - 1],
            ranges@.push((start, prev)) == ranges_of(sorted@.take(i as int)),
        decreases sorted.len() - i,
    {
        let n = sorted[i];
        let ghost t = sorted@.take(i + 1);
        assert(t.drop_last() =~= sorted@.take(i as int));
        assert(t.last() == n);
        assert(prev < n);
        if n == prev + 1 {
            prev = n;
        } else {
            ranges.push((start, prev));
            start = n;
            prev = n;
        }
        i = i + 1;
    }
    assert(sorted@.take(sorted.len() as int) =~= sorted@);
    ranges.push((start, prev));
    ranges
}

proof fn lemma_u32_pos(t: Seq<u32>, x: u32, i: int)
    requires
        0 <= i <= t.len(),
        strictly_increasing(t),
        forall|k: int| 0 <= k < i ==> t[k] <= x,
    ensures
        i <= u32_pos(t, x, i) <= t.len(),
        forall|k: int| 0 <= k < u32_pos(t, x, i) ==> t[k] <= x,
        forall|k: int| u32_pos(t, x, i) <= k < t.len() ==> x < t[k],
    decreases t.len() - i,
{
    if i < t.len() && !(x < t[i]) {
        lemma_u32_pos(t, x, i + 1);
    }
}

/// Sorting and de-duplicating by insertion gives a strictly increasing list
/// with the same numbers.
#[verifier::spinoff_prover]
pub proof fn lemma_sorted_distinct(s: Seq<u32>)
    ensures
        strictly_increasing(sorted_distinct(s)),
        forall|x: u32| sorted_distinct(s).contains(x) <==> s.contains(x),
    decreases s.len(),
{
    if s.len() > 0 {
        let t = sorted_distinct(s.drop_last());
        let x = s.last();
        lemma_sorted_distinct(s.drop_last());
        assert forall|y: u32| s.contains(y) <==> (s.drop_last().contains(y) || y == x) by {
            if s.contains(y) {
                let i = choose|i: int| 0 <= i < s.len() && s[i] == y;
                if i < s.len() - 1 {
                    assert(s.drop_last()[i] == y);
                }
            }
            if s.drop_last().contains(y) {
                let i = choose|i: int| 0 <= i < s.drop_last().len() && s.drop_last()[i] == y;
                assert(s[i] == y);
            }
            if y == x {
                assert(s[s.len() - 1] == y);
            }
        }
        if !t.contains(x) {
            lemma_u32_pos(t, x, 0);
            let p = u32_pos(t, x, 0);
            let u = t.insert(p, x);
            assert forall|i: int, j: int| 0 <= i < j < u.len() implies u[i] < u[j] by {
                if i < p && t[i] == x {
                    assert(t.contains(x));
                }
                if j < p && t[j] == x {
                    assert(t.contains(x));
                }
            }
            assert forall|y: u32| u.contains(y) <==> (t.contains(y) || y == x) by {
                if u.contains(y) {
                    let i = choose|i: int| 0 <= i < u.len() && u[i] == y;
                    if i < p {
                        assert(t[i] == y);
                    } else if i > p {
                        assert(t[i - 1] == y);
                    }
                }
                if t.contains(y) {
                    let i = choose|i: int| 0 <= i < t.len() && t[i] == y;
                    if i < p {
                        assert(u[i] == y);
                    } else {
                        assert(u[i + 1] == y);
                    }
                }
                if y == x {
                    assert(u[p] == y);
                }
            }
        }
    }
}

fn insert_distinct(out: &mut Vec<u32>, x: u32)
    ensures
        final(out)@ == (if old(out)@.contains(x) {
            old(out)@
        } else {
            old(out)@.insert(u32_pos(old(out)@, x, 0), x)
        }),
{
    let ghost t = out@;
    let mut j: usize = 0;
    while j < out.len() && !(x < out[j])
        invariant
            j <= out.len(),
            t == out@,
            u32_pos(t, x, 0) == u32_pos(t, x, j as int),
        decreases out.len() - j,
    {
        j = j + 1;
    }
    let mut k: usize = 0;
    while k < out.len()
        invariant
            k <= out.len(),
            t == out@,
            forall|m: int| 0 <= m < k ==> t[m] != x,
        decreases out.len() - k,
    {
        if out[k] == x {
            assert(t.contains(x)) by {
                assert(t[k as int] == x);
            }
            return;
        }
        k = k + 1;
    }
    out.insert(j, x);
}

/// The `git blame -L` ranges for the requested 1-based lines: sorted,
/// without duplicates, runs of consecutive lines joined.
pub fn blame_ranges(lines: &[u32]) -> (r: Vec<(u32, u32)>)
    ensures
        r@ == ranges_of(sorted_distinct(lines@)),
{
    let mut sorted: Vec<u32> = Vec::new();
    let mut i: usize = 0;
    assert(lines@.take(0) =~= Seq::<u32>::empty());
    while i < lines.len()
        invariant
            i <= lines.len(),
            sorted@ == sorted_distinct(lines@.take(i as int)),
        decreases lines.len() - i,
    {
        assert(lines@.take(i + 1).drop_last() =~= lines@.take(i as int));
        insert_distinct(&mut sorted, lines[i]);
        i = i + 1;
    }
    assert(lines@.take(lines.len() as int) =~= lines@);
    proof {
        lemma_sorted_distinct(lines@);
    }
    coalesce_ranges(sorted.as_slice())
}

// ---------------------------------------------------------------------------
// Failures that mean "nothing to blame"
// ---------------------------------------------------------------------------
/// Whether a `git blame` failure says the path or object is missing (the
/// blame is then empty rather than an error).
pub open spec fn is_missing_path_message(msg: Seq<char>) -> bool {
    ||| contains(msg, "no such path"@)
    ||| contains(msg, "cannot find path"@)
    ||| contains(msg, "does not exist"@)
    ||| contains(msg, "no such ref"@)
    ||| contains(msg, "bad object"@)
    ||| contains(msg, "Not a valid object"@)
    ||| contains(msg, "no such file"@)
}

/// Whether a `git blame` failure text means a missing path or object.
pub fn is_missing_path(msg: &str) -> (r: bool)
    ensures
        r == is_missing_path_message(msg@),
{
    let m = chars_of(msg);
    contains_str(&m, "no such path") || contains_str(&m, "cannot find path") || contains_str(
        &m,
        "does not exist",
    ) || contains_str(&m, "no such ref") || contains_str(&m, "bad object") || contains_str(
        &m,
        "Not a valid object",
    ) || contains_str(&m, "no such file")
}

// ---------------------------------------------------------------------------
// `--line-porcelain` output
// ---------------------------------------------------------------------------
/// Summary, author and time remembered for a commit (the porcelain writes
/// them only at a commit's first line).
pub struct MetaEntry {
    pub oid: String,
    pub summary: String,
    pub author: String,
    pub time: i64,
}

pub struct MetaEntryV {
    pub oid: Seq<char>,
    pub summary: Seq<char>,
    pub author: Seq<char>,
    pub time: i64,
}

impl DeepView for MetaEntry {
    type V = MetaEntryV;

    open spec fn deep_view(&self) -> MetaEntryV {
        MetaEntryV { oid: self.oid@, summary: self.summary@, author: self.author@, time: self.time }
    }
}

/// The reading of the porcelain so far.
pub struct Porcelain {
    pub map: Map<u32, CommitInfoV>,
    pub oid: Seq<char>,
    pub final_line: u32,
    pub summary: Seq<char>,
    pub author: Seq<char>,
    pub time: i64,
    pub meta: Seq<MetaEntryV>,
}

pub open spec fn start_porcelain() -> Porcelain {
    Porcelain {
        map: Map::empty(),
        oid: seq![],
        final_line: 0,
        summary: seq![],
        author: seq![],
        time: 0,
        meta: seq![],
    }
}

/// The first remembered entry for `oid`, from `i` on.
pub open spec fn meta_from(meta: Seq<MetaEntryV>, oid: Seq<char>, i: int) -> Option<int>
    decreases meta.len() - i,
{
    if i < 0 || i >= meta.len() {
        None
    } else if meta[i].oid == oid {
        Some(i)
    } else {
        meta_from(meta, oid, i + 1)
    }
}

/// A commit header line: forty hex digits and a space.
pub open spec fn is_commit_header(line: Seq<char>) -> bool {
    line.len() >= 41 && (forall|k: int| 0 <= k < 40 ==> is_hex(#[trigger] line[k])) && line[40]
        == ' '
}

/// The final line number of a header line: its third word, 0 when it is
/// missing or not a `u32`.
pub open spec fn header_final_line(line: Seq<char>) -> u32 {
    let b = skip_ws(line, 40);
    let c = tok_end(line, b);
    let d = skip_ws(line, c);
    let e = tok_end(line, d);
    match parse_unsigned(line.subrange(d, e), u32::MAX as nat) {
        Some(v) => v as u32,
        None => 0,
    }
}

/// One porcelain line. A tab line records the current line's commit
/// (taking remembered metadata, or remembering this one); a header line
/// starts a line; `summary `, `author ` and `author-time ` lines fill in the
/// metadata.
pub open spec fn porcelain_step(st: Porcelain, line: Seq<char>) -> Porcelain {
    if line.len() > 0 && line[0] == '\t' {
        if st.final_line > 0 && st.oid.len() > 0 {
            let (summary, author, time, meta) = match meta_from(st.meta, st.oid, 0) {
                Some(k) => (st.meta[k].summary, st.meta[k].author, st.meta[k].time, st.meta),
                None => (
                    st.summary,
                    st.author,
                    st.time,
                    if st.summary.len() > 0 {
                        st.meta.push(
                            MetaEntryV {
                                oid: st.oid,
                                summary: st.summary,
                                author: st.author,
                                time: st.time,
                            },
                        )
                    } else {
                        st.meta
                    },
                ),
            };
            Porcelain {
                map: st.map.insert(
                    st.final_line,
                    CommitInfoV { oid: st.oid, summary, author, time },
                ),
                summary,
                author,
                time,
                meta,
                ..st
            }
        } else {
            st
        }
    } else if is_commit_header(line) {
        let oid = line.take(40);
        let known = meta_from(st.meta, oid, 0) is Some;
        Porcelain {
            oid,
            final_line: header_final_line(line),
            summary: if known {
                st.summary
            } else {
                seq![]
            },
            author: if known {
                st.author
            } else {
                seq![]
            },
            time: if known {
                st.time
            } else {
                0
            },
            ..st
        }
    } else if starts_with(line, "summary "@) {
        Porcelain { summary: line.skip(8), ..st }
    } else if starts_with(line, "author "@) {
        Porcelain { author: line.skip(7), ..st }
    } else if starts_with(line, "author-time "@) {
        Porcelain {
            time: match parse_signed(line.skip(12), i64::MAX as nat) {
                Some(t) => t as i64,
                None => 0,
            },
            ..st
        }
    } else {
        st
    }
}

pub open spec fn porcelain_run(ls: Seq<Seq<char>>, n: int) -> Porcelain
    decreases n,
{
    if n <= 0 {
        start_porcelain()
    } else {
        porcelain_step(porcelain_run(ls, n - 1), ls[n - 1])
    }
}

/// The blame of `git blame --line-porcelain` output: final line number to
/// commit.
pub open spec fn porcelain_of(out: Seq<char>) -> Map<u32, CommitInfoV> {
    let ls = lines(out);
    porcelain_run(ls, ls.len() as int).map
}

fn meta_find(meta: &Vec<MetaEntry>, oid: &Vec<char>) -> (r: Option<usize>)
    ensures
        r matches Some(k) ==> meta_from(meta.deep_view(), oid@, 0) == Some(k as int) && k
            < meta.len(),
        r is None ==> meta_from(meta.deep_view(), oid@, 0) is None,
{
    let ghost mv = meta.deep_view();
    let mut i: usize = 0;
    while i < meta.len()
        invariant
            i <= meta.len(),
            mv == meta.deep_view(),
            meta_from(mv, oid@, 0) == meta_from(mv, oid@, i as int),
        decreases meta.len() - i,
    {
        if seq_eq(&chars_of(meta[i].oid.as_str()), oid) {
            return Some(i);
        }
        i = i + 1;
    }
    None
}

fn header_line(line: &Vec<char>) -> (r: bool)
    ensures
        r == is_commit_header(line@),
{
    if line.len() < 41 {
        return false;
    }
    let mut k: usize = 0;
    while k < 40
        invariant
            k <= 40,
            line.len() >= 41,
            forall|j: int| 0 <= j < k ==> is_hex(#[trigger] line@[j]),
        decreases 40 - k,
    {
        if !char_is_hex(line[k]) {
            return false;
        }
        k = k + 1;
    }
    line[40] == ' '
}

fn final_line_of(line: &Vec<char>) -> (r: u32)
    requires
        line.len() >= 41,
    ensures
        r == header_final_line(line@),
{
    let b = crate::git::patch::skip_ws_exec(line, 40);
    let c = crate::git::patch::tok_end_exec(line, b);
    let d = crate::git::patch::skip_ws_exec(line, c);
    let e = crate::git::patch::tok_end_exec(line, d);
    match parse_u32(&slice_of(line, d, e)) {
        Some(v) => v,
        None => 0,
    }
}

/// Reads `git blame --line-porcelain` output into final line number →
/// commit.
#[verifier::spinoff_prover]
pub fn parse_line_porcelain(out: &str) -> (r: HashMap<u32, CommitInfo>)
    ensures
        blame_view(&r) == porcelain_of(out@),
{
    let text = chars_of(out);
    let ls = lines_exec(&text);
    let ghost lv = views(ls@);
    let mut map: HashMap<u32, CommitInfo> = HashMap::new();
    let mut oid: Vec<char> = Vec::new();
    let mut final_line: u32 = 0;
    let mut summary: Vec<char> = Vec::new();
    let mut author: Vec<char> = Vec::new();
    let mut time: i64 = 0;
    let mut meta: Vec<MetaEntry> = Vec::new();
    assert(blame_view(&map) =~= Map::<u32, CommitInfoV>::empty());
    assert(meta.deep_view() =~= Seq::<MetaEntryV>::empty());
    let mut i: usize = 0;
    while i < ls.len()
        invariant
            i <= ls.len(),
            lv == views(ls@),
            blame_view(&map) == porcelain_run(lv, i as int).map,
            oid@ == porcelain_run(lv, i as int).oid,
            final_line == porcelain_run(lv, i as int).final_line,
            summary@ == porcelain_run(lv, i as int).summary,
            author@ == porcelain_run(lv, i as int).author,
            time == porcelain_run(lv, i as int).time,
            meta.deep_view() == porcelain_run(lv, i as int).meta,
        decreases ls.len() - i,
    {
        let line = &ls[i];
        let ghost st = porcelain_run(lv, i as int);
        assert(lv[i as int] == line@);
        assert(porcelain_run(lv, i + 1) == porcelain_step(st, line@));
        if line.len() > 0 && line[0] == '\t' {
            if final_line > 0 && oid.len() > 0 {
                match meta_find(&meta, &oid) {
                    Some(k) => {
                        summary = chars_of(meta[k].summary.as_str());
                        author = chars_of(meta[k].author.as_str());
                        time = meta[k].time;
                    },
                    None => {
                        if summary.len() > 0 {
                            let entry = MetaEntry {
                                oid: string_of(&oid),
                                summary: string_of(&summary),
                                author: string_of(&author),
                                time,
                            };
                            crate::dup::vec_push(&mut meta, entry);
                        }
                    },
                }
                let info = CommitInfo {
                    oid: string_of(&oid),
                    summary: string_of(&summary),
                    author: string_of(&author),
                    time,
                };
                let ghost before = blame_view(&map);
                let ghost iv = info.deep_view();
                map.insert(final_line, info);
                assert(blame_view(&map) =~= before.insert(final_line, iv));
            }
        } else if header_line(line) {
            let new_oid = slice_of(line, 0, 40);
            let known = meta_find(&meta, &new_oid).is_some();
            final_line = final_line_of(line);
            oid = new_oid;
            if !known {
                summary = Vec::new();
                author = Vec::new();
                time = 0;
            }
        } else if starts_with_str(line, "summary ") {
            proof {
                reveal_strlit("summary ");
            }
            summary = slice_of(line, 8, line.len());
        } else if starts_with_str(line, "author ") {
            proof {
                reveal_strlit("author ");
            }
            author = slice_of(line, 7, line.len());
        } else if starts_with_str(line, "author-time ") {
            proof {
                reveal_strlit("author-time ");
            }
            time = match parse_i64(&slice_of(line, 12, line.len())) {
                Some(t) => t,
                None => 0,
            };
        }
        i = i + 1;
    }
    map
}


/// A word of non-whitespace characters from `i` up to `j` ends at `j`.
proof fn lemma_tok_end_at(s: Seq<char>, i: int, j: int)
    requires
        0 <= i <= j <= s.len(),
        forall|k: int| i <= k < j ==> !is_ws(#[trigger] s[k]),
        j == s.len() || is_ws(s[j]),
    ensures
        tok_end(s, i) == j,
    decreases j - i,
{
    if i < j {
        lemma_tok_end_at(s, i + 1, j);
    }
}

/// A step never forgets a line it has already blamed.
proof fn lemma_step_keeps_keys(st: Porcelain, line: Seq<char>, key: u32)
    requires
        st.map.contains_key(key),
    ensures
        porcelain_step(st, line).map.contains_key(key),
{
}

/// Lines blamed after `n` lines stay blamed after `m >= n` lines.
proof fn lemma_run_keeps_keys(ls: Seq<Seq<char>>, n: int, m: int, key: u32)
    requires
        0 <= n <= m <= ls.len(),
        porcelain_run(ls, n).map.contains_key(key),
    ensures
        porcelain_run(ls, m).map.contains_key(key),
    decreases m - n,
{
    if n < m {
        lemma_step_keeps_keys(porcelain_run(ls, n), ls[n], key);
        assert(porcelain_run(ls, n + 1) == porcelain_step(porcelain_run(ls, n), ls[n]));
        lemma_run_keeps_keys(ls, n + 1, m, key);
    }
}

/// Blame is keyed by the final line number: wherever a header line
/// `<oid> <orig> <final> …` is directly followed by a content (tab) line,
/// the blame has an entry for the number written as the third word,
/// whatever the second word says.
pub proof fn lemma_blame_keyed_by_final_line(
    out: Seq<char>,
    i: int,
    oid: Seq<char>,
    orig: Seq<char>,
    fin: Seq<char>,
    tail: Seq<char>,
)
    requires
        0 <= i,
        i + 1 < lines(out).len(),
        lines(out)[i] == oid + seq![' '] + orig + seq![' '] + fin + tail,
        oid.len() == 40,
        forall|k: int| 0 <= k < 40 ==> is_hex(#[trigger] oid[k]),
        orig.len() > 0,
        forall|k: int| 0 <= k < orig.len() ==> !is_ws(#[trigger] orig[k]),
        fin.len() > 0,
        all_digits(fin),
        0 < digits_value(fin) <= u32::MAX,
        tail.len() == 0 || is_ws(tail[0]),
        lines(out)[i + 1].len() > 0,
        lines(out)[i + 1][0] == '\t',
    ensures
        porcelain_of(out).contains_key(digits_value(fin) as u32),
{
    let ls = lines(out);
    let h = ls[i];
    let v = digits_value(fin) as u32;
    let c: int = 41 + orig.len() as int;
    let d: int = c + 1;
    let e: int = d + fin.len();
    assert(h.len() == e + tail.len());
    assert(h[40] == ' ');
    assert(h[41] == orig[0]);
    assert(skip_ws(h, 41) == 41);
    assert(skip_ws(h, 40) == 41);
    assert forall|k: int| 41 <= k < c implies !is_ws(#[trigger] h[k]) by {
        assert(h[k] == orig[k - 41]);
    }
    assert(h[c] == ' ');
    lemma_tok_end_at(h, 41, c);
    assert(h[d] == fin[0]);
    assert(crate::text::is_digit(fin[0]));
    assert(skip_ws(h, d) == d);
    assert(skip_ws(h, c) == d);
    assert forall|k: int| d <= k < e implies !is_ws(#[trigger] h[k]) by {
        assert(h[k] == fin[k - d]);
        assert(crate::text::is_digit(fin[k - d]));
    }
    if e < h.len() {
        assert(h[e] == tail[0]);
    }
    lemma_tok_end_at(h, d, e);
    assert(h.subrange(d, e) =~= fin);
    assert(fin[0] != '+');
    assert(header_final_line(h) == v);
    assert forall|k: int| 0 <= k < 40 implies is_hex(#[trigger] h[k]) by {
        assert(h[k] == oid[k]);
    }
    assert(is_commit_header(h));
    assert(h[0] == oid[0] && is_hex(oid[0]));
    let st0 = porcelain_run(ls, i);
    let st1 = porcelain_run(ls, i + 1);
    let st2 = porcelain_run(ls, i + 2);
    assert(st1 == porcelain_step(st0, h));
    assert(st1.final_line == v && st1.oid.len() == 40);
    assert(st2 == porcelain_step(st1, ls[i + 1]));
    assert(st2.map.contains_key(v));
    lemma_run_keeps_keys(ls, i + 2, ls.len() as int, v);
}

} // verus!
