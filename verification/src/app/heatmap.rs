//! Blame Heatmap inputs: for every diff line with a change origin, its body
//! index, its commit time and how many origin lines share its commit. The
//! intensity itself is floating-point and computed from these outside the
//! library.
use vstd::prelude::*;

use crate::app::model::{CommitSummaryV, DiffContent, DiffContentV, DiffHunkV, DiffLineV};
use crate::text::{chars_of, seq_eq};
#[allow(unused_imports)]
use vstd::view::View as _;

verus! {

/// The heatmap input of one line.
#[derive(Debug, Clone, Copy, PartialEq, Eq)]
pub struct HeatInput {
    pub body_index: usize,
    pub timestamp: i64,
    /// Origin lines in the diff blamed to the same commit (this one too).
    pub count: u32,
}

/// The origin lines of some hunks, in order: body index and commit.
pub open spec fn origin_lines(hs: Seq<DiffHunkV>) -> Seq<(usize, CommitSummaryV)>
    decreases hs.len(),
{
    if hs.len() == 0 {
        seq![]
    } else {
        origin_lines(hs.drop_last()) + hunk_origins(hs.last().lines)
    }
}

pub open spec fn hunk_origins(ls: Seq<DiffLineV>) -> Seq<(usize, CommitSummaryV)>
    decreases ls.len(),
{
    if ls.len() == 0 {
        seq![]
    } else {
        hunk_origins(ls.drop_last()) + match ls.last().change_origin {
            Some(c) => seq![(ls.last().body_index, c)],
            None => seq![],
        }
    }
}

/// How many entries are blamed to `oid`.
pub open spec fn occurrences(es: Seq<(usize, CommitSummaryV)>, oid: Seq<char>) -> nat
    decreases es.len(),
{
    if es.len() == 0 {
        0
    } else {
        occurrences(es.drop_last(), oid) + if es.last().1.oid == oid {
            1nat
        } else {
            0nat
        }
    }
}

/// The largest of the counts (0 for none).
pub open spec fn max_count(cs: Seq<u32>) -> u32
    decreases cs.len(),
{
    if cs.len() == 0 {
        0
    } else {
        let m = max_count(cs.drop_last());
        if cs.last() > m {
            cs.last()
        } else {
            m
        }
    }
}

pub open spec fn heat_inputs_of(c: DiffContentV) -> Seq<HeatInput> {
    let es = origin_lines(c.hunks);
    Seq::new(
        es.len(),
        |i: int| HeatInput { body_index: es[i].0, timestamp: es[i].1.timestamp, count: occurrences(es, es[i].1.oid) as u32 },
    )
}

proof fn lemma_occurrences_bound(es: Seq<(usize, CommitSummaryV)>, oid: Seq<char>)
    ensures
        occurrences(es, oid) <= es.len(),
    decreases es.len(),
{
    if es.len() > 0 {
        lemma_occurrences_bound(es.drop_last(), oid);
    }
}

/// The heatmap inputs of a diff and the largest count among them. The diff
/// must not hold more than `u32::MAX` origin lines.
pub fn heat_inputs(content: &DiffContent) -> (r: (Vec<HeatInput>, u32))
    requires
        origin_lines(content.deep_view().hunks).len() <= u32::MAX,
    ensures
        r.0@ == heat_inputs_of(content.deep_view()),
        r.1 == max_count(r.0@.map_values(|h: HeatInput| h.count)),
{
    let ghost hs = content.hunks.deep_view();
    let mut idx: Vec<usize> = Vec::new();
    let mut ts: Vec<i64> = Vec::new();
    let mut oids: Vec<Vec<char>> = Vec::new();
    let ghost mut es: Seq<(usize, CommitSummaryV)> = seq![];
    let mut k: usize = 0;
    while k < content.hunks.len()
        invariant
            k <= content.hunks.len(),
            hs == content.hunks.deep_view(),
            es == origin_lines(hs.take(k as int)),
            idx@.len() == es.len() && ts@.len() == es.len() && oids@.len() == es.len(),
            forall|i: int| 0 <= i < es.len() ==> idx@[i] == es[i].0,
                forall|i: int| 0 <= i < es.len() ==> ts@[i] == es[i].1.timestamp,
                forall|i: int| 0 <= i < es.len() ==> oids@[i]@ == es[i].1.oid,
        decreases content.hunks.len() - k,
    {
        let h = &content.hunks[k];
        let ghost ls = h.lines.deep_view();
        assert(hs[k as int] == h.deep_view());
        assert(hs.take(k + 1).drop_last() =~= hs.take(k as int));
        let ghost base = es;
        let mut j: usize = 0;
        while j < h.lines.len()
            invariant
                j <= h.lines.len(),
                ls == h.lines.deep_view(),
                es == base + hunk_origins(ls.take(j as int)),
                idx@.len() == es.len() && ts@.len() == es.len() && oids@.len() == es.len(),
                forall|i: int| 0 <= i < es.len() ==> idx@[i] == es[i].0,
                forall|i: int| 0 <= i < es.len() ==> ts@[i] == es[i].1.timestamp,
                forall|i: int| 0 <= i < es.len() ==> oids@[i]@ == es[i].1.oid,
            decreases h.lines.len() - j,
        {
            let l = &h.lines[j];
            assert(ls[j as int] == l.deep_view());
            assert(ls.take(j + 1).drop_last() =~= ls.take(j as int));
            match &l.change_origin {
                Some(c) => {
                    idx.push(l.body_index);
                    ts.push(c.timestamp);
                    oids.push(chars_of(c.oid.0.as_str()));
                    proof {
                        es = es.push((l.body_index, c.deep_view()));
                    }
                    assert(es =~= base + hunk_origins(ls.take(j + 1)));
                },
                None => {
                    assert(es =~= base + hunk_origins(ls.take(j + 1)));
                },
            }
            j = j + 1;
        }
        assert(ls.take(ls.len() as int) =~= ls);
        k = k + 1;
    }
    assert(hs.take(hs.len() as int) =~= hs);
    let n = idx.len();
    let mut out: Vec<HeatInput> = Vec::new();
    let mut best: u32 = 0;
    let mut i: usize = 0;
    while i < n
        invariant
            i <= n,
            n == es.len(),
            es.len() <= u32::MAX,
            idx@.len() == es.len() && ts@.len() == es.len() && oids@.len() == es.len(),
            forall|q: int| 0 <= q < es.len() ==> idx@[q] == es[q].0,
            forall|q: int| 0 <= q < es.len() ==> ts@[q] == es[q].1.timestamp,
            forall|q: int| 0 <= q < es.len() ==> oids@[q]@ == es[q].1.oid,
            out@ == heat_inputs_of_prefix(es, i as int),
            best == max_count(out@.map_values(|h: HeatInput| h.count)),
        decreases n - i,
    {
        let mut cnt: u32 = 0;
        let mut m: usize = 0;
        while m < n
            invariant
                m <= n,
                n == es.len(),
                es.len() <= u32::MAX,
                i < n,
                oids@.len() == es.len(),
                forall|q: int| 0 <= q < es.len() ==> oids@[q]@ == es[q].1.oid,
                cnt == occurrences(es.take(m as int), es[i as int].1.oid),
            decreases n - m,
        {
            assert(es.take(m + 1).drop_last() =~= es.take(m as int));
            proof {
                lemma_occurrences_bound(es.take(m as int), es[i as int].1.oid);
            }
            if seq_eq(&oids[m], &oids[i]) {
                cnt = cnt + 1;
            }
            m = m + 1;
        }
        assert(es.take(n as int) =~= es);
        let hi = HeatInput { body_index: idx[i], timestamp: ts[i], count: cnt };
        let ghost before = out@;
        out.push(hi);
        assert(out@ =~= heat_inputs_of_prefix(es, i + 1));
        assert(out@.map_values(|h: HeatInput| h.count) =~= before.map_values(|h: HeatInput| h.count).push(cnt));
        assert(out@.map_values(|h: HeatInput| h.count).drop_last() =~= before.map_values(|h: HeatInput| h.count));
        if cnt > best {
            best = cnt;
        }
        i = i + 1;
    }
    assert(out@ =~= heat_inputs_of(content.deep_view()));
    (out, best)
}

/// The first `n` heatmap inputs of the origin lines `es`.
pub open spec fn heat_inputs_of_prefix(es: Seq<(usize, CommitSummaryV)>, n: int) -> Seq<HeatInput> {
    Seq::new(
        n as nat,
        |i: int| HeatInput { body_index: es[i].0, timestamp: es[i].1.timestamp, count: occurrences(es, es[i].1.oid) as u32 },
    )
}

} // verus!
