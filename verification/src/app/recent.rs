//! The recent-repositories list: most recent first, no duplicates, at most
//! [`MAX_RECENT`] entries.
use vstd::prelude::*;

use crate::dup::vec_push;
use crate::path::{same_path, same_path_exec};
#[allow(unused_imports)]
use vstd::view::View as _;

verus! {

/// How many repositories the list keeps.
pub const MAX_RECENT: usize = 10;

/// The first `n` elements of `s`, or all of `s` when it is shorter.
pub open spec fn cap<A>(s: Seq<A>, n: nat) -> Seq<A> {
    if s.len() <= n {
        s
    } else {
        s.take(n as int)
    }
}

/// Every entry that is not the same path as `path` (compared by
/// components, as `Path` compares).
pub open spec fn other_than(path: Seq<char>) -> spec_fn(Seq<char>) -> bool {
    |p: Seq<char>| !same_path(p, path)
}

/// The list after opening `path`: `path` first, then the earlier entries
/// that are not the same path, in their order, cut to [`MAX_RECENT`].
pub open spec fn recent_after(recent: Seq<Seq<char>>, path: Seq<char>) -> Seq<Seq<char>> {
    cap(seq![path] + recent.filter(other_than(path)), MAX_RECENT as nat)
}

/// Moves `path` to the front of `recent`, deduplicating and capping at ten.
pub fn push_recent(recent: &mut Vec<String>, path: String)
    ensures
        final(recent).deep_view() == recent_after(old(recent).deep_view(), path@),
{
    let ghost pred = other_than(path@);
    let ghost src = recent.deep_view();
    let mut rest: Vec<String> = Vec::new();
    let mut i: usize = 0;
    while i < recent.len()
        invariant
            i <= recent.len(),
            recent.deep_view() == src,
            pred == other_than(path@),
            rest.deep_view() == src.take(i as int).filter(pred),
        decreases recent.len() - i,
    {
        proof {
            assert(src.take(i + 1) =~= src.take(i as int).push(src[i as int]));
            src.take(i as int).lemma_filter_push(src[i as int], pred);
            assert(src[i as int] == recent@[i as int]@);
        }
        if !same_path_exec(recent[i].as_str(), path.as_str()) {
            vec_push(&mut rest, recent[i].clone());
        }
        i = i + 1;
    }
    assert(src.take(src.len() as int) =~= src);
    let mut out: Vec<String> = Vec::new();
    vec_push(&mut out, path);
    let mut k: usize = 0;
    let ghost all = seq![path@] + src.filter(pred);
    assert(out.deep_view() =~= all.take(1));
    while k < rest.len() && out.len() < MAX_RECENT
        invariant
            k <= rest.len(),
            out.len() == k + 1,
            out.len() <= MAX_RECENT,
            rest.deep_view() == src.filter(pred),
            pred == other_than(path@),
            all == seq![path@] + src.filter(pred),
            out.deep_view() == all.take(k + 1),
        decreases rest.len() - k,
    {
        vec_push(&mut out, rest[k].clone());
        assert(all.take(k + 1).push(all[k + 1]) =~= all.take(k + 2));
        k = k + 1;
    }
    assert(out.len() < MAX_RECENT ==> all.take(k + 1) =~= all);
    *recent = out;
}

/// No path occurs twice (compared by components).
pub open spec fn distinct(s: Seq<Seq<char>>) -> bool {
    forall|i: int, j: int| 0 <= i < j < s.len() ==> !same_path(s[i], s[j])
}

/// Opening a repository puts it first, keeps the list free of duplicates and
/// never lets it grow past [`MAX_RECENT`].
pub proof fn lemma_recent_front_distinct_capped(recent: Seq<Seq<char>>, path: Seq<char>)
    requires
        distinct(recent),
    ensures
        recent_after(recent, path).len() >= 1,
        recent_after(recent, path)[0] == path,
        recent_after(recent, path).len() <= MAX_RECENT,
        distinct(recent_after(recent, path)),
        forall|i: int|
            0 <= i < recent_after(recent, path).len() ==> recent.contains(
                #[trigger] recent_after(recent, path)[i],
            ) || recent_after(recent, path)[i] == path,
{
    let pred = other_than(path);
    let f = recent.filter(pred);
    let all = seq![path] + f;
    lemma_filter_distinct(recent, pred);
    assert forall|i: int| 0 <= i < f.len() implies !same_path(f[i], path) && recent.contains(#[trigger] f[i]) by {
        recent.lemma_filter_contains_rev(pred, f[i]);
        recent.lemma_filter_pred(pred, i);
    }
    assert(distinct(all)) by {
        assert forall|i: int, j: int| 0 <= i < j < all.len() implies !same_path(all[i], all[j]) by {
            if i == 0 {
                assert(all[j] == f[j - 1]);
            } else {
                assert(all[i] == f[i - 1] && all[j] == f[j - 1]);
            }
        }
    }
    let r = recent_after(recent, path);
    assert forall|i: int, j: int| 0 <= i < j < r.len() implies !same_path(r[i], r[j]) by {
        assert(r[i] == all[i] && r[j] == all[j]);
    }
    assert forall|i: int| 0 <= i < r.len() implies recent.contains(#[trigger] r[i]) || r[i] == path by {
        assert(r[i] == all[i]);
        if i > 0 {
            assert(all[i] == f[i - 1]);
        }
    }
}

/// Filtering keeps a list free of duplicates.
proof fn lemma_filter_distinct(s: Seq<Seq<char>>, pred: spec_fn(Seq<char>) -> bool)
    requires
        distinct(s),
    ensures
        distinct(s.filter(pred)),
    decreases s.len(),
{
    if s.len() > 0 {
        let init = s.drop_last();
        assert(distinct(init));
        lemma_filter_distinct(init, pred);
        assert(init.push(s.last()) =~= s);
        init.lemma_filter_push(s.last(), pred);
        if pred(s.last()) {
            let f = init.filter(pred);
            assert forall|i: int| 0 <= i < f.len() implies !same_path(f[i], s.last()) by {
                init.lemma_filter_contains_rev(pred, f[i]);
                let k = choose|k: int| 0 <= k < init.len() && init[k] == f[i];
                assert(s[k] == init[k]);
            }
        }
    }
}


// ---------------------------------------------------------------------------
// The JSON store
// ---------------------------------------------------------------------------
/// The list `serde_json::from_slice::<Vec<String>>` reads from these bytes
/// (none when they are not a JSON array of strings).
pub uninterp spec fn recent_json_decode(bytes: Seq<u8>) -> Option<Seq<Seq<char>>>;

/// The bytes `serde_json::to_vec_pretty` writes for this list of strings
/// (none when it fails).
pub uninterp spec fn recent_json_encode(paths: Seq<Seq<char>>) -> Option<Seq<u8>>;

/// `serde_json::from_slice::<Vec<String>>`: its result is named by
/// [`recent_json_decode`].
#[verifier::external_body]
fn decode_paths(bytes: &[u8]) -> (r: Option<Vec<String>>)
    ensures
        (match r {
            Some(v) => Some(v.deep_view()),
            None => None,
        }) == recent_json_decode(bytes@),
{
    serde_json::from_slice::<Vec<String>>(bytes).ok()
}

/// `serde_json::to_vec_pretty` on a list of strings: its result is named
/// by [`recent_json_encode`].
#[verifier::external_body]
fn encode_paths(paths: &Vec<String>) -> (r: Option<Vec<u8>>)
    ensures
        (match r {
            Some(v) => Some(v@),
            None => None,
        }) == recent_json_encode(paths.deep_view()),
{
    serde_json::to_vec_pretty(paths).ok()
}

/// The recent list stored in `bytes`; empty when they do not hold one.
pub fn recent_from_bytes(bytes: &[u8]) -> (r: Vec<String>)
    ensures
        r.deep_view() == (match recent_json_decode(bytes@) {
            Some(v) => v,
            None => Seq::<Seq<char>>::empty(),
        }),
{
    match decode_paths(bytes) {
        Some(v) => v,
        None => {
            let v: Vec<String> = Vec::new();
            assert(v.deep_view() =~= Seq::<Seq<char>>::empty());
            v
        },
    }
}

/// The bytes that store the recent list (pretty JSON).
pub fn recent_to_bytes(paths: &Vec<String>) -> (r: Option<Vec<u8>>)
    ensures
        (match r {
            Some(v) => Some(v@),
            None => None,
        }) == recent_json_encode(paths.deep_view()),
{
    encode_paths(paths)
}

} // verus!
