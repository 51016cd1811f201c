//! In-memory caches for Git-derived data and their invalidation rules.
//!
//! - Diff and blame caches are keyed by HEAD object id and file path (the
//!   repository is the owning [`RepoCaches`]); paths are compared by their
//!   components, as `Path` compares them.
//! - A working-tree change invalidates only the entries of the changed paths.
//! - A HEAD change invalidates diff, blame, history, branch health and
//!   ahead/behind.
use std::sync::Arc;
use vstd::prelude::*;

use crate::app::model::{BranchInfo, CommitSummary, DiffContent, Oid};
use crate::git::service::CommitInfo;
use crate::path::{path_parts, same_path_exec};

verus! {

/// `Arc::clone`: a second handle to the same shared value.
#[verifier::external_body]
fn share<V>(a: &Arc<V>) -> (r: Arc<V>)
    ensures
        *r == **a,
{
    Arc::clone(a)
}

/// Cache key: HEAD object id and file path.
#[derive(Debug, Clone, PartialEq, Eq, Hash)]
pub struct CacheKey {
    pub head: Oid,
    pub path: String,
}

pub struct CacheKeyV {
    pub head: Seq<char>,
    /// The components of the path.
    pub path: Seq<Seq<char>>,
}

impl DeepView for CacheKey {
    type V = CacheKeyV;

    open spec fn deep_view(&self) -> CacheKeyV {
        CacheKeyV { head: self.head.deep_view(), path: path_parts(self.path@) }
    }
}

impl CacheKey {
    pub fn new(head: Oid, path: String) -> (r: CacheKey)
        ensures
            r.deep_view() == (CacheKeyV { head: head.deep_view(), path: path_parts(path@) }),
    {
        CacheKey { head, path }
    }

    fn same(&self, other: &CacheKey) -> (r: bool)
        ensures
            r == (self.deep_view() == other.deep_view()),
    {
        self.head.same(&other.head) && same_path_exec(self.path.as_str(), other.path.as_str())
    }
}

/// A `(HEAD, path)`-keyed cache holding shared values; each key occurs once.
pub struct Cache<V> {
    entries: Vec<(CacheKey, Arc<V>)>,
}

/// The keys of a list of cache entries, in order.
pub open spec fn entry_keys<V>(es: Seq<(CacheKey, Arc<V>)>) -> Seq<CacheKeyV> {
    es.map_values(|e: (CacheKey, Arc<V>)| e.0.deep_view())
}

/// The map a list of entries with distinct keys stands for.
pub open spec fn entries_map<V>(es: Seq<(CacheKey, Arc<V>)>) -> Map<CacheKeyV, V> {
    Map::new(
        |k: CacheKeyV| entry_keys(es).contains(k),
        |k: CacheKeyV| *es[entry_keys(es).index_of(k)].1,
    )
}

impl<V> View for Cache<V> {
    type V = Map<CacheKeyV, V>;

    closed spec fn view(&self) -> Map<CacheKeyV, V> {
        entries_map(self.entries@)
    }
}

impl<V> Cache<V> {
    #[verifier::type_invariant]
    spec fn inv(self) -> bool {
        entry_keys(self.entries@).no_duplicates()
    }

    /// Creates an empty cache.
    pub fn new() -> (r: Cache<V>)
        ensures
            r@ == Map::<CacheKeyV, V>::empty(),
    {
        let r = Cache { entries: Vec::new() };
        assert(r@ =~= Map::<CacheKeyV, V>::empty());
        r
    }

    fn find(&self, key: &CacheKey) -> (r: Option<usize>)
        ensures
            r matches Some(i) ==> i < self.entries@.len() && self.entries@[i as int].0.deep_view()
                == key.deep_view(),
            r is None ==> !entry_keys(self.entries@).contains(key.deep_view()),
    {
        let mut i: usize = 0;
        while i < self.entries.len()
            invariant
                i <= self.entries.len(),
                forall|k: int| 0 <= k < i ==> self.entries@[k].0.deep_view() != key.deep_view(),
            decreases self.entries.len() - i,
        {
            if self.entries[i].0.same(key) {
                return Some(i);
            }
            i = i + 1;
        }
        proof {
            if entry_keys(self.entries@).contains(key.deep_view()) {
                let k = choose|k: int| 0 <= k < entry_keys(self.entries@).len() && entry_keys(self.entries@)[k] == key.deep_view();
                assert(self.entries@[k].0.deep_view() == key.deep_view());
            }
        }
        None
    }

    /// Looks up a cached value.
    pub fn get(&self, key: &CacheKey) -> (r: Option<Arc<V>>)
        ensures
            r matches Some(v) ==> self@.contains_key(key.deep_view()) && *v == self@[key.deep_view()],
            r is None ==> !self@.contains_key(key.deep_view()),
    {
        proof {
            use_type_invariant(self);
        }
        match self.find(key) {
            Some(i) => {
                proof {
                    let ks = entry_keys(self.entries@);
                    assert(ks[i as int] == key.deep_view());
                    ks.index_of_first_ensures(key.deep_view());
                    assert(ks.contains(key.deep_view()));
                    lemma_index_of_unique(ks, i as int);
                }
                Some(share(&self.entries[i].1))
            },
            None => None,
        }
    }

    /// Inserts a value and returns the shared handle.
    pub fn insert(&mut self, key: CacheKey, value: V) -> (r: Arc<V>)
        ensures
            final(self)@ == old(self)@.insert(key.deep_view(), value),
            *r == value,
            final(self)@.dom().finite(),
            final(self)@.len() == old(self)@.len() + (if old(self)@.contains_key(key.deep_view()) {
                0int
            } else {
                1int
            }),
    {
        proof {
            use_type_invariant(&*self);
            lemma_entries_finite(self.entries@);
        }
        let shared = Arc::new(value);
        let ghost kv = key.deep_view();
        let ghost old_es = self.entries@;
        let ghost ks = entry_keys(old_es);
        match self.find(&key) {
            Some(i) => {
                let mut es: Vec<(CacheKey, Arc<V>)> = Vec::new();
                std::mem::swap(&mut es, &mut self.entries);
                es.set(i, (key, share(&shared)));
                proof {
                    assert(ks[i as int] == kv);
                    assert(ks.contains(kv));
                    assert(entry_keys(es@) =~= ks.update(i as int, kv));
                    assert(ks.update(i as int, kv) =~= ks);
                    lemma_index_of_unique(ks, i as int);
                    assert(entries_map(es@).dom() =~= entries_map(old_es).insert(kv, value).dom());
                    assert(entries_map(es@) =~= entries_map(old_es).insert(kv, value)) by {
                        assert forall|k: CacheKeyV| #[trigger] entries_map(es@).contains_key(k) implies entries_map(es@)[k] == entries_map(old_es).insert(kv, value)[k] by {
                            assert(entry_keys(es@) == ks);
                            let j = ks.index_of(k);
                            ks.index_of_first_ensures(k);
                            lemma_index_of_unique(ks, j);
                            if k == kv {
                                assert(j == i);
                                assert(*es@[i as int].1 == value);
                            } else {
                                assert(j != i);
                                assert(es@[j] == old_es[j]);
                            }
                        }
                    }
                }
                self.entries = es;
            },
            None => {
                let mut es: Vec<(CacheKey, Arc<V>)> = Vec::new();
                std::mem::swap(&mut es, &mut self.entries);
                es.push((key, share(&shared)));
                proof {
                    assert(entry_keys(es@) =~= ks.push(kv));
                    lemma_push_distinct(ks, kv);
                    let n = ks.len() as int;
                    lemma_index_of_unique(ks.push(kv), n);
                    assert forall|k: CacheKeyV| ks.push(kv).contains(k) <==> (ks.contains(k) || k == kv) by {
                        if ks.contains(k) {
                            let w = choose|w: int| 0 <= w < ks.len() && ks[w] == k;
                            assert(ks.push(kv)[w] == k);
                        }
                        if k == kv {
                            assert(ks.push(kv)[ks.len() as int] == kv);
                        }
                        if ks.push(kv).contains(k) && k != kv {
                            let w = choose|w: int| 0 <= w < ks.push(kv).len() && ks.push(kv)[w] == k;
                            assert(ks[w] == k);
                        }
                    }
                    assert(entries_map(es@).dom() =~= entries_map(old_es).insert(kv, value).dom());
                    assert(entries_map(es@) =~= entries_map(old_es).insert(kv, value)) by {
                        assert forall|k: CacheKeyV| #[trigger] entries_map(es@).contains_key(k) implies entries_map(es@)[k] == entries_map(old_es).insert(kv, value)[k] by {
                            if k != kv {
                                assert(ks.push(kv).contains(k));
                                let w = choose|w: int| 0 <= w < ks.push(kv).len() && ks.push(kv)[w] == k;
                                assert(w < ks.len());
                                assert(ks[w] == k);
                                let j = ks.index_of(k);
                                ks.index_of_first_ensures(k);
                                lemma_index_of_unique(ks, j);
                                assert(ks.push(kv)[j] == k);
                                lemma_index_of_unique(ks.push(kv), j);
                            }
                        }
                    }
                }
                self.entries = es;
            },
        }
        proof {
            lemma_entries_finite(self.entries@);
        }
        shared
    }

    /// Invalidates every entry for `path`, whatever its HEAD.
    pub fn invalidate_path(&mut self, path: &str)
        ensures
            final(self)@ == old(self)@.remove_keys(Set::new(|k: CacheKeyV| k.path == path_parts(path@))),
            final(self)@.dom().finite(),
            final(self)@.len() == old(self)@.len() - old(self)@.dom().filter(|k: CacheKeyV| k.path == path_parts(path@)).len(),
    {
        proof {
            use_type_invariant(&*self);
            lemma_entries_finite(self.entries@);
        }
        let ghost old_es = self.entries@;
        let ghost pp = path_parts(path@);
        let ghost pred = other_path::<V>(pp);
        let mut es: Vec<(CacheKey, Arc<V>)> = Vec::new();
        std::mem::swap(&mut es, &mut self.entries);
        let mut kept: Vec<(CacheKey, Arc<V>)> = Vec::new();
        let ghost mut i: int = 0;
        assert(old_es.skip(0) =~= old_es);
        while es.len() > 0
            invariant
                0 <= i <= old_es.len(),
                es@ == old_es.skip(i),
                pred == other_path::<V>(pp),
                pp == path_parts(path@),
                kept@ == old_es.take(i).filter(pred),
            decreases es.len(),
        {
            let e = es.remove(0);
            proof {
                assert(e == old_es[i]);
                assert(old_es.take(i + 1) =~= old_es.take(i).push(old_es[i]));
                old_es.take(i).lemma_filter_push(old_es[i], pred);
                assert(old_es.skip(i).drop_first() =~= old_es.skip(i + 1));
            }
            if !same_path_exec(e.0.path.as_str(), path) {
                kept.push(e);
            }
            proof {
                i = i + 1;
            }
        }
        proof {
            assert(old_es.take(i) =~= old_es);
            lemma_filter_entries(old_es, pp);
            lemma_entries_finite(kept@);
            let d = entries_map(old_es).dom();
            let gone = Set::new(|k: CacheKeyV| k.path == pp);
            lemma_remove_len(d, gone);
            assert(entries_map(kept@).dom() =~= d.difference(gone));
            assert(d.filter(|k: CacheKeyV| k.path == path_parts(path@)) =~= d.intersect(gone));
        }
        self.entries = kept;
    }

    /// Clears the whole cache (used on HEAD change, since entries are scoped
    /// to a HEAD).
    pub fn clear(&mut self)
        ensures
            final(self)@ == Map::<CacheKeyV, V>::empty(),
    {
        self.entries = Vec::new();
        assert(self@ =~= Map::<CacheKeyV, V>::empty());
    }

    /// Number of cached entries.
    pub fn len(&self) -> (r: usize)
        ensures
            r == self@.len(),
    {
        proof {
            use_type_invariant(self);
            let ks = entry_keys(self.entries@);
            ks.unique_seq_to_set();
            assert(self@.dom() =~= ks.to_set());
        }
        self.entries.len()
    }

    /// True when the cache is empty.
    pub fn is_empty(&self) -> (r: bool)
        ensures
            r == (self@ == Map::<CacheKeyV, V>::empty()),
    {
        proof {
            if self.entries@.len() > 0 {
                assert(entry_keys(self.entries@)[0] == self.entries@[0].0.deep_view());
                assert(self@.contains_key(self.entries@[0].0.deep_view()));
            } else {
                assert(self@ =~= Map::<CacheKeyV, V>::empty());
            }
        }
        self.entries.len() == 0
    }
}

/// A single value scoped to a HEAD (such as a history page or a branch
/// health snapshot); reads miss once HEAD has moved.
pub struct HeadScoped<V> {
    head: Option<Oid>,
    value: Option<Arc<V>>,
}

impl<V> View for HeadScoped<V> {
    type V = Option<(Seq<char>, V)>;

    closed spec fn view(&self) -> Option<(Seq<char>, V)> {
        match (self.head, self.value) {
            (Some(h), Some(v)) => Some((h.deep_view(), *v)),
            _ => None,
        }
    }
}

impl<V> HeadScoped<V> {
    #[verifier::type_invariant]
    spec fn inv(self) -> bool {
        self.head.is_some() == self.value.is_some()
    }

    /// Creates an empty holder.
    pub fn new() -> (r: HeadScoped<V>)
        ensures
            r@ is None,
    {
        HeadScoped { head: None, value: None }
    }

    /// Returns the value if it was stored for `current`.
    pub fn get(&self, current: &Oid) -> (r: Option<Arc<V>>)
        ensures
            r matches Some(v) ==> self@ == Some((current.deep_view(), *v)),
            r is None ==> !(self@ matches Some(p) && p.0 == current.deep_view()),
    {
        proof {
            use_type_invariant(self);
        }
        match (&self.head, &self.value) {
            (Some(head), Some(value)) => {
                if head.same(current) {
                    Some(share(value))
                } else {
                    None
                }
            },
            _ => None,
        }
    }

    /// Stores a value for `head`.
    pub fn set(&mut self, head: Oid, value: V) -> (r: Arc<V>)
        ensures
            final(self)@ == Some((head.deep_view(), value)),
            *r == value,
    {
        let shared = Arc::new(value);
        *self = HeadScoped { head: Some(head), value: Some(share(&shared)) };
        shared
    }

    /// Invalidates the stored value.
    pub fn invalidate(&mut self)
        ensures
            final(self)@ is None,
    {
        *self = HeadScoped { head: None, value: None };
    }

    /// True when nothing is cached.
    pub fn is_empty(&self) -> (r: bool)
        ensures
            r == (self@ is None),
    {
        proof {
            use_type_invariant(self);
        }
        self.value.is_none()
    }
}

/// Ahead/behind counts per branch name.
pub type AheadBehind = Vec<(String, u32, u32)>;

/// The components of each path.
pub open spec fn parts_of(paths: Seq<Seq<char>>) -> Seq<Seq<Seq<char>>> {
    paths.map_values(|p: Seq<char>| path_parts(p))
}

/// The keys of paths with the given components.
pub open spec fn keys_of_paths(parts: Seq<Seq<Seq<char>>>) -> Set<CacheKeyV> {
    Set::new(|k: CacheKeyV| parts.contains(k.path))
}

/// All caches of one repository, with the invalidation policy applied.
pub struct RepoCaches {
    pub diff: Cache<DiffContent>,
    pub blame: Cache<Vec<CommitInfo>>,
    pub history: HeadScoped<Vec<CommitSummary>>,
    pub branch_health: HeadScoped<Vec<BranchInfo>>,
    pub ahead_behind: HeadScoped<AheadBehind>,
}

impl RepoCaches {
    /// Creates empty caches.
    pub fn new() -> (r: RepoCaches)
        ensures
            r.diff@ == Map::<CacheKeyV, DiffContent>::empty(),
            r.blame@ == Map::<CacheKeyV, Vec<CommitInfo>>::empty(),
            r.history@ is None,
            r.branch_health@ is None,
            r.ahead_behind@ is None,
    {
        RepoCaches {
            diff: Cache::new(),
            blame: Cache::new(),
            history: HeadScoped::new(),
            branch_health: HeadScoped::new(),
            ahead_behind: HeadScoped::new(),
        }
    }

    /// Invalidates only the diff and blame entries of the changed paths.
    pub fn on_working_tree_change(&mut self, paths: &Vec<String>)
        ensures
            final(self).diff@ == old(self).diff@.remove_keys(keys_of_paths(parts_of(paths.deep_view()))),
            final(self).blame@ == old(self).blame@.remove_keys(keys_of_paths(parts_of(paths.deep_view()))),
            final(self).history@ == old(self).history@,
            final(self).branch_health@ == old(self).branch_health@,
            final(self).ahead_behind@ == old(self).ahead_behind@,
    {
        let ghost pd = parts_of(paths.deep_view());
        let ghost d0 = self.diff@;
        let ghost b0 = self.blame@;
        let mut i: usize = 0;
        assert(d0 =~= d0.remove_keys(keys_of_paths(pd.take(0))));
        assert(b0 =~= b0.remove_keys(keys_of_paths(pd.take(0))));
        while i < paths.len()
            invariant
                i <= paths.len(),
                pd == parts_of(paths.deep_view()),
                self.diff@ == d0.remove_keys(keys_of_paths(pd.take(i as int))),
                self.blame@ == b0.remove_keys(keys_of_paths(pd.take(i as int))),
                self.history@ == old(self).history@,
                self.branch_health@ == old(self).branch_health@,
                self.ahead_behind@ == old(self).ahead_behind@,
            decreases paths.len() - i,
        {
            let p = paths[i].as_str();
            self.diff.invalidate_path(p);
            self.blame.invalidate_path(p);
            proof {
                assert(pd[i as int] == path_parts(paths@[i as int]@));
                let before = keys_of_paths(pd.take(i as int));
                let after = keys_of_paths(pd.take(i + 1));
                let one = Set::new(|k: CacheKeyV| k.path == pd[i as int]);
                assert(pd.take(i + 1) =~= pd.take(i as int).push(pd[i as int]));
                assert forall|k: CacheKeyV| after.contains(k) <==> before.contains(k) || one.contains(k) by {
                    if pd.take(i as int).contains(k.path) {
                        let w = choose|w: int| 0 <= w < i && #[trigger] pd.take(i as int)[w] == k.path;
                        assert(pd.take(i + 1)[w] == k.path);
                    }
                    if k.path == pd[i as int] {
                        assert(pd.take(i + 1)[i as int] == k.path);
                    }
                    if pd.take(i + 1).contains(k.path) && k.path != pd[i as int] {
                        let w = choose|w: int| 0 <= w < i + 1 && #[trigger] pd.take(i + 1)[w] == k.path;
                        assert(w < i);
                        assert(pd.take(i as int)[w] == k.path);
                    }
                }
                assert(d0.remove_keys(before).remove_keys(one) =~= d0.remove_keys(after));
                assert(b0.remove_keys(before).remove_keys(one) =~= b0.remove_keys(after));
            }
            i = i + 1;
        }
        assert(pd.take(pd.len() as int) =~= pd);
    }

    /// Invalidates everything that depends on HEAD: diff, blame, history,
    /// branch health and ahead/behind.
    pub fn on_head_change(&mut self)
        ensures
            final(self).diff@ == Map::<CacheKeyV, DiffContent>::empty(),
            final(self).blame@ == Map::<CacheKeyV, Vec<CommitInfo>>::empty(),
            final(self).history@ is None,
            final(self).branch_health@ is None,
            final(self).ahead_behind@ is None,
    {
        self.diff.clear();
        self.blame.clear();
        self.history.invalidate();
        self.branch_health.invalidate();
        self.ahead_behind.invalidate();
    }
}

/// A read gives back what a write stored: after `insert(k, v)` the cache
/// maps `k` to `v` and every other key as before.
pub proof fn lemma_cache_read_after_write<V>(m: Map<CacheKeyV, V>, k: CacheKeyV, v: V, other: CacheKeyV)
    requires
        other != k,
    ensures
        m.insert(k, v).contains_key(k),
        m.insert(k, v)[k] == v,
        m.insert(k, v).contains_key(other) == m.contains_key(other),
        m.contains_key(other) ==> m.insert(k, v)[other] == m[other],
{
}

/// Invalidating a path removes exactly that path's entries: entries of other
/// paths keep their values.
pub proof fn lemma_invalidate_path_keeps_others<V>(m: Map<CacheKeyV, V>, path: Seq<Seq<char>>, k: CacheKeyV)
    ensures
        k.path == path ==> !m.remove_keys(Set::new(|x: CacheKeyV| x.path == path)).contains_key(k),
        k.path != path ==> (m.remove_keys(Set::new(|x: CacheKeyV| x.path == path)).contains_key(k)
            == m.contains_key(k)),
        k.path != path && m.contains_key(k) ==> m.remove_keys(Set::new(|x: CacheKeyV| x.path == path))[k] == m[k],
{
}

/// A value stored for one HEAD is not returned for another.
pub proof fn lemma_head_scoped_misses_after_move<V>(head: Seq<char>, v: V, current: Seq<char>)
    requires
        head != current,
    ensures
        !(Some((head, v)) matches Some(p) && p.0 == current),
{
}

/// In a list without duplicates, `index_of` finds the one position of an
/// element.
proof fn lemma_entries_finite<V>(es: Seq<(CacheKey, Arc<V>)>)
    ensures
        entries_map(es).dom() == entry_keys(es).to_set(),
        entries_map(es).dom().finite(),
{
    assert(entries_map(es).dom() =~= entry_keys(es).to_set());
    vstd::seq_lib::seq_to_set_is_finite(entry_keys(es));
}

proof fn lemma_remove_len<A>(d: Set<A>, s: Set<A>)
    requires
        d.finite(),
    ensures
        d.difference(s).len() == d.len() - d.intersect(s).len(),
{
    let n = d.difference(s);
    let p = d.intersect(s);
    vstd::set_lib::lemma_len_subset(n, d);
    vstd::set_lib::lemma_len_subset(p, d);
    vstd::set_lib::lemma_set_intersect_union_lens(n, p);
    assert(n + p =~= d);
    assert(n.intersect(p) =~= Set::empty());
}

proof fn lemma_index_of_unique(ks: Seq<CacheKeyV>, i: int)
    requires
        ks.no_duplicates(),
        0 <= i < ks.len(),
    ensures
        ks.index_of(ks[i]) == i,
{
    ks.index_of_first_ensures(ks[i]);
    let j = ks.index_of(ks[i]);
    assert(ks.contains(ks[i]));
    assert(0 <= j < ks.len() && ks[j] == ks[i]);
}

proof fn lemma_push_distinct(ks: Seq<CacheKeyV>, k: CacheKeyV)
    requires
        ks.no_duplicates(),
        !ks.contains(k),
    ensures
        ks.push(k).no_duplicates(),
{
    let p = ks.push(k);
    assert forall|i: int, j: int| 0 <= i < p.len() && 0 <= j < p.len() && i != j implies p[i] != p[j] by {
        if i < ks.len() && j < ks.len() {
            assert(p[i] == ks[i] && p[j] == ks[j]);
        } else if i < ks.len() {
            assert(p[i] == ks[i]);
        } else {
            assert(p[j] == ks[j]);
        }
    }
}


/// Entries whose key is not for the path with components `path`.
pub open spec fn other_path<V>(path: Seq<Seq<char>>) -> spec_fn((CacheKey, Arc<V>)) -> bool {
    |e: (CacheKey, Arc<V>)| path_parts(e.0.path@) != path
}

/// Dropping the entries of one path keeps the keys distinct and removes
/// exactly that path's keys from the map.
proof fn lemma_filter_entries<V>(es: Seq<(CacheKey, Arc<V>)>, path: Seq<Seq<char>>)
    requires
        entry_keys(es).no_duplicates(),
    ensures
        entry_keys(es.filter(other_path::<V>(path))).no_duplicates(),
        entries_map(es.filter(other_path::<V>(path))) == entries_map(es).remove_keys(
            Set::new(|k: CacheKeyV| k.path == path),
        ),
{
    let pred = other_path::<V>(path);
    let f = es.filter(pred);
    let ks = entry_keys(es);
    let fk = entry_keys(f);
    // every kept entry is an entry of `es`
    assert forall|j: int| #![trigger f[j]] 0 <= j < f.len() implies exists|m: int| 0 <= m < es.len() && #[trigger] es[m] == f[j] && pred(f[j]) by {
        es.lemma_filter_contains_rev(pred, f[j]);
        es.lemma_filter_pred(pred, j);
    }
    assert forall|a: int, b: int| 0 <= a < fk.len() && 0 <= b < fk.len() && a != b implies fk[a] != fk[b] by {
        lemma_filter_order(es, pred, a, b);
        let (ma, mb) = choose|ma: int, mb: int|
            0 <= ma < es.len() && 0 <= mb < es.len() && ma != mb && es[ma] == f[a] && es[mb] == f[b];
        assert(fk[a] == ks[ma] && fk[b] == ks[mb]);
    }
    let target = entries_map(es).remove_keys(Set::new(|k: CacheKeyV| k.path == path));
    assert forall|k: CacheKeyV| fk.contains(k) <==> target.contains_key(k) by {
        if fk.contains(k) {
            let j = choose|j: int| 0 <= j < fk.len() && fk[j] == k;
            let m = choose|m: int| 0 <= m < es.len() && #[trigger] es[m] == f[j] && pred(f[j]);
            assert(ks[m] == k);
        }
        if target.contains_key(k) {
            let m = choose|m: int| 0 <= m < ks.len() && ks[m] == k;
            assert(pred(es[m]));
            es.lemma_filter_contains(pred, m);
            let j = choose|j: int| 0 <= j < f.len() && f[j] == es[m];
            assert(fk[j] == k);
        }
    }
    assert forall|k: CacheKeyV| #[trigger] fk.contains(k) implies *f[fk.index_of(k)].1 == *es[ks.index_of(k)].1 by {
        fk.index_of_first_ensures(k);
        let j = fk.index_of(k);
        let m = choose|m: int| 0 <= m < es.len() && #[trigger] es[m] == f[j] && pred(f[j]);
        assert(ks[m] == k);
        lemma_index_of_unique(ks, m);
    }
    assert(entries_map(f) =~= target);
}

/// Filtering keeps relative order: distinct positions of the result come
/// from distinct positions of the source.
proof fn lemma_filter_order<A>(s: Seq<A>, pred: spec_fn(A) -> bool, a: int, b: int)
    requires
        0 <= a < s.filter(pred).len(),
        0 <= b < s.filter(pred).len(),
        a != b,
    ensures
        exists|ma: int, mb: int|
            0 <= ma < s.len() && 0 <= mb < s.len() && ma != mb && s[ma] == s.filter(pred)[a]
                && s[mb] == s.filter(pred)[b],
    decreases s.len(),
{
    let init = s.drop_last();
    assert(init.push(s.last()) =~= s);
    init.lemma_filter_push(s.last(), pred);
    let fi = init.filter(pred);
    if pred(s.last()) {
        let n = fi.len() as int;
        if a < n && b < n {
            lemma_filter_order(init, pred, a, b);
            let (ma, mb) = choose|ma: int, mb: int|
                0 <= ma < init.len() && 0 <= mb < init.len() && ma != mb && init[ma] == fi[a]
                    && init[mb] == fi[b];
            assert(s[ma] == init[ma] && s[mb] == init[mb]);
        } else if a < n {
            init.lemma_filter_contains_rev(pred, fi[a]);
            let ma = choose|m: int| 0 <= m < init.len() && init[m] == fi[a];
            assert(s[ma] == init[ma]);
            assert(s[s.len() - 1] == s.filter(pred)[b]);
        } else {
            init.lemma_filter_contains_rev(pred, fi[b]);
            let mb = choose|m: int| 0 <= m < init.len() && init[m] == fi[b];
            assert(s[mb] == init[mb]);
            assert(s[s.len() - 1] == s.filter(pred)[a]);
        }
    } else {
        lemma_filter_order(init, pred, a, b);
        let (ma, mb) = choose|ma: int, mb: int|
            0 <= ma < init.len() && 0 <= mb < init.len() && ma != mb && init[ma] == fi[a]
                && init[mb] == fi[b];
        assert(s[ma] == init[ma] && s[mb] == init[mb]);
    }
}

} // verus!
