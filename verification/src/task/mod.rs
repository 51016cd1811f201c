//! Task priorities and the records the background runtime reports.
use vstd::prelude::*;

use crate::app::model::Generation;

verus! {

/// Task priority. `P0` is the most urgent; `P3` the least.
///
/// | Priority | Target |
/// |----------|--------|
/// | P0 | User actions (commit, stage) |
/// | P1 | Visible UI (selected file diff) |
/// | P2 | Near-visible (next history page) |
/// | P3 | Hidden metadata (off-screen branch info) |
#[derive(Debug, Clone, Copy, PartialEq, Eq, Structural, PartialOrd, Ord)]
pub enum Priority {
    P0,
    P1,
    P2,
    P3,
}

/// The urgency rank: smaller is more urgent.
pub open spec fn rank_of(p: Priority) -> u8 {
    match p {
        Priority::P0 => 0,
        Priority::P1 => 1,
        Priority::P2 => 2,
        Priority::P3 => 3,
    }
}

impl Priority {
    /// Numeric rank where a smaller value is more urgent.
    pub fn rank(self) -> (r: u8)
        ensures
            r == rank_of(self),
    {
        match self {
            Priority::P0 => 0,
            Priority::P1 => 1,
            Priority::P2 => 2,
            Priority::P3 => 3,
        }
    }
}

/// A completed task's result, tagged with its submission generation.
#[derive(Debug, Clone, PartialEq, Eq)]
pub struct Outcome<M> {
    pub generation: Generation,
    pub message: M,
}

/// A snapshot of runtime activity.
#[derive(Debug, Clone, Copy, PartialEq, Eq, Default)]
pub struct TaskStats {
    /// Tasks waiting in the queue.
    pub queued: usize,
    /// Tasks currently executing on a worker.
    pub running: usize,
}


/// A task waiting in the queue: its priority, its submission number, the
/// generation it was submitted under, and its work.
pub struct QueuedTask<J> {
    pub priority: Priority,
    pub seq: u64,
    pub generation: Generation,
    pub job: J,
}

/// Whether a task was submitted under a generation older than `g`.
pub open spec fn is_stale<J>(t: QueuedTask<J>, g: Generation) -> bool {
    t.generation.0 < g.0
}

/// Whether `a` is scheduled before `b`: more urgent, or as urgent and
/// submitted earlier.
pub open spec fn runs_before<J>(a: QueuedTask<J>, b: QueuedTask<J>) -> bool {
    rank_of(a.priority) < rank_of(b.priority) || (rank_of(a.priority) == rank_of(b.priority)
        && a.seq < b.seq)
}

/// The tasks left after `t` is taken: all but `t` and the stale tasks
/// scheduled before it (those are dropped unrun).
pub open spec fn left_after<J>(s: Seq<QueuedTask<J>>, t: QueuedTask<J>, g: Generation) -> Seq<QueuedTask<J>>
    decreases s.len(),
{
    if s.len() == 0 {
        s
    } else {
        let u = s[0];
        let rest = left_after(s.drop_first(), t, g);
        if u.seq == t.seq || (is_stale(u, g) && runs_before(u, t)) {
            rest
        } else {
            seq![u] + rest
        }
    }
}

proof fn lemma_left_after<J>(s: Seq<QueuedTask<J>>, t: QueuedTask<J>, g: Generation)
    requires
        forall|a: int, c: int| 0 <= a < c < s.len() ==> s[a].seq < s[c].seq,
    ensures
        forall|a: int, c: int|
            0 <= a < c < left_after(s, t, g).len() ==> left_after(s, t, g)[a].seq < left_after(
                s,
                t,
                g,
            )[c].seq,
        forall|k: int| 0 <= k < left_after(s, t, g).len() ==> s.contains(#[trigger] left_after(s, t, g)[k]),
        forall|k: int| 0 <= k < left_after(s, t, g).len() ==> (#[trigger] left_after(s, t, g)[k]).seq != t.seq,
    decreases s.len(),
{
    if s.len() > 0 {
        let d = s.drop_first();
        lemma_left_after(d, t, g);
        let ld = left_after(d, t, g);
        assert forall|k: int| 0 <= k < ld.len() implies s.contains(#[trigger] ld[k]) && s[0].seq < ld[k].seq by {
            assert(d.contains(ld[k]));
            let i = choose|i: int| 0 <= i < d.len() && d[i] == ld[k];
            assert(s[i + 1] == ld[k]);
        }
        let l = left_after(s, t, g);
        if !(s[0].seq == t.seq || (is_stale(s[0], g) && runs_before(s[0], t))) {
            assert(l == seq![s[0]] + ld);
            assert forall|k: int| 0 <= k < l.len() implies s.contains(#[trigger] l[k]) && l[k].seq != t.seq by {
                if k == 0 {
                    assert(s[0] == l[0]);
                } else {
                    assert(l[k] == ld[k - 1]);
                }
            }
            assert forall|a: int, c: int| 0 <= a < c < l.len() implies l[a].seq < l[c].seq by {
                if a == 0 {
                    assert(l[c] == ld[c - 1]);
                } else {
                    assert(l[a] == ld[a - 1]);
                    assert(l[c] == ld[c - 1]);
                }
            }
        }
    }
}

/// Within one priority, tasks run in submission order: after the queue
/// hands out `t`, every task of the same priority still waiting to run (not
/// stale) was submitted after it.
pub proof fn lemma_fifo_within_priority<J>(
    s: Seq<QueuedTask<J>>,
    g: Generation,
    t: QueuedTask<J>,
    u: QueuedTask<J>,
)
    requires
        forall|a: int, c: int| 0 <= a < c < s.len() ==> s[a].seq < s[c].seq,
        forall|k: int|
            0 <= k < s.len() && !is_stale(#[trigger] s[k], g) && s[k].seq != t.seq ==> runs_before(
                t,
                s[k],
            ),
        left_after(s, t, g).contains(u),
        !is_stale(u, g),
        u.priority == t.priority,
    ensures
        t.seq < u.seq,
{
    lemma_left_after(s, t, g);
    let l = left_after(s, t, g);
    let k = choose|k: int| 0 <= k < l.len() && l[k] == u;
    assert(s.contains(l[k]));
    let i = choose|i: int| 0 <= i < s.len() && s[i] == u;
    assert(runs_before(t, s[i]));
}

/// The priority queue of the background runtime. Tasks run by priority,
/// in submission order within a priority; tasks of an older generation than
/// the current one are dropped instead of run.
pub struct TaskQueue<J> {
    tasks: Vec<QueuedTask<J>>,
    next_seq: u64,
    generation: Generation,
    running: usize,
}

impl<J> TaskQueue<J> {
    /// The waiting tasks, in submission order.
    pub closed spec fn tasks(&self) -> Seq<QueuedTask<J>> {
        self.tasks@
    }

    /// The number of tasks submitted so far.
    pub closed spec fn submitted(&self) -> u64 {
        self.next_seq
    }

    /// The current generation.
    pub closed spec fn current(&self) -> Generation {
        self.generation
    }

    /// The number of tasks taken and not yet finished.
    pub closed spec fn in_flight(&self) -> usize {
        self.running
    }

    #[verifier::type_invariant]
    closed spec fn ordered(&self) -> bool {
        &&& forall|i: int, j: int|
            0 <= i < j < self.tasks@.len() ==> self.tasks@[i].seq < self.tasks@[j].seq
        &&& forall|i: int| 0 <= i < self.tasks@.len() ==> self.tasks@[i].seq <= self.next_seq
    }

    /// An empty queue at generation 0.
    pub fn new() -> (q: Self)
        ensures
            q.tasks() == Seq::<QueuedTask<J>>::empty(),
            q.submitted() == 0,
            q.current() == Generation(0),
            q.in_flight() == 0,
    {
        TaskQueue { tasks: Vec::new(), next_seq: 0, generation: Generation(0), running: 0 }
    }

    /// Queues `job` at `priority` under `generation`; it gets the next
    /// submission number.
    pub fn submit(&mut self, priority: Priority, generation: Generation, job: J)
        requires
            old(self).submitted() < u64::MAX,
        ensures
            final(self).submitted() == old(self).submitted() + 1,
            final(self).tasks() == old(self).tasks().push(
                QueuedTask { priority, seq: final(self).submitted(), generation, job },
            ),
            final(self).current() == old(self).current(),
            final(self).in_flight() == old(self).in_flight(),
    {
        proof {
            use_type_invariant(&*self);
        }
        let seq = self.next_seq + 1;
        let mut v: Vec<QueuedTask<J>> = Vec::new();
        std::mem::swap(&mut v, &mut self.tasks);
        v.push(QueuedTask { priority, seq, generation, job });
        self.next_seq = seq;
        self.tasks = v;
    }

    /// Advances the current generation; it never goes back.
    pub fn set_generation(&mut self, generation: Generation)
        ensures
            final(self).current().0 == (if generation.0 > old(self).current().0 {
                generation.0
            } else {
                old(self).current().0
            }),
            final(self).tasks() == old(self).tasks(),
            final(self).submitted() == old(self).submitted(),
            final(self).in_flight() == old(self).in_flight(),
    {
        proof {
            use_type_invariant(&*self);
        }
        if generation.0 > self.generation.0 {
            self.generation = generation;
        }
    }

    /// The number of tasks submitted so far.
    pub fn submitted_count(&self) -> (r: u64)
        ensures
            r == self.submitted(),
    {
        self.next_seq
    }

    /// The queued and running counts.
    pub fn stats(&self) -> (r: TaskStats)
        ensures
            r.queued == self.tasks().len(),
            r.running == self.in_flight(),
    {
        TaskStats { queued: self.tasks.len(), running: self.running }
    }

    /// Takes the next task to run: the first by priority and submission
    /// order among those of the current generation or newer; the stale tasks
    /// scheduled before it are dropped. With no such task, every waiting
    /// task is stale and all are dropped.
    #[verifier::spinoff_prover]
    pub fn pop_ready(&mut self) -> (r: Option<QueuedTask<J>>)
        requires
            old(self).in_flight() < usize::MAX,
        ensures
            final(self).current() == old(self).current(),
            final(self).submitted() == old(self).submitted(),
            match r {
                None => {
                    &&& forall|k: int|
                        0 <= k < old(self).tasks().len() ==> is_stale(
                            #[trigger] old(self).tasks()[k],
                            old(self).current(),
                        )
                    &&& final(self).tasks() == Seq::<QueuedTask<J>>::empty()
                    &&& final(self).in_flight() == old(self).in_flight()
                },
                Some(t) => {
                    &&& old(self).tasks().contains(t)
                    &&& !is_stale(t, old(self).current())
                    &&& forall|k: int|
                        0 <= k < old(self).tasks().len() && !is_stale(
                            #[trigger] old(self).tasks()[k],
                            old(self).current(),
                        ) && old(self).tasks()[k].seq != t.seq ==> runs_before(
                            t,
                            old(self).tasks()[k],
                        )
                    &&& final(self).tasks() == left_after(old(self).tasks(), t, old(self).current())
                    &&& final(self).in_flight() == old(self).in_flight() + 1
                },
            },
    {
        proof {
            use_type_invariant(&*self);
        }
        let mut v: Vec<QueuedTask<J>> = Vec::new();
        std::mem::swap(&mut v, &mut self.tasks);
        let ghost s = v@;
        assert(s == old(self).tasks());
        let g = self.generation;
        let mut best: Option<usize> = None;
        let mut i: usize = 0;
        while i < v.len()
            invariant
                i <= v.len(),
                s == v@,
                forall|a: int, c: int| 0 <= a < c < s.len() ==> s[a].seq < s[c].seq,
                best matches Some(b) ==> b < i && !is_stale(s[b as int], g) && forall|k: int|
                    0 <= k < i && !is_stale(#[trigger] s[k], g) && k != b ==> runs_before(
                        s[b as int],
                        s[k],
                    ),
                best is None ==> forall|k: int| 0 <= k < i ==> is_stale(#[trigger] s[k], g),
            decreases v.len() - i,
        {
            let t = &v[i];
            if t.generation.0 >= g.0 {
                let better = match best {
                    None => true,
                    Some(b) => {
                        let c = &v[b];
                        t.priority.rank() < c.priority.rank() || (t.priority.rank()
                            == c.priority.rank() && t.seq < c.seq)
                    },
                };
                if better {
                    proof {
                        if let Some(b) = best {
                            assert forall|k: int|
                                0 <= k < i + 1 && !is_stale(#[trigger] s[k], g) && k != i implies runs_before(
                                s[i as int],
                                s[k],
                            ) by {
                                if k != b {
                                    assert(runs_before(s[b as int], s[k]));
                                }
                            }
                        }
                    }
                    best = Some(i);
                } else {
                    proof {
                        let b = best->0;
                        assert(s[b as int].seq < s[i as int].seq);
                    }
                }
            }
            i = i + 1;
        }
        match best {
            None => {
                self.running = self.running;
                None
            },
            Some(b) => {
                let ghost t = s[b as int];
                let t_rank = v[b].priority.rank();
                let t_seq = v[b].seq;
                let mut chosen: Option<QueuedTask<J>> = None;
                let mut j: usize = v.len();
                assert(s.skip(s.len() as int) =~= Seq::<QueuedTask<J>>::empty());
                assert(s.take(s.len() as int) =~= s);
                while j > 0
                    invariant
                        j <= s.len(),
                        b < s.len(),
                        t == s[b as int],
                        t_rank == rank_of(t.priority),
                        t_seq == t.seq,
                        v@ == s.take(j as int) + left_after(s.skip(j as int), t, g),
                        j <= b ==> chosen == Some(t),
                        j > b ==> chosen is None,
                        forall|a: int, c: int| 0 <= a < c < s.len() ==> s[a].seq < s[c].seq,
                    decreases j,
                {
                    j = j - 1;
                    assert(s.skip(j as int).drop_first() =~= s.skip(j + 1));
                    assert(s.skip(j as int)[0] == s[j as int]);
                    assert(v@[j as int] == s[j as int]);
                    let u_seq = v[j].seq;
                    let u_stale = v[j].generation.0 < g.0;
                    let u_rank = v[j].priority.rank();
                    let drop = j == b || (u_stale && (u_rank < t_rank || (u_rank == t_rank && u_seq
                        < t_seq)));
                    proof {
                        if j != b {
                            assert(s[j as int].seq != t.seq);
                        }
                    }
                    if drop {
                        let removed = v.remove(j);
                        if j == b {
                            chosen = Some(removed);
                        }
                        assert(v@ =~= s.take(j as int) + left_after(s.skip(j as int), t, g));
                    } else {
                        assert(s.take(j + 1) =~= s.take(j as int).push(s[j as int]));
                        assert(v@ =~= s.take(j as int) + left_after(s.skip(j as int), t, g));
                    }
                }
                assert(s.skip(0) =~= s);
                assert(s.take(0) =~= Seq::<QueuedTask<J>>::empty());
                assert(v@ =~= left_after(s, t, g));
                proof {
                    lemma_left_after(s, t, g);
                    assert(s.contains(t)) by {
                        assert(s[b as int] == t);
                    }
                }
                self.tasks = v;
                self.running = self.running + 1;
                chosen
            },
        }
    }

    /// Marks a taken task as finished.
    pub fn finish(&mut self)
        requires
            old(self).in_flight() > 0,
        ensures
            final(self).in_flight() == old(self).in_flight() - 1,
            final(self).tasks() == old(self).tasks(),
            final(self).current() == old(self).current(),
            final(self).submitted() == old(self).submitted(),
    {
        proof {
            use_type_invariant(&*self);
        }
        self.running = self.running - 1;
    }
}


} // verus!
