use vstd::prelude::*;
use crate::cache::{MessageCache, spec_apply};
use crate::worker::{CompletionRecord, ShardPoll, WorkerAction, WorkerHandle, WorkerState, spec_worker_step, worker_step, plan_workers};

verus! {

/// Tracks completion of the worker pool: `total` workers were spawned and
/// `completed` of them have terminated. The process exits normally once all
/// of them have; until then it keeps running.
pub struct Supervisor {
    pub total: usize,
    pub completed: usize,
}

/// The fixed pause, in seconds, between two looks at worker completions; it
/// only keeps the supervisor from polling in a tight loop.
pub const COMPLETION_POLL_DELAY_SECS: u64 = 5;

impl Supervisor {
    pub open spec fn wf(self) -> bool {
        self.completed <= self.total
    }

    /// A supervisor for `total` freshly spawned workers.
    pub fn new(total: usize) -> (s: Supervisor)
        ensures
            s.wf(),
            s.total == total,
            s.completed == 0,
    {
        Supervisor { total, completed: 0 }
    }

    /// The number of workers spawned, as logged right after spawning.
    pub fn spawned_count(&self) -> (n: usize)
        ensures
            n == self.total,
    {
        self.total
    }

    /// Records that one more worker has completed.
    pub fn on_completion(&mut self)
        requires
            old(self).wf(),
            old(self).completed < old(self).total,
        ensures
            final(self).wf(),
            final(self).total == old(self).total,
            final(self).completed == old(self).completed + 1,
    {
        self.completed = self.completed + 1;
    }

    /// Whether every worker has completed — only then may the process exit.
    pub fn all_done(&self) -> (r: bool)
        ensures
            r == (self.completed == self.total),
    {
        self.completed == self.total
    }

    /// One turn of the supervision loop, deciding on one observation of the
    /// join mechanism: a joined completion is counted and must be logged
    /// with its shard and outcome, followed by the fixed pause; once nothing
    /// is left to join — which the join mechanism reports only after every
    /// spawned worker completed — the loop exits and the process terminates
    /// normally. The exit is commanded only when every worker has completed.
    pub fn supervisor_turn(&mut self, joined: Option<CompletionRecord>) -> (a: SupervisorAction)
        requires
            old(self).wf(),
            joined is Some ==> old(self).completed < old(self).total,
            joined is None ==> old(self).completed == old(self).total,
        ensures
            final(self).wf(),
            final(self).total == old(self).total,
            match joined {
                Option::Some(record) => final(self).completed == old(self).completed + 1 && a
                    == SupervisorAction::LogCompletionAndPause(record),
                Option::None => *final(self) == *old(self) && a == SupervisorAction::ExitNormally,
            },
            a is ExitNormally ==> final(self).completed == final(self).total,
    {
        match joined {
            Option::Some(record) => {
                self.on_completion();
                SupervisorAction::LogCompletionAndPause(record)
            },
            Option::None => SupervisorAction::ExitNormally,
        }
    }
}

/// What the supervision loop does after one observation of the join
/// mechanism.
#[derive(Clone, Copy, Debug, PartialEq, Eq, Structural)]
pub enum SupervisorAction {
    /// Log the completed shard's id and outcome, then pause
    /// `COMPLETION_POLL_DELAY_SECS` seconds before the next look.
    LogCompletionAndPause(CompletionRecord),
    /// Every worker has completed: leave the loop and end the process
    /// normally, with exit code 0.
    ExitNormally,
}

/// How many workers have terminated.
pub open spec fn terminated_count(ws: Seq<WorkerHandle>) -> nat
    decreases ws.len(),
{
    if ws.len() == 0 {
        0
    } else {
        terminated_count(ws.drop_last()) + (if ws.last().state is Terminated {
            1nat
        } else {
            0
        })
    }
}

/// The worker pool together with its supervisor. The supervisor's count is
/// exactly the number of terminated workers, and no two workers ever hold
/// the same shard.
pub struct Pool {
    pub workers: Vec<WorkerHandle>,
    pub supervisor: Supervisor,
}

impl Pool {
    pub open spec fn wf(self) -> bool {
        &&& self.supervisor.total == self.workers@.len()
        &&& self.supervisor.completed == terminated_count(self.workers@)
        &&& forall|i: int, j: int|
            0 <= i < j < self.workers@.len() ==> self.workers@[i].shard_id
                != self.workers@[j].shard_id
    }

    /// Whether every worker has terminated.
    pub open spec fn spec_all_terminated(self) -> bool {
        forall|j: int|
            0 <= j < self.workers@.len() ==> (#[trigger] self.workers@[j]).state
                is Terminated
    }

    /// Spawns exactly one worker per bootstrapped shard connection: the pool
    /// holds as many workers as there are shards, its supervisor reports
    /// that same count as spawned, and none has completed yet.
    pub fn spawn(shard_ids: &Vec<u64>) -> (p: Pool)
        requires
            forall|i: int, j: int|
                0 <= i < j < shard_ids@.len() ==> shard_ids@[i] != shard_ids@[j],
        ensures
            p.wf(),
            p.workers@.len() == shard_ids@.len(),
            p.supervisor.total == shard_ids@.len(),
            p.supervisor.completed == 0,
            forall|i: int|
                0 <= i < p.workers@.len() ==> p.workers@[i] == (WorkerHandle {
                    shard_id: shard_ids@[i],
                    state: WorkerState::Connecting,
                }),
    {
        let workers = plan_workers(shard_ids);
        let supervisor = Supervisor::new(workers.len());
        proof {
            lemma_terminated_count_none(workers@);
        }
        Pool { workers, supervisor }
    }

    /// Applies one poll outcome of worker `i` to the pool and the cache.
    ///
    /// Isolation: only worker `i`'s state changes; every other worker is
    /// untouched. The cache changes exactly by the worker's action: one
    /// applied event, or nothing. The supervisor reports the pool done if
    /// and only if every worker, this one included, has terminated — so the
    /// process outlives every still-active worker.
    pub fn handle_poll(&mut self, i: usize, poll: &ShardPoll, cache: &mut MessageCache)
        requires
            old(self).wf(),
            i < old(self).workers@.len(),
            old(cache).wf(),
        ensures
            final(self).wf(),
            final(self).workers@.len() == old(self).workers@.len(),
            final(self).supervisor.total == old(self).supervisor.total,
            forall|j: int|
                0 <= j < old(self).workers@.len() && j != i ==> final(self).workers@[j]
                    == old(self).workers@[j],
            final(self).workers@[i as int] == spec_worker_step(
                old(self).workers@[i as int],
                *poll,
            ).0,
            final(cache).wf(),
            final(cache).capacity == old(cache).capacity,
            final(cache).contents() == (match spec_worker_step(
                old(self).workers@[i as int],
                *poll,
            ).1 {
                Option::Some(WorkerAction::ApplyToCache(ev)) => spec_apply(
                    old(cache).contents(),
                    old(cache).capacity as nat,
                    ev,
                ),
                _ => old(cache).contents(),
            }),
            (final(self).supervisor.completed == final(self).supervisor.total)
                <==> final(self).spec_all_terminated(),
    {
        let ghost pre = self.workers@;
        let w = self.workers[i];
        let (w2, action) = worker_step(&w, poll);
        self.workers.remove(i);
        self.workers.insert(i, w2);
        proof {
            assert(self.workers@ =~= pre.update(i as int, w2));
            lemma_terminated_count_update(pre, i as int, w2);
        }
        match action {
            Option::Some(WorkerAction::ApplyToCache(ev)) => {
                cache.apply(&ev);
            },
            Option::Some(WorkerAction::EmitCompletion(_)) => {
                proof {
                    assert(!(pre[i as int].state is Terminated));
                    lemma_terminated_count_le(pre);
                    lemma_terminated_count_all(pre);
                }
                self.supervisor.on_completion();
            },
            Option::None => {},
        }
        proof {
            lemma_terminated_count_le(self.workers@);
            lemma_terminated_count_all(self.workers@);
        }
    }
}

/// A pool of workers none of which has terminated counts zero terminations.
proof fn lemma_terminated_count_none(ws: Seq<WorkerHandle>)
    requires
        forall|j: int| 0 <= j < ws.len() ==> !((#[trigger] ws[j]).state is Terminated),
    ensures
        terminated_count(ws) == 0,
    decreases ws.len(),
{
    if ws.len() == 0 {
    } else {
        lemma_terminated_count_none(ws.drop_last());
    }
}

/// At most every worker has terminated.
proof fn lemma_terminated_count_le(ws: Seq<WorkerHandle>)
    ensures
        terminated_count(ws) <= ws.len(),
    decreases ws.len(),
{
    if ws.len() == 0 {
    } else {
        lemma_terminated_count_le(ws.drop_last());
    }
}

/// The count reaches the pool's size exactly when every worker has
/// terminated.
proof fn lemma_terminated_count_all(ws: Seq<WorkerHandle>)
    ensures
        (terminated_count(ws) == ws.len()) <==> (forall|j: int|
            0 <= j < ws.len() ==> (#[trigger] ws[j]).state is Terminated),
    decreases ws.len(),
{
    if ws.len() == 0 {
    } else {
        lemma_terminated_count_all(ws.drop_last());
        lemma_terminated_count_le(ws.drop_last());
        if terminated_count(ws) == ws.len() {
            assert(terminated_count(ws.drop_last()) == ws.drop_last().len());
            assert(ws.last().state is Terminated);
            assert forall|j: int| 0 <= j < ws.len() implies (#[trigger] ws[j]).state
                is Terminated by {
                if j < ws.len() - 1 {
                    assert(ws[j] == ws.drop_last()[j]);
                } else {
                    assert(ws[j] == ws.last());
                }
            }
        }
        if forall|j: int| 0 <= j < ws.len() ==> (#[trigger] ws[j]).state is Terminated {
            assert forall|j: int|
                0 <= j < ws.drop_last().len() implies (#[trigger] ws.drop_last()[j]).state
                is Terminated by {
                assert(ws.drop_last()[j] == ws[j]);
            }
            assert(ws[ws.len() - 1] == ws.last());
            assert(terminated_count(ws.drop_last()) == ws.drop_last().len());
        }
    }
}

/// Replacing one worker changes the termination count by that worker's own
/// change alone.
proof fn lemma_terminated_count_update(ws: Seq<WorkerHandle>, i: int, w: WorkerHandle)
    requires
        0 <= i < ws.len(),
    ensures
        terminated_count(ws.update(i, w)) as int == terminated_count(ws) as int - (if ws[i].state
            is Terminated {
            1int
        } else {
            0
        }) + (if w.state is Terminated {
            1int
        } else {
            0
        }),
    decreases ws.len(),
{
    let t = ws.update(i, w);
    if i == ws.len() - 1 {
        assert(t.drop_last() =~= ws.drop_last());
        assert(t.last() == w);
    } else {
        assert(t.drop_last() =~= ws.drop_last().update(i, w));
        assert(t.last() == ws.last());
        lemma_terminated_count_update(ws.drop_last(), i, w);
    }
}

/// One worker's stream failure is isolated: it leaves every other worker's
/// state untouched, and what any other worker does with its own next poll is
/// the same as if no failure had happened.
pub proof fn lemma_shard_failure_isolation(
    ws: Seq<WorkerHandle>,
    i: int,
    poll: ShardPoll,
    j: int,
    poll2: ShardPoll,
)
    requires
        0 <= i < ws.len(),
        0 <= j < ws.len(),
        j != i,
    ensures
        ws.update(i, spec_worker_step(ws[i], poll).0)[j] == ws[j],
        spec_worker_step(ws.update(i, spec_worker_step(ws[i], poll).0)[j], poll2)
            == spec_worker_step(ws[j], poll2),
{
}

} // verus!
