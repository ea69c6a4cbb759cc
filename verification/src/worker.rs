use vstd::prelude::*;
use crate::cache::{GatewayEvent, MessageCache, spec_apply_all};

verus! {

/// The lifecycle of one per-shard worker: it starts connecting, streams
/// events once the first one is delivered, and terminates when its
/// connection ends. Termination is absorbing: a worker is never restarted.
#[derive(Clone, Copy, Debug, PartialEq, Eq, Structural)]
pub enum WorkerState {
    Connecting,
    Streaming,
    Terminated,
}

/// How a shard's event stream ended.
#[derive(Clone, Copy, Debug, PartialEq, Eq, Structural)]
pub enum ShardOutcome {
    /// The stream closed without an error.
    Completed,
    /// The stream terminated with an error. The failure stays local to the
    /// shard's worker.
    StreamError,
}

/// The record a worker hands to the supervisor when it stops.
#[derive(Clone, Copy, Debug, PartialEq, Eq, Structural)]
pub struct CompletionRecord {
    pub shard_id: u64,
    pub outcome: ShardOutcome,
}

/// One worker of the pool; it exclusively owns the connection of shard
/// `shard_id`.
#[derive(Clone, Copy, Debug, PartialEq, Eq, Structural)]
pub struct WorkerHandle {
    pub shard_id: u64,
    pub state: WorkerState,
}

/// What awaiting the next event of a shard connection produced.
#[derive(Clone, Copy, Debug, PartialEq, Eq, Structural)]
pub enum ShardPoll {
    /// The connection delivered the next event.
    Delivered(GatewayEvent),
    /// The connection closed without an error.
    Closed,
    /// The connection terminated with an error.
    StreamError,
}

/// The action a worker takes in reaction to one poll outcome.
#[derive(Clone, Copy, Debug, PartialEq, Eq, Structural)]
pub enum WorkerAction {
    /// Apply the delivered event to the shared cache, under exclusive
    /// mutation access covering only the single apply call.
    ApplyToCache(GatewayEvent),
    /// Emit the completion record to the supervisor and stop.
    EmitCompletion(CompletionRecord),
}

/// One step of the per-shard loop: a delivered event moves the worker to
/// `Streaming` and is applied to the cache; a stream error terminates the
/// worker, which emits its completion record; a terminated worker ignores
/// everything.
pub open spec fn spec_worker_step(w: WorkerHandle, poll: ShardPoll) -> (WorkerHandle, Option<
    WorkerAction,
>) {
    if w.state is Terminated {
        (w, Option::None)
    } else {
        match poll {
            ShardPoll::Delivered(ev) => (
                (WorkerHandle { shard_id: w.shard_id, state: WorkerState::Streaming }),
                Option::Some(WorkerAction::ApplyToCache(ev)),
            ),
            ShardPoll::Closed => (
                (WorkerHandle { shard_id: w.shard_id, state: WorkerState::Terminated }),
                Option::Some(
                    WorkerAction::EmitCompletion(
                        (CompletionRecord {
                            shard_id: w.shard_id,
                            outcome: ShardOutcome::Completed,
                        }),
                    ),
                ),
            ),
            ShardPoll::StreamError => (
                (WorkerHandle { shard_id: w.shard_id, state: WorkerState::Terminated }),
                Option::Some(
                    WorkerAction::EmitCompletion(
                        (CompletionRecord {
                            shard_id: w.shard_id,
                            outcome: ShardOutcome::StreamError,
                        }),
                    ),
                ),
            ),
        }
    }
}

/// Runtime mirror of `spec_worker_step`. The worker never changes shard: the
/// returned handle keeps `shard_id`, and `Terminated` is absorbing.
pub fn worker_step(w: &WorkerHandle, poll: &ShardPoll) -> (r: (WorkerHandle, Option<WorkerAction>))
    ensures
        r == spec_worker_step(*w, *poll),
        r.0.shard_id == w.shard_id,
        w.state is Terminated ==> r.0.state is Terminated,
{
    match w.state {
        WorkerState::Terminated => (*w, None),
        _ => match poll {
            ShardPoll::Delivered(ev) => (
                WorkerHandle { shard_id: w.shard_id, state: WorkerState::Streaming },
                Some(WorkerAction::ApplyToCache(*ev)),
            ),
            ShardPoll::Closed => (
                WorkerHandle { shard_id: w.shard_id, state: WorkerState::Terminated },
                Some(
                    WorkerAction::EmitCompletion(
                        CompletionRecord { shard_id: w.shard_id, outcome: ShardOutcome::Completed },
                    ),
                ),
            ),
            ShardPoll::StreamError => (
                WorkerHandle { shard_id: w.shard_id, state: WorkerState::Terminated },
                Some(
                    WorkerAction::EmitCompletion(
                        CompletionRecord { shard_id: w.shard_id, outcome: ShardOutcome::StreamError },
                    ),
                ),
            ),
        },
    }
}

/// Drives one shard's delivered events into the cache, one at a time, in
/// delivery order. The final contents equal the one-at-a-time fold of the
/// same sequence over the cache: within a shard no event is lost, duplicated
/// or reordered by the worker loop.
pub fn run_shard_events(cache: MessageCache, events: &Vec<GatewayEvent>) -> (r: MessageCache)
    requires
        cache.wf(),
    ensures
        r.wf(),
        r.capacity == cache.capacity,
        r.contents() == spec_apply_all(cache.contents(), cache.capacity as nat, events@),
{
    let ghost m0 = cache.contents();
    let ghost k = cache.capacity as nat;
    let mut c = cache;
    let mut i: usize = 0;
    let n = events.len();
    while i < n
        invariant
            i <= n,
            n == events@.len(),
            c.wf(),
            c.capacity as nat == k,
            c.contents() == spec_apply_all(m0, k, events@.take(i as int)),
        decreases n - i,
    {
        c.apply(&events[i]);
        proof {
            assert(events@.take(i as int + 1).drop_last() =~= events@.take(i as int));
            assert(events@.take(i as int + 1).last() == events@[i as int]);
        }
        i = i + 1;
    }
    proof {
        assert(events@.take(n as int) =~= events@);
    }
    c
}

/// One worker per shard connection, in order: worker `i` owns shard
/// `shard_ids[i]` and starts out connecting.
pub fn plan_workers(shard_ids: &Vec<u64>) -> (ws: Vec<WorkerHandle>)
    ensures
        ws@.len() == shard_ids@.len(),
        forall|i: int|
            0 <= i < ws@.len() ==> ws@[i] == (WorkerHandle {
                shard_id: shard_ids@[i],
                state: WorkerState::Connecting,
            }),
{
    let mut ws: Vec<WorkerHandle> = Vec::new();
    let mut i: usize = 0;
    let n = shard_ids.len();
    while i < n
        invariant
            i <= n,
            n == shard_ids@.len(),
            ws@.len() == i,
            forall|j: int|
                0 <= j < i ==> ws@[j] == (WorkerHandle {
                    shard_id: shard_ids@[j],
                    state: WorkerState::Connecting,
                }),
        decreases n - i,
    {
        ws.push(WorkerHandle { shard_id: shard_ids[i], state: WorkerState::Connecting });
        i = i + 1;
    }
    ws
}

} // verus!
