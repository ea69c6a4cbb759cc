use kady::cache::GatewayEvent;
use kady::worker::{
    plan_workers, worker_step, CompletionRecord, ShardOutcome, ShardPoll, WorkerAction,
    WorkerHandle, WorkerState,
};

#[test]
fn worker_delivery_streams_and_applies() {
    let w = WorkerHandle { shard_id: 7, state: WorkerState::Connecting };
    let ev = GatewayEvent::MessageCreate { channel_id: 1, message_id: 2 };
    let (next, action) = worker_step(&w, &ShardPoll::Delivered(ev));
    assert_eq!(next, WorkerHandle { shard_id: 7, state: WorkerState::Streaming });
    assert_eq!(action, Some(WorkerAction::ApplyToCache(ev)));
}

#[test]
fn worker_stream_error_terminates_with_record() {
    let w = WorkerHandle { shard_id: 7, state: WorkerState::Streaming };
    let (next, action) = worker_step(&w, &ShardPoll::StreamError);
    assert_eq!(next, WorkerHandle { shard_id: 7, state: WorkerState::Terminated });
    assert_eq!(
        action,
        Some(WorkerAction::EmitCompletion(CompletionRecord {
            shard_id: 7,
            outcome: ShardOutcome::StreamError,
        }))
    );
}

#[test]
fn worker_clean_close_completes() {
    let w = WorkerHandle { shard_id: 3, state: WorkerState::Streaming };
    let (next, action) = worker_step(&w, &ShardPoll::Closed);
    assert_eq!(next.state, WorkerState::Terminated);
    assert_eq!(
        action,
        Some(WorkerAction::EmitCompletion(CompletionRecord {
            shard_id: 3,
            outcome: ShardOutcome::Completed,
        }))
    );
}

#[test]
fn worker_termination_is_absorbing() {
    let w = WorkerHandle { shard_id: 7, state: WorkerState::Terminated };
    let ev = GatewayEvent::Other;
    let (next, action) = worker_step(&w, &ShardPoll::Delivered(ev));
    assert_eq!(next, w);
    assert_eq!(action, None);
    let (next2, action2) = worker_step(&w, &ShardPoll::StreamError);
    assert_eq!(next2, w);
    assert_eq!(action2, None);
}

#[test]
fn plan_workers_one_per_shard() {
    let ws = plan_workers(&vec![4, 5, 6]);
    assert_eq!(ws.len(), 3);
    for (i, id) in [4u64, 5, 6].iter().enumerate() {
        assert_eq!(ws[i], WorkerHandle { shard_id: *id, state: WorkerState::Connecting });
    }
}
