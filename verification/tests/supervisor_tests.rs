use kady::cache::{GatewayEvent, MessageCache};
use kady::supervisor::{Pool, Supervisor, SupervisorAction, COMPLETION_POLL_DELAY_SECS};
use kady::worker::{CompletionRecord, ShardOutcome, ShardPoll, WorkerState};

fn message(channel_id: u64, message_id: u64) -> GatewayEvent {
    GatewayEvent::MessageCreate { channel_id, message_id }
}

fn channel_messages(cache: &MessageCache, channel_id: u64) -> Vec<u64> {
    for entry in cache.channels.iter() {
        if entry.channel_id == channel_id {
            return entry.messages.clone();
        }
    }
    Vec::new()
}

#[test]
fn spawn_counts_match_shards() {
    let p = Pool::spawn(&vec![0, 1, 2]);
    assert_eq!(p.workers.len(), 3);
    assert_eq!(p.supervisor.spawned_count(), 3);
    for w in p.workers.iter() {
        assert_eq!(w.state, WorkerState::Connecting);
    }
}

#[test]
fn one_failure_leaves_others_running() {
    let mut p = Pool::spawn(&vec![0, 1, 2]);
    let mut cache = MessageCache::new(5);

    p.handle_poll(1, &ShardPoll::StreamError, &mut cache);
    assert_eq!(p.workers[1].state, WorkerState::Terminated);
    assert_eq!(p.workers[0].state, WorkerState::Connecting);
    assert_eq!(p.workers[2].state, WorkerState::Connecting);
    assert!(!p.supervisor.all_done());

    p.handle_poll(0, &ShardPoll::Delivered(message(1, 10)), &mut cache);
    p.handle_poll(2, &ShardPoll::Delivered(message(1, 11)), &mut cache);
    assert_eq!(p.workers[0].state, WorkerState::Streaming);
    assert_eq!(p.workers[2].state, WorkerState::Streaming);
    assert_eq!(channel_messages(&cache, 1), vec![10, 11]);
    assert!(!p.supervisor.all_done());

    p.handle_poll(0, &ShardPoll::Closed, &mut cache);
    assert!(!p.supervisor.all_done());
    p.handle_poll(2, &ShardPoll::Closed, &mut cache);
    assert!(p.supervisor.all_done());
}

#[test]
fn terminated_worker_ignores_later_polls() {
    let mut p = Pool::spawn(&vec![0, 1]);
    let mut cache = MessageCache::new(5);
    p.handle_poll(0, &ShardPoll::StreamError, &mut cache);
    p.handle_poll(0, &ShardPoll::Delivered(message(1, 1)), &mut cache);
    assert_eq!(p.workers[0].state, WorkerState::Terminated);
    assert_eq!(channel_messages(&cache, 1), Vec::<u64>::new());
    assert!(!p.supervisor.all_done());
}

#[test]
fn supervisor_counts_completions() {
    let mut s = Supervisor::new(2);
    assert_eq!(s.spawned_count(), 2);
    assert!(!s.all_done());
    s.on_completion();
    assert!(!s.all_done());
    s.on_completion();
    assert!(s.all_done());
}

#[test]
fn supervisor_of_empty_pool_is_done() {
    let s = Supervisor::new(0);
    assert!(s.all_done());
}

#[test]
fn completion_poll_delay_is_five_seconds() {
    assert_eq!(COMPLETION_POLL_DELAY_SECS, 5);
}

#[test]
fn supervisor_turn_logs_each_completion() {
    let mut s = Supervisor::new(2);
    let first = CompletionRecord { shard_id: 4, outcome: ShardOutcome::StreamError };
    assert_eq!(s.supervisor_turn(Some(first)), SupervisorAction::LogCompletionAndPause(first));
    assert!(!s.all_done());
    let second = CompletionRecord { shard_id: 5, outcome: ShardOutcome::Completed };
    assert_eq!(s.supervisor_turn(Some(second)), SupervisorAction::LogCompletionAndPause(second));
    assert!(s.all_done());
    assert_eq!(s.supervisor_turn(None), SupervisorAction::ExitNormally);
}

#[test]
fn supervisor_exits_only_after_all_completed() {
    let mut s = Supervisor::new(3);
    for shard in 0..3u64 {
        assert!(!s.all_done());
        let record = CompletionRecord { shard_id: shard, outcome: ShardOutcome::Completed };
        assert_eq!(s.supervisor_turn(Some(record)), SupervisorAction::LogCompletionAndPause(record));
    }
    assert!(s.all_done());
    assert_eq!(s.supervisor_turn(None), SupervisorAction::ExitNormally);
}
