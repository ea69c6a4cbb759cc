use kady::cache::{GatewayEvent, MessageCache};
use kady::worker::run_shard_events;

fn msg(channel_id: u64, message_id: u64) -> GatewayEvent {
    GatewayEvent::MessageCreate { channel_id, message_id }
}

fn stored(cache: &MessageCache, channel_id: u64) -> Vec<u64> {
    for entry in cache.channels.iter() {
        if entry.channel_id == channel_id {
            return entry.messages.clone();
        }
    }
    Vec::new()
}

#[test]
fn cache_keeps_messages_under_capacity() {
    let mut c = MessageCache::new(3);
    c.apply(&msg(9, 1));
    c.apply(&msg(9, 2));
    assert_eq!(stored(&c, 9), vec![1, 2]);
}

#[test]
fn cache_evicts_oldest_beyond_capacity() {
    let mut c = MessageCache::new(2);
    c.apply(&msg(9, 1));
    c.apply(&msg(9, 2));
    c.apply(&msg(9, 3));
    assert_eq!(stored(&c, 9), vec![2, 3]);
}

#[test]
fn cache_capacity_zero_stores_nothing() {
    let mut c = MessageCache::new(0);
    c.apply(&msg(1, 1));
    c.apply(&msg(1, 2));
    assert_eq!(stored(&c, 1), Vec::<u64>::new());
}

#[test]
fn cache_other_event_changes_nothing() {
    let mut c = MessageCache::new(2);
    c.apply(&msg(4, 8));
    c.apply(&GatewayEvent::Other);
    assert_eq!(stored(&c, 4), vec![8]);
    assert_eq!(c.channels.len(), 1);
}

#[test]
fn cache_channels_are_independent() {
    let mut c = MessageCache::new(1);
    c.apply(&msg(1, 10));
    c.apply(&msg(2, 20));
    c.apply(&msg(1, 11));
    assert_eq!(stored(&c, 1), vec![11]);
    assert_eq!(stored(&c, 2), vec![20]);
}

#[test]
fn worker_loop_equals_one_at_a_time() {
    let events = vec![msg(1, 1), msg(2, 5), GatewayEvent::Other, msg(1, 2), msg(1, 3)];
    let looped = run_shard_events(MessageCache::new(2), &events);
    let mut manual = MessageCache::new(2);
    for event in events.iter() {
        manual.apply(event);
    }
    for channel in [1u64, 2, 3] {
        assert_eq!(stored(&looped, channel), stored(&manual, channel));
    }
    assert_eq!(stored(&looped, 1), vec![2, 3]);
    assert_eq!(stored(&looped, 2), vec![5]);
}
