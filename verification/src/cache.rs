use vstd::prelude::*;
use crate::config::AppConfig;

verus! {

#[verifier::external_type_specification]
#[verifier::external_body]
pub struct ExInMemoryCache(twilight_cache_inmemory::InMemoryCache);

/// The per-channel message bound the external snapshot cache was built with.
pub uninterp spec fn snapshot_capacity(cache: twilight_cache_inmemory::InMemoryCache) -> nat;

/// Whether the external snapshot cache was configured to retain every
/// resource category.
pub uninterp spec fn snapshot_retains_all(cache: twilight_cache_inmemory::InMemoryCache) -> bool;

/// Relies on twilight_cache_inmemory::InMemoryCacheBuilder:
/// `message_cache_size` sets the per-channel message bound,
/// `resource_types(ResourceType::all())` asks it to retain every resource
/// category, and `build` returns a cache configured with exactly that bound
/// and that retention.
#[verifier::external_body]
fn build_snapshot_cache(message_cache_size: usize) -> (c: twilight_cache_inmemory::InMemoryCache)
    ensures
        snapshot_capacity(c) == message_cache_size as nat,
        snapshot_retains_all(c),
{
    twilight_cache_inmemory::InMemoryCacheBuilder::new()
        .message_cache_size(message_cache_size)
        .resource_types(twilight_cache_inmemory::ResourceType::all())
        .build()
}

/// The external snapshot cache all workers share, built once at startup. It
/// is handed exactly the configured per-channel bound and retains every
/// resource category; its internal eviction (oldest first, as `MessageCache`
/// models it) is the external collaborator's own.
pub fn new_snapshot_cache(config: &AppConfig) -> (c: twilight_cache_inmemory::InMemoryCache)
    ensures
        snapshot_capacity(c) == config.cache.message_cache_size as nat,
        snapshot_retains_all(c),
{
    build_snapshot_cache(config.cache.message_cache_size)
}

/// One gateway occurrence, as the snapshot cache sees it: either a new
/// message in a channel, or an event that does not touch the per-channel
/// message store. An event carries no identity beyond its effect on the
/// cache and is discarded once applied.
#[derive(Clone, Copy, Debug, PartialEq, Eq, Structural)]
pub enum GatewayEvent {
    /// A message arrived in a channel.
    MessageCreate { channel_id: u64, message_id: u64 },
    /// Any other occurrence; it leaves the per-channel message store alone.
    Other,
}

/// One channel's stored messages, oldest first.
pub struct ChannelEntry {
    pub channel_id: u64,
    pub messages: Vec<u64>,
}

/// The snapshot cache's per-channel message store: for each channel, at most
/// `capacity` recent messages, the oldest evicted first once the bound is
/// exceeded. The capacity is fixed at construction.
pub struct MessageCache {
    pub capacity: usize,
    pub channels: Vec<ChannelEntry>,
}

/// The messages stored for channel `ch`: those of the first entry carrying
/// `ch`, or the empty sequence when no entry does.
pub open spec fn msgs_of(entries: Seq<ChannelEntry>, ch: u64) -> Seq<u64>
    decreases entries.len(),
{
    if entries.len() == 0 {
        Seq::empty()
    } else if entries[0].channel_id == ch {
        entries[0].messages@
    } else {
        msgs_of(entries.drop_first(), ch)
    }
}

/// The newest `k` elements of `s`: all of `s` when it fits, otherwise the
/// suffix of length `k` (the elements before it are the oldest, and are the
/// ones evicted).
pub open spec fn keep_newest(s: Seq<u64>, k: nat) -> Seq<u64> {
    if s.len() <= k {
        s
    } else {
        s.subrange(s.len() - k, s.len() as int)
    }
}

/// What one event does to the cache contents: a message is appended to its
/// channel and the oldest messages beyond the capacity `k` are evicted; any
/// other event changes nothing.
pub open spec fn spec_apply(m: Map<u64, Seq<u64>>, k: nat, e: GatewayEvent) -> Map<u64, Seq<u64>> {
    match e {
        GatewayEvent::MessageCreate { channel_id, message_id } => m.insert(
            channel_id,
            keep_newest(m[channel_id].push(message_id), k),
        ),
        GatewayEvent::Other => m,
    }
}

/// The cache contents after applying `evs` one at a time, in order.
pub open spec fn spec_apply_all(m: Map<u64, Seq<u64>>, k: nat, evs: Seq<GatewayEvent>) -> Map<
    u64,
    Seq<u64>,
>
    decreases evs.len(),
{
    if evs.len() == 0 {
        m
    } else {
        spec_apply(spec_apply_all(m, k, evs.drop_last()), k, evs.last())
    }
}

/// Contents maps assign a message sequence to every channel id.
pub open spec fn total_contents(m: Map<u64, Seq<u64>>) -> bool {
    forall|ch: u64| m.dom().contains(ch)
}

/// Every channel holds at most `k` messages.
pub open spec fn bounded_contents(m: Map<u64, Seq<u64>>, k: nat) -> bool {
    forall|ch: u64| (#[trigger] m[ch]).len() <= k
}

impl MessageCache {
    /// Channel ids are unique and no channel exceeds the capacity.
    pub open spec fn wf(self) -> bool {
        &&& forall|i: int, j: int|
            0 <= i < j < self.channels@.len() ==> self.channels@[i].channel_id
                != self.channels@[j].channel_id
        &&& forall|i: int|
            0 <= i < self.channels@.len() ==> (#[trigger] self.channels@[i]).messages@.len()
                <= self.capacity
    }

    /// The abstract contents: what each channel currently stores.
    pub open spec fn contents(self) -> Map<u64, Seq<u64>> {
        Map::new(|ch: u64| true, |ch: u64| msgs_of(self.channels@, ch))
    }

    /// An empty cache with the given per-channel capacity.
    pub fn new(capacity: usize) -> (c: MessageCache)
        ensures
            c.wf(),
            c.capacity == capacity,
            total_contents(c.contents()),
            forall|ch: u64| #[trigger] c.contents()[ch] == Seq::<u64>::empty(),
    {
        let c = MessageCache { capacity, channels: Vec::new() };
        proof {
            assert(forall|ch: u64| #[trigger] c.contents()[ch] == msgs_of(c.channels@, ch));
        }
        c
    }

    /// Applies one event: a message is appended to its channel's store and
    /// the oldest message is evicted if the channel then exceeds the
    /// capacity; any other event changes nothing. Exactly `spec_apply`.
    pub fn apply(&mut self, event: &GatewayEvent)
        requires
            old(self).wf(),
        ensures
            final(self).wf(),
            final(self).capacity == old(self).capacity,
            final(self).contents() == spec_apply(
                old(self).contents(),
                old(self).capacity as nat,
                *event,
            ),
    {
        match event {
            GatewayEvent::Other => {
                proof {
                    assert(self.contents() =~= spec_apply(
                        self.contents(),
                        self.capacity as nat,
                        *event,
                    ));
                }
            },
            GatewayEvent::MessageCreate { channel_id, message_id } => {
                let ch = *channel_id;
                let mid = *message_id;
                let ghost pre = self.channels@;
                let ghost k = self.capacity as nat;
                match find_channel(&self.channels, ch) {
                    Option::Some(i) => {
                        let mut entry = self.channels.remove(i);
                        let ghost old_msgs = entry.messages@;
                        entry.messages.push(mid);
                        if entry.messages.len() > self.capacity {
                            entry.messages.remove(0);
                        }
                        let ghost e = entry;
                        self.channels.insert(i, entry);
                        proof {
                            assert(self.channels@ =~= pre.update(i as int, e));
                            assert(e.messages@ =~= keep_newest(old_msgs.push(mid), k));
                            lemma_msgs_of_at(pre, i as int, ch);
                            assert forall|x: u64| #[trigger] self.contents()[x] == spec_apply(
                                old(self).contents(),
                                k,
                                *event,
                            )[x] by {
                                lemma_msgs_of_update(pre, i as int, e, x);
                            }
                            assert(self.contents() =~= spec_apply(old(self).contents(), k, *event));
                        }
                    },
                    Option::None => {
                        let mut msgs: Vec<u64> = Vec::new();
                        msgs.push(mid);
                        let mut entry = ChannelEntry { channel_id: ch, messages: msgs };
                        if entry.messages.len() > self.capacity {
                            entry.messages.remove(0);
                        }
                        let ghost e = entry;
                        self.channels.push(entry);
                        proof {
                            assert(self.channels@ =~= pre.push(e));
                            lemma_msgs_of_absent(pre, ch);
                            assert(e.messages@ =~= keep_newest(
                                Seq::<u64>::empty().push(mid),
                                k,
                            ));
                            assert forall|x: u64| #[trigger] self.contents()[x] == spec_apply(
                                old(self).contents(),
                                k,
                                *event,
                            )[x] by {
                                lemma_msgs_of_push(pre, e, x);
                            }
                            assert(self.contents() =~= spec_apply(old(self).contents(), k, *event));
                        }
                    },
                }
            },
        }
    }
}

/// The index of the entry for channel `ch`, when one exists.
fn find_channel(channels: &Vec<ChannelEntry>, ch: u64) -> (r: Option<usize>)
    ensures
        match r {
            Option::Some(i) => i < channels@.len() && channels@[i as int].channel_id == ch
                && (forall|j: int| 0 <= j < i ==> channels@[j].channel_id != ch),
            Option::None => forall|j: int| 0 <= j < channels@.len() ==> channels@[j].channel_id != ch,
        },
{
    let mut i: usize = 0;
    let n = channels.len();
    while i < n
        invariant
            i <= n,
            n == channels@.len(),
            forall|j: int| 0 <= j < i ==> channels@[j].channel_id != ch,
        decreases n - i,
    {
        if channels[i].channel_id == ch {
            return Some(i);
        }
        i = i + 1;
    }
    None
}

/// Replacing the first entry of a channel changes that channel's stored
/// messages and no other channel's.
proof fn lemma_msgs_of_update(s: Seq<ChannelEntry>, i: int, e: ChannelEntry, ch: u64)
    requires
        0 <= i < s.len(),
        e.channel_id == s[i].channel_id,
        forall|j: int| 0 <= j < i ==> s[j].channel_id != s[i].channel_id,
    ensures
        msgs_of(s.update(i, e), ch) == if ch == e.channel_id {
            e.messages@
        } else {
            msgs_of(s, ch)
        },
    decreases s.len(),
{
    let t = s.update(i, e);
    if i == 0 {
        if ch == e.channel_id {
            assert(t[0] == e);
        } else {
            assert(t[0] == e);
            assert(t.drop_first() =~= s.drop_first());
        }
    } else {
        assert(t[0] == s[0]);
        assert(t.drop_first() =~= s.drop_first().update(i - 1, e));
        lemma_msgs_of_update(s.drop_first(), i - 1, e, ch);
    }
}

/// Appending an entry for a new channel changes that channel's stored
/// messages and no other channel's.
proof fn lemma_msgs_of_push(s: Seq<ChannelEntry>, e: ChannelEntry, ch: u64)
    requires
        forall|j: int| 0 <= j < s.len() ==> s[j].channel_id != e.channel_id,
    ensures
        msgs_of(s.push(e), ch) == if ch == e.channel_id {
            e.messages@
        } else {
            msgs_of(s, ch)
        },
    decreases s.len(),
{
    if s.len() == 0 {
        assert(s.push(e)[0] == e);
        if ch == e.channel_id {
            assert(msgs_of(s.push(e), ch) == e.messages@);
        } else {
            assert(s.push(e).drop_first() =~= Seq::<ChannelEntry>::empty());
            assert(msgs_of(s.push(e), ch) == msgs_of(s.push(e).drop_first(), ch));
            assert(msgs_of(s.push(e), ch) == Seq::<u64>::empty());
            assert(msgs_of(s, ch) == Seq::<u64>::empty());
        }
    } else {
        assert(s.push(e)[0] == s[0]);
        assert(s.push(e).drop_first() =~= s.drop_first().push(e));
        lemma_msgs_of_push(s.drop_first(), e, ch);
        if s[0].channel_id == ch {
            assert(s[0].channel_id != e.channel_id);
            assert(msgs_of(s.push(e), ch) == s[0].messages@);
            assert(msgs_of(s, ch) == s[0].messages@);
        } else {
            assert(msgs_of(s.push(e), ch) == msgs_of(s.drop_first().push(e), ch));
            assert(msgs_of(s, ch) == msgs_of(s.drop_first(), ch));
        }
    }
}

/// The stored messages of a channel are those of its (first) entry.
proof fn lemma_msgs_of_at(s: Seq<ChannelEntry>, i: int, ch: u64)
    requires
        0 <= i < s.len(),
        s[i].channel_id == ch,
        forall|j: int| 0 <= j < i ==> s[j].channel_id != ch,
    ensures
        msgs_of(s, ch) == s[i].messages@,
    decreases i,
{
    if i == 0 {
    } else {
        lemma_msgs_of_at(s.drop_first(), i - 1, ch);
    }
}

/// A channel with no entry stores nothing.
proof fn lemma_msgs_of_absent(s: Seq<ChannelEntry>, ch: u64)
    requires
        forall|j: int| 0 <= j < s.len() ==> s[j].channel_id != ch,
    ensures
        msgs_of(s, ch) == Seq::<u64>::empty(),
    decreases s.len(),
{
    if s.len() == 0 {
    } else {
        lemma_msgs_of_absent(s.drop_first(), ch);
    }
}

/// Each entry of a capacity-respecting store stays within the bound, so
/// every channel does.
proof fn lemma_msgs_of_len(s: Seq<ChannelEntry>, ch: u64, k: nat)
    requires
        forall|i: int| 0 <= i < s.len() ==> (#[trigger] s[i]).messages@.len() <= k,
    ensures
        msgs_of(s, ch).len() <= k,
    decreases s.len(),
{
    if s.len() == 0 {
    } else if s[0].channel_id == ch {
    } else {
        lemma_msgs_of_len(s.drop_first(), ch, k);
    }
}

/// A well-formed cache's contents respect its capacity on every channel.
pub proof fn lemma_wf_bounded(c: MessageCache)
    requires
        c.wf(),
    ensures
        total_contents(c.contents()),
        bounded_contents(c.contents(), c.capacity as nat),
{
    assert forall|ch: u64| (#[trigger] c.contents()[ch]).len() <= c.capacity as nat by {
        lemma_msgs_of_len(c.channels@, ch, c.capacity as nat);
    }
}

/// For every capacity `k` and every sequence of applied events, every channel
/// of the cache holds at most `k` messages afterward.
pub proof fn lemma_capacity_bound(m: Map<u64, Seq<u64>>, k: nat, evs: Seq<GatewayEvent>)
    requires
        total_contents(m),
        bounded_contents(m, k),
    ensures
        total_contents(spec_apply_all(m, k, evs)),
        bounded_contents(spec_apply_all(m, k, evs), k),
    decreases evs.len(),
{
    if evs.len() == 0 {
    } else {
        lemma_capacity_bound(m, k, evs.drop_last());
        let prev = spec_apply_all(m, k, evs.drop_last());
        let next = spec_apply(prev, k, evs.last());
        assert forall|ch: u64| (#[trigger] next[ch]).len() <= k by {
            match evs.last() {
                GatewayEvent::MessageCreate { channel_id, message_id } => {
                    if ch == channel_id {
                        assert(next[ch] == keep_newest(prev[channel_id].push(message_id), k));
                    } else {
                        assert(next[ch] == prev[ch]);
                    }
                },
                GatewayEvent::Other => {},
            }
        }
    }
}

} // verus!
