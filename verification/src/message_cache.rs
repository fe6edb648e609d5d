//! The cache of recent guild messages, kept per (guild, author, channel), and
//! the plans for deleting an author's messages after a honeypot kick.

use dashmap::DashMap;
use vstd::prelude::*;

verus! {

broadcast use vstd::seq_lib::group_seq_properties;

#[verifier::external_type_specification]
#[verifier::external_body]
#[verifier::reject_recursive_types(K)]
#[verifier::reject_recursive_types(V)]
#[verifier::reject_recursive_types(S)]
pub struct ExDashMap<K, V, S>(DashMap<K, V, S>);

/// The entries of the cache map: for each (guild, author, channel), the ids
/// of the messages recorded there, oldest first.
pub uninterp spec fn cached(map: DashMap<(u64, u64, u64), Vec<u64>>) -> Map<(u64, u64, u64), Seq<u64>>;

/// A cache with no entries.
pub open spec fn no_entries() -> Map<(u64, u64, u64), Seq<u64>> {
    Map::empty()
}

/// What an entry holds after `message_id` was appended to it.
pub open spec fn appended(m: Map<(u64, u64, u64), Seq<u64>>, key: (u64, u64, u64), message_id: u64) -> Seq<u64> {
    if m.contains_key(key) {
        m[key].push(message_id)
    } else {
        seq![message_id]
    }
}

/// `DashMap::new`: an empty map.
#[verifier::external_body]
fn map_new() -> (res: DashMap<(u64, u64, u64), Vec<u64>>)
    ensures
        cached(res) == no_entries(),
{
    DashMap::new()
}

/// `DashMap::entry(key).or_default().push(message_id)`: the entry of `key`,
/// created empty when missing, gets `message_id` appended; the other entries
/// stay as they were.
#[verifier::external_body]
fn map_append(map: &mut DashMap<(u64, u64, u64), Vec<u64>>, key: (u64, u64, u64), message_id: u64)
    ensures
        cached(*final(map)) == cached(*old(map)).insert(key, appended(cached(*old(map)), key, message_id)),
{
    map.entry(key).or_default().push(message_id);
}

/// `DashMap::iter`, each entry copied out as a (key, messages) pair. The
/// order is the one in which the shards are walked, which the contract
/// leaves open: it states that every entry comes out exactly once.
#[verifier::external_body]
fn map_entries(map: &DashMap<(u64, u64, u64), Vec<u64>>) -> (res: Vec<((u64, u64, u64), Vec<u64>)>)
    ensures
        forall|i: int| 0 <= i < res@.len() ==> {
            &&& cached(*map).contains_key(#[trigger] res@[i].0)
            &&& res@[i].1@ == cached(*map)[res@[i].0]
        },
        forall|k: (u64, u64, u64)| cached(*map).contains_key(k) ==> exists|i: int| 0 <= i < res@.len() && #[trigger] res@[i].0 == k,
        forall|i: int, j: int| 0 <= i < res@.len() && 0 <= j < res@.len() && i != j ==> #[trigger] res@[i].0 != #[trigger] res@[j].0,
{
    map.iter().map(|e| (*e.key(), e.value().clone())).collect()
}

/// `DashMap::remove`: the entry of `key` is gone, the others stay.
#[verifier::external_body]
fn map_remove(map: &mut DashMap<(u64, u64, u64), Vec<u64>>, key: (u64, u64, u64))
    ensures
        cached(*final(map)) == cached(*old(map)).remove(key),
{
    map.remove(&key);
}

/// `DashMap::retain` with `keep_fresh_messages` as the test: each entry
/// keeps only its messages newer than the cutoff, and entries left empty go.
#[verifier::external_body]
fn map_retain_fresh(map: &mut DashMap<(u64, u64, u64), Vec<u64>>, cutoff_nanos: i128)
    ensures
        cached(*final(map)) == fresh_entries(cached(*old(map)), cutoff_nanos),
{
    map.retain(|_key, messages| keep_fresh_messages(messages, cutoff_nanos));
}

/// Milliseconds between the Unix epoch and the Discord epoch (2015-01-01).
pub const DISCORD_EPOCH_MILLIS: u64 = 1_420_070_400_000;

/// When a Discord id (a snowflake) was made, in Unix milliseconds: the id
/// shifted right by 22 bits, plus the Discord epoch.
pub open spec fn snowflake_millis(id: u64) -> int {
    id as int / 4194304 + DISCORD_EPOCH_MILLIS as int
}

/// The creation time of a snowflake is its upper 42 bits (the id shifted
/// right by 22) plus the Discord epoch; an id built from a time and any low
/// bits gives that time back; and later ids are never dated earlier.
pub proof fn law_snowflake_time(id: u64, t: u64, low: u64, other: u64)
    ensures
        snowflake_millis(id) == (id >> 22) as int + DISCORD_EPOCH_MILLIS as int,
        t < 4398046511104 && low < 4194304 ==> snowflake_millis((t << 22) | low) == t + DISCORD_EPOCH_MILLIS as int,
        id <= other ==> snowflake_millis(id) <= snowflake_millis(other),
{
    assert(id >> 22 == id / 4194304) by (bit_vector);
    assert(t < 4398046511104u64 && low < 4194304u64 ==> ((t << 22) | low) / 4194304 == t) by (bit_vector);
    assert(id <= other ==> id / 4194304 <= other / 4194304) by (bit_vector);
}

/// The creation time of a snowflake in Unix milliseconds.
pub fn snowflake_created_millis(id: u64) -> (res: i64)
    ensures
        res as int == snowflake_millis(id),
{
    let shifted = id >> 22;
    assert(id >> 22 == id / 4194304) by (bit_vector);
    assert(shifted <= 4398046511103);
    (shifted + DISCORD_EPOCH_MILLIS) as i64
}

/// Whether a message was sent after the cutoff (Unix nanoseconds).
pub open spec fn is_fresh(cutoff_nanos: i128) -> spec_fn(u64) -> bool {
    |id: u64| snowflake_millis(id) * 1_000_000 > cutoff_nanos
}

/// The messages of a list that were sent after the cutoff, in order.
pub open spec fn fresh(messages: Seq<u64>, cutoff_nanos: i128) -> Seq<u64> {
    messages.filter(is_fresh(cutoff_nanos))
}

/// Keeping the fresh messages keeps exactly those sent after the cutoff, in
/// their order: a message stays if and only if it was there and its creation
/// time is later than the cutoff.
pub proof fn law_fresh_keeps_exactly_recent(messages: Seq<u64>, cutoff_nanos: i128, id: u64)
    ensures
        fresh(messages, cutoff_nanos).contains(id) <==> (messages.contains(id) && snowflake_millis(id) * 1_000_000
            > cutoff_nanos),
        fresh(messages, cutoff_nanos).len() <= messages.len(),
{
    let p = is_fresh(cutoff_nanos);
    if fresh(messages, cutoff_nanos).contains(id) {
        messages.lemma_filter_contains_rev(p, id);
        let k = choose|k: int| 0 <= k < fresh(messages, cutoff_nanos).len() && fresh(messages, cutoff_nanos)[k] == id;
        messages.lemma_filter_pred(p, k);
    }
    if messages.contains(id) && snowflake_millis(id) * 1_000_000 > cutoff_nanos {
        let k = choose|k: int| 0 <= k < messages.len() && messages[k] == id;
        messages.lemma_filter_contains(p, k);
    }
    messages.lemma_filter_len(p);
}

/// The cache after eviction: each entry with only its fresh messages, and
/// the entries left without any dropped.
pub open spec fn fresh_entries(m: Map<(u64, u64, u64), Seq<u64>>, cutoff_nanos: i128) -> Map<(u64, u64, u64), Seq<u64>> {
    Map::new(
        |k: (u64, u64, u64)| m.contains_key(k) && fresh(m[k], cutoff_nanos).len() > 0,
        |k: (u64, u64, u64)| fresh(m[k], cutoff_nanos),
    )
}

/// Keeps the messages sent after the cutoff; tells whether any is left.
pub fn keep_fresh_messages(messages: &mut Vec<u64>, cutoff_nanos: i128) -> (any_left: bool)
    ensures
        final(messages)@ == fresh(old(messages)@, cutoff_nanos),
        any_left == (final(messages)@.len() > 0),
{
    let mut kept: Vec<u64> = Vec::new();
    let mut i: usize = 0;
    while i < messages.len()
        invariant
            i <= messages.len(),
            kept@ == fresh(messages@.take(i as int), cutoff_nanos),
        decreases messages.len() - i,
    {
        let id = messages[i];
        proof {
            assert(messages@.take(i + 1) =~= messages@.take(i as int).push(id));
            messages@.take(i as int).lemma_filter_push(id, is_fresh(cutoff_nanos));
        }
        let created = snowflake_created_millis(id);
        if (created as i128) * 1_000_000 > cutoff_nanos {
            kept.push(id);
        }
        i = i + 1;
    }
    assert(messages@.take(i as int) =~= messages@);
    *messages = kept;
    messages.len() > 0
}

/// The cache of recent guild messages.
pub struct MessageCache {
    entries: DashMap<(u64, u64, u64), Vec<u64>>,
}

impl View for MessageCache {
    type V = Map<(u64, u64, u64), Seq<u64>>;

    closed spec fn view(&self) -> Map<(u64, u64, u64), Seq<u64>> {
        cached(self.entries)
    }
}

/// Every entry of the cache holds at least one message.
pub open spec fn entries_nonempty(m: Map<(u64, u64, u64), Seq<u64>>) -> bool {
    forall|k: (u64, u64, u64)| m.contains_key(k) ==> #[trigger] m[k].len() > 0
}

/// The cache without the entries of one author in one guild.
pub open spec fn without_author(m: Map<(u64, u64, u64), Seq<u64>>, guild_id: u64, user_id: u64) -> Map<(u64, u64, u64), Seq<u64>> {
    m.remove_keys(Set::new(|k: (u64, u64, u64)| k.0 == guild_id && k.1 == user_id))
}

impl MessageCache {
    pub open spec fn wf(&self) -> bool {
        entries_nonempty(self@)
    }

    /// An empty cache.
    pub fn new() -> (res: MessageCache)
        ensures
            res@ == no_entries(),
            res.wf(),
    {
        MessageCache { entries: map_new() }
    }

    /// Records a message that `user_id` sent in `channel_id` of `guild_id`.
    pub fn record(&mut self, guild_id: u64, user_id: u64, channel_id: u64, message_id: u64)
        requires
            old(self).wf(),
        ensures
            final(self).wf(),
            final(self)@ == old(self)@.insert(
                (guild_id, user_id, channel_id),
                appended(old(self)@, (guild_id, user_id, channel_id), message_id),
            ),
    {
        map_append(&mut self.entries, (guild_id, user_id, channel_id), message_id);
        proof {
            let key = (guild_id, user_id, channel_id);
            assert forall|k: (u64, u64, u64)| self@.contains_key(k) implies #[trigger] self@[k].len() > 0 by {
                if k != key {
                    assert(old(self)@.contains_key(k));
                }
            }
        }
    }

    /// Takes out every entry of `user_id` in `guild_id` and hands back, for
    /// each channel, the messages recorded there. The channels come in no
    /// set order; each comes once.
    pub fn take_user_messages(&mut self, guild_id: u64, user_id: u64) -> (res: Vec<(u64, Vec<u64>)>)
        requires
            old(self).wf(),
        ensures
            final(self).wf(),
            final(self)@ == without_author(old(self)@, guild_id, user_id),
            forall|i: int| 0 <= i < res@.len() ==> {
                &&& old(self)@.contains_key((guild_id, user_id, #[trigger] res@[i].0))
                &&& res@[i].1@ == old(self)@[(guild_id, user_id, res@[i].0)]
            },
            forall|c: u64| old(self)@.contains_key((guild_id, user_id, c)) ==> exists|i: int| 0 <= i < res@.len() && #[trigger] res@[i].0 == c,
            forall|i: int, j: int| 0 <= i < res@.len() && 0 <= j < res@.len() && i != j ==> #[trigger] res@[i].0 != #[trigger] res@[j].0,
    {
        let snapshot = map_entries(&self.entries);
        let ghost before = self@;
        let mut taken: Vec<(u64, Vec<u64>)> = Vec::new();
        let mut i: usize = 0;
        while i < snapshot.len()
            invariant
                i <= snapshot.len(),
                before == cached(self.entries),
                forall|a: int| 0 <= a < snapshot@.len() ==> {
                    &&& before.contains_key(#[trigger] snapshot@[a].0)
                    &&& snapshot@[a].1@ == before[snapshot@[a].0]
                },
                forall|k: (u64, u64, u64)| before.contains_key(k) ==> exists|a: int| 0 <= a < snapshot@.len() && #[trigger] snapshot@[a].0 == k,
                forall|a: int, b: int| 0 <= a < snapshot@.len() && 0 <= b < snapshot@.len() && a != b ==> #[trigger] snapshot@[a].0 != #[trigger] snapshot@[b].0,
                forall|t: int| 0 <= t < taken@.len() ==> {
                    &&& before.contains_key((guild_id, user_id, #[trigger] taken@[t].0))
                    &&& taken@[t].1@ == before[(guild_id, user_id, taken@[t].0)]
                    &&& exists|a: int| 0 <= a < i && snapshot@[a].0 == (guild_id, user_id, taken@[t].0)
                },
                forall|a: int| 0 <= a < i && (#[trigger] snapshot@[a].0).0 == guild_id && snapshot@[a].0.1 == user_id
                    ==> exists|t: int| 0 <= t < taken@.len() && #[trigger] taken@[t].0 == snapshot@[a].0.2,
                forall|t: int, u: int| 0 <= t < taken@.len() && 0 <= u < taken@.len() && t != u ==> #[trigger] taken@[t].0 != #[trigger] taken@[u].0,
            decreases snapshot.len() - i,
        {
            let key = snapshot[i].0;
            let ghost taken_before = taken@;
            if key.0 == guild_id && key.1 == user_id {
                let messages = snapshot[i].1.clone();
                proof {
                    assert forall|t: int| 0 <= t < taken@.len() implies #[trigger] taken@[t].0 != key.2 by {
                        let a = choose|a: int| 0 <= a < i && snapshot@[a].0 == (guild_id, user_id, taken@[t].0);
                        assert(a != i);
                    }
                }
                taken.push((key.2, messages));
                proof {
                    let t_new = taken@.len() - 1;
                    assert(taken@[t_new].0 == key.2);
                }
            }
            proof {
                assert forall|a: int| 0 <= a <= i && (#[trigger] snapshot@[a].0).0 == guild_id && snapshot@[a].0.1 == user_id
                    implies exists|t: int| 0 <= t < taken@.len() && #[trigger] taken@[t].0 == snapshot@[a].0.2 by {
                    if a < i {
                        let t = choose|t: int| 0 <= t < taken_before.len() && #[trigger] taken_before[t].0 == snapshot@[a].0.2;
                        assert(taken@[t] == taken_before[t]);
                    } else {
                        assert(taken@[taken@.len() - 1].0 == snapshot@[a].0.2);
                    }
                }
            }
            i = i + 1;
        }
        let mut t: usize = 0;
        while t < taken.len()
            invariant
                t <= taken.len(),
                cached(self.entries) == before.remove_keys(
                    Set::new(|k: (u64, u64, u64)| k.0 == guild_id && k.1 == user_id && exists|u: int| 0 <= u < t && taken@[u].0 == k.2),
                ),
            decreases taken.len() - t,
        {
            let channel_id = taken[t].0;
            map_remove(&mut self.entries, (guild_id, user_id, channel_id));
            t = t + 1;
            proof {
                assert(cached(self.entries) =~= before.remove_keys(
                    Set::new(|k: (u64, u64, u64)| k.0 == guild_id && k.1 == user_id && exists|u: int| 0 <= u < t && taken@[u].0 == k.2),
                ));
            }
        }
        proof {
            assert forall|c: u64| before.contains_key((guild_id, user_id, c)) implies exists|u: int| 0 <= u < taken@.len() && #[trigger] taken@[u].0 == c by {
                let a = choose|a: int| 0 <= a < snapshot@.len() && #[trigger] snapshot@[a].0 == (guild_id, user_id, c);
                assert(snapshot@[a].0.0 == guild_id);
            }
            assert(self@ =~= without_author(before, guild_id, user_id));
        }
        taken
    }

    /// Takes out every entry of `user_id` in `guild_id`, as
    /// `take_user_messages` does, and hands back for each channel only the
    /// messages sent after the cutoff (Unix nanoseconds). The entries of
    /// everybody else stay as they were.
    pub fn take_recent_user_messages(&mut self, guild_id: u64, user_id: u64, cutoff_nanos: i128) -> (res: Vec<(u64, Vec<u64>)>)
        requires
            old(self).wf(),
        ensures
            final(self).wf(),
            final(self)@ == without_author(old(self)@, guild_id, user_id),
            forall|i: int| 0 <= i < res@.len() ==> {
                &&& old(self)@.contains_key((guild_id, user_id, #[trigger] res@[i].0))
                &&& res@[i].1@ == fresh(old(self)@[(guild_id, user_id, res@[i].0)], cutoff_nanos)
            },
            forall|c: u64| old(self)@.contains_key((guild_id, user_id, c)) ==> exists|i: int| 0 <= i < res@.len() && #[trigger] res@[i].0 == c,
            forall|i: int, j: int| 0 <= i < res@.len() && 0 <= j < res@.len() && i != j ==> #[trigger] res@[i].0 != #[trigger] res@[j].0,
    {
        let taken = self.take_user_messages(guild_id, user_id);
        let ghost before = old(self)@;
        let mut recent: Vec<(u64, Vec<u64>)> = Vec::new();
        let mut i: usize = 0;
        while i < taken.len()
            invariant
                i <= taken.len(),
                recent@.len() == i,
                forall|t: int| 0 <= t < taken@.len() ==> {
                    &&& before.contains_key((guild_id, user_id, #[trigger] taken@[t].0))
                    &&& taken@[t].1@ == before[(guild_id, user_id, taken@[t].0)]
                },
                forall|t: int| 0 <= t < i ==> {
                    &&& #[trigger] recent@[t].0 == taken@[t].0
                    &&& recent@[t].1@ == fresh(taken@[t].1@, cutoff_nanos)
                },
            decreases taken.len() - i,
        {
            let channel_id = taken[i].0;
            let mut messages = taken[i].1.clone();
            assert(messages@ =~= taken@[i as int].1@);
            keep_fresh_messages(&mut messages, cutoff_nanos);
            recent.push((channel_id, messages));
            i = i + 1;
        }
        proof {
            assert forall|c: u64| before.contains_key((guild_id, user_id, c)) implies exists|t: int| 0 <= t < recent@.len() && #[trigger] recent@[t].0 == c by {
                let t = choose|t: int| 0 <= t < taken@.len() && #[trigger] taken@[t].0 == c;
                assert(recent@[t].0 == c);
            }
            assert forall|t: int, u: int| 0 <= t < recent@.len() && 0 <= u < recent@.len() && t != u implies #[trigger] recent@[t].0 != #[trigger] recent@[u].0 by {
                assert(taken@[t].0 != taken@[u].0);
            }
        }
        recent
    }

    /// Drops the messages sent before the cutoff (Unix nanoseconds), and the
    /// entries left without messages.
    pub fn evict_stale(&mut self, cutoff_nanos: i128)
        ensures
            final(self).wf(),
            final(self)@ == fresh_entries(old(self)@, cutoff_nanos),
    {
        map_retain_fresh(&mut self.entries, cutoff_nanos);
    }
}

/// The number of messages in the entries taken out of the cache.
pub open spec fn total_len(taken: Seq<(u64, Vec<u64>)>) -> nat
    decreases taken.len(),
{
    if taken.len() == 0 {
        0
    } else {
        total_len(taken.drop_last()) + taken.last().1@.len()
    }
}

/// Counting adds exactly the number of messages of each entry: one more
/// entry adds its length, an empty entry adds nothing, and the count of a
/// concatenation is the sum of the counts.
pub proof fn law_total_len_adds_lengths(s: Seq<(u64, Vec<u64>)>, t: Seq<(u64, Vec<u64>)>, e: (u64, Vec<u64>))
    ensures
        total_len(Seq::empty()) == 0,
        total_len(s.push(e)) == total_len(s) + e.1@.len(),
        total_len(s + t) == total_len(s) + total_len(t),
    decreases t.len(),
{
    assert(s.push(e).drop_last() =~= s);
    if t.len() > 0 {
        law_total_len_adds_lengths(s, t.drop_last(), e);
        assert((s + t).drop_last() =~= s + t.drop_last());
    } else {
        assert(s + t =~= s);
    }
}

/// Counts the messages in the entries taken out of the cache.
pub fn count_messages(taken: &Vec<(u64, Vec<u64>)>) -> (res: u64)
    requires
        total_len(taken@) <= u64::MAX,
    ensures
        res == total_len(taken@),
{
    let mut sum: u64 = 0;
    let mut i: usize = 0;
    while i < taken.len()
        invariant
            i <= taken.len(),
            total_len(taken@) <= u64::MAX,
            sum == total_len(taken@.take(i as int)),
        decreases taken.len() - i,
    {
        proof {
            assert(taken@.take(i + 1).drop_last() =~= taken@.take(i as int));
            lemma_total_len_prefix(taken@, i + 1);
        }
        sum = sum + taken[i].1.len() as u64;
        i = i + 1;
    }
    assert(taken@.take(i as int) =~= taken@);
    sum
}

proof fn lemma_total_len_prefix(s: Seq<(u64, Vec<u64>)>, n: int)
    requires
        0 <= n <= s.len(),
    ensures
        total_len(s.take(n)) <= total_len(s),
    decreases s.len() - n,
{
    if n < s.len() {
        lemma_total_len_prefix(s, n + 1);
        assert(s.take(n + 1).drop_last() =~= s.take(n));
    } else {
        assert(s.take(n) =~= s);
    }
}

/// How many messages one bulk delete may name.
pub const BULK_DELETE_LIMIT: usize = 100;

/// One request that deletes cached messages of a channel.
pub enum DeletionBatch {
    /// One message, deleted on its own.
    Single(u64),
    /// Several messages, deleted together.
    Bulk(Vec<u64>),
}

/// The message ids a batch names.
pub open spec fn batch_ids(b: DeletionBatch) -> Seq<u64> {
    match b {
        DeletionBatch::Single(id) => seq![id],
        DeletionBatch::Bulk(ids) => ids@,
    }
}

/// The `i`-th run of at most a hundred consecutive messages.
pub open spec fn chunk(s: Seq<u64>, i: int) -> Seq<u64> {
    let start = 100 * i;
    let end = if 100 * i + 100 <= s.len() { 100 * i + 100 } else { s.len() as int };
    s.subrange(start, end)
}

/// How many runs of at most a hundred the messages fall into.
pub open spec fn chunk_count(n: nat) -> nat {
    (n + 99) / 100
}

/// Splits the messages of a channel into runs of at most a hundred, in
/// order: a run of one message is deleted on its own, a longer run in bulk.
pub fn deletion_batches(messages: &Vec<u64>) -> (res: Vec<DeletionBatch>)
    ensures
        res@.len() == chunk_count(messages@.len()),
        forall|i: int| 0 <= i < res@.len() ==> {
            &&& batch_ids(#[trigger] res@[i]) == chunk(messages@, i)
            &&& (res@[i] is Single <==> chunk(messages@, i).len() == 1)
        },
{
    let n = messages.len();
    let mut res: Vec<DeletionBatch> = Vec::new();
    let mut start: usize = 0;
    while start < n
        invariant
            n == messages@.len(),
            start <= n,
            start as int == (if 100 * res@.len() <= n { 100 * res@.len() as int } else { n as int }),
            start < n ==> res@.len() < chunk_count(n as nat),
            start >= n ==> res@.len() == chunk_count(n as nat),
            forall|i: int| 0 <= i < res@.len() ==> {
                &&& batch_ids(#[trigger] res@[i]) == chunk(messages@, i)
                &&& (res@[i] is Single <==> chunk(messages@, i).len() == 1)
            },
        decreases n - start,
    {
        let end: usize = if n - start >= BULK_DELETE_LIMIT { start + BULK_DELETE_LIMIT } else { n };
        let mut ids: Vec<u64> = Vec::new();
        let mut j: usize = start;
        while j < end
            invariant
                start <= j <= end <= n,
                n == messages@.len(),
                ids@ == messages@.subrange(start as int, j as int),
            decreases end - j,
        {
            ids.push(messages[j]);
            j = j + 1;
            assert(ids@ =~= messages@.subrange(start as int, j as int));
        }
        let ghost k = res@.len() as int;
        assert(ids@ == chunk(messages@, k));
        if ids.len() == 1 {
            let id = ids[0];
            res.push(DeletionBatch::Single(id));
            assert(batch_ids(res@[k]) =~= chunk(messages@, k));
        } else {
            res.push(DeletionBatch::Bulk(ids));
        }
        start = end;
    }
    res
}

/// A message of a fetched page: its id (which holds its creation time) and
/// its author.
pub struct PageMessage {
    pub id: u64,
    pub author_id: u64,
}

/// The span the cleanup reaches back: one hour, in nanoseconds.
pub const CLEANUP_WINDOW_NANOS: i128 = 3_600_000_000_000;

/// The cleanup cutoff for a cleanup at `now_nanos` (Unix nanoseconds): one
/// hour earlier. Only messages sent after it are deleted.
pub open spec fn cleanup_cutoff(now_nanos: i128) -> i128 {
    (now_nanos - CLEANUP_WINDOW_NANOS) as i128
}

/// The cleanup cutoff is exactly one hour (3600 seconds) before the time
/// of the cleanup.
pub proof fn law_cleanup_cutoff_is_one_hour_back(now_nanos: i128)
    requires
        now_nanos >= i128::MIN + CLEANUP_WINDOW_NANOS,
    ensures
        cleanup_cutoff(now_nanos) + 3600 * 1_000_000_000 == now_nanos,
{
}

/// Computes the cleanup cutoff: one hour before `now_nanos`.
pub fn cleanup_cutoff_nanos(now_nanos: i128) -> (res: i128)
    requires
        now_nanos >= i128::MIN + CLEANUP_WINDOW_NANOS,
    ensures
        res == cleanup_cutoff(now_nanos),
{
    now_nanos - CLEANUP_WINDOW_NANOS
}

/// Whether a message of a page was written by `user_id` after the cutoff.
pub open spec fn deletable(user_id: u64, cutoff_nanos: i128) -> spec_fn(PageMessage) -> bool {
    |m: PageMessage| m.author_id == user_id && is_fresh(cutoff_nanos)(m.id)
}

/// The ids of the messages of a page written by `user_id` after the cutoff,
/// in page order.
pub open spec fn ids_to_delete(page: Seq<PageMessage>, user_id: u64, cutoff_nanos: i128) -> Seq<u64> {
    page.filter(deletable(user_id, cutoff_nanos)).map_values(|m: PageMessage| m.id)
}

/// What scanning one page of a channel yields.
pub struct PageScan {
    /// The messages to delete: those of the author sent after the cutoff.
    pub to_delete: Vec<u64>,
    /// The last message of the page, from which the next page starts.
    pub last: Option<u64>,
}

/// Scans a fetched page (newest first): picks the author's messages sent
/// after the cutoff (Unix nanoseconds), and notes where the next page starts.
pub fn scan_page(page: &Vec<PageMessage>, user_id: u64, cutoff_nanos: i128) -> (res: PageScan)
    ensures
        res.to_delete@ == ids_to_delete(page@, user_id, cutoff_nanos),
        res.last == (if page@.len() == 0 { None } else { Some(page@.last().id) }),
{
    let mut to_delete: Vec<u64> = Vec::new();
    let mut last: Option<u64> = None;
    let mut i: usize = 0;
    while i < page.len()
        invariant
            i <= page.len(),
            to_delete@ == ids_to_delete(page@.take(i as int), user_id, cutoff_nanos),
            last == (if i == 0 { None } else { Some(page@[i - 1].id) }),
        decreases page.len() - i,
    {
        let m = &page[i];
        proof {
            assert(page@.take(i + 1) =~= page@.take(i as int).push(page@[i as int]));
            page@.take(i as int).lemma_filter_push(page@[i as int], deletable(user_id, cutoff_nanos));
        }
        if m.author_id == user_id {
            let created = snowflake_created_millis(m.id);
            if (created as i128) * 1_000_000 > cutoff_nanos {
                to_delete.push(m.id);
            }
        }
        last = Some(m.id);
        i = i + 1;
        assert(to_delete@ =~= ids_to_delete(page@.take(i as int), user_id, cutoff_nanos));
    }
    assert(page@.take(i as int) =~= page@);
    PageScan { to_delete, last }
}

/// Every message a page scan deletes was written by the author after the
/// cutoff.
pub proof fn law_scan_deletes_only_recent_author_messages(page: Seq<PageMessage>, user_id: u64, cutoff_nanos: i128, i: int)
    requires
        0 <= i < ids_to_delete(page, user_id, cutoff_nanos).len(),
    ensures
        exists|j: int| 0 <= j < page.len() && #[trigger] page[j].id == ids_to_delete(page, user_id, cutoff_nanos)[i]
            && page[j].author_id == user_id,
        snowflake_millis(ids_to_delete(page, user_id, cutoff_nanos)[i]) * 1_000_000 > cutoff_nanos,
{
    let p = deletable(user_id, cutoff_nanos);
    let f = page.filter(p);
    page.lemma_filter_pred(p, i);
    page.lemma_filter_contains_rev(p, f[i]);
    let j = choose|j: int| 0 <= j < page.len() && page[j] == f[i];
    assert(page[j].id == ids_to_delete(page, user_id, cutoff_nanos)[i]);
}

/// How many pages of a channel the scan pass reads at most.
pub const SCAN_PAGE_LIMIT: u32 = 3;

/// Whether the scan of a channel reads another page, after `pages_read`
/// pages the last of which ended at `last`.
pub fn scan_continues(pages_read: u32, last: Option<u64>) -> (res: bool)
    ensures
        res == (pages_read < SCAN_PAGE_LIMIT && last is Some),
{
    pages_read < SCAN_PAGE_LIMIT && last.is_some()
}

/// Taking an author's messages out right after recording one of them
/// leaves the cache as taking them out alone would, and the recorded message
/// is the last of its channel's entry when it is taken.
pub proof fn law_take_after_record(
    m: Map<(u64, u64, u64), Seq<u64>>,
    guild_id: u64,
    user_id: u64,
    channel_id: u64,
    message_id: u64,
)
    ensures
        ({
            let key = (guild_id, user_id, channel_id);
            let recorded = m.insert(key, appended(m, key, message_id));
            &&& recorded.contains_key(key)
            &&& recorded[key].last() == message_id
            &&& without_author(recorded, guild_id, user_id) == without_author(m, guild_id, user_id)
        }),
{
    let key = (guild_id, user_id, channel_id);
    let recorded = m.insert(key, appended(m, key, message_id));
    assert(without_author(recorded, guild_id, user_id) =~= without_author(m, guild_id, user_id));
}

/// Once an author's messages are taken out, nothing of that author in that
/// guild is left in the cache, and the entries of everybody else stay.
pub proof fn law_take_leaves_nothing(m: Map<(u64, u64, u64), Seq<u64>>, guild_id: u64, user_id: u64, key: (u64, u64, u64))
    ensures
        (key.0 == guild_id && key.1 == user_id) ==> !without_author(m, guild_id, user_id).contains_key(key),
        !(key.0 == guild_id && key.1 == user_id) ==> (without_author(m, guild_id, user_id).contains_key(key) == m.contains_key(key)
            && (m.contains_key(key) ==> without_author(m, guild_id, user_id)[key] == m[key])),
{
}

/// After eviction every message left in the cache was sent after the cutoff.
pub proof fn law_evicted_cache_is_fresh(m: Map<(u64, u64, u64), Seq<u64>>, cutoff_nanos: i128, key: (u64, u64, u64), i: int)
    requires
        fresh_entries(m, cutoff_nanos).contains_key(key),
        0 <= i < fresh_entries(m, cutoff_nanos)[key].len(),
    ensures
        snowflake_millis(fresh_entries(m, cutoff_nanos)[key][i]) * 1_000_000 > cutoff_nanos,
{
    m[key].lemma_filter_pred(is_fresh(cutoff_nanos), i);
}

/// Each message falls in exactly one deletion batch: message `i` is at
/// place `i % 100` of batch `i / 100`, and every batch names between one
/// and a hundred messages.
pub proof fn law_batches_cover_messages(s: Seq<u64>, i: int, b: int)
    requires
        0 <= i < s.len(),
        0 <= b < chunk_count(s.len()),
    ensures
        i / 100 < chunk_count(s.len()),
        chunk(s, i / 100)[i % 100] == s[i],
        1 <= chunk(s, b).len() <= 100,
{
}

} // verus!
