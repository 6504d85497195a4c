//! The counting game: in a counting channel every message must be the
//! integer that follows the last accepted one.
//!
//! The cache of counts is changed through `&mut` only. Whoever judges a
//! message holds the cache alone for that step, so messages are judged one
//! after the other, in the order in which their callers get hold of it.

use crate::decimal::{parse_i64, parse_i64_spec};
use crate::guild::{guild_views, platform_id, spec_platform_id, DatabaseGuild, GuildView};
use crate::shared_map::{count_entries, counts_get, counts_insert, counts_new, counts_remove};
use dashmap::DashMap;
use vstd::prelude::*;

verus! {

/// What to do with a message.
#[derive(Clone, Copy, Debug, PartialEq, Eq, Structural)]
pub enum Action {
    /// The channel is no counting channel: leave the message alone.
    Ignore,
    /// The message is the expected number: keep it and record the count.
    Accept,
    /// The message is anything else: delete it.
    Reject,
}

/// The verdict on a message with text `text`, in a channel whose last
/// accepted count is `last` (`None` where the channel is not registered).
pub open spec fn decide(last: Option<i64>, text: Seq<char>) -> Action {
    match last {
        None => Action::Ignore,
        Some(count) => match parse_i64_spec(text) {
            Some(n) => if n == count + 1 {
                Action::Accept
            } else {
                Action::Reject
            },
            None => Action::Reject,
        },
    }
}

/// What is left to do about a message once it is judged.
#[derive(Clone, Copy, Debug, PartialEq, Eq, Structural)]
pub enum MessageEffect {
    /// Nothing: the message was ignored.
    Nothing,
    /// The message was accepted: write `count` to the record of the guild.
    Persist { count: i64 },
    /// The message was rejected: delete it from the channel.
    Delete,
}

/// What is left to do about a message with text `text`, in a channel whose
/// last accepted count is `last`.
pub open spec fn effect_of(last: Option<i64>, text: Seq<char>) -> MessageEffect {
    match decide(last, text) {
        Action::Ignore => MessageEffect::Nothing,
        Action::Accept => MessageEffect::Persist { count: parse_i64_spec(text).unwrap() },
        Action::Reject => MessageEffect::Delete,
    }
}

/// The counts after a message with text `text` arrived in `channel`: an
/// accepted number becomes the channel's count, and nothing else changes.
pub open spec fn counts_after(counts: Map<u64, i64>, channel: u64, text: Seq<char>) -> Map<
    u64,
    i64,
> {
    if decide(counts.get(channel), text) == Action::Accept {
        counts.insert(channel, parse_i64_spec(text).unwrap())
    } else {
        counts
    }
}

/// The counts after the messages `texts` arrived in `channel`, one after
/// the other.
pub open spec fn counts_after_all(
    counts: Map<u64, i64>,
    channel: u64,
    texts: Seq<Seq<char>>,
) -> Map<u64, i64>
    decreases texts.len(),
{
    if texts.len() == 0 {
        counts
    } else {
        counts_after(counts_after_all(counts, channel, texts.drop_last()), channel, texts.last())
    }
}

/// The verdict on the message at `index` of `texts`, when the messages
/// arrive in `channel` one after the other.
pub open spec fn verdict_at(
    counts: Map<u64, i64>,
    channel: u64,
    texts: Seq<Seq<char>>,
    index: int,
) -> Action {
    decide(counts_after_all(counts, channel, texts.take(index)).get(channel), texts[index])
}

/// The counts of a cache into which the records `guilds` were loaded, in
/// order: each record with a counting channel registers that channel with the
/// count it stores.
pub open spec fn seeded(counts: Map<u64, i64>, guilds: Seq<GuildView>) -> Map<u64, i64>
    decreases guilds.len(),
{
    if guilds.len() == 0 {
        counts
    } else {
        let before = seeded(counts, guilds.drop_last());
        match guilds.last().counting {
            Some(counting) => before.insert(spec_platform_id(counting.channel), counting.count),
            None => before,
        }
    }
}

/// The count that the records `guilds` store for `channel`: that of the last
/// record whose counting channel it is, if there is one.
pub open spec fn stored_count(guilds: Seq<GuildView>, channel: u64) -> Option<i64>
    decreases guilds.len(),
{
    if guilds.len() == 0 {
        None
    } else {
        match guilds.last().counting {
            Some(counting) => if spec_platform_id(counting.channel) == channel {
                Some(counting.count)
            } else {
                stored_count(guilds.drop_last(), channel)
            },
            None => stored_count(guilds.drop_last(), channel),
        }
    }
}

/// The store decides what a seeded cache holds: a channel for which the
/// records store a count has that count, whatever the cache held for it, and
/// every other channel is as it was.
pub proof fn lemma_seeded_from_store(counts: Map<u64, i64>, guilds: Seq<GuildView>, channel: u64)
    ensures
        seeded(counts, guilds).get(channel) == match stored_count(guilds, channel) {
            Some(count) => Some(count),
            None => counts.get(channel),
        },
    decreases guilds.len(),
{
    if guilds.len() > 0 {
        lemma_seeded_from_store(counts, guilds.drop_last(), channel);
    }
}

/// Registering a channel is idempotent, and the last registration decides.
pub proof fn lemma_register_overwrites(counts: Map<u64, i64>, channel: u64, first: i64, last: i64)
    ensures
        counts.insert(channel, last).insert(channel, last) == counts.insert(channel, last),
        counts.insert(channel, first).insert(channel, last) == counts.insert(channel, last),
{
}

/// The counts of a cache that has forgotten a guild: the guild's counting
/// channel, if it has one, is no counting channel any more.
pub open spec fn without_guild(counts: Map<u64, i64>, guild: GuildView) -> Map<u64, i64> {
    match guild.counting {
        Some(counting) => counts.remove(spec_platform_id(counting.channel)),
        None => counts,
    }
}

/// Counting up: when a channel's last count is `start` and the messages
/// write `start + 1`, `start + 2` and so on in order, every one of them is
/// accepted, and the count ends at `start` plus their number.
pub proof fn lemma_counting_up(
    counts: Map<u64, i64>,
    channel: u64,
    start: i64,
    texts: Seq<Seq<char>>,
)
    requires
        counts.get(channel) == Some(start),
        forall|i: int|
            0 <= i < texts.len() ==> (#[trigger] parse_i64_spec(texts[i]) matches Some(n) && n
                == start + 1 + i),
    ensures
        forall|i: int|
            0 <= i < texts.len() ==> #[trigger] verdict_at(counts, channel, texts, i)
                == Action::Accept,
        counts_after_all(counts, channel, texts).contains_key(channel),
        counts_after_all(counts, channel, texts)[channel] == start + texts.len(),
    decreases texts.len(),
{
    if texts.len() > 0 {
        let earlier = texts.drop_last();
        lemma_counting_up(counts, channel, start, earlier);
        assert forall|i: int| 0 <= i < texts.len() implies #[trigger] verdict_at(
            counts,
            channel,
            texts,
            i,
        ) == Action::Accept by {
            if i < earlier.len() {
                assert(texts.take(i) =~= earlier.take(i));
                assert(verdict_at(counts, channel, earlier, i) == Action::Accept);
            } else {
                assert(texts.take(i) =~= earlier);
            }
        }
    }
}

/// One winner: when two messages write the number that a channel waits for,
/// the one that arrives first is accepted and the other is rejected,
/// whichever of them comes first.
pub proof fn lemma_one_winner(
    counts: Map<u64, i64>,
    channel: u64,
    one: Seq<char>,
    other: Seq<char>,
)
    requires
        decide(counts.get(channel), one) == Action::Accept,
        decide(counts.get(channel), other) == Action::Accept,
    ensures
        decide(counts_after(counts, channel, one).get(channel), other) == Action::Reject,
        decide(counts_after(counts, channel, other).get(channel), one) == Action::Reject,
{
}

/// A message moves the count of its channel up by one or not at all, and
/// leaves every other channel as it was.
pub proof fn lemma_count_steps(counts: Map<u64, i64>, channel: u64, text: Seq<char>, any: u64)
    ensures
        counts_after(counts, channel, text).dom() == counts.dom(),
        any != channel && counts.contains_key(any) ==> counts_after(counts, channel, text)[any]
            == counts[any],
        counts.contains_key(channel) ==> {
            let after = counts_after(counts, channel, text)[channel];
            after == counts[channel] || after == counts[channel] + 1
        },
{
}

/// Messages in different channels do not interfere: they can be judged in
/// either order, with the same verdicts and the same counts at the end.
pub proof fn lemma_channels_independent(
    counts: Map<u64, i64>,
    a: u64,
    text_a: Seq<char>,
    b: u64,
    text_b: Seq<char>,
)
    requires
        a != b,
    ensures
        decide(counts_after(counts, a, text_a).get(b), text_b) == decide(counts.get(b), text_b),
        decide(counts_after(counts, b, text_b).get(a), text_a) == decide(counts.get(a), text_a),
        counts_after(counts_after(counts, a, text_a), b, text_b) == counts_after(
            counts_after(counts, b, text_b),
            a,
            text_a,
        ),
{
    assert(counts_after(counts_after(counts, a, text_a), b, text_b) =~= counts_after(
        counts_after(counts, b, text_b),
        a,
        text_a,
    ));
}

/// The last accepted count of every counting channel.
pub struct CountingCache {
    counts: DashMap<u64, i64>,
}

impl View for CountingCache {
    type V = Map<u64, i64>;

    closed spec fn view(&self) -> Map<u64, i64> {
        count_entries(self.counts)
    }
}

impl CountingCache {
    /// A cache without any counting channel.
    pub fn new() -> (cache: CountingCache)
        ensures
            cache@ == Map::<u64, i64>::empty(),
    {
        CountingCache { counts: counts_new() }
    }

    /// The number that `channel` waits for.
    pub open spec fn expected_next(&self, channel: u64) -> int {
        self@[channel] + 1
    }

    /// Makes `channel` a counting channel whose last count is `start_count`,
    /// so that it waits for `start_count + 1`. Registering a channel again
    /// overwrites its count.
    pub fn register_channel(&mut self, channel: u64, start_count: i64)
        ensures
            final(self)@ == old(self)@.insert(channel, start_count),
            final(self).expected_next(channel) == start_count + 1,
    {
        counts_insert(&mut self.counts, channel, start_count);
    }

    /// Makes `channel` an ordinary channel again.
    pub fn unregister_channel(&mut self, channel: u64)
        ensures
            final(self)@ == old(self)@.remove(channel),
    {
        counts_remove(&mut self.counts, channel);
    }

    /// The last accepted count of `channel`, if it is a counting channel.
    pub fn last_count(&self, channel: u64) -> (count: Option<i64>)
        ensures
            count == self@.get(channel),
    {
        counts_get(&self.counts, channel)
    }

    /// Loads the stored records into the cache, as is done once before any
    /// message is judged: the store decides what the cache holds.
    pub fn seed(&mut self, guilds: &Vec<DatabaseGuild>)
        ensures
            final(self)@ == seeded(old(self)@, guild_views(guilds@)),
    {
        let ghost views = guild_views(guilds@);
        let mut index: usize = 0;
        while index < guilds.len()
            invariant
                views == guild_views(guilds@),
                0 <= index <= guilds.len(),
                self@ == seeded(old(self)@, views.take(index as int)),
            decreases guilds.len() - index,
        {
            let guild = &guilds[index];
            proof {
                let longer = views.take(index + 1);
                assert(longer.drop_last() =~= views.take(index as int));
            }
            match guild.counting {
                Some(counting) => {
                    counts_insert(&mut self.counts, platform_id(counting.channel), counting.count);
                },
                None => {},
            }
            index = index + 1;
        }
        assert(views.take(index as int) =~= views);
    }

    /// Forgets a guild that was removed: its counting channel, if it had
    /// one, is unregistered.
    pub fn forget_guild(&mut self, guild: &DatabaseGuild)
        ensures
            final(self)@ == without_guild(old(self)@, guild@),
    {
        match guild.counting {
            Some(counting) => {
                counts_remove(&mut self.counts, platform_id(counting.channel));
            },
            None => {},
        }
    }

    /// Judges one message. The comparison with the expected number and the
    /// update of the count are one step: the cache is held exclusively for
    /// both, so of two messages with the same number only the first is
    /// accepted.
    pub fn on_message(&mut self, channel: u64, text: &str) -> (action: Action)
        ensures
            action == decide(old(self)@.get(channel), text@),
            final(self)@ == counts_after(old(self)@, channel, text@),
            !old(self)@.contains_key(channel) ==> action == Action::Ignore,
            old(self)@.contains_key(channel) && parse_i64_spec(text@).is_none() ==> action
                == Action::Reject,
    {
        match self.dispatch(channel, text) {
            MessageEffect::Nothing => Action::Ignore,
            MessageEffect::Persist { .. } => Action::Accept,
            MessageEffect::Delete => Action::Reject,
        }
    }

    /// Judges one message as [`CountingCache::on_message`] does, and says what
    /// is left to do about it. The verdict never waits for that to be done.
    pub fn dispatch(&mut self, channel: u64, text: &str) -> (effect: MessageEffect)
        ensures
            effect == effect_of(old(self)@.get(channel), text@),
            final(self)@ == counts_after(old(self)@, channel, text@),
    {
        match counts_get(&self.counts, channel) {
            None => MessageEffect::Nothing,
            Some(count) => match parse_i64(text) {
                Some(n) => {
                    if count < i64::MAX && n == count + 1 {
                        counts_insert(&mut self.counts, channel, n);
                        MessageEffect::Persist { count: n }
                    } else {
                        MessageEffect::Delete
                    }
                },
                None => MessageEffect::Delete,
            },
        }
    }
}

} // verus!
