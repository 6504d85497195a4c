//! The durable record of one guild: its prefix override and its counting
//! channel. The store keeps every id as a signed 64-bit integer; the chat
//! platform hands ids out as unsigned ones.

use vstd::prelude::*;

verus! {

/// The id that the platform knows for an id as the store keeps it: the same
/// 64 bits, read as unsigned.
pub open spec fn spec_platform_id(stored: i64) -> u64 {
    if stored >= 0 {
        stored as u64
    } else {
        (stored + 0x1_0000_0000_0000_0000) as u64
    }
}

/// The id as the store keeps it for an id of the platform: the same 64 bits,
/// read as signed.
pub open spec fn spec_stored_id(id: u64) -> i64 {
    if id <= i64::MAX {
        id as i64
    } else {
        (id - 0x1_0000_0000_0000_0000) as i64
    }
}

/// Reads an id of the store as the platform knows it.
#[verifier::when_used_as_spec(spec_platform_id)]
pub fn platform_id(stored: i64) -> (id: u64)
    ensures
        id == spec_platform_id(stored),
{
    if stored >= 0 {
        stored as u64
    } else {
        (stored - i64::MIN) as u64 + 0x8000_0000_0000_0000
    }
}

/// Writes an id of the platform as the store keeps it.
#[verifier::when_used_as_spec(spec_stored_id)]
pub fn stored_id(id: u64) -> (stored: i64)
    ensures
        stored == spec_stored_id(id),
{
    if id <= 0x7fff_ffff_ffff_ffff {
        id as i64
    } else {
        (id - 0x8000_0000_0000_0000) as i64 + i64::MIN
    }
}

/// Storing an id and reading it back gives the id, and so does the reverse.
pub proof fn lemma_id_round_trip(id: u64, stored: i64)
    ensures
        spec_platform_id(spec_stored_id(id)) == id,
        spec_stored_id(spec_platform_id(stored)) == stored,
{
}

/// The counting channel of a guild and the last number accepted in it.
#[derive(Clone, Copy, Debug, PartialEq, Eq, Structural)]
pub struct GuildCounting {
    pub channel: i64,
    pub count: i64,
}

/// What the store holds for one guild.
#[derive(Debug)]
pub struct DatabaseGuild {
    pub _id: i64,
    pub prefix: Option<String>,
    pub counting: Option<GuildCounting>,
}

/// The mathematical model of a [`DatabaseGuild`].
pub struct GuildView {
    pub id: i64,
    pub prefix: Option<Seq<char>>,
    pub counting: Option<GuildCounting>,
}

impl View for DatabaseGuild {
    type V = GuildView;

    open spec fn view(&self) -> GuildView {
        GuildView {
            id: self._id,
            prefix: match self.prefix {
                Some(prefix) => Some(prefix@),
                None => None,
            },
            counting: self.counting,
        }
    }
}

impl GuildView {
    /// The record after `count` was accepted in `channel`: the count is
    /// stored if `channel` is the guild's counting channel, and the record is
    /// left alone otherwise.
    pub open spec fn with_count(self, channel: u64, count: i64) -> GuildView {
        match self.counting {
            Some(counting) => if spec_platform_id(counting.channel) == channel {
                GuildView {
                    counting: Some(GuildCounting { channel: counting.channel, count }),
                    ..self
                }
            } else {
                self
            },
            None => self,
        }
    }
}

/// The models of a list of records.
pub open spec fn guild_views(guilds: Seq<DatabaseGuild>) -> Seq<GuildView> {
    guilds.map_values(|guild: DatabaseGuild| guild@)
}

/// Recording an accepted count is idempotent, and of two recordings for one
/// channel the later one wins, so a write that is repeated or overtaken does
/// no harm.
pub proof fn lemma_record_count_last_wins(guild: GuildView, channel: u64, first: i64, second: i64)
    ensures
        guild.with_count(channel, first).with_count(channel, first) == guild.with_count(
            channel,
            first,
        ),
        guild.with_count(channel, first).with_count(channel, second) == guild.with_count(
            channel,
            second,
        ),
{
}

impl DatabaseGuild {
    /// The record of a guild that has configured nothing yet.
    pub fn new(_id: i64) -> (guild: DatabaseGuild)
        ensures
            guild@ == (GuildView { id: _id, prefix: None, counting: None }),
    {
        DatabaseGuild { _id, prefix: None, counting: None }
    }

    /// The guild's counting channel, as the platform knows it.
    pub fn counting_channel(&self) -> (channel: Option<u64>)
        ensures
            channel == match self@.counting {
                Some(counting) => Some(spec_platform_id(counting.channel)),
                None => None,
            },
    {
        match self.counting {
            Some(counting) => Some(platform_id(counting.channel)),
            None => None,
        }
    }

    /// Makes `channel` the guild's counting channel, with nothing counted yet.
    pub fn start_counting(&mut self, channel: u64)
        ensures
            final(self)@ == (GuildView {
                counting: Some(GuildCounting { channel: spec_stored_id(channel), count: 0 }),
                ..old(self)@
            }),
    {
        self.counting = Some(GuildCounting { channel: stored_id(channel), count: 0 });
    }

    /// Records that `count` was accepted in `channel`, and returns whether it
    /// was stored: it is when `channel` is the guild's counting channel.
    pub fn record_count(&mut self, channel: u64, count: i64) -> (recorded: bool)
        ensures
            final(self)@ == old(self)@.with_count(channel, count),
            recorded == (old(self)@.counting matches Some(counting) && spec_platform_id(
                counting.channel,
            ) == channel),
    {
        match self.counting {
            Some(counting) => {
                if platform_id(counting.channel) == channel {
                    self.counting = Some(GuildCounting { channel: counting.channel, count });
                    true
                } else {
                    false
                }
            },
            None => false,
        }
    }
}

} // verus!
