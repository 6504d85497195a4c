//! The command prefix of each guild: its own where it has set one, and the
//! default everywhere else.

use crate::guild::{guild_views, platform_id, spec_platform_id, DatabaseGuild, GuildView};
use crate::shared_map::{
    prefix_entries, prefixes_get, prefixes_insert, prefixes_new, prefixes_remove,
};
use dashmap::DashMap;
use vstd::prelude::*;
use vstd::string::StringExecFns;

verus! {

/// The prefix of a guild that has set none, where the caller names no other
/// default.
pub open spec fn fallback_prefix() -> Seq<char> {
    seq!['?']
}

/// The prefix that answers in `guild`: the guild's own if it has one, else
/// the default that the caller names, else `?`. Outside a guild only the
/// defaults count.
pub open spec fn prefix_in(
    prefixes: Map<u64, Seq<char>>,
    guild: Option<u64>,
    default: Option<Seq<char>>,
) -> Seq<char> {
    match guild {
        Some(id) if prefixes.contains_key(id) => prefixes[id],
        _ => match default {
            Some(prefix) => prefix,
            None => fallback_prefix(),
        },
    }
}

/// The prefixes of a cache into which the records `guilds` were loaded, in
/// order: each record with a prefix files it under the guild's id.
pub open spec fn seeded_prefixes(prefixes: Map<u64, Seq<char>>, guilds: Seq<GuildView>) -> Map<
    u64,
    Seq<char>,
>
    decreases guilds.len(),
{
    if guilds.len() == 0 {
        prefixes
    } else {
        let before = seeded_prefixes(prefixes, guilds.drop_last());
        match guilds.last().prefix {
            Some(prefix) => before.insert(spec_platform_id(guilds.last().id), prefix),
            None => before,
        }
    }
}

/// The prefix override of every guild that has one.
pub struct PrefixCache {
    prefixes: DashMap<u64, String>,
}

impl View for PrefixCache {
    type V = Map<u64, Seq<char>>;

    closed spec fn view(&self) -> Map<u64, Seq<char>> {
        prefix_entries(self.prefixes)
    }
}

impl PrefixCache {
    /// A cache in which no guild has a prefix of its own.
    pub fn new() -> (cache: PrefixCache)
        ensures
            cache@ == Map::<u64, Seq<char>>::empty(),
    {
        PrefixCache { prefixes: prefixes_new() }
    }

    /// Gives `guild` the prefix `prefix`, in place of any it had.
    pub fn set_prefix(&mut self, guild: u64, prefix: String)
        ensures
            final(self)@ == old(self)@.insert(guild, prefix@),
    {
        prefixes_insert(&mut self.prefixes, guild, prefix);
    }

    /// Puts `guild` back on the default prefix.
    pub fn reset_prefix(&mut self, guild: u64)
        ensures
            final(self)@ == old(self)@.remove(guild),
    {
        prefixes_remove(&mut self.prefixes, guild);
    }

    /// The prefix that `guild` has set, if it has set one.
    pub fn prefix_of(&self, guild: u64) -> (prefix: Option<String>)
        ensures
            prefix.is_some() == self@.contains_key(guild),
            prefix matches Some(text) ==> text@ == self@[guild],
    {
        prefixes_get(&self.prefixes, guild)
    }

    /// The prefix that answers a message: see [`prefix_in`]. `guild` is the
    /// guild of the message, if it was sent in one, and `default` the prefix
    /// that the installation names for guilds without their own.
    pub fn effective_prefix(&self, guild: Option<u64>, default: Option<String>) -> (prefix: String)
        ensures
            prefix@ == prefix_in(
                self@,
                guild,
                match default {
                    Some(text) => Some(text@),
                    None => None,
                },
            ),
    {
        if let Some(id) = guild {
            if let Some(own) = prefixes_get(&self.prefixes, id) {
                return own;
            }
        }
        match default {
            Some(text) => text,
            None => {
                proof {
                    reveal_strlit("?");
                }
                let fallback = String::from_str("?");
                fallback
            },
        }
    }

    /// Loads the stored records into the cache, as is done once at start.
    pub fn seed(&mut self, guilds: &Vec<DatabaseGuild>)
        ensures
            final(self)@ == seeded_prefixes(old(self)@, guild_views(guilds@)),
    {
        let ghost views = guild_views(guilds@);
        let mut index: usize = 0;
        while index < guilds.len()
            invariant
                views == guild_views(guilds@),
                0 <= index <= guilds.len(),
                self@ == seeded_prefixes(old(self)@, views.take(index as int)),
            decreases guilds.len() - index,
        {
            let guild = &guilds[index];
            proof {
                let longer = views.take(index + 1);
                assert(longer.drop_last() =~= views.take(index as int));
            }
            match &guild.prefix {
                Some(prefix) => {
                    prefixes_insert(&mut self.prefixes, platform_id(guild._id), prefix.clone());
                },
                None => {},
            }
            index = index + 1;
        }
        assert(views.take(index as int) =~= views);
    }

    /// Forgets a guild that was removed: if its record held a prefix, the
    /// entry of `guild` is dropped.
    pub fn forget_guild(&mut self, guild: u64, record: &DatabaseGuild)
        ensures
            final(self)@ == if record@.prefix.is_some() {
                old(self)@.remove(guild)
            } else {
                old(self)@
            },
    {
        if record.prefix.is_some() {
            prefixes_remove(&mut self.prefixes, guild);
        }
    }
}

} // verus!
