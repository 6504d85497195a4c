//! The contracts under which this crate uses `dashmap::DashMap`. Nothing in
//! this file is proved: each contract restates what the map's own source and
//! documentation say.
//!
//! The maps are private fields of the caches and never leave them. The
//! functions that change a map take it by `&mut`, so nobody else can touch it
//! during the call: what the map holds afterwards is what it held before with
//! the one entry changed. No function here keeps a guard of the map beyond
//! its own return, so none can block another.

use dashmap::DashMap;
use std::collections::hash_map::RandomState;
use vstd::prelude::*;

verus! {

/// `dashmap::DashMap`: a hash map split into shards, each behind its own
/// lock. Its inside is not visible to the verifier.
#[verifier::external_type_specification]
#[verifier::external_body]
#[verifier::reject_recursive_types(K)]
#[verifier::reject_recursive_types(V)]
#[verifier::reject_recursive_types(S)]
pub struct ExDashMap<K, V, S>(DashMap<K, V, S>);

/// The entries that a map from channels to counts holds.
pub uninterp spec fn count_entries(map: DashMap<u64, i64, RandomState>) -> Map<u64, i64>;

/// `DashMap::new`: the new map holds no entry.
#[verifier::external_body]
pub(crate) fn counts_new() -> (created: DashMap<u64, i64>)
    ensures
        count_entries(created) =~= Map::empty(),
{
    DashMap::new()
}

/// `DashMap::insert`: afterwards `channel` maps to `count` and every other
/// key is as before.
#[verifier::external_body]
pub(crate) fn counts_insert(map: &mut DashMap<u64, i64>, channel: u64, count: i64)
    ensures
        count_entries(*final(map)) == count_entries(*old(map)).insert(channel, count),
{
    map.insert(channel, count);
}

/// `DashMap::remove`: afterwards `channel` has no entry and every other key
/// is as before.
#[verifier::external_body]
pub(crate) fn counts_remove(map: &mut DashMap<u64, i64>, channel: u64)
    ensures
        count_entries(*final(map)) == count_entries(*old(map)).remove(channel),
{
    map.remove(&channel);
}

/// `DashMap::get`, followed by `Ref::value`: the value that `channel` maps
/// to, if it has an entry. The guard is released before this returns.
#[verifier::external_body]
pub(crate) fn counts_get(map: &DashMap<u64, i64>, channel: u64) -> (count: Option<i64>)
    ensures
        count == count_entries(*map).get(channel),
{
    map.get(&channel).map(|entry| *entry.value())
}

/// The entries that a map from guilds to prefixes holds, each prefix as its
/// characters.
pub uninterp spec fn prefix_entries(map: DashMap<u64, String, RandomState>) -> Map<u64, Seq<char>>;

/// `DashMap::new`: the new map holds no entry.
#[verifier::external_body]
pub(crate) fn prefixes_new() -> (created: DashMap<u64, String>)
    ensures
        prefix_entries(created) =~= Map::empty(),
{
    DashMap::new()
}

/// `DashMap::insert`: afterwards `guild` maps to `prefix` and every other key
/// is as before.
#[verifier::external_body]
pub(crate) fn prefixes_insert(map: &mut DashMap<u64, String>, guild: u64, prefix: String)
    ensures
        prefix_entries(*final(map)) == prefix_entries(*old(map)).insert(guild, prefix@),
{
    map.insert(guild, prefix);
}

/// `DashMap::remove`: afterwards `guild` has no entry and every other key is
/// as before.
#[verifier::external_body]
pub(crate) fn prefixes_remove(map: &mut DashMap<u64, String>, guild: u64)
    ensures
        prefix_entries(*final(map)) == prefix_entries(*old(map)).remove(guild),
{
    map.remove(&guild);
}

/// `DashMap::get`, followed by `Ref::value` and a clone of the string: the
/// prefix that `guild` maps to, if it has an entry. The guard is released
/// before this returns.
#[verifier::external_body]
pub(crate) fn prefixes_get(map: &DashMap<u64, String>, guild: u64) -> (prefix: Option<String>)
    ensures
        prefix.is_some() == prefix_entries(*map).contains_key(guild),
        prefix matches Some(text) ==> text@ == prefix_entries(*map)[guild],
{
    map.get(&guild).map(|entry| entry.value().clone())
}

} // verus!
