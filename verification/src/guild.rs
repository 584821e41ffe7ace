//! Where a guild wants to be told what happens in it.

use serenity::cache::Cache;
use serenity::model::id::GuildId;
use std::sync::Arc;
use vstd::prelude::*;

verus! {

#[verifier::external_type_specification]
#[verifier::external_body]
pub struct ExCache(serenity::cache::Cache);

/// Calls `serenity::cache::Cache::guild` with the identifier and hands out
/// the `system_channel_id` of the guild it returns, as a number. Nothing is
/// claimed of the result: the cache holds what the gateway has reported so
/// far.
#[verifier::external_body]
fn cached_system_channel(cache: &Arc<Cache>, guild_id: u64) -> Option<Option<u64>> {
    cache.guild(GuildId(guild_id)).map(|guild| guild.system_channel_id.map(|channel| channel.0))
}

/// The system channel of a guild that was looked up: `found` is `None` if
/// the guild is not known, and else holds the guild's system channel, if it
/// has one.
pub fn system_channel_of(found: Option<Option<u64>>) -> (channel: Option<u64>)
    ensures
        channel == match found {
            Some(Some(id)) => Some(id),
            _ => None,
        },
{
    match found {
        None => None,
        Some(channel) => channel,
    }
}

/// Looks the guild up in the cache and returns its system channel, if the
/// guild is known and has one.
pub fn find_guild_system_channel(cache: &Arc<Cache>, guild_id: u64) -> Option<u64> {
    system_channel_of(cached_system_channel(cache, guild_id))
}

} // verus!
