use std::sync::Arc;

use chrono::{Datelike, Timelike};
use mirai::bot::DiscordBot;
use mirai::clock::local_timestamp_now;
use mirai::guild::{find_guild_system_channel, system_channel_of};
use serenity::cache::Cache;

#[test]
fn new_settings_have_the_slash_prefix_and_nothing_else() {
    let bot = DiscordBot::new();
    assert_eq!(bot.token, "");
    assert_eq!(bot.prefix, "/");
    assert_eq!(bot.creator, None);
    assert!(bot.admins.is_empty());
    let other = DiscordBot::default();
    assert_eq!(other.token, "");
    assert_eq!(other.prefix, "/");
    assert_ne!(bot.id, other.id);
}

#[test]
fn setting_one_field_leaves_the_others() {
    let mut bot = DiscordBot::new();
    bot.creator = Some(42);
    bot.admins.push(7);
    let id = bot.id;
    let bot = bot.set_token("SECRET-REDACTED").set_prefix("!");
    assert_eq!(bot.token, "SECRET-REDACTED");
    assert_eq!(bot.prefix, "!");
    assert_eq!(bot.id, id);
    assert_eq!(bot.creator, Some(42));
    assert_eq!(bot.admins, vec![7]);
    let bot = bot.set_token("");
    assert_eq!(bot.token, "");
    assert_eq!(bot.prefix, "!");
}

#[test]
fn a_copy_has_the_same_settings() {
    let mut bot = DiscordBot::new().set_token("t").set_prefix("?");
    bot.admins.push(1);
    bot.admins.push(2);
    bot.creator = Some(3);
    let copy = bot.clone();
    assert_eq!(copy.id, bot.id);
    assert_eq!(copy.token, "t");
    assert_eq!(copy.prefix, "?");
    assert_eq!(copy.creator, Some(3));
    assert_eq!(copy.admins, vec![1, 2]);
}

#[test]
fn a_guild_that_is_unknown_or_has_no_system_channel_gives_none() {
    assert_eq!(system_channel_of(None), None);
    assert_eq!(system_channel_of(Some(None)), None);
    assert_eq!(system_channel_of(Some(Some(175_928_847_299_117_063))), Some(175_928_847_299_117_063));
    let cache = Arc::new(Cache::new());
    assert_eq!(find_guild_system_channel(&cache, 175_928_847_299_117_063), None);
}

#[test]
fn the_clock_shows_an_instant_of_this_age() {
    let now = local_timestamp_now().unwrap();
    assert!(now.year() >= 2024);
    assert!(1 <= now.month() && now.month() <= 12);
    assert!(now.hour() <= 23 && now.minute() <= 59 && now.second() <= 59);
    let utc = chrono::Utc::now();
    let later = local_timestamp_now().unwrap();
    // The reading is the instant itself, not the wall clock of the bot's zone.
    let between = |x: u32, a: u32, b: u32| if a <= b { a <= x && x <= b } else { x >= a || x <= b };
    assert!(between(utc.hour(), now.hour(), later.hour()));
    assert!(between(utc.day(), now.day(), later.day()));
    assert!(now.year() <= utc.year() && utc.year() <= later.year());
}
