//! The settings of a bot: who it is, how it signs in, whom it obeys.

use vstd::prelude::*;
use vstd::string::StringExecFns;

verus! {

/// The settings of a bot. The connection that is opened with them is the
/// caller's to hold.
#[derive(Debug)]
pub struct DiscordBot {
    /// Drawn at random when the settings are made.
    pub id: u128,
    pub token: String,
    /// What a message starts with when it is meant as a command.
    pub prefix: String,
    pub creator: Option<u64>,
    pub admins: Vec<u64>,
}

/// Calls `uuid::Uuid::new_v4` and returns the identifier as a number with
/// `Uuid::as_u128`. Nothing is claimed of it: it is drawn at random.
#[verifier::external_body]
fn fresh_id() -> u128 {
    uuid::Uuid::new_v4().as_u128()
}

impl DiscordBot {
    /// Settings with a fresh identifier, no token, the prefix `/`, no
    /// creator and no admins.
    pub fn new() -> (bot: DiscordBot)
        ensures
            bot.token@ == Seq::<char>::empty(),
            bot.prefix@ == "/"@,
            bot.creator is None,
            bot.admins@ == Seq::<u64>::empty(),
    {
        DiscordBot {
            id: fresh_id(),
            token: String::new(),
            prefix: String::from_str("/"),
            creator: None,
            admins: Vec::new(),
        }
    }

    /// The same settings with `token` as the token.
    pub fn set_token(self, token: &str) -> (bot: DiscordBot)
        ensures
            bot.token@ == token@,
            bot.id == self.id,
            bot.prefix@ == self.prefix@,
            bot.creator == self.creator,
            bot.admins@ == self.admins@,
    {
        let mut bot = self;
        bot.token = String::from_str(token);
        bot
    }

    /// The same settings with `prefix` as the prefix.
    pub fn set_prefix(self, prefix: &str) -> (bot: DiscordBot)
        ensures
            bot.prefix@ == prefix@,
            bot.id == self.id,
            bot.token@ == self.token@,
            bot.creator == self.creator,
            bot.admins@ == self.admins@,
    {
        let mut bot = self;
        bot.prefix = String::from_str(prefix);
        bot
    }
}

impl Default for DiscordBot {
    fn default() -> (bot: DiscordBot)
        ensures
            bot.token@ == Seq::<char>::empty(),
            bot.prefix@ == "/"@,
            bot.creator is None,
            bot.admins@ == Seq::<u64>::empty(),
    {
        DiscordBot::new()
    }
}

impl Clone for DiscordBot {
    fn clone(&self) -> (copy: DiscordBot)
        ensures
            copy.id == self.id,
            copy.token@ == self.token@,
            copy.prefix@ == self.prefix@,
            copy.creator == self.creator,
            copy.admins@ == self.admins@,
    {
        DiscordBot {
            id: self.id,
            token: self.token.clone(),
            admins: self.admins.clone(),
            prefix: self.prefix.clone(),
            creator: self.creator,
        }
    }
}

} // verus!
