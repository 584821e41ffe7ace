//! What the bot says when a member joins.

use crate::clock::{LocalInstant, Reading};
use crate::log::{french_time, french_time_of};
use vstd::prelude::*;
use vstd::string::StringExecFns;

verus! {

/// The welcome of a new member, for the caller to send.
#[derive(Debug)]
pub struct Welcome {
    pub title: String,
    pub description: String,
    /// Whose name the message bears: the member's.
    pub author: String,
    /// The member's picture, beside the name and as the thumbnail; `None`
    /// for a member without one.
    pub avatar: Option<String>,
    /// When the member came; `None` if that is not known.
    pub footer: Option<String>,
}

/// The last line of a welcome.
pub open spec fn welcome_footer(name: Seq<char>, joined_at: Reading) -> Seq<char> {
    name + " nous rejoint en cette date mémorable du "@ + french_time(joined_at)
}

/// Composes the welcome of a member from the name to show, the address of
/// the member's picture, empty if there is none, and the instant at which
/// the member joined, in the time zone in which it is to be written.
pub fn on_new_member(display_name: &str, avatar_url: &str, joined_at: Option<LocalInstant>) -> (w:
    Welcome)
    ensures
        w.title@ == "Bienvenue"@,
        w.description@ == "*Viendrais-tu par hasard chercher ton bonheur avec Danganronpa 2 ?*"@,
        w.author@ == display_name@,
        avatar_url@.len() == 0 ==> w.avatar is None,
        avatar_url@.len() > 0 ==> w.avatar is Some && w.avatar->0@ == avatar_url@,
        joined_at is None ==> w.footer is None,
        joined_at is Some ==> w.footer is Some && w.footer->0@ == welcome_footer(
            display_name@,
            joined_at->0@,
        ),
{
    let avatar = if avatar_url.is_empty() {
        None
    } else {
        Some(String::from_str(avatar_url))
    };
    let footer = match joined_at {
        None => None,
        Some(at) => {
            let mut footer = String::from_str(display_name);
            footer.append(" nous rejoint en cette date mémorable du ");
            footer.append(french_time_of(&at).as_str());
            Some(footer)
        },
    };
    Welcome {
        title: String::from_str("Bienvenue"),
        description: String::from_str(
            "*Viendrais-tu par hasard chercher ton bonheur avec Danganronpa 2 ?*",
        ),
        author: String::from_str(display_name),
        avatar,
        footer,
    }
}

} // verus!
