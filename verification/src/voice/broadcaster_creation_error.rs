//! The errors of setting up the broadcaster.
use vstd::prelude::*;
use crate::text::{decimal, push_decimal};

verus! {

/// Why the broadcaster could not be set up.
#[derive(Debug)]
pub enum BroadcasterCreationError {
    /// The role to mention is not in the guild.
    RoleNotFound(u64),
    /// Discord refused a request.
    Serenity(poise::serenity_prelude::Error),
    /// The channel to announce in is not a guild text channel.
    MissingTextChannel(u64),
}

impl BroadcasterCreationError {
    /// The error's text.
    pub open spec fn text(&self) -> Seq<char> {
        match self {
            BroadcasterCreationError::RoleNotFound(id) => "role with id `"@ + decimal(*id as nat) + "` was not found"@,
            BroadcasterCreationError::Serenity(_) => "internal error"@,
            BroadcasterCreationError::MissingTextChannel(id) =>
                "provided channel with id `"@ + decimal(*id as nat) + "` isn't a text channel"@,
        }
    }

    /// The error's text, as its display writes it.
    pub fn to_string(&self) -> (s: String)
        ensures
            s@ == self.text(),
    {
        match self {
            BroadcasterCreationError::RoleNotFound(id) => {
                let mut s = String::from_str("role with id `");
                push_decimal(&mut s, *id);
                s.append("` was not found");
                s
            },
            BroadcasterCreationError::Serenity(_) => String::from_str("internal error"),
            BroadcasterCreationError::MissingTextChannel(id) => {
                let mut s = String::from_str("provided channel with id `");
                push_decimal(&mut s, *id);
                s.append("` isn't a text channel");
                s
            },
        }
    }
}

} // verus!
