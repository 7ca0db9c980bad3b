//! The errors of setting up the voice channel manager.
use vstd::prelude::*;
use crate::text::{decimal, push_decimal};
use crate::voice::broadcaster_creation_error::BroadcasterCreationError;

verus! {

/// Why the voice channel manager could not be set up.
#[derive(Debug)]
pub enum VoiceChannelManagerCreationError {
    /// The guild is not there.
    GuildNotFound(u64),
    /// The broadcaster could not be set up.
    Broadcaster(BroadcasterCreationError),
    /// Discord refused a request.
    Serenity(poise::serenity_prelude::Error),
}

impl VoiceChannelManagerCreationError {
    /// The error's text.
    pub open spec fn text(&self) -> Seq<char> {
        match self {
            VoiceChannelManagerCreationError::GuildNotFound(id) => "guild with id `"@ + decimal(*id as nat) + "` was not found"@,
            VoiceChannelManagerCreationError::Broadcaster(_) => "broadcaster creation failed"@,
            VoiceChannelManagerCreationError::Serenity(_) => "internal error"@,
        }
    }

    /// The error's text, as its display writes it.
    pub fn to_string(&self) -> (s: String)
        ensures
            s@ == self.text(),
    {
        match self {
            VoiceChannelManagerCreationError::GuildNotFound(id) => {
                let mut s = String::from_str("guild with id `");
                push_decimal(&mut s, *id);
                s.append("` was not found");
                s
            },
            VoiceChannelManagerCreationError::Broadcaster(_) => String::from_str("broadcaster creation failed"),
            VoiceChannelManagerCreationError::Serenity(_) => String::from_str("internal error"),
        }
    }
}

} // verus!
