//! The errors of sending an announcement.
use vstd::prelude::*;
use crate::text::{decimal, push_decimal};
use crate::voice::prepared_message::NANOS_PER_SEC;

verus! {

/// Why an announcement was not sent.
#[derive(Debug)]
pub enum SendingMessageError<T> {
    /// No message is prepared under the label.
    LabelNotFound(T),
    /// The cooldown database is not there.
    FailedToAccessDatabase,
    /// The label's cooldown has not run out yet.
    TooSoon { elapsed_nanos: u64, cooldown: u64 },
    /// Discord refused the message.
    NotFound(poise::serenity_prelude::Error),
}

/// The text of a "too soon" error, with the times in hours, minutes and seconds as the
/// error's display writes them (the minutes are the total minutes).
pub open spec fn too_soon_text(elapsed_nanos: u64, cooldown: u64) -> Seq<char> {
    let secs: u64 = elapsed_nanos / NANOS_PER_SEC;
    "cooldown ("@ + decimal((cooldown / 3600) as nat) + "h"@ + decimal((cooldown / 60) as nat) + "m"@
        + decimal((cooldown % 60) as nat) + "s) isn't completed yet, time elapsed: "@
        + decimal((secs / 3600) as nat) + "h"@ + decimal((secs / 60) as nat) + "m"@
        + decimal((secs % 60) as nat) + "s"@
}

impl<T> SendingMessageError<T> {
    /// The error's text.
    pub open spec fn text(&self) -> Seq<char> {
        match self {
            SendingMessageError::LabelNotFound(_) => "message label was not found"@,
            SendingMessageError::FailedToAccessDatabase => "database is not accessible"@,
            SendingMessageError::TooSoon { elapsed_nanos, cooldown } => too_soon_text(*elapsed_nanos, *cooldown),
            SendingMessageError::NotFound(_) => "internal error"@,
        }
    }

    /// The error's text, as its display writes it.
    pub fn to_string(&self) -> (s: String)
        ensures
            s@ == self.text(),
    {
        match self {
            SendingMessageError::LabelNotFound(_) => String::from_str("message label was not found"),
            SendingMessageError::FailedToAccessDatabase => String::from_str("database is not accessible"),
            SendingMessageError::TooSoon { elapsed_nanos, cooldown } => {
                let secs: u64 = *elapsed_nanos / NANOS_PER_SEC;
                let mut s = String::from_str("cooldown (");
                push_decimal(&mut s, *cooldown / 3600);
                s.append("h");
                push_decimal(&mut s, *cooldown / 60);
                s.append("m");
                push_decimal(&mut s, *cooldown % 60);
                s.append("s) isn't completed yet, time elapsed: ");
                push_decimal(&mut s, secs / 3600);
                s.append("h");
                push_decimal(&mut s, secs / 60);
                s.append("m");
                push_decimal(&mut s, secs % 60);
                s.append("s");
                s
            },
            SendingMessageError::NotFound(_) => String::from_str("internal error"),
        }
    }
}

} // verus!
