//! Voice-channel staff calls: the labels of announcements, the prepared messages and their
//! cooldown, the broadcaster that owns them, and the manager that decides what a voice-state
//! change leads to.
use vstd::prelude::*;

pub mod voice_move_action;
pub use voice_move_action::{VoiceMoveAction, VoiceStateInfo};

pub mod voice_channel_manager;
pub use voice_channel_manager::VoiceChannelManager;

pub mod broadcaster;
pub use broadcaster::{Broadcaster, EmojiInfo, RoleInfo};

pub mod err;

pub mod prepared_message;
pub use prepared_message::{BroadcasterDatabase, PreparedMessage};

pub mod broadcaster_creation_error;
pub use broadcaster_creation_error::BroadcasterCreationError;

pub mod sending_message_error;
pub use sending_message_error::SendingMessageError;

pub mod voice_channel_manager_creation_error;
pub use voice_channel_manager_creation_error::VoiceChannelManagerCreationError;

verus! {

/// A label under which the broadcaster keeps a prepared message. Its display text keys the
/// message's cooldown.
pub trait MessageLabel: Sized {
    /// The label's display text.
    spec fn display_text(&self) -> Seq<char>;

    /// Whether two labels are the same.
    fn same_label(&self, other: &Self) -> (same: bool)
        ensures
            same == (*self == *other);

    /// A copy of the label.
    fn duplicate(&self) -> (copy: Self)
        ensures
            copy == *self;

    /// The label's display text, as its `Display` writes it.
    fn display_string(&self) -> (text: String)
        ensures
            text@ == self.display_text();
}

/// The kinds of calls that can be announced.
#[derive(Clone, Copy, Debug, Hash, PartialEq, Eq, Structural)]
pub enum CallKind {
    Social,
    Games,
    Movies,
}

/// The kinds of announcements.
#[derive(Clone, Copy, Debug, Hash, PartialEq, Eq, Structural)]
pub enum MessageKind {
    CallOpened(CallKind),
}

impl CallKind {
    /// The variant's name, as its derived display writes it.
    pub open spec fn display_text(&self) -> Seq<char> {
        match self {
            CallKind::Social => "Social"@,
            CallKind::Games => "Games"@,
            CallKind::Movies => "Movies"@,
        }
    }

    /// The variant's name, as its derived display writes it.
    pub fn to_string(&self) -> (text: String)
        ensures
            text@ == self.display_text(),
    {
        match self {
            CallKind::Social => String::from_str("Social"),
            CallKind::Games => String::from_str("Games"),
            CallKind::Movies => String::from_str("Movies"),
        }
    }
}

impl MessageKind {
    /// The variant's name, as its derived display writes it: the call kind is not part of it.
    pub open spec fn spec_display_text(&self) -> Seq<char> {
        match self {
            MessageKind::CallOpened(_) => "CallOpened"@,
        }
    }

    /// The variant's name, as its derived display writes it.
    pub fn to_string(&self) -> (text: String)
        ensures
            text@ == self.spec_display_text(),
    {
        match self {
            MessageKind::CallOpened(_) => String::from_str("CallOpened"),
        }
    }
}

impl MessageLabel for MessageKind {
    open spec fn display_text(&self) -> Seq<char> {
        self.spec_display_text()
    }

    fn same_label(&self, other: &Self) -> (same: bool) {
        *self == *other
    }

    fn duplicate(&self) -> (copy: Self) {
        *self
    }

    fn display_string(&self) -> (text: String) {
        self.to_string()
    }
}

/// Every announcement kind displays as the same text, so all announcements share one cooldown.
pub proof fn law_message_kinds_share_display(a: MessageKind, b: MessageKind)
    ensures
        a.display_text() == b.display_text(),
{
}

} // verus!
