//! Staff-call logic of a Discord voice bot: which voice-state change happened,
//! whether a member counts as staff, how a channel's permission overwrites are
//! rewritten to show or hide it, which announcement a channel triggers, and the
//! cooldown that keeps announcements from being repeated too often.
pub mod text;
pub mod keyed;
pub mod permissions;
pub mod channel;
pub mod voice;
