//! What a member did in voice, read off the voice state before and after a change.
use vstd::prelude::*;
use crate::permissions::MemberInfo;

verus! {

/// An user made some action related to a voice channel.
#[derive(Clone, Copy, Debug, PartialEq, Eq, Structural)]
pub enum VoiceMoveAction {
    /// Other state change has happened, such as mute or deaf.
    Undefined,
    /// Entering a voice channel
    Enter,
    /// Leaving a voice channel.
    Leave,
    /// Switching a voice channel to another voice channel.
    Moving,
}

/// What the logic reads of a member's voice state.
#[derive(Debug)]
pub struct VoiceStateInfo {
    /// The voice channel the member is in, if any.
    pub channel_id: Option<u64>,
    /// The member, where Discord sent it along.
    pub member: Option<MemberInfo>,
}

/// The action a voice-state change stands for: no channel now is leaving; no earlier state,
/// or an earlier state in no channel, is entering; another channel than before is moving;
/// anything else (mute, deafen, ...) is undefined.
pub open spec fn spec_voice_move_action(old: Option<VoiceStateInfo>, new: VoiceStateInfo) -> VoiceMoveAction {
    match old {
        None => VoiceMoveAction::Enter,
        Some(s) => if new.channel_id is None {
            VoiceMoveAction::Leave
        } else if s.channel_id is None {
            VoiceMoveAction::Enter
        } else if s.channel_id != new.channel_id {
            VoiceMoveAction::Moving
        } else {
            VoiceMoveAction::Undefined
        },
    }
}

fn same_channel(a: Option<u64>, b: Option<u64>) -> (same: bool)
    ensures
        same == (a == b),
{
    match (a, b) {
        (Some(x), Some(y)) => x == y,
        (None, None) => true,
        _ => false,
    }
}

impl VoiceMoveAction {
    /// Which action a member took, from the voice state before the change (if Discord had
    /// one) and the state after it.
    pub fn from_voice_states(old: &Option<VoiceStateInfo>, new: &VoiceStateInfo) -> (action: VoiceMoveAction)
        ensures
            action == spec_voice_move_action(*old, *new),
    {
        match old {
            None => VoiceMoveAction::Enter,
            Some(s) => {
                if new.channel_id.is_none() {
                    VoiceMoveAction::Leave
                } else if s.channel_id.is_none() {
                    VoiceMoveAction::Enter
                } else if !same_channel(s.channel_id, new.channel_id) {
                    VoiceMoveAction::Moving
                } else {
                    VoiceMoveAction::Undefined
                }
            },
        }
    }
}

} // verus!
