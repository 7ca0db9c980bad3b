//! The decisions of the voice channel manager: which voice-state changes concern staff in
//! public channels, what becomes of the channel, and which announcement follows.
use vstd::prelude::*;
use crate::channel::{everyone_may_speak, hidden, ChannelInfo};
use std::collections::{HashMap, HashSet};
use crate::permissions::{spec_is_staff, MemberInfo};
use crate::text::{decimal, push_decimal};
use crate::voice::broadcaster::{emojis_by_id, find_role, roles_by_id, Broadcaster, EmojiInfo, RoleInfo};
use crate::voice::broadcaster_creation_error::BroadcasterCreationError;
use crate::voice::voice_channel_manager_creation_error::VoiceChannelManagerCreationError;
use crate::voice::err::message_error::MessageError;
use crate::voice::voice_move_action::{spec_voice_move_action, VoiceMoveAction, VoiceStateInfo};
use crate::voice::{CallKind, MessageKind};

verus! {

/// The text channel announcements go to.
pub const BROADCAST_CHANNEL_ID: u64 = 1126997072961343660;

/// The voice channel of social calls.
pub const SOCIAL_CHANNEL_ID: u64 = 1160706169963294740;

/// The voice channel of game calls.
pub const GAMES_CHANNEL_ID: u64 = 1374542425116246066;

/// The voice channel of movie calls.
pub const MOVIES_CHANNEL_ID: u64 = 1419472150644916244;

/// The role that social calls mention.
pub const SOCIAL_ROLE_ID: u64 = 1274386535285788826;

/// The role that game calls mention.
pub const GAMES_ROLE_ID: u64 = 1287419235886436375;

/// The role that movie calls mention.
pub const MOVIES_ROLE_ID: u64 = 1287419731447648396;

/// The emoji that closes an announcement where the guild has it.
pub const PRIDE_HEART_EMOJI_ID: u64 = 1073325566196990142;

/// How a role mention is written: `<@&ID>`.
pub open spec fn role_mention(role_id: u64) -> Seq<char> {
    "<@&"@ + decimal(role_id as nat) + ">"@
}

/// How an emoji is written: `<:NAME:ID>`, or `<a:NAME:ID>` where it is animated.
pub open spec fn emoji_text(emoji: EmojiInfo) -> Seq<char> {
    (if emoji.animated { "<a:"@ } else { "<:"@ }) + emoji.name@ + ":"@ + decimal(emoji.id as nat) + ">"@
}

/// An announcement: the role's mention, " call aberta! ", and the pride heart emoji where the
/// guild has it.
pub open spec fn call_message(role_id: u64, emojis: Map<u64, EmojiInfo>) -> Seq<char> {
    role_mention(role_id) + " call aberta! "@ + (if emojis.contains_key(PRIDE_HEART_EMOJI_ID) {
        emoji_text(emojis[PRIDE_HEART_EMOJI_ID])
    } else {
        Seq::empty()
    })
}

/// The announcement registered for a role: the call message, or nothing where the role is
/// not in the guild.
pub open spec fn registered_message(roles: Seq<RoleInfo>, role_id: u64, emojis: Map<u64, EmojiInfo>) -> Seq<char> {
    if roles_by_id(roles).contains_key(role_id) {
        call_message(role_id, emojis)
    } else {
        Seq::empty()
    }
}

/// Which announcement a voice channel stands for.
pub open spec fn call_channels() -> Map<u64, MessageKind> {
    map![
        SOCIAL_CHANNEL_ID => MessageKind::CallOpened(CallKind::Social),
        GAMES_CHANNEL_ID => MessageKind::CallOpened(CallKind::Games),
        MOVIES_CHANNEL_ID => MessageKind::CallOpened(CallKind::Movies),
    ]
}

/// What a voice-state change asks of the manager.
#[derive(Clone, Copy, Debug, PartialEq, Eq, Structural)]
pub enum StatePlan {
    /// Nothing to do.
    Nothing,
    /// The member of the new state entered the channel.
    Enter { channel_id: u64 },
    /// The member of the old state left the channel.
    Leave { channel_id: u64 },
    /// The member moved from one channel to another.
    Move { from_channel_id: u64, to_channel_id: u64 },
}

/// What follows once a channel was shown to everyone.
#[derive(Clone, Copy, Debug, PartialEq, Eq, Structural)]
pub enum MentionDecision {
    /// The member came from a channel where everyone may speak: no announcement.
    FromSocialChannel,
    /// Not everyone may speak in the channel: no announcement.
    NotSocialChannel,
    /// Announce the call.
    Announce(MessageKind),
    /// No announcement belongs to the channel.
    ChannelNotFound,
}

/// The plan for a voice-state change.
pub open spec fn spec_state_plan(old: Option<VoiceStateInfo>, new: VoiceStateInfo) -> StatePlan {
    match spec_voice_move_action(old, new) {
        VoiceMoveAction::Undefined => StatePlan::Nothing,
        VoiceMoveAction::Enter => if new.member is Some && new.channel_id is Some {
            StatePlan::Enter { channel_id: new.channel_id->0 }
        } else {
            StatePlan::Nothing
        },
        VoiceMoveAction::Leave => if old->0.member is Some && old->0.channel_id is Some {
            StatePlan::Leave { channel_id: old->0.channel_id->0 }
        } else {
            StatePlan::Nothing
        },
        VoiceMoveAction::Moving => if old->0.member is Some && old->0.channel_id is Some
            && new.member is Some && new.channel_id is Some {
            StatePlan::Move { from_channel_id: old->0.channel_id->0, to_channel_id: new.channel_id->0 }
        } else {
            StatePlan::Nothing
        },
    }
}

/// Keeps track of the public voice channels and what their calls announce.
pub struct VoiceChannelManager {
    pub ignore_voice_channels: HashSet<u64>,
    pub broadcaster: Broadcaster<MessageKind>,
    pub message_by_channel: HashMap<u64, MessageKind>,
}

impl VoiceChannelManager {
    /// The announcement of each call channel.
    pub open spec fn channel_messages(&self) -> Map<u64, MessageKind> {
        self.message_by_channel@
    }

    /// The broadcaster.
    pub open spec fn spec_broadcaster(&self) -> Broadcaster<MessageKind> {
        self.broadcaster
    }

    /// Whether the channel is one where staff presence is tracked.
    pub open spec fn spec_is_public(&self, channel_id: u64) -> bool {
        !self.ignore_voice_channels@.contains(channel_id)
    }

    /// The broadcaster.
    pub fn broadcaster(&self) -> (b: &Broadcaster<MessageKind>)
        ensures
            *b == self.spec_broadcaster(),
    {
        &self.broadcaster
    }

    /// The announcement of a role's calls: the role's mention, " call aberta! ", and the pride
    /// heart emoji where the broadcaster knows it. Fails where the role is not in the guild.
    pub fn default_msg(roles: &Vec<RoleInfo>, b: &Broadcaster<MessageKind>, role_id: u64) -> (msg: Result<String, MessageError>)
        ensures
            roles_by_id(roles@).contains_key(role_id) ==> (msg matches Ok(text) && text@ == call_message(role_id, b.emoji_view())),
            !roles_by_id(roles@).contains_key(role_id) ==> (msg matches Err(MessageError::RoleNotFound(id)) && id == role_id),
    {
        let role_index: usize = match find_role(roles, role_id) {
            Some(i) => i,
            None => return Err(MessageError::RoleNotFound(role_id)),
        };
        let role = &roles[role_index];
        let mut content = String::from_str("<@&");
        push_decimal(&mut content, role.id);
        content.append(">");
        content.append(" call aberta! ");
        let ghost before = content@;
        match b.find_emoji(PRIDE_HEART_EMOJI_ID) {
            Some(emoji) => {
                if emoji.animated {
                    content.append("<a:");
                } else {
                    content.append("<:");
                }
                content.append(emoji.name.as_str());
                content.append(":");
                push_decimal(&mut content, emoji.id);
                content.append(">");
                proof {
                    assert(content@ =~= before + emoji_text(*emoji));
                }
            },
            None => {
                proof {
                    assert(content@ =~= before + Seq::<char>::empty());
                }
            },
        }
        proof {
            assert(content@ =~= call_message(role_id, b.emoji_view()));
        }
        Ok(content)
    }

    fn register_call(
        broadcaster: Broadcaster<MessageKind>,
        roles: &Vec<RoleInfo>,
        kind: CallKind,
        role_id: u64,
    ) -> (b: Broadcaster<MessageKind>)
        ensures
            b.messages() == broadcaster.messages().insert(
                MessageKind::CallOpened(kind),
                registered_message(roles@, role_id, broadcaster.emoji_view()),
            ),
            b.social_role == broadcaster.social_role,
            b.target_channel == broadcaster.target_channel,
            b.emojis == broadcaster.emojis,
    {
        let content = match Self::default_msg(roles, &broadcaster, role_id) {
            Ok(msg) => msg,
            Err(_) => String::new(),
        };
        broadcaster.register_msg(MessageKind::CallOpened(kind), content)
    }

    /// The manager for the guild whose roles are `roles`: its broadcaster announces in the
    /// channel `BROADCAST_CHANNEL_ID` (which Discord gave as `broadcast_channel` where it is a
    /// guild channel) and mentions the role `SOCIAL_ROLE_ID`, with the guild's emojis (or the
    /// error of asking for them); the call channels' announcements are registered with it (an
    /// empty one where the role is missing), and the channels in `ignore_voice_channels` are left
    /// alone.
    pub fn new(
        ignore_voice_channels: Vec<u64>,
        broadcast_channel: Option<ChannelInfo>,
        roles: &Vec<RoleInfo>,
        emojis: Result<Vec<EmojiInfo>, poise::serenity_prelude::Error>,
    ) -> (made: Result<VoiceChannelManager, VoiceChannelManagerCreationError>)
        requires
            broadcast_channel matches Some(c) ==> c.id == BROADCAST_CHANNEL_ID,
        ensures
            broadcast_channel is None ==> (made matches Err(VoiceChannelManagerCreationError::Broadcaster(
                BroadcasterCreationError::MissingTextChannel(id))) && id == BROADCAST_CHANNEL_ID),
            broadcast_channel is Some && !roles_by_id(roles@).contains_key(SOCIAL_ROLE_ID) ==>
                (made matches Err(VoiceChannelManagerCreationError::Broadcaster(
                    BroadcasterCreationError::RoleNotFound(id))) && id == SOCIAL_ROLE_ID),
            broadcast_channel is Some && roles_by_id(roles@).contains_key(SOCIAL_ROLE_ID) && emojis is Err ==>
                made == Err::<VoiceChannelManager, VoiceChannelManagerCreationError>(
                    VoiceChannelManagerCreationError::Broadcaster(BroadcasterCreationError::Serenity(emojis->Err_0))),
            broadcast_channel is Some && roles_by_id(roles@).contains_key(SOCIAL_ROLE_ID) && emojis is Ok ==>
                (made matches Ok(manager)
                && manager.ignore_voice_channels@ == ignore_voice_channels@.to_set()
                && manager.channel_messages() == call_channels()
                && manager.message_by_channel@ == map![
                    1160706169963294740u64 => MessageKind::CallOpened(CallKind::Social),
                    1374542425116246066u64 => MessageKind::CallOpened(CallKind::Games),
                    1419472150644916244u64 => MessageKind::CallOpened(CallKind::Movies),
                ]
                && (forall|id: u64| #[trigger] manager.spec_is_public(id) == !ignore_voice_channels@.contains(id))
                && manager.broadcaster.messages() == map![
                    MessageKind::CallOpened(CallKind::Social) => registered_message(roles@, SOCIAL_ROLE_ID, emojis_by_id(emojis->Ok_0@)),
                    MessageKind::CallOpened(CallKind::Games) => registered_message(roles@, GAMES_ROLE_ID, emojis_by_id(emojis->Ok_0@)),
                    MessageKind::CallOpened(CallKind::Movies) => registered_message(roles@, MOVIES_ROLE_ID, emojis_by_id(emojis->Ok_0@)),
                ]
                && manager.broadcaster.target_channel == broadcast_channel->0
                && manager.broadcaster.target_channel.id == BROADCAST_CHANNEL_ID
                && manager.broadcaster.social_role == roles_by_id(roles@)[SOCIAL_ROLE_ID]
                && manager.broadcaster.social_role.id == SOCIAL_ROLE_ID
                && manager.broadcaster.emoji_view() == emojis_by_id(emojis->Ok_0@)),
    {
        let broadcaster = match Broadcaster::new(BROADCAST_CHANNEL_ID, broadcast_channel, roles, SOCIAL_ROLE_ID, emojis) {
            Ok(b) => b,
            Err(e) => return Err(VoiceChannelManagerCreationError::Broadcaster(e)),
        };
        broadcast use vstd::std_specs::hash::group_hash_axioms;
        let mut message_by_channel: HashMap<u64, MessageKind> = HashMap::new();
        message_by_channel.insert(SOCIAL_CHANNEL_ID, MessageKind::CallOpened(CallKind::Social));
        message_by_channel.insert(GAMES_CHANNEL_ID, MessageKind::CallOpened(CallKind::Games));
        message_by_channel.insert(MOVIES_CHANNEL_ID, MessageKind::CallOpened(CallKind::Movies));
        let mut ignored: HashSet<u64> = HashSet::new();
        let mut k: usize = 0;
        while k < ignore_voice_channels.len()
            invariant
                k <= ignore_voice_channels.len(),
                ignored@ == ignore_voice_channels@.take(k as int).to_set(),
            decreases ignore_voice_channels.len() - k,
        {
            ignored.insert(ignore_voice_channels[k]);
            proof {
                assert(ignore_voice_channels@.take(k + 1) =~= ignore_voice_channels@.take(k as int).push(ignore_voice_channels@[k as int]));
                ignore_voice_channels@.take(k as int).lemma_push_to_set_commute(ignore_voice_channels@[k as int]);
                assert(ignore_voice_channels@.take(k + 1).to_set() =~= ignore_voice_channels@.take(k as int).to_set().insert(ignore_voice_channels@[k as int]));
            }
            k += 1;
        }
        proof {
            assert(ignore_voice_channels@.take(ignore_voice_channels@.len() as int) =~= ignore_voice_channels@);
        }
        let ghost emojis_view = broadcaster.emoji_view();
        let b1 = Self::register_call(broadcaster, roles, CallKind::Social, SOCIAL_ROLE_ID);
        let b2 = Self::register_call(b1, roles, CallKind::Games, GAMES_ROLE_ID);
        let b3 = Self::register_call(b2, roles, CallKind::Movies, MOVIES_ROLE_ID);
        let manager = VoiceChannelManager { ignore_voice_channels: ignored, broadcaster: b3, message_by_channel };
        proof {
            assert(manager.channel_messages() =~= call_channels());
            assert(manager.broadcaster.messages() =~= map![
                MessageKind::CallOpened(CallKind::Social) => registered_message(roles@, SOCIAL_ROLE_ID, emojis_view),
                MessageKind::CallOpened(CallKind::Games) => registered_message(roles@, GAMES_ROLE_ID, emojis_view),
                MessageKind::CallOpened(CallKind::Movies) => registered_message(roles@, MOVIES_ROLE_ID, emojis_view),
            ]);
        }
        Ok(manager)
    }

    /// Whether the channel is one where staff presence is tracked (not an ignored one).
    pub fn is_public_voice_channel(&self, channel: &ChannelInfo) -> (public: bool)
        ensures
            public == self.spec_is_public(channel.id),
            public == !self.ignore_voice_channels@.contains(channel.id),
    {
        broadcast use vstd::std_specs::hash::group_hash_axioms;
        !self.ignore_voice_channels.contains(&channel.id)
    }

    /// What a voice-state change asks for: which channels to look up for which member.
    pub fn handle_state(&self, old: &Option<VoiceStateInfo>, new: &VoiceStateInfo) -> (plan: StatePlan)
        ensures
            plan == spec_state_plan(*old, *new),
    {
        match VoiceMoveAction::from_voice_states(old, new) {
            VoiceMoveAction::Undefined => StatePlan::Nothing,
            VoiceMoveAction::Enter => match (&new.member, new.channel_id) {
                (Some(_), Some(c)) => StatePlan::Enter { channel_id: c },
                _ => StatePlan::Nothing,
            },
            VoiceMoveAction::Leave => match old {
                Some(s) => match (&s.member, s.channel_id) {
                    (Some(_), Some(c)) => StatePlan::Leave { channel_id: c },
                    _ => StatePlan::Nothing,
                },
                None => StatePlan::Nothing,
            },
            VoiceMoveAction::Moving => match old {
                Some(s) => match (&s.member, s.channel_id, &new.member, new.channel_id) {
                    (Some(_), Some(a), Some(_), Some(b)) => StatePlan::Move { from_channel_id: a, to_channel_id: b },
                    _ => StatePlan::Nothing,
                },
                None => StatePlan::Nothing,
            },
        }
    }

    /// An user just entered a voice channel: it is handled where the member is staff for the
    /// channel (`member_permissions`: the member's permissions there, as `MemberInfo::is_staff`
    /// takes them) and the channel is public.
    pub fn user_entering(&self, member: &MemberInfo, member_permissions: Option<u64>, channel: &ChannelInfo) -> (handled: bool)
        ensures
            handled == (spec_is_staff(*member, member_permissions) && self.spec_is_public(channel.id)),
            handled == (!member.is_bot && member_permissions is Some && member_permissions->0 & 16u64 == 16u64
                && !self.ignore_voice_channels@.contains(channel.id)),
    {
        member.is_staff(member_permissions) && self.is_public_voice_channel(channel)
    }

    /// An user is leaving a voice channel: it is handled where the member is staff for the
    /// channel (`member_permissions`: the member's permissions there) and the channel is public.
    pub fn user_leaving(&self, member: &MemberInfo, member_permissions: Option<u64>, channel: &ChannelInfo) -> (handled: bool)
        ensures
            handled == (spec_is_staff(*member, member_permissions) && self.spec_is_public(channel.id)),
            handled == (!member.is_bot && member_permissions is Some && member_permissions->0 & 16u64 == 16u64
                && !self.ignore_voice_channels@.contains(channel.id)),
    {
        member.is_staff(member_permissions) && self.is_public_voice_channel(channel)
    }

    /// An user is moving from a voice channel to another one: whether the leaving of the old
    /// channel and the entering of the new one are handled (each where Discord gave the channel,
    /// the member is staff for it, by its permissions there, and the channel is public).
    pub fn user_moving(
        &self,
        old_member: &MemberInfo,
        old_permissions: Option<u64>,
        old_channel: &Option<ChannelInfo>,
        new_member: &MemberInfo,
        new_permissions: Option<u64>,
        new_channel: &Option<ChannelInfo>,
    ) -> (handled: (bool, bool))
        ensures
            handled.0 == (old_channel matches Some(c) && spec_is_staff(*old_member, old_permissions) && self.spec_is_public(c.id)),
            handled.1 == (new_channel matches Some(c) && spec_is_staff(*new_member, new_permissions) && self.spec_is_public(c.id)),
            handled.0 == (old_channel is Some && !old_member.is_bot && old_permissions is Some
                && old_permissions->0 & 16u64 == 16u64 && !self.ignore_voice_channels@.contains(old_channel->0.id)),
            handled.1 == (new_channel is Some && !new_member.is_bot && new_permissions is Some
                && new_permissions->0 & 16u64 == 16u64 && !self.ignore_voice_channels@.contains(new_channel->0.id)),
    {
        let leaving = match old_channel {
            Some(c) => old_member.is_staff(old_permissions) && self.is_public_voice_channel(c),
            None => false,
        };
        let entering = match new_channel {
            Some(c) => new_member.is_staff(new_permissions) && self.is_public_voice_channel(c),
            None => false,
        };
        (leaving, entering)
    }

    fn channel_message(&self, channel_id: u64) -> (kind: Option<MessageKind>)
        ensures
            kind == self.channel_messages().get(channel_id),
    {
        broadcast use vstd::std_specs::hash::group_hash_axioms;
        match self.message_by_channel.get(&channel_id) {
            Some(kind) => Some(*kind),
            None => None,
        }
    }

    /// After staff entered a public channel and it was shown to everyone: no announcement
    /// where the staff member came from a channel where everyone may speak, nor where not
    /// everyone may speak in this one; otherwise the channel's announcement, if it has one.
    pub fn mention_decision(&self, channel: &ChannelInfo, previous: &Option<ChannelInfo>) -> (decision: MentionDecision)
        requires
            channel.guild_id != 0,
        ensures
            decision == (if previous matches Some(p) && everyone_may_speak(p.permission_overwrites@, channel.guild_id) {
                MentionDecision::FromSocialChannel
            } else if !everyone_may_speak(channel.permission_overwrites@, channel.guild_id) {
                MentionDecision::NotSocialChannel
            } else {
                match self.channel_messages().get(channel.id) {
                    Some(kind) => MentionDecision::Announce(kind),
                    None => MentionDecision::ChannelNotFound,
                }
            }),
    {
        let everyone_can_speak_on_channel = channel.everyone_can_speak();
        // the previous channel is read for the @everyone role of this channel's guild
        let everyone_can_speak_on_prev_channel = match previous {
            Some(p) => p.everyone_of_guild_can_speak(channel.guild_id),
            None => false,
        };
        if everyone_can_speak_on_prev_channel {
            MentionDecision::FromSocialChannel
        } else if !everyone_can_speak_on_channel {
            MentionDecision::NotSocialChannel
        } else {
            match self.channel_message(channel.id) {
                Some(kind) => MentionDecision::Announce(kind),
                None => MentionDecision::ChannelNotFound,
            }
        }
    }

    /// Staff left a public channel: where another staff member is still connected (the first
    /// one among `members`, the channel's members with their permissions in it), nothing changes; otherwise the channel is
    /// hidden from everyone, and its remaining members are to be disconnected.
    pub fn staff_leaving_public_voice_channel(&self, channel: &mut ChannelInfo, members: &Vec<(MemberInfo, Option<u64>)>)
        -> (still_connected: Option<usize>)
        requires
            old(channel).guild_id != 0,
        ensures
            match still_connected {
                Some(i) => i < members.len() && spec_is_staff(members@[i as int].0, members@[i as int].1)
                    && forall|j: int| 0 <= j < i ==> !spec_is_staff(#[trigger] members@[j].0, members@[j].1),
                None => forall|j: int| 0 <= j < members.len() ==> !spec_is_staff(#[trigger] members@[j].0, members@[j].1),
            },
            still_connected is Some ==> *final(channel) == *old(channel),
            still_connected is None ==> final(channel).permission_overwrites@
                == hidden(old(channel).permission_overwrites@, old(channel).guild_id)
                && final(channel).id == old(channel).id && final(channel).guild_id == old(channel).guild_id,
    {
        match channel.get_connected_staff_member(members) {
            Some(i) => Some(i),
            None => {
                channel.make_invisible();
                None
            },
        }
    }
}

/// The call channels and their announcements: the social channel announces the social call,
/// the games channel the games call, the movies channel the movies call, and no other channel
/// announces anything.
pub proof fn law_call_channel_kinds(id: u64)
    ensures
        call_channels()[1160706169963294740u64] == MessageKind::CallOpened(CallKind::Social),
        call_channels()[1374542425116246066u64] == MessageKind::CallOpened(CallKind::Games),
        call_channels()[1419472150644916244u64] == MessageKind::CallOpened(CallKind::Movies),
        call_channels().contains_key(id) == (id == 1160706169963294740u64 || id == 1374542425116246066u64
            || id == 1419472150644916244u64),
{
}

/// A channel is public exactly when its id is not among the ignored ones.
pub proof fn law_public_exactly_not_ignored(manager: VoiceChannelManager, id: u64)
    ensures
        manager.spec_is_public(id) == !manager.ignore_voice_channels@.contains(id),
{
}

} // verus!
