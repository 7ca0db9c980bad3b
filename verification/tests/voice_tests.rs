use callwatch::channel::ChannelInfo;
use poise::serenity_prelude::Error;
use callwatch::permissions::{MemberInfo, PermissionOverwrite, PermissionOverwriteKind};
use callwatch::permissions::{MANAGE_CHANNELS_BIT, SPEAK_BIT, VIEW_CHANNEL_BIT};
use callwatch::voice::err::MessageError;
use callwatch::voice::prepared_message::{COOLDOWN, NANOS_PER_SEC};
use callwatch::voice::voice_channel_manager::{
    MentionDecision, BROADCAST_CHANNEL_ID, StatePlan, GAMES_CHANNEL_ID, GAMES_ROLE_ID, MOVIES_CHANNEL_ID, MOVIES_ROLE_ID,
    PRIDE_HEART_EMOJI_ID, SOCIAL_CHANNEL_ID, SOCIAL_ROLE_ID,
};
use callwatch::voice::{
    Broadcaster, BroadcasterCreationError, BroadcasterDatabase, CallKind, EmojiInfo, MessageKind,
    PreparedMessage, RoleInfo, SendingMessageError, VoiceChannelManager,
    VoiceChannelManagerCreationError, VoiceMoveAction, VoiceStateInfo,
};

const GUILD: u64 = 77;
const HOUR: u64 = 3600 * NANOS_PER_SEC;

fn text_channel(id: u64) -> ChannelInfo {
    ChannelInfo { id, guild_id: GUILD, name: "chat".to_string(), permission_overwrites: vec![] }
}

fn voice_channel(id: u64, overwrites: Vec<PermissionOverwrite>) -> ChannelInfo {
    ChannelInfo { id, guild_id: GUILD, name: "voice".to_string(), permission_overwrites: overwrites }
}

fn everyone(allow: u64, deny: u64) -> PermissionOverwrite {
    PermissionOverwrite { allow, deny, kind: PermissionOverwriteKind::Role(GUILD) }
}

fn roles() -> Vec<RoleInfo> {
    vec![
        RoleInfo { id: SOCIAL_ROLE_ID, name: "social".to_string() },
        RoleInfo { id: GAMES_ROLE_ID, name: "games".to_string() },
    ]
}

fn pride(animated: bool) -> EmojiInfo {
    EmojiInfo { id: PRIDE_HEART_EMOJI_ID, name: "pride".to_string(), animated }
}

fn staff() -> MemberInfo {
    MemberInfo { user_id: 1, display_name: "staff".to_string(), is_bot: false }
}

fn guest() -> MemberInfo {
    MemberInfo { user_id: 2, display_name: "guest".to_string(), is_bot: false }
}

fn state(channel_id: Option<u64>, member: Option<MemberInfo>) -> VoiceStateInfo {
    VoiceStateInfo { channel_id, member }
}

fn broadcaster() -> Broadcaster<MessageKind> {
    match Broadcaster::new(500, Some(text_channel(500)), &roles(), SOCIAL_ROLE_ID, Ok(vec![])) {
        Ok(b) => b,
        Err(_) => panic!("broadcaster"),
    }
}

fn manager(emojis: Vec<EmojiInfo>) -> VoiceChannelManager {
    match VoiceChannelManager::new(vec![900, 900], Some(text_channel(BROADCAST_CHANNEL_ID)), &roles(), Ok(emojis)) {
        Ok(m) => m,
        Err(_) => panic!("manager"),
    }
}

#[test]
fn display_texts_of_labels() {
    assert_eq!(CallKind::Social.to_string(), "Social");
    assert_eq!(CallKind::Games.to_string(), "Games");
    assert_eq!(CallKind::Movies.to_string(), "Movies");
    assert_eq!(MessageKind::CallOpened(CallKind::Movies).to_string(), "CallOpened");
}

#[test]
fn voice_move_actions() {
    let new_in_a = state(Some(1), None);
    assert_eq!(VoiceMoveAction::from_voice_states(&None, &new_in_a), VoiceMoveAction::Enter);
    assert_eq!(VoiceMoveAction::from_voice_states(&Some(state(Some(1), None)), &state(None, None)), VoiceMoveAction::Leave);
    assert_eq!(VoiceMoveAction::from_voice_states(&Some(state(Some(1), None)), &state(Some(2), None)), VoiceMoveAction::Moving);
    assert_eq!(VoiceMoveAction::from_voice_states(&Some(state(None, None)), &state(Some(2), None)), VoiceMoveAction::Enter);
    assert_eq!(VoiceMoveAction::from_voice_states(&Some(state(None, None)), &state(None, None)), VoiceMoveAction::Leave);
    assert_eq!(VoiceMoveAction::from_voice_states(&Some(state(Some(1), None)), &state(Some(1), None)), VoiceMoveAction::Undefined);
}

#[test]
fn error_texts() {
    assert_eq!(MessageError::RoleNotFound(12).to_string(), "role with id `12` was not found");
    assert_eq!(BroadcasterCreationError::RoleNotFound(3).to_string(), "role with id `3` was not found");
    assert_eq!(BroadcasterCreationError::MissingTextChannel(4).to_string(), "provided channel with id `4` isn't a text channel");
    assert_eq!(VoiceChannelManagerCreationError::GuildNotFound(5).to_string(), "guild with id `5` was not found");
    assert_eq!(
        VoiceChannelManagerCreationError::Broadcaster(BroadcasterCreationError::RoleNotFound(1)).to_string(),
        "broadcaster creation failed"
    );
    assert_eq!(SendingMessageError::LabelNotFound(CallKind::Social).to_string(), "message label was not found");
    assert_eq!(SendingMessageError::<CallKind>::FailedToAccessDatabase.to_string(), "database is not accessible");
    let e = SendingMessageError::<CallKind>::TooSoon { elapsed_nanos: 3725 * NANOS_PER_SEC + 999, cooldown: COOLDOWN };
    assert_eq!(e.to_string(), "cooldown (1h60m0s) isn't completed yet, time elapsed: 1h62m5s");
}

#[test]
fn prepared_message_cooldown() {
    let msg = PreparedMessage::new("hello".to_string());
    assert_eq!(msg.content, "hello");
    let mut db = BroadcasterDatabase::new();
    let key = "CallOpened".to_string();
    let other = "Other".to_string();
    assert_eq!(db.last_sent(&key), None);
    let first: Result<String, SendingMessageError<MessageKind>> = msg.send(&mut db, &key, 10);
    assert_eq!(first.unwrap(), "hello");
    assert_eq!(db.last_sent(&key), Some(10));
    let again: Result<String, SendingMessageError<MessageKind>> = msg.send(&mut db, &key, 10 + HOUR - 1);
    match again {
        Err(SendingMessageError::TooSoon { elapsed_nanos, cooldown }) => {
            assert_eq!(elapsed_nanos, HOUR - 1);
            assert_eq!(cooldown, 3600);
        },
        _ => panic!("expected a cooldown error"),
    }
    assert_eq!(db.last_sent(&key), Some(10));
    let unrelated: Result<String, SendingMessageError<MessageKind>> = msg.send(&mut db, &other, 20);
    assert!(unrelated.is_ok());
    let later: Result<String, SendingMessageError<MessageKind>> = msg.send(&mut db, &key, 10 + HOUR);
    assert!(later.is_ok());
    assert_eq!(db.last_sent(&key), Some(10 + HOUR));
    assert_eq!(db.last_sent(&other), Some(20));
}

#[test]
fn cooldown_with_clock_going_back_counts_zero() {
    let msg = PreparedMessage::new("x".to_string());
    let mut db = BroadcasterDatabase::new();
    let key = "k".to_string();
    let r: Result<String, SendingMessageError<MessageKind>> = msg.send(&mut db, &key, 1000);
    assert!(r.is_ok());
    let r: Result<String, SendingMessageError<MessageKind>> = msg.send(&mut db, &key, 5);
    assert!(matches!(r, Err(SendingMessageError::TooSoon { elapsed_nanos: 0, cooldown: 3600 })));
}

#[test]
fn broadcaster_creation_errors() {
    let missing: Result<Broadcaster<MessageKind>, _> = Broadcaster::new(500, None, &roles(), SOCIAL_ROLE_ID, Ok(vec![]));
    assert!(matches!(missing, Err(BroadcasterCreationError::MissingTextChannel(500))));
    let no_role: Result<Broadcaster<MessageKind>, _> =
        Broadcaster::new(500, Some(text_channel(500)), &roles(), 1, Err(Error::Other("emojis")));
    assert!(matches!(no_role, Err(BroadcasterCreationError::RoleNotFound(1))));
    let no_emojis: Result<Broadcaster<MessageKind>, _> =
        Broadcaster::new(500, Some(text_channel(500)), &roles(), SOCIAL_ROLE_ID, Err(Error::Other("emojis")));
    assert!(matches!(no_emojis, Err(BroadcasterCreationError::Serenity(Error::Other("emojis")))));
    let no_role: Result<Broadcaster<MessageKind>, _> = Broadcaster::new(500, Some(text_channel(500)), &roles(), 1, Ok(vec![]));
    assert!(matches!(no_role, Err(BroadcasterCreationError::RoleNotFound(1))));
    let b = broadcaster();
    assert_eq!(b.social_role.id, SOCIAL_ROLE_ID);
    assert_eq!(b.social_role.name, "social");
    assert_eq!(b.target_channel.id, 500);
    assert!(b.emojis.is_empty());
}

#[test]
fn emojis_later_replaces_earlier() {
    let b = broadcaster().with_emojis(vec![
        EmojiInfo { id: 1, name: "a".to_string(), animated: false },
        EmojiInfo { id: 2, name: "b".to_string(), animated: false },
        EmojiInfo { id: 1, name: "c".to_string(), animated: true },
    ]);
    let e = b.find_emoji(1).unwrap();
    assert_eq!(e.name, "c");
    assert!(e.animated);
    assert_eq!(b.emojis.len(), 2);
    assert!(b.find_emoji(3).is_none());
}

#[test]
fn registered_messages_are_found_and_replaced() {
    let b = broadcaster();
    let social = MessageKind::CallOpened(CallKind::Social);
    let games = MessageKind::CallOpened(CallKind::Games);
    assert_eq!(b.message_text(&social), None);
    let b = b.register_msg(social, "one".to_string());
    let b = b.register_msg(games, "two".to_string());
    let b = b.register_msg(social, "three".to_string());
    assert_eq!(b.message_text(&social).map(|s| s.as_str()), Some("three"));
    assert_eq!(b.message_text(&games).map(|s| s.as_str()), Some("two"));
    assert_eq!(b.message_text(&MessageKind::CallOpened(CallKind::Movies)), None);
}

#[test]
fn send_msg_outcomes() {
    let social = MessageKind::CallOpened(CallKind::Social);
    let games = MessageKind::CallOpened(CallKind::Games);
    let movies = MessageKind::CallOpened(CallKind::Movies);
    let b = broadcaster().register_msg(social, "s".to_string()).register_msg(games, "g".to_string());
    let mut db = Some(BroadcasterDatabase::new());
    assert!(matches!(b.send_msg(&mut db, &movies, 0), Err(SendingMessageError::LabelNotFound(m)) if m == movies));
    let mut none: Option<BroadcasterDatabase> = None;
    assert!(matches!(b.send_msg(&mut none, &social, 0), Err(SendingMessageError::FailedToAccessDatabase)));
    assert!(none.is_none());
    assert_eq!(b.send_msg(&mut db, &social, 0).unwrap(), "s");
    // every call kind displays as "CallOpened": the cooldown is shared
    assert!(matches!(b.send_msg(&mut db, &games, 5), Err(SendingMessageError::TooSoon { elapsed_nanos: 5, .. })));
    assert_eq!(b.send_msg(&mut db, &games, HOUR).unwrap(), "g");
    assert_eq!(db.as_ref().unwrap().last_sent(&"CallOpened".to_string()), Some(HOUR));
}

#[test]
fn default_msg_texts() {
    let plain = broadcaster();
    assert_eq!(
        VoiceChannelManager::default_msg(&roles(), &plain, SOCIAL_ROLE_ID).unwrap(),
        "<@&1274386535285788826> call aberta! "
    );
    let with_heart = broadcaster().with_emojis(vec![pride(false)]);
    assert_eq!(
        VoiceChannelManager::default_msg(&roles(), &with_heart, GAMES_ROLE_ID).unwrap(),
        "<@&1287419235886436375> call aberta! <:pride:1073325566196990142>"
    );
    let animated = broadcaster().with_emojis(vec![pride(true)]);
    assert_eq!(
        VoiceChannelManager::default_msg(&roles(), &animated, SOCIAL_ROLE_ID).unwrap(),
        "<@&1274386535285788826> call aberta! <a:pride:1073325566196990142>"
    );
    assert!(matches!(
        VoiceChannelManager::default_msg(&roles(), &plain, MOVIES_ROLE_ID),
        Err(MessageError::RoleNotFound(id)) if id == MOVIES_ROLE_ID
    ));
}

#[test]
fn manager_registers_call_messages() {
    let m = manager(vec![pride(false)]);
    let b = m.broadcaster();
    assert_eq!(
        b.message_text(&MessageKind::CallOpened(CallKind::Social)).unwrap(),
        "<@&1274386535285788826> call aberta! <:pride:1073325566196990142>"
    );
    assert_eq!(
        b.message_text(&MessageKind::CallOpened(CallKind::Games)).unwrap(),
        "<@&1287419235886436375> call aberta! <:pride:1073325566196990142>"
    );
    // the movies role is not in the guild: its message is empty
    assert_eq!(b.message_text(&MessageKind::CallOpened(CallKind::Movies)).unwrap(), "");
    assert_eq!(m.ignore_voice_channels.len(), 1);
    assert!(m.ignore_voice_channels.contains(&900));
    assert_eq!(m.broadcaster.target_channel.id, BROADCAST_CHANNEL_ID);
    assert_eq!(m.broadcaster.social_role.id, SOCIAL_ROLE_ID);
}

#[test]
fn public_channels_are_the_not_ignored_ones() {
    let m = manager(vec![]);
    assert!(!m.is_public_voice_channel(&voice_channel(900, vec![])));
    assert!(m.is_public_voice_channel(&voice_channel(901, vec![])));
    assert!(m.user_entering(&staff(), Some(MANAGE_CHANNELS_BIT), &voice_channel(901, vec![])));
    assert!(!m.user_entering(&guest(), Some(0), &voice_channel(901, vec![])));
    assert!(!m.user_entering(&staff(), None, &voice_channel(901, vec![])));
    assert!(!m.user_leaving(&staff(), Some(MANAGE_CHANNELS_BIT), &voice_channel(900, vec![])));
    assert!(m.user_leaving(&staff(), Some(MANAGE_CHANNELS_BIT), &voice_channel(901, vec![])));
    assert_eq!(
        m.user_moving(
            &staff(),
            Some(MANAGE_CHANNELS_BIT),
            &Some(voice_channel(900, vec![])),
            &staff(),
            Some(MANAGE_CHANNELS_BIT),
            &Some(voice_channel(901, vec![]))
        ),
        (false, true)
    );
    assert_eq!(
        m.user_moving(&staff(), Some(MANAGE_CHANNELS_BIT), &None, &guest(), Some(0), &Some(voice_channel(901, vec![]))),
        (false, false)
    );
}

#[test]
fn state_plans() {
    let m = manager(vec![]);
    assert_eq!(m.handle_state(&None, &state(Some(4), Some(staff()))), StatePlan::Enter { channel_id: 4 });
    assert_eq!(m.handle_state(&None, &state(Some(4), None)), StatePlan::Nothing);
    assert_eq!(m.handle_state(&Some(state(Some(4), Some(staff()))), &state(None, None)), StatePlan::Leave { channel_id: 4 });
    assert_eq!(m.handle_state(&Some(state(Some(4), None)), &state(None, None)), StatePlan::Nothing);
    assert_eq!(
        m.handle_state(&Some(state(Some(4), Some(staff()))), &state(Some(5), Some(staff()))),
        StatePlan::Move { from_channel_id: 4, to_channel_id: 5 }
    );
    assert_eq!(m.handle_state(&Some(state(None, Some(staff()))), &state(Some(5), Some(staff()))), StatePlan::Enter { channel_id: 5 });
    assert_eq!(m.handle_state(&Some(state(None, None)), &state(Some(5), None)), StatePlan::Nothing);
    assert_eq!(m.handle_state(&Some(state(Some(4), Some(staff()))), &state(Some(4), Some(staff()))), StatePlan::Nothing);
}

#[test]
fn mention_decisions() {
    let m = manager(vec![]);
    let social = voice_channel(SOCIAL_CHANNEL_ID, vec![]);
    let quiet = voice_channel(MOVIES_CHANNEL_ID, vec![everyone(0, SPEAK_BIT)]);
    let unknown = voice_channel(12345, vec![everyone(0, VIEW_CHANNEL_BIT)]);
    assert_eq!(m.mention_decision(&social, &None), MentionDecision::Announce(MessageKind::CallOpened(CallKind::Social)));
    assert_eq!(
        m.mention_decision(&voice_channel(GAMES_CHANNEL_ID, vec![]), &Some(quiet.clone())),
        MentionDecision::Announce(MessageKind::CallOpened(CallKind::Games))
    );
    assert_eq!(m.mention_decision(&social, &Some(unknown.clone())), MentionDecision::FromSocialChannel);
    assert_eq!(m.mention_decision(&quiet, &None), MentionDecision::NotSocialChannel);
    assert_eq!(m.mention_decision(&unknown, &None), MentionDecision::ChannelNotFound);
}

#[test]
fn staff_leaving_hides_only_without_other_staff() {
    let m = manager(vec![]);
    let mut ch = voice_channel(901, vec![everyone(VIEW_CHANNEL_BIT, 0)]);
    assert_eq!(
        m.staff_leaving_public_voice_channel(&mut ch, &vec![(guest(), Some(0)), (staff(), Some(MANAGE_CHANNELS_BIT))]),
        Some(1)
    );
    assert_eq!(ch.permission_overwrites, vec![everyone(VIEW_CHANNEL_BIT, 0)]);
    assert_eq!(m.staff_leaving_public_voice_channel(&mut ch, &vec![(guest(), Some(0)), (staff(), None)]), None);
    assert_eq!(ch.permission_overwrites, vec![everyone(0, VIEW_CHANNEL_BIT)]);
}

#[test]
fn previous_channel_read_for_this_guilds_everyone() {
    let m = manager(vec![]);
    let social = voice_channel(SOCIAL_CHANNEL_ID, vec![]);
    // an overwrite for @everyone of this guild denies speaking in the previous channel
    let previous = ChannelInfo { id: 3, guild_id: 999, name: "p".to_string(), permission_overwrites: vec![everyone(0, SPEAK_BIT)] };
    assert_eq!(
        m.mention_decision(&social, &Some(previous)),
        MentionDecision::Announce(MessageKind::CallOpened(CallKind::Social))
    );
}

#[test]
fn manager_creation_errors() {
    let missing = VoiceChannelManager::new(vec![], None, &roles(), Ok(vec![]));
    assert!(matches!(
        missing,
        Err(VoiceChannelManagerCreationError::Broadcaster(BroadcasterCreationError::MissingTextChannel(BROADCAST_CHANNEL_ID)))
    ));
    let no_role = VoiceChannelManager::new(vec![], Some(text_channel(BROADCAST_CHANNEL_ID)), &vec![], Ok(vec![]));
    assert!(matches!(
        no_role,
        Err(VoiceChannelManagerCreationError::Broadcaster(BroadcasterCreationError::RoleNotFound(SOCIAL_ROLE_ID)))
    ));
    let no_emojis = VoiceChannelManager::new(vec![], Some(text_channel(BROADCAST_CHANNEL_ID)), &roles(), Err(Error::Other("e")));
    assert!(matches!(
        no_emojis,
        Err(VoiceChannelManagerCreationError::Broadcaster(BroadcasterCreationError::Serenity(Error::Other("e"))))
    ));
}

#[test]
fn sends_of_one_key_an_hour_apart() {
    let msg = PreparedMessage::new("m".to_string());
    let mut db = BroadcasterDatabase::new();
    let key = "CallOpened".to_string();
    let mut went: Vec<u64> = Vec::new();
    for t in [0, HOUR / 2, HOUR - 1, HOUR, HOUR + 5, 2 * HOUR - 1, 2 * HOUR, 5 * HOUR] {
        let r: Result<String, SendingMessageError<MessageKind>> = msg.send(&mut db, &key, t);
        if r.is_ok() {
            went.push(t);
        }
    }
    assert_eq!(went, vec![0, HOUR, 2 * HOUR, 5 * HOUR]);
}
