use callwatch::channel::{ChannelInfo, OverwriteEdit};
use callwatch::channel::{count_denying_requested, merge_permission_overwrites};
use callwatch::permissions::{MemberInfo, PermissionOverwrite, PermissionOverwriteKind};
use callwatch::permissions::{MANAGE_CHANNELS_BIT, SPEAK_BIT, VIEW_CHANNEL_BIT};

const GUILD: u64 = 42;

fn role(id: u64, allow: u64, deny: u64) -> PermissionOverwrite {
    PermissionOverwrite { allow, deny, kind: PermissionOverwriteKind::Role(id) }
}

fn member_ow(id: u64, allow: u64, deny: u64) -> PermissionOverwrite {
    PermissionOverwrite { allow, deny, kind: PermissionOverwriteKind::Member(id) }
}

fn channel(overwrites: Vec<PermissionOverwrite>) -> ChannelInfo {
    ChannelInfo { id: 7, guild_id: GUILD, name: "voice".to_string(), permission_overwrites: overwrites }
}

fn member(bot: bool) -> MemberInfo {
    MemberInfo { user_id: 9, display_name: "m".to_string(), is_bot: bot }
}

#[test]
fn permission_bits_are_discords() {
    assert_eq!(VIEW_CHANNEL_BIT, 1 << 10);
    assert_eq!(SPEAK_BIT, 1 << 21);
    assert_eq!(MANAGE_CHANNELS_BIT, 1 << 4);
}

#[test]
fn make_visible_adds_empty_everyone_overwrite() {
    let mut ch = channel(vec![]);
    assert!(ch.make_visible());
    assert_eq!(ch.permission_overwrites, vec![role(GUILD, 0, 0)]);
}

#[test]
fn make_visible_with_one_view_denial_does_nothing() {
    let before = vec![member_ow(5, 0, 0), role(GUILD, 0, VIEW_CHANNEL_BIT | SPEAK_BIT)];
    let mut ch = channel(before.clone());
    assert!(!ch.make_visible());
    assert_eq!(ch.permission_overwrites, before);
}

#[test]
fn make_visible_lifts_view_from_first_everyone_overwrite() {
    let mut ch = channel(vec![
        role(3, 0, VIEW_CHANNEL_BIT),
        role(GUILD, 1, SPEAK_BIT),
        role(GUILD, 0, VIEW_CHANNEL_BIT),
        role(GUILD, 0, VIEW_CHANNEL_BIT | 1),
    ]);
    // two overwrites for @everyone deny "View Channel": the count is not one, so it acts
    assert!(ch.make_visible());
    assert_eq!(
        ch.permission_overwrites,
        vec![
            role(3, 0, VIEW_CHANNEL_BIT),
            role(GUILD, 1, SPEAK_BIT),
            role(GUILD, 0, VIEW_CHANNEL_BIT),
            role(GUILD, 0, VIEW_CHANNEL_BIT | 1),
        ]
    );
}

#[test]
fn make_visible_clears_view_denial_of_first_everyone_overwrite() {
    let mut ch = channel(vec![
        role(GUILD, 0, VIEW_CHANNEL_BIT | SPEAK_BIT),
        role(GUILD, 0, VIEW_CHANNEL_BIT),
    ]);
    assert!(ch.make_visible());
    assert_eq!(ch.permission_overwrites, vec![role(GUILD, 0, SPEAK_BIT), role(GUILD, 0, VIEW_CHANNEL_BIT)]);
}

#[test]
fn make_visible_member_overwrite_with_guild_id_is_not_everyone() {
    let mut ch = channel(vec![member_ow(GUILD, 0, VIEW_CHANNEL_BIT)]);
    assert!(ch.make_visible());
    assert_eq!(ch.permission_overwrites, vec![member_ow(GUILD, 0, VIEW_CHANNEL_BIT), role(GUILD, 0, 0)]);
}

#[test]
fn make_invisible_adds_denying_overwrite() {
    let mut ch = channel(vec![role(3, 8, 0)]);
    ch.make_invisible();
    assert_eq!(ch.permission_overwrites, vec![role(3, 8, 0), role(GUILD, 0, VIEW_CHANNEL_BIT)]);
    assert_eq!(ch.id, 7);
    assert_eq!(ch.guild_id, GUILD);
}

#[test]
fn make_invisible_denies_and_stops_allowing_view() {
    let mut ch = channel(vec![role(GUILD, VIEW_CHANNEL_BIT | SPEAK_BIT, 1), role(GUILD, VIEW_CHANNEL_BIT, 0)]);
    ch.make_invisible();
    assert_eq!(ch.permission_overwrites, vec![role(GUILD, SPEAK_BIT, 1 | VIEW_CHANNEL_BIT), role(GUILD, VIEW_CHANNEL_BIT, 0)]);
}

#[test]
fn make_invisible_twice_is_once() {
    let mut ch = channel(vec![role(GUILD, VIEW_CHANNEL_BIT, 0), member_ow(1, 2, 3)]);
    ch.make_invisible();
    let once = ch.permission_overwrites.clone();
    ch.make_invisible();
    assert_eq!(ch.permission_overwrites, once);
}

#[test]
fn hidden_channel_is_reported_as_nothing_to_show() {
    let mut ch = channel(vec![role(GUILD, VIEW_CHANNEL_BIT, 0)]);
    ch.make_invisible();
    let hidden = ch.permission_overwrites.clone();
    assert!(!ch.make_visible());
    assert_eq!(ch.permission_overwrites, hidden);
}

#[test]
fn merge_consumes_first_request_per_kind_and_appends_rest() {
    let overwrites = vec![role(1, 0, 0b111), role(1, 0, 0b111), member_ow(2, 0, 0)];
    let requests = vec![role(1, 0b010, 0), role(9, 0b100, 0b1)];
    let shown = merge_permission_overwrites(&overwrites, requests.clone(), OverwriteEdit::Show);
    assert_eq!(
        shown,
        vec![role(1, 0, 0b101), role(1, 0, 0b111), member_ow(2, 0, 0), role(9, 0, 0b1)]
    );
    let hidden = merge_permission_overwrites(&overwrites, requests, OverwriteEdit::Hide);
    assert_eq!(
        hidden,
        vec![role(1, 0, 0b111), role(1, 0, 0b111), member_ow(2, 0, 0), role(9, 0b100, 0b1)]
    );
}

#[test]
fn merge_hide_clears_allow_bits() {
    let overwrites = vec![role(1, 0b1111, 0)];
    let requests = vec![role(1, 0, 0b0101)];
    let hidden = merge_permission_overwrites(&overwrites, requests, OverwriteEdit::Hide);
    assert_eq!(hidden, vec![role(1, 0b1010, 0b0101)]);
}

#[test]
fn count_of_overwrites_denying_requested_bits() {
    let overwrites = vec![role(1, 0, 0b11), role(1, 0, 0b01), role(2, 0, 0b10), member_ow(1, 0, 0b10)];
    let requests = vec![role(1, 0b10, 0), role(2, 0b10, 0)];
    assert_eq!(count_denying_requested(&overwrites, &requests), 2);
    assert_eq!(count_denying_requested(&overwrites, &vec![]), 0);
}

#[test]
fn overwrite_lookup_takes_first_for_kind() {
    let ch = channel(vec![member_ow(GUILD, 1, 1), role(GUILD, 2, 2), role(GUILD, 3, 3)]);
    assert_eq!(ch.permission_overwrite_for(PermissionOverwriteKind::Role(GUILD)), Some(role(GUILD, 2, 2)));
    assert_eq!(ch.permission_overwrite_for(PermissionOverwriteKind::Role(5)), None);
}

#[test]
fn everyone_can_speak_reads_everyone_overwrite() {
    assert!(channel(vec![]).everyone_can_speak());
    assert!(!channel(vec![role(GUILD, 0, SPEAK_BIT)]).everyone_can_speak());
    assert!(channel(vec![role(3, 0, SPEAK_BIT), role(GUILD, 0, VIEW_CHANNEL_BIT)]).everyone_can_speak());
}

#[test]
fn hiding_and_showing_keep_speak() {
    for overwrites in [vec![], vec![role(GUILD, 0, SPEAK_BIT)], vec![role(GUILD, SPEAK_BIT, VIEW_CHANNEL_BIT)]] {
        let before = channel(overwrites.clone()).everyone_can_speak();
        let mut hidden = channel(overwrites.clone());
        hidden.make_invisible();
        assert_eq!(hidden.everyone_can_speak(), before);
        let mut shown = channel(overwrites);
        shown.make_visible();
        assert_eq!(shown.everyone_can_speak(), before);
    }
}

#[test]
fn staff_is_human_with_manage_channels() {
    assert!(member(false).is_staff(Some(MANAGE_CHANNELS_BIT | 1)));
    assert!(!member(true).is_staff(Some(MANAGE_CHANNELS_BIT)));
    assert!(!member(false).is_staff(None));
    assert!(!member(false).is_staff(Some(VIEW_CHANNEL_BIT)));
}

#[test]
fn get_permissions_only_for_humans() {
    assert_eq!(member(false).get_permissions(Some(5)), Some(5));
    assert_eq!(member(false).get_permissions(None), None);
    assert_eq!(member(true).get_permissions(Some(5)), None);
}

#[test]
fn first_connected_staff_member() {
    let ch = channel(vec![]);
    let members = vec![
        (member(true), Some(MANAGE_CHANNELS_BIT)),
        (member(false), Some(0)),
        (member(false), None),
        (member(false), Some(MANAGE_CHANNELS_BIT)),
        (member(false), Some(MANAGE_CHANNELS_BIT)),
    ];
    assert_eq!(ch.get_connected_staff_member(&members), Some(3));
    assert_eq!(ch.get_connected_staff_member(&members[..3].to_vec()), None);
    assert_eq!(ch.get_connected_staff_member(&vec![]), None);
}
