//! Permission bits, permission overwrites and the members they apply to.
use vstd::prelude::*;
use poise::serenity_prelude as serenity;

verus! {

/// The bit of the "View Channel" permission.
pub const VIEW_CHANNEL_BIT: u64 = 1024;

/// The bit of the "Speak" permission.
pub const SPEAK_BIT: u64 = 2097152;

/// The bit of the "Manage Channels" permission.
pub const MANAGE_CHANNELS_BIT: u64 = 16;

/// `serenity::Permissions::VIEW_CHANNEL.bits()`: serenity defines the flag as `1 << 10`.
#[verifier::external_body]
pub(crate) fn view_channel_bits() -> (bits: u64)
    ensures
        bits == VIEW_CHANNEL_BIT,
{
    serenity::Permissions::VIEW_CHANNEL.bits()
}

/// `serenity::Permissions::SPEAK.bits()`: serenity defines the flag as `1 << 21`.
#[verifier::external_body]
pub(crate) fn speak_bits() -> (bits: u64)
    ensures
        bits == SPEAK_BIT,
{
    serenity::Permissions::SPEAK.bits()
}

/// `serenity::Permissions::MANAGE_CHANNELS.bits()`: serenity defines the flag as `1 << 4`.
#[verifier::external_body]
pub(crate) fn manage_channels_bits() -> (bits: u64)
    ensures
        bits == MANAGE_CHANNELS_BIT,
{
    serenity::Permissions::MANAGE_CHANNELS.bits()
}

/// `serenity::GuildId::everyone_role`: the @everyone role of a guild has the guild's own id
/// (serenity returns `RoleId::from(self.get())`). `GuildId::new` panics on 0, hence the bound.
#[verifier::external_body]
pub(crate) fn everyone_role_of(guild_id: u64) -> (role_id: u64)
    requires
        guild_id != 0,
    ensures
        role_id == guild_id,
{
    serenity::GuildId::new(guild_id).everyone_role().get()
}

/// Whether a permission set holds all bits of `flag` (bitflags' `contains`).
pub open spec fn has_flag(set: u64, flag: u64) -> bool {
    set & flag == flag
}

/// Whom a permission overwrite applies to.
#[derive(Clone, Copy, Debug, PartialEq, Eq, Structural)]
pub enum PermissionOverwriteKind {
    /// A single member, by user id.
    Member(u64),
    /// A role, by role id.
    Role(u64),
}

/// A channel-specific permission overwrite: bits allowed and bits denied for a role or member.
#[derive(Clone, Copy, Debug, PartialEq, Eq, Structural)]
pub struct PermissionOverwrite {
    pub allow: u64,
    pub deny: u64,
    pub kind: PermissionOverwriteKind,
}

/// What the staff logic reads of a guild member.
#[derive(Clone, Debug)]
pub struct MemberInfo {
    pub user_id: u64,
    pub display_name: String,
    pub is_bot: bool,
}

/// Whether a member counts as staff for a channel: not a bot, and allowed to manage channels
/// there. `channel_permissions` is what the cached guild computes for the member in the channel,
/// `None` where no cache or no cached guild was there.
pub open spec fn spec_is_staff(member: MemberInfo, channel_permissions: Option<u64>) -> bool {
    &&& !member.is_bot
    &&& channel_permissions matches Some(p) && has_flag(p, MANAGE_CHANNELS_BIT)
}

impl MemberInfo {
    /// Check if member is a staff member for the channel whose permissions for the member are
    /// `channel_permissions` (as `get_permissions` takes them): not a bot, and allowed to manage
    /// channels there.
    pub fn is_staff(&self, channel_permissions: Option<u64>) -> (staff: bool)
        ensures
            staff == spec_is_staff(*self, channel_permissions),
            staff == (!self.is_bot && channel_permissions is Some && channel_permissions->0 & 16u64 == 16u64),
    {
        match self.get_permissions(channel_permissions) {
            Some(p) => {
                let flag: u64 = manage_channels_bits();
                p & flag == flag
            },
            None => false,
        }
    }

    /// The member's permissions in a channel, as the guild in the cache computes them
    /// (`guild_permissions`, `None` where no cache or no cached guild was there); bots get
    /// `None` whatever the cache holds.
    pub fn get_permissions(&self, guild_permissions: Option<u64>) -> (perms: Option<u64>)
        ensures
            perms == (if self.is_bot { None } else { guild_permissions }),
    {
        if !self.is_bot {
            guild_permissions
        } else {
            None
        }
    }
}

/// A human is staff for a channel exactly when the permissions there hold "Manage Channels"
/// (bit `1 << 4`), whatever other permissions they hold; a bot never is, and without
/// permissions nobody is.
pub proof fn law_staff_exactly_manage_channels(member: MemberInfo, p: u64, extra: u64)
    ensures
        spec_is_staff(member, Some(p)) == (!member.is_bot && p & 16u64 == 16u64),
        !member.is_bot && p & 16u64 == 16u64 ==> spec_is_staff(member, Some(p | extra)),
        !spec_is_staff(member, None),
        member.is_bot ==> !spec_is_staff(member, Some(p)),
{
    assert(p & 16u64 == 16u64 ==> (p | extra) & 16u64 == 16u64) by (bit_vector);
}

} // verus!
