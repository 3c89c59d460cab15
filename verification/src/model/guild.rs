//! Guilds and what belongs to them: roles, emojis and members.

use crate::model::channel::GuildChannel;
use crate::model::equality::{roles_eq, same_text, text_eq};
use crate::model::id::{ApplicationId, ChannelId, EmojiId, GuildId, RoleId, UserId};
use crate::model::presence::Presence;
use crate::model::user::User;
use crate::model::voice::VoiceState;
use std::collections::HashMap;
use vstd::prelude::*;
use vstd::std_specs::cmp::PartialEqSpec;

verus! {

/// A set of permissions, as bits.
#[derive(Clone, Copy, Debug, PartialEq, Eq, Hash, Structural)]
pub struct Permissions(pub u64);

/// Settings of the system channel of a guild, as bits.
#[derive(Clone, Copy, Debug, PartialEq, Eq, Hash, Structural)]
pub struct SystemChannelFlags(pub u64);

/// Which messages notify the members of a guild by default.
#[derive(Clone, Copy, Debug, PartialEq, Eq, Hash, Structural)]
pub enum DefaultMessageNotificationLevel {
    All,
    Mentions,
}

/// Whose messages are scanned for explicit content.
#[derive(Clone, Copy, Debug, PartialEq, Eq, Hash, Structural)]
pub enum ExplicitContentFilter {
    Nobody,
    MembersWithoutRole,
    AllMembers,
}

/// Whether moderators of a guild need two-factor authentication.
#[derive(Clone, Copy, Debug, PartialEq, Eq, Hash, Structural)]
pub enum MfaLevel {
    NotRequired,
    Elevated,
}

/// The boost tier of a guild.
#[derive(Clone, Copy, Debug, PartialEq, Eq, Hash, Structural)]
pub enum PremiumTier {
    Tier0,
    Tier1,
    Tier2,
    Tier3,
}

/// What a user has to verify before taking part in a guild.
#[derive(Clone, Copy, Debug, PartialEq, Eq, Hash, Structural)]
pub enum VerificationLevel {
    Unrestricted,
    Low,
    Medium,
    High,
    VeryHigh,
}

/// A role of a guild.
#[derive(Clone, Debug)]
pub struct Role {
    pub color: u32,
    pub hoist: bool,
    pub id: RoleId,
    pub managed: bool,
    pub mentionable: bool,
    pub name: String,
    pub permissions: Permissions,
    pub position: i64,
}

impl vstd::std_specs::cmp::PartialEqSpecImpl for Role {
    open spec fn obeys_eq_spec() -> bool {
        true
    }

    open spec fn eq_spec(&self, other: &Role) -> bool {
        &&& self.color == other.color
        &&& self.hoist == other.hoist
        &&& self.id == other.id
        &&& self.managed == other.managed
        &&& self.mentionable == other.mentionable
        &&& self.name@ == other.name@
        &&& self.permissions == other.permissions
        &&& self.position == other.position
    }
}

impl PartialEq for Role {
    fn eq(&self, other: &Role) -> (r: bool) {
        self.color == other.color && self.hoist == other.hoist && self.id == other.id
            && self.managed == other.managed && self.mentionable == other.mentionable && self.name
            == other.name && self.permissions == other.permissions && self.position
            == other.position
    }
}

/// A custom emoji of a guild.
#[derive(Clone, Debug)]
pub struct Emoji {
    pub animated: bool,
    pub available: bool,
    pub id: EmojiId,
    pub managed: bool,
    pub name: String,
    pub require_colons: bool,
    pub roles: Vec<RoleId>,
    pub user: Option<User>,
}

/// A member of a guild.
#[derive(Clone, Debug)]
pub struct Member {
    pub deaf: bool,
    pub guild_id: Option<GuildId>,
    pub hoisted_role: Option<RoleId>,
    pub joined_at: Option<String>,
    pub mute: bool,
    pub nick: Option<String>,
    pub premium_since: Option<String>,
    pub roles: Vec<RoleId>,
    pub user: User,
}

impl vstd::std_specs::cmp::PartialEqSpecImpl for Member {
    open spec fn obeys_eq_spec() -> bool {
        true
    }

    open spec fn eq_spec(&self, other: &Member) -> bool {
        &&& self.deaf == other.deaf
        &&& self.guild_id == other.guild_id
        &&& self.hoisted_role == other.hoisted_role
        &&& same_text(self.joined_at, other.joined_at)
        &&& self.mute == other.mute
        &&& same_text(self.nick, other.nick)
        &&& same_text(self.premium_since, other.premium_since)
        &&& self.roles@ == other.roles@
        &&& PartialEqSpec::eq_spec(&self.user, &other.user)
    }
}

impl PartialEq for Member {
    fn eq(&self, other: &Member) -> (r: bool) {
        self.deaf == other.deaf && self.guild_id == other.guild_id && self.hoisted_role
            == other.hoisted_role && text_eq(&self.joined_at, &other.joined_at) && self.mute
            == other.mute && text_eq(&self.nick, &other.nick) && text_eq(
            &self.premium_since,
            &other.premium_since,
        ) && roles_eq(&self.roles, &other.roles) && self.user == other.user
    }
}

/// A guild, with everything that comes with it when it becomes available. The
/// maps are keyed by the number of the id of what they hold.
#[derive(Clone, Debug)]
pub struct Guild {
    pub id: GuildId,
    pub afk_channel_id: Option<ChannelId>,
    pub afk_timeout: u64,
    pub application_id: Option<ApplicationId>,
    pub approximate_member_count: Option<u64>,
    pub approximate_presence_count: Option<u64>,
    pub banner: Option<String>,
    pub channels: HashMap<u64, GuildChannel>,
    pub default_message_notifications: DefaultMessageNotificationLevel,
    pub description: Option<String>,
    pub discovery_splash: Option<String>,
    pub embed_channel_id: Option<ChannelId>,
    pub embed_enabled: Option<bool>,
    pub emojis: HashMap<u64, Emoji>,
    pub explicit_content_filter: ExplicitContentFilter,
    pub features: Vec<String>,
    pub icon: Option<String>,
    pub joined_at: Option<String>,
    pub large: bool,
    pub lazy: Option<bool>,
    pub max_members: Option<u64>,
    pub max_presences: Option<u64>,
    pub max_video_channel_users: Option<u64>,
    pub member_count: Option<u64>,
    pub members: HashMap<u64, Member>,
    pub mfa_level: MfaLevel,
    pub name: String,
    pub owner: Option<bool>,
    pub owner_id: UserId,
    pub permissions: Option<Permissions>,
    pub preferred_locale: String,
    pub premium_subscription_count: Option<u64>,
    pub premium_tier: PremiumTier,
    pub presences: HashMap<u64, Presence>,
    pub region: String,
    pub roles: HashMap<u64, Role>,
    pub rules_channel_id: Option<ChannelId>,
    pub splash: Option<String>,
    pub system_channel_id: Option<ChannelId>,
    pub system_channel_flags: SystemChannelFlags,
    pub unavailable: bool,
    pub vanity_url_code: Option<String>,
    pub verification_level: VerificationLevel,
    pub voice_states: HashMap<u64, VoiceState>,
    pub widget_channel_id: Option<ChannelId>,
    pub widget_enabled: Option<bool>,
}

impl Guild {
    /// Each of the maps is keyed by the ids of what it holds: the members,
    /// presences and voice states by those of their users.
    pub open spec fn is_keyed_by_id(self) -> bool {
        &&& forall|key: u64| #[trigger]
            self.channels@.contains_key(key) ==> self.channels@[key].spec_id().0 == key
        &&& forall|key: u64| #[trigger]
            self.emojis@.contains_key(key) ==> self.emojis@[key].id.0 == key
        &&& forall|key: u64| #[trigger]
            self.members@.contains_key(key) ==> self.members@[key].user.id.0 == key
        &&& forall|key: u64| #[trigger]
            self.presences@.contains_key(key) ==> self.presences@[key].user.spec_id().0 == key
        &&& forall|key: u64| #[trigger]
            self.roles@.contains_key(key) ==> self.roles@[key].id.0 == key
        &&& forall|key: u64| #[trigger]
            self.voice_states@.contains_key(key) ==> self.voice_states@[key].user_id.0 == key
    }
}

} // verus!
