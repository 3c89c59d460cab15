//! Channels: those of a guild, private ones and groups.

use crate::model::equality::{items_eq, same_items, same_text, text_eq};
use crate::model::guild::Permissions;
use crate::model::id::{ApplicationId, ChannelId, GuildId, MessageId, RoleId, UserId};
use crate::model::user::User;
use vstd::prelude::*;
use vstd::std_specs::cmp::PartialEqSpec;

verus! {

/// The type of a channel.
#[derive(Clone, Copy, Debug, PartialEq, Eq, Hash, Structural)]
pub enum ChannelType {
    GuildText,
    Private,
    GuildVoice,
    Group,
    GuildCategory,
    GuildNews,
    GuildStore,
}

/// Whom a permission overwrite applies to.
#[derive(Clone, Copy, Debug, PartialEq, Eq, Hash, Structural)]
pub enum PermissionOverwriteType {
    Member(UserId),
    Role(RoleId),
}

/// Permissions that a channel grants to, or takes from, a member or a role.
#[derive(Clone, Copy, Debug)]
pub struct PermissionOverwrite {
    pub allow: Permissions,
    pub deny: Permissions,
    pub kind: PermissionOverwriteType,
}

impl vstd::std_specs::cmp::PartialEqSpecImpl for PermissionOverwrite {
    open spec fn obeys_eq_spec() -> bool {
        true
    }

    open spec fn eq_spec(&self, other: &PermissionOverwrite) -> bool {
        &&& self.allow == other.allow
        &&& self.deny == other.deny
        &&& self.kind == other.kind
    }
}

impl PartialEq for PermissionOverwrite {
    fn eq(&self, other: &PermissionOverwrite) -> (r: bool) {
        self.allow == other.allow && self.deny == other.deny && self.kind == other.kind
    }
}

/// A category, which groups other channels of a guild.
#[derive(Clone, Debug)]
pub struct CategoryChannel {
    pub guild_id: Option<GuildId>,
    pub id: ChannelId,
    pub kind: ChannelType,
    pub name: String,
    pub nsfw: Option<bool>,
    pub parent_id: Option<ChannelId>,
    pub permission_overwrites: Vec<PermissionOverwrite>,
    pub position: i64,
}

impl vstd::std_specs::cmp::PartialEqSpecImpl for CategoryChannel {
    open spec fn obeys_eq_spec() -> bool {
        true
    }

    open spec fn eq_spec(&self, other: &CategoryChannel) -> bool {
        &&& self.guild_id == other.guild_id
        &&& self.id == other.id
        &&& self.kind == other.kind
        &&& self.name@ == other.name@
        &&& self.nsfw == other.nsfw
        &&& self.parent_id == other.parent_id
        &&& same_items(self.permission_overwrites@, other.permission_overwrites@)
        &&& self.position == other.position
    }
}

impl PartialEq for CategoryChannel {
    fn eq(&self, other: &CategoryChannel) -> (r: bool) {
        self.guild_id == other.guild_id && self.id == other.id && self.kind == other.kind
            && self.name == other.name && self.nsfw == other.nsfw && self.parent_id
            == other.parent_id && items_eq(
            &self.permission_overwrites,
            &other.permission_overwrites,
        ) && self.position == other.position
    }
}

/// A text channel of a guild.
#[derive(Clone, Debug)]
pub struct TextChannel {
    pub guild_id: Option<GuildId>,
    pub id: ChannelId,
    pub kind: ChannelType,
    pub last_message_id: Option<MessageId>,
    pub last_pin_timestamp: Option<String>,
    pub name: String,
    pub nsfw: bool,
    pub permission_overwrites: Vec<PermissionOverwrite>,
    pub parent_id: Option<ChannelId>,
    pub position: i64,
    pub rate_limit_per_user: Option<u64>,
    pub topic: Option<String>,
}

impl vstd::std_specs::cmp::PartialEqSpecImpl for TextChannel {
    open spec fn obeys_eq_spec() -> bool {
        true
    }

    open spec fn eq_spec(&self, other: &TextChannel) -> bool {
        &&& self.guild_id == other.guild_id
        &&& self.id == other.id
        &&& self.kind == other.kind
        &&& self.last_message_id == other.last_message_id
        &&& same_text(self.last_pin_timestamp, other.last_pin_timestamp)
        &&& self.name@ == other.name@
        &&& self.nsfw == other.nsfw
        &&& same_items(self.permission_overwrites@, other.permission_overwrites@)
        &&& self.parent_id == other.parent_id
        &&& self.position == other.position
        &&& self.rate_limit_per_user == other.rate_limit_per_user
        &&& same_text(self.topic, other.topic)
    }
}

impl PartialEq for TextChannel {
    fn eq(&self, other: &TextChannel) -> (r: bool) {
        self.guild_id == other.guild_id && self.id == other.id && self.kind == other.kind
            && self.last_message_id == other.last_message_id && text_eq(
            &self.last_pin_timestamp,
            &other.last_pin_timestamp,
        ) && self.name == other.name && self.nsfw == other.nsfw && items_eq(
            &self.permission_overwrites,
            &other.permission_overwrites,
        ) && self.parent_id == other.parent_id && self.position == other.position
            && self.rate_limit_per_user == other.rate_limit_per_user && text_eq(
            &self.topic,
            &other.topic,
        )
    }
}

/// A voice channel of a guild.
#[derive(Clone, Debug)]
pub struct VoiceChannel {
    pub bitrate: u64,
    pub guild_id: Option<GuildId>,
    pub id: ChannelId,
    pub kind: ChannelType,
    pub name: String,
    pub permission_overwrites: Vec<PermissionOverwrite>,
    pub parent_id: Option<ChannelId>,
    pub position: i64,
    pub user_limit: Option<u64>,
}

impl vstd::std_specs::cmp::PartialEqSpecImpl for VoiceChannel {
    open spec fn obeys_eq_spec() -> bool {
        true
    }

    open spec fn eq_spec(&self, other: &VoiceChannel) -> bool {
        &&& self.bitrate == other.bitrate
        &&& self.guild_id == other.guild_id
        &&& self.id == other.id
        &&& self.kind == other.kind
        &&& self.name@ == other.name@
        &&& same_items(self.permission_overwrites@, other.permission_overwrites@)
        &&& self.parent_id == other.parent_id
        &&& self.position == other.position
        &&& self.user_limit == other.user_limit
    }
}

impl PartialEq for VoiceChannel {
    fn eq(&self, other: &VoiceChannel) -> (r: bool) {
        self.bitrate == other.bitrate && self.guild_id == other.guild_id && self.id == other.id
            && self.kind == other.kind && self.name == other.name && items_eq(
            &self.permission_overwrites,
            &other.permission_overwrites,
        ) && self.parent_id == other.parent_id && self.position == other.position
            && self.user_limit == other.user_limit
    }
}

/// A channel of a guild.
#[derive(Clone, Debug)]
pub enum GuildChannel {
    Category(CategoryChannel),
    Text(TextChannel),
    Voice(VoiceChannel),
}

impl GuildChannel {
    /// The id of the channel, whatever its kind.
    pub open spec fn spec_id(&self) -> ChannelId {
        match *self {
            GuildChannel::Category(c) => c.id,
            GuildChannel::Text(c) => c.id,
            GuildChannel::Voice(c) => c.id,
        }
    }

    /// The guild that the channel says it is in, whatever its kind.
    pub open spec fn spec_guild_id(&self) -> Option<GuildId> {
        match *self {
            GuildChannel::Category(c) => c.guild_id,
            GuildChannel::Text(c) => c.guild_id,
            GuildChannel::Voice(c) => c.guild_id,
        }
    }

    /// The same channel, in the guild `guild_id`.
    pub open spec fn in_guild(self, guild_id: GuildId) -> GuildChannel {
        match self {
            GuildChannel::Category(c) => GuildChannel::Category(
                CategoryChannel { guild_id: Some(guild_id), ..c },
            ),
            GuildChannel::Text(c) => GuildChannel::Text(
                TextChannel { guild_id: Some(guild_id), ..c },
            ),
            GuildChannel::Voice(c) => GuildChannel::Voice(
                VoiceChannel { guild_id: Some(guild_id), ..c },
            ),
        }
    }

    /// Returns the id of the channel.
    pub fn id(&self) -> (id: ChannelId)
        ensures
            id == self.spec_id(),
    {
        match self {
            GuildChannel::Category(c) => c.id,
            GuildChannel::Text(c) => c.id,
            GuildChannel::Voice(c) => c.id,
        }
    }

    /// Returns the id of the guild that the channel says it is in.
    pub fn guild_id(&self) -> (id: Option<GuildId>)
        ensures
            id == self.spec_guild_id(),
    {
        match self {
            GuildChannel::Category(c) => c.guild_id,
            GuildChannel::Text(c) => c.guild_id,
            GuildChannel::Voice(c) => c.guild_id,
        }
    }
}

impl vstd::std_specs::cmp::PartialEqSpecImpl for GuildChannel {
    open spec fn obeys_eq_spec() -> bool {
        true
    }

    open spec fn eq_spec(&self, other: &GuildChannel) -> bool {
        match (*self, *other) {
            (GuildChannel::Category(a), GuildChannel::Category(b)) => PartialEqSpec::eq_spec(
                &a,
                &b,
            ),
            (GuildChannel::Text(a), GuildChannel::Text(b)) => PartialEqSpec::eq_spec(&a, &b),
            (GuildChannel::Voice(a), GuildChannel::Voice(b)) => PartialEqSpec::eq_spec(&a, &b),
            _ => false,
        }
    }
}

impl PartialEq for GuildChannel {
    fn eq(&self, other: &GuildChannel) -> (r: bool) {
        match (self, other) {
            (GuildChannel::Category(a), GuildChannel::Category(b)) => *a == *b,
            (GuildChannel::Text(a), GuildChannel::Text(b)) => *a == *b,
            (GuildChannel::Voice(a), GuildChannel::Voice(b)) => *a == *b,
            _ => false,
        }
    }
}

/// A conversation of several users outside of any guild.
#[derive(Clone, Debug)]
pub struct Group {
    pub application_id: Option<ApplicationId>,
    pub icon: Option<String>,
    pub id: ChannelId,
    pub kind: ChannelType,
    pub last_message_id: Option<MessageId>,
    pub last_pin_timestamp: Option<String>,
    pub name: Option<String>,
    pub owner_id: UserId,
    pub recipients: Vec<User>,
}

impl vstd::std_specs::cmp::PartialEqSpecImpl for Group {
    open spec fn obeys_eq_spec() -> bool {
        true
    }

    open spec fn eq_spec(&self, other: &Group) -> bool {
        &&& self.application_id == other.application_id
        &&& same_text(self.icon, other.icon)
        &&& self.id == other.id
        &&& self.kind == other.kind
        &&& self.last_message_id == other.last_message_id
        &&& same_text(self.last_pin_timestamp, other.last_pin_timestamp)
        &&& same_text(self.name, other.name)
        &&& self.owner_id == other.owner_id
        &&& same_items(self.recipients@, other.recipients@)
    }
}

impl PartialEq for Group {
    fn eq(&self, other: &Group) -> (r: bool) {
        self.application_id == other.application_id && text_eq(&self.icon, &other.icon) && self.id
            == other.id && self.kind == other.kind && self.last_message_id == other.last_message_id
            && text_eq(&self.last_pin_timestamp, &other.last_pin_timestamp) && text_eq(
            &self.name,
            &other.name,
        ) && self.owner_id == other.owner_id && items_eq(&self.recipients, &other.recipients)
    }
}

/// A conversation with one other user outside of any guild.
#[derive(Clone, Debug)]
pub struct PrivateChannel {
    pub id: ChannelId,
    pub last_message_id: Option<MessageId>,
    pub last_pin_timestamp: Option<String>,
    pub kind: ChannelType,
    pub recipients: Vec<User>,
}

impl vstd::std_specs::cmp::PartialEqSpecImpl for PrivateChannel {
    open spec fn obeys_eq_spec() -> bool {
        true
    }

    open spec fn eq_spec(&self, other: &PrivateChannel) -> bool {
        &&& self.id == other.id
        &&& self.last_message_id == other.last_message_id
        &&& same_text(self.last_pin_timestamp, other.last_pin_timestamp)
        &&& self.kind == other.kind
        &&& same_items(self.recipients@, other.recipients@)
    }
}

impl PartialEq for PrivateChannel {
    fn eq(&self, other: &PrivateChannel) -> (r: bool) {
        self.id == other.id && self.last_message_id == other.last_message_id && text_eq(
            &self.last_pin_timestamp,
            &other.last_pin_timestamp,
        ) && self.kind == other.kind && items_eq(&self.recipients, &other.recipients)
    }
}

} // verus!
