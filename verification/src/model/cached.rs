//! What the cache hands out where that differs from what it receives: users
//! are shared, and ids take the place of what has a table of its own.

use crate::model::equality::{items_eq, roles_eq, same_items, same_text, text_eq};
use crate::model::channel::GuildChannel;
use crate::model::guild::{
    DefaultMessageNotificationLevel, Emoji, ExplicitContentFilter, Guild, Member, MfaLevel,
    Permissions, PremiumTier, Role, SystemChannelFlags, VerificationLevel,
};
use crate::model::id::{ApplicationId, ChannelId, EmojiId, GuildId, MessageId, RoleId, UserId};
use crate::model::presence::{presence_user_id, Activity, ClientStatus, Presence, Status};
use crate::model::user::User;
use crate::model::voice::VoiceState;
use std::collections::HashMap;
use std::sync::Arc;
use vstd::prelude::*;
use vstd::std_specs::cmp::PartialEqSpec;
use vstd::std_specs::iter::IteratorSpec;

verus! {

/// An emoji of a guild, with the shared user that made it.
#[derive(Clone, Debug)]
pub struct CachedEmoji {
    pub id: EmojiId,
    pub animated: bool,
    pub name: String,
    pub managed: bool,
    pub require_colons: bool,
    pub roles: Vec<RoleId>,
    pub user: Option<Arc<User>>,
    pub available: bool,
}

impl CachedEmoji {
    /// The cached form of `emoji`, where `user` is the shared form of its user.
    pub open spec fn of(emoji: Emoji, user: Option<Arc<User>>) -> CachedEmoji {
        CachedEmoji {
            id: emoji.id,
            animated: emoji.animated,
            name: emoji.name,
            managed: emoji.managed,
            require_colons: emoji.require_colons,
            roles: emoji.roles,
            user,
            available: emoji.available,
        }
    }
}

impl vstd::std_specs::cmp::PartialEqSpecImpl<Emoji> for CachedEmoji {
    open spec fn obeys_eq_spec() -> bool {
        true
    }

    open spec fn eq_spec(&self, other: &Emoji) -> bool {
        &&& self.id == other.id
        &&& self.animated == other.animated
        &&& self.name@ == other.name@
        &&& self.managed == other.managed
        &&& self.require_colons == other.require_colons
        &&& self.roles@ == other.roles@
        &&& match (self.user, other.user) {
            (Some(a), Some(b)) => PartialEqSpec::eq_spec(&*a, &b),
            (None, None) => true,
            _ => false,
        }
        &&& self.available == other.available
    }
}

impl PartialEq<Emoji> for CachedEmoji {
    fn eq(&self, other: &Emoji) -> (r: bool) {
        let same_user = match (&self.user, &other.user) {
            (Some(a), Some(b)) => **a == *b,
            (None, None) => true,
            _ => false,
        };
        self.id == other.id && self.animated == other.animated && self.name == other.name
            && self.managed == other.managed && self.require_colons == other.require_colons
            && roles_eq(&self.roles, &other.roles) && same_user && self.available
            == other.available
    }
}

/// A guild. Its channels, emojis, members, presences, roles and voice states
/// are in tables of their own.
#[derive(Clone, Debug)]
pub struct CachedGuild {
    pub id: GuildId,
    pub afk_channel_id: Option<ChannelId>,
    pub afk_timeout: u64,
    pub application_id: Option<ApplicationId>,
    pub banner: Option<String>,
    pub default_message_notifications: DefaultMessageNotificationLevel,
    pub description: Option<String>,
    pub discovery_splash: Option<String>,
    pub embed_channel_id: Option<ChannelId>,
    pub embed_enabled: Option<bool>,
    pub explicit_content_filter: ExplicitContentFilter,
    pub features: Vec<String>,
    pub icon: Option<String>,
    pub joined_at: Option<String>,
    pub large: bool,
    pub lazy: Option<bool>,
    pub max_members: Option<u64>,
    pub max_presences: Option<u64>,
    pub member_count: Option<u64>,
    pub mfa_level: MfaLevel,
    pub name: String,
    pub owner: Option<bool>,
    pub owner_id: UserId,
    pub permissions: Option<Permissions>,
    pub preferred_locale: String,
    pub premium_subscription_count: Option<u64>,
    pub premium_tier: PremiumTier,
    pub region: String,
    pub rules_channel_id: Option<ChannelId>,
    pub splash: Option<String>,
    pub system_channel_id: Option<ChannelId>,
    pub system_channel_flags: SystemChannelFlags,
    pub unavailable: bool,
    pub verification_level: VerificationLevel,
    pub vanity_url_code: Option<String>,
    pub widget_channel_id: Option<ChannelId>,
    pub widget_enabled: Option<bool>,
}

impl CachedGuild {
    /// The cached form of `guild`.
    pub open spec fn of(guild: Guild) -> CachedGuild {
        CachedGuild {
            id: guild.id,
            afk_channel_id: guild.afk_channel_id,
            afk_timeout: guild.afk_timeout,
            application_id: guild.application_id,
            banner: guild.banner,
            default_message_notifications: guild.default_message_notifications,
            description: guild.description,
            discovery_splash: guild.discovery_splash,
            embed_channel_id: guild.embed_channel_id,
            embed_enabled: guild.embed_enabled,
            explicit_content_filter: guild.explicit_content_filter,
            features: guild.features,
            icon: guild.icon,
            joined_at: guild.joined_at,
            large: guild.large,
            lazy: guild.lazy,
            max_members: guild.max_members,
            max_presences: guild.max_presences,
            member_count: guild.member_count,
            mfa_level: guild.mfa_level,
            name: guild.name,
            owner: guild.owner,
            owner_id: guild.owner_id,
            permissions: guild.permissions,
            preferred_locale: guild.preferred_locale,
            premium_subscription_count: guild.premium_subscription_count,
            premium_tier: guild.premium_tier,
            region: guild.region,
            rules_channel_id: guild.rules_channel_id,
            splash: guild.splash,
            system_channel_id: guild.system_channel_id,
            system_channel_flags: guild.system_channel_flags,
            unavailable: guild.unavailable,
            verification_level: guild.verification_level,
            vanity_url_code: guild.vanity_url_code,
            widget_channel_id: guild.widget_channel_id,
            widget_enabled: guild.widget_enabled,
        }
    }
}

/// A guild as it is cached: its cached form, and what belongs to it, each kind
/// in the order in which it is cached.
#[derive(Clone, Debug)]
pub struct GuildParts {
    pub guild: CachedGuild,
    pub channels: Vec<GuildChannel>,
    pub emojis: Vec<Emoji>,
    pub members: Vec<Member>,
    pub presences: Vec<Presence>,
    pub roles: Vec<Role>,
    pub voice_states: Vec<VoiceState>,
}

/// `list` holds the values of `map`, each once, in some order.
pub open spec fn lists_values<V>(list: Seq<V>, map: Map<u64, V>) -> bool {
    exists|keys: Seq<u64>| #[trigger] lists_values_by(keys, list, map)
}

/// `list` holds the values of `map`, each once, in the order of `keys`.
pub open spec fn lists_values_by<V>(keys: Seq<u64>, list: Seq<V>, map: Map<u64, V>) -> bool {
    &&& keys.no_duplicates()
    &&& keys.to_set() == map.dom()
    &&& list == keys.map_values(|key: u64| map[key])
}

/// Only the values of `map` are in a list of them.
pub proof fn lemma_lists_only_values<V>(list: Seq<V>, map: Map<u64, V>)
    requires
        lists_values(list, map),
    ensures
        forall|i: int| 0 <= i < list.len() ==> map.contains_value(#[trigger] list[i]),
{
    let keys = choose|keys: Seq<u64>| lists_values_by(keys, list, map);
    assert forall|i: int| 0 <= i < list.len() implies map.contains_value(#[trigger] list[i]) by {
        assert(keys.to_set().contains(keys[i]));
        assert(map.contains_key(keys[i]));
    }
}

impl GuildParts {
    /// These are the parts of `guild`, in some order.
    pub open spec fn are_of(self, guild: Guild) -> bool {
        &&& self.guild == CachedGuild::of(guild)
        &&& lists_values(self.channels@, guild.channels@)
        &&& lists_values(self.emojis@, guild.emojis@)
        &&& lists_values(self.members@, guild.members@)
        &&& lists_values(self.presences@, guild.presences@)
        &&& lists_values(self.roles@, guild.roles@)
        &&& lists_values(self.voice_states@, guild.voice_states@)
    }

    /// Takes `guild` apart. The order of each kind is the one in which its hash
    /// map is walked, which is not the same from run to run.
    pub fn of(guild: Guild) -> (parts: GuildParts)
        ensures
            parts.are_of(guild),
    {
        let cached = CachedGuild {
            id: guild.id,
            afk_channel_id: guild.afk_channel_id,
            afk_timeout: guild.afk_timeout,
            application_id: guild.application_id,
            banner: guild.banner,
            default_message_notifications: guild.default_message_notifications,
            description: guild.description,
            discovery_splash: guild.discovery_splash,
            embed_channel_id: guild.embed_channel_id,
            embed_enabled: guild.embed_enabled,
            explicit_content_filter: guild.explicit_content_filter,
            features: guild.features,
            icon: guild.icon,
            joined_at: guild.joined_at,
            large: guild.large,
            lazy: guild.lazy,
            max_members: guild.max_members,
            max_presences: guild.max_presences,
            member_count: guild.member_count,
            mfa_level: guild.mfa_level,
            name: guild.name,
            owner: guild.owner,
            owner_id: guild.owner_id,
            permissions: guild.permissions,
            preferred_locale: guild.preferred_locale,
            premium_subscription_count: guild.premium_subscription_count,
            premium_tier: guild.premium_tier,
            region: guild.region,
            rules_channel_id: guild.rules_channel_id,
            splash: guild.splash,
            system_channel_id: guild.system_channel_id,
            system_channel_flags: guild.system_channel_flags,
            unavailable: guild.unavailable,
            verification_level: guild.verification_level,
            vanity_url_code: guild.vanity_url_code,
            widget_channel_id: guild.widget_channel_id,
            widget_enabled: guild.widget_enabled,
        };
        GuildParts {
            guild: cached,
            channels: into_values(guild.channels),
            emojis: into_values(guild.emojis),
            members: into_values(guild.members),
            presences: into_values(guild.presences),
            roles: into_values(guild.roles),
            voice_states: into_values(guild.voice_states),
        }
    }
}

/// Takes the values out of a hash map, in the order in which it is walked.
pub(crate) fn into_values<V>(map: HashMap<u64, V>) -> (values: Vec<V>)
    ensures
        lists_values(values@, map@),
{
    broadcast use vstd::std_specs::hash::group_hash_axioms;

    let ghost all = map@;
    let ghost walk = map.keys().remaining().unref();
    let mut keys: Vec<u64> = Vec::new();
    for key in it: map.keys()
        invariant
            walk == it.seq().unref(),
            keys@ == walk.take(it.index()),
    {
        keys.push(*key);
    }
    assert(keys@ == walk);

    let mut map = map;
    let mut values: Vec<V> = Vec::new();
    let mut i: usize = 0;
    while i < keys.len()
        invariant
            i <= keys.len(),
            keys@.no_duplicates(),
            keys@.to_set() == all.dom(),
            forall|j: int|
                i <= j < keys.len() ==> map@.contains_key(#[trigger] keys@[j]) && map@[keys@[j]]
                    == all[keys@[j]],
            values.len() == i,
            forall|j: int| 0 <= j < i ==> #[trigger] values@[j] == all[keys@[j]],
        decreases keys.len() - i,
    {
        let value = map.remove(&keys[i]).unwrap();
        values.push(value);
        i += 1;
    }
    assert(values@ =~= keys@.map_values(|key: u64| all[key]));
    assert(lists_values_by(keys@, values@, all));
    values
}

/// A member of a guild, with the shared user that they are.
#[derive(Clone, Debug)]
pub struct CachedMember {
    pub deaf: bool,
    pub guild_id: GuildId,
    pub joined_at: Option<String>,
    pub mute: bool,
    pub nick: Option<String>,
    pub premium_since: Option<String>,
    pub roles: Vec<RoleId>,
    pub user: Arc<User>,
}

impl CachedMember {
    /// The cached form of `member` in the guild `guild_id`, where `user` is the
    /// shared form of their user.
    pub open spec fn of(guild_id: GuildId, member: Member, user: Arc<User>) -> CachedMember {
        CachedMember {
            deaf: member.deaf,
            guild_id,
            joined_at: member.joined_at,
            mute: member.mute,
            nick: member.nick,
            premium_since: member.premium_since,
            roles: member.roles,
            user,
        }
    }
}

impl vstd::std_specs::cmp::PartialEqSpecImpl<Member> for CachedMember {
    open spec fn obeys_eq_spec() -> bool {
        true
    }

    open spec fn eq_spec(&self, other: &Member) -> bool {
        &&& self.deaf == other.deaf
        &&& same_text(self.joined_at, other.joined_at)
        &&& self.mute == other.mute
        &&& same_text(self.nick, other.nick)
        &&& same_text(self.premium_since, other.premium_since)
        &&& self.roles@ == other.roles@
        &&& PartialEqSpec::eq_spec(&*self.user, &other.user)
    }
}

impl PartialEq<Member> for CachedMember {
    fn eq(&self, other: &Member) -> (r: bool) {
        self.deaf == other.deaf && text_eq(&self.joined_at, &other.joined_at) && self.mute
            == other.mute && text_eq(&self.nick, &other.nick) && text_eq(
            &self.premium_since,
            &other.premium_since,
        ) && roles_eq(&self.roles, &other.roles) && *self.user == other.user
    }
}

/// A message. Its author is named by id.
#[derive(Clone, Debug)]
pub struct CachedMessage {
    pub id: MessageId,
    pub author: UserId,
    pub channel_id: ChannelId,
    pub content: String,
    pub edited_timestamp: Option<String>,
    pub guild_id: Option<GuildId>,
    pub mention_everyone: bool,
    pub mention_roles: Vec<RoleId>,
    pub mentions: Vec<UserId>,
    pub pinned: bool,
    pub timestamp: String,
    pub tts: bool,
}

/// A presence. Its user is named by id.
#[derive(Clone, Debug)]
pub struct CachedPresence {
    pub activities: Vec<Activity>,
    pub client_status: ClientStatus,
    pub game: Option<Activity>,
    pub guild_id: Option<GuildId>,
    pub nick: Option<String>,
    pub status: Status,
    pub user_id: UserId,
}

impl CachedPresence {
    /// The cached form of `presence`.
    pub open spec fn of(presence: Presence) -> CachedPresence {
        CachedPresence {
            activities: presence.activities,
            client_status: presence.client_status,
            game: presence.game,
            guild_id: presence.guild_id,
            nick: presence.nick,
            status: presence.status,
            user_id: presence.user.spec_id(),
        }
    }
}

impl vstd::std_specs::convert::FromSpecImpl<Presence> for CachedPresence {
    open spec fn obeys_from_spec() -> bool {
        true
    }

    open spec fn from_spec(presence: Presence) -> CachedPresence {
        CachedPresence::of(presence)
    }
}

impl From<Presence> for CachedPresence {
    fn from(presence: Presence) -> (cached: CachedPresence) {
        let user_id = presence_user_id(&presence);
        CachedPresence {
            activities: presence.activities,
            client_status: presence.client_status,
            game: presence.game,
            guild_id: presence.guild_id,
            nick: presence.nick,
            status: presence.status,
            user_id,
        }
    }
}

impl vstd::std_specs::cmp::PartialEqSpecImpl<Presence> for CachedPresence {
    open spec fn obeys_eq_spec() -> bool {
        true
    }

    open spec fn eq_spec(&self, other: &Presence) -> bool {
        &&& same_items(self.activities@, other.activities@)
        &&& self.client_status == other.client_status
        &&& PartialEqSpec::eq_spec(&self.game, &other.game)
        &&& self.guild_id == other.guild_id
        &&& same_text(self.nick, other.nick)
        &&& self.status == other.status
        &&& self.user_id == other.user.spec_id()
    }
}

impl PartialEq<Presence> for CachedPresence {
    fn eq(&self, other: &Presence) -> (r: bool) {
        items_eq(&self.activities, &other.activities) && self.client_status == other.client_status
            && self.game == other.game && self.guild_id == other.guild_id && text_eq(
            &self.nick,
            &other.nick,
        ) && self.status == other.status && self.user_id == presence_user_id(other)
    }
}

} // verus!
