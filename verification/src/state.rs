//! What the cache holds, as mathematics: the state, and how each operation
//! changes it.

use crate::config::InMemoryConfig;
use crate::model::cached::{
    CachedEmoji, CachedGuild, CachedMember, CachedMessage, CachedPresence, GuildParts,
};
use crate::model::channel::{Group, GuildChannel, PrivateChannel};
use crate::model::guild::{Emoji, Guild, Member, Role};
use crate::model::id::{ChannelId, GuildId, RoleId};
use crate::model::presence::Presence;
use crate::model::user::{CurrentUser, User};
use crate::model::voice::VoiceState;
use std::sync::Arc;
use vstd::prelude::*;
use vstd::std_specs::cmp::PartialEqSpec;

verus! {

/// Something that belongs to a guild, with the guild that it belongs to.
#[derive(Debug)]
pub struct GuildItem<T> {
    pub data: Arc<T>,
    pub guild_id: GuildId,
}

/// The contents of a cache. Every map is keyed by the numbers of the ids.
#[verifier::ext_equal]
pub struct CacheState {
    pub config: InMemoryConfig,
    pub channels_guild: Map<u64, GuildItem<GuildChannel>>,
    pub channels_private: Map<u64, Arc<PrivateChannel>>,
    pub current_user: Option<Arc<CurrentUser>>,
    pub emojis: Map<u64, GuildItem<CachedEmoji>>,
    pub groups: Map<u64, Arc<Group>>,
    pub guilds: Map<u64, Arc<CachedGuild>>,
    pub guild_channels: Map<u64, Set<u64>>,
    pub guild_emojis: Map<u64, Set<u64>>,
    pub guild_members: Map<u64, Set<u64>>,
    pub guild_presences: Map<u64, Set<u64>>,
    pub guild_roles: Map<u64, Set<u64>>,
    pub guild_voice_states: Map<u64, Map<u64, Arc<VoiceState>>>,
    pub members: Map<(u64, u64), Arc<CachedMember>>,
    pub messages: Map<u64, Map<u64, Arc<CachedMessage>>>,
    pub presences: Map<(Option<u64>, u64), Arc<CachedPresence>>,
    pub roles: Map<u64, GuildItem<Role>>,
    pub unavailable_guilds: Set<u64>,
    pub users: Map<u64, Arc<User>>,
}

/// What is under `key`, if anything.
pub open spec fn lookup<K, V>(map: Map<K, V>, key: K) -> Option<V> {
    if map.contains_key(key) {
        Some(map[key])
    } else {
        None
    }
}

/// The data under `key`, if there is any.
pub open spec fn lookup_data<T>(map: Map<u64, GuildItem<T>>, key: u64) -> Option<Arc<T>> {
    if map.contains_key(key) {
        Some(map[key].data)
    } else {
        None
    }
}

/// What is under `key` in the map under `outer`, if anything.
pub open spec fn lookup_in<V>(maps: Map<u64, Map<u64, V>>, outer: u64, key: u64) -> Option<V> {
    if maps.contains_key(outer) {
        lookup(maps[outer], key)
    } else {
        None
    }
}

/// `map` with `value` under `key`. A value already there that equals `value`
/// stays, so that whoever holds it shares it with the cache.
pub open spec fn upsert<V: PartialEq>(map: Map<u64, Arc<V>>, key: u64, value: V) -> Map<
    u64,
    Arc<V>,
> {
    if map.contains_key(key) && (*map[key]).eq_spec(&value) {
        map
    } else {
        map.insert(key, Arc::new(value))
    }
}

/// `map` with `value`, of the guild `guild_id`, under `key`. An item already
/// there whose data equals `value` stays, with its guild.
pub open spec fn upsert_in_guild<V: PartialEq>(
    map: Map<u64, GuildItem<V>>,
    guild_id: GuildId,
    key: u64,
    value: V,
) -> Map<u64, GuildItem<V>> {
    if map.contains_key(key) && (*map[key].data).eq_spec(&value) {
        map
    } else {
        map.insert(key, GuildItem { data: Arc::new(value), guild_id })
    }
}

/// The number of a guild, if there is one.
pub open spec fn guild_number(guild_id: Option<GuildId>) -> Option<u64> {
    match guild_id {
        Some(id) => Some(id.0),
        None => None,
    }
}

/// The voice states of a guild with `vs` among them. One that names no channel
/// takes out what is there of its user.
pub open spec fn voice_states_with(states: Map<u64, Arc<VoiceState>>, vs: VoiceState) -> Map<
    u64,
    Arc<VoiceState>,
> {
    if vs.channel_id is None {
        states.remove(vs.user_id.0)
    } else {
        upsert(states, vs.user_id.0, vs)
    }
}

/// A voice state that is found by a guild and a user is of these, and in a
/// channel.
pub open spec fn belongs_there(
    found: Option<Arc<VoiceState>>,
    guild_id: u64,
    user_id: u64,
) -> bool {
    found matches Some(vs) ==> {
        &&& vs.guild_id == Some(GuildId(guild_id))
        &&& vs.user_id.0 == user_id
        &&& vs.channel_id is Some
    }
}

impl CacheState {
    /// The contents of a new cache.
    pub open spec fn empty(config: InMemoryConfig) -> CacheState {
        CacheState {
            config,
            channels_guild: Map::empty(),
            channels_private: Map::empty(),
            current_user: None,
            emojis: Map::empty(),
            groups: Map::empty(),
            guilds: Map::empty(),
            guild_channels: Map::empty(),
            guild_emojis: Map::empty(),
            guild_members: Map::empty(),
            guild_presences: Map::empty(),
            guild_roles: Map::empty(),
            guild_voice_states: Map::empty(),
            members: Map::empty(),
            messages: Map::empty(),
            presences: Map::empty(),
            roles: Map::empty(),
            unavailable_guilds: Set::empty(),
            users: Map::empty(),
        }
    }

    /// What holds of every cache, whatever has been cached in it and deleted
    /// from it: everything is found where its own ids say.
    pub open spec fn consistent(self) -> bool {
        &&& forall|id: u64| #[trigger]
            self.channels_guild.contains_key(id) ==> {
                let item = self.channels_guild[id];
                &&& item.data.spec_id().0 == id
                &&& item.data.spec_guild_id() == Some(item.guild_id)
                &&& self.guild_channels.contains_key(item.guild_id.0)
            }
        &&& forall|id: u64| #[trigger]
            self.channels_private.contains_key(id) ==> self.channels_private[id].id.0 == id
        &&& forall|id: u64| #[trigger]
            self.emojis.contains_key(id) ==> self.emojis[id].data.id.0 == id
        &&& forall|id: u64| #[trigger] self.groups.contains_key(id) ==> self.groups[id].id.0 == id
        &&& forall|id: u64| #[trigger]
            self.guilds.contains_key(id) ==> {
                &&& self.guilds[id].id.0 == id
                &&& !self.unavailable_guilds.contains(id)
                &&& self.guild_channels.contains_key(id)
                &&& self.guild_emojis.contains_key(id)
                &&& self.guild_members.contains_key(id)
                &&& self.guild_presences.contains_key(id)
                &&& self.guild_roles.contains_key(id)
                &&& self.guild_voice_states.contains_key(id)
            }
        &&& forall|guild_id: u64, user_id: u64|
            belongs_there(
                #[trigger] lookup_in(self.guild_voice_states, guild_id, user_id),
                guild_id,
                user_id,
            )
        &&& forall|key: (u64, u64)| #[trigger]
            self.members.contains_key(key) ==> {
                &&& self.members[key].guild_id.0 == key.0
                &&& self.members[key].user.id.0 == key.1
            }
        &&& forall|key: (Option<u64>, u64)| #[trigger]
            self.presences.contains_key(key) ==> self.presences[key].user_id.0 == key.1
        &&& forall|id: u64| #[trigger]
            self.roles.contains_key(id) ==> self.roles[id].data.id.0 == id
        &&& forall|id: u64| #[trigger] self.users.contains_key(id) ==> self.users[id].id.0 == id
    }

    /// Whether the channel `id` is listed among those of the guild `guild_id`.
    pub open spec fn lists_channel(self, guild_id: u64, id: u64) -> bool {
        self.guild_channels.contains_key(guild_id) && self.guild_channels[guild_id].contains(id)
    }

    /// Whether the channel `id` is held for the guild `guild_id`.
    pub open spec fn holds_channel_for(self, guild_id: u64, id: u64) -> bool {
        self.channels_guild.contains_key(id) && self.channels_guild[id].guild_id.0 == guild_id
    }

    /// A channel is listed for exactly the guild that it is held for.
    pub open spec fn lists_what_it_holds(self) -> bool {
        forall|guild_id: u64, id: u64| #[trigger]
            self.lists_channel(guild_id, id) == self.holds_channel_for(guild_id, id)
    }

    /// The state with `current_user` cached.
    pub open spec fn with_current_user(self, current_user: CurrentUser) -> CacheState {
        CacheState { current_user: Some(Arc::new(current_user)), ..self }
    }

    /// The state with `user` cached.
    pub open spec fn with_user(self, user: User) -> CacheState {
        CacheState { users: upsert(self.users, user.id.0, user), ..self }
    }

    /// The state with `group` cached.
    pub open spec fn with_group(self, group: Group) -> CacheState {
        CacheState { groups: upsert(self.groups, group.id.0, group), ..self }
    }

    /// The state with the private channel `channel` cached.
    pub open spec fn with_private_channel(self, channel: PrivateChannel) -> CacheState {
        CacheState {
            channels_private: upsert(self.channels_private, channel.id.0, channel),
            ..self
        }
    }

    /// The state with `role`, of the guild `guild_id`, cached.
    pub open spec fn with_role(self, guild_id: GuildId, role: Role) -> CacheState {
        CacheState { roles: upsert_in_guild(self.roles, guild_id, role.id.0, role), ..self }
    }

    /// The ids of the channels that the guild `guild_id` is known to have.
    pub open spec fn channels_of(self, guild_id: GuildId) -> Set<u64> {
        if self.guild_channels.contains_key(guild_id.0) {
            self.guild_channels[guild_id.0]
        } else {
            Set::empty()
        }
    }

    /// The state with `channel`, of the guild `guild_id`, cached: its id is
    /// among those of the guild's channels, and it names the guild.
    pub open spec fn with_guild_channel(
        self,
        guild_id: GuildId,
        channel: GuildChannel,
    ) -> CacheState {
        let id = channel.spec_id().0;
        CacheState {
            guild_channels: self.guild_channels.insert(
                guild_id.0,
                self.channels_of(guild_id).insert(id),
            ),
            channels_guild: upsert_in_guild(
                self.channels_guild,
                guild_id,
                id,
                channel.in_guild(guild_id),
            ),
            ..self
        }
    }

    /// The state with `emoji`, of the guild `guild_id`, cached. An emoji that
    /// is there already and equals `emoji` stays, and so does its user.
    pub open spec fn with_emoji(self, guild_id: GuildId, emoji: Emoji) -> CacheState {
        let id = emoji.id.0;
        if self.emojis.contains_key(id) && (*self.emojis[id].data).eq_spec(&emoji) {
            self
        } else {
            let (base, user) = match emoji.user {
                Some(u) => (self.with_user(u), Some(self.with_user(u).users[u.id.0])),
                None => (self, None),
            };
            CacheState {
                emojis: base.emojis.insert(
                    id,
                    GuildItem { data: Arc::new(CachedEmoji::of(emoji, user)), guild_id },
                ),
                ..base
            }
        }
    }

    /// The state with `member`, of the guild `guild_id`, cached. A member that
    /// is there already and equals `member` stays, and so does their user.
    pub open spec fn with_member(self, guild_id: GuildId, member: Member) -> CacheState {
        let key = (guild_id.0, member.user.id.0);
        if self.members.contains_key(key) && (*self.members[key]).eq_spec(&member) {
            self
        } else {
            let base = self.with_user(member.user);
            let user = base.users[member.user.id.0];
            CacheState {
                members: base.members.insert(
                    key,
                    Arc::new(CachedMember::of(guild_id, member, user)),
                ),
                ..base
            }
        }
    }

    /// The state with `presence`, in the guild `guild_id` or outside of any,
    /// cached. A presence that is there already and equals `presence` stays.
    pub open spec fn with_presence(
        self,
        guild_id: Option<GuildId>,
        presence: Presence,
    ) -> CacheState {
        let key = (guild_number(guild_id), presence.user.spec_id().0);
        if self.presences.contains_key(key) && (*self.presences[key]).eq_spec(&presence) {
            self
        } else {
            CacheState {
                presences: self.presences.insert(key, Arc::new(CachedPresence::of(presence))),
                ..self
            }
        }
    }

    /// Whether the voice states of the guild that `vs` names, if it names one,
    /// have a place in the cache.
    pub open spec fn knows_guild_of(self, vs: VoiceState) -> bool {
        vs.guild_id matches Some(guild_id) ==> self.guild_voice_states.contains_key(guild_id.0)
    }

    /// The state with `vs` cached. A state outside of any guild is not kept.
    /// One without a channel takes out what is cached of its user in its guild.
    pub open spec fn with_voice_state(self, vs: VoiceState) -> CacheState {
        match vs.guild_id {
            None => self,
            Some(guild_id) => if !self.guild_voice_states.contains_key(guild_id.0) {
                self
            } else {
                CacheState {
                    guild_voice_states: self.guild_voice_states.insert(
                        guild_id.0,
                        voice_states_with(self.guild_voice_states[guild_id.0], vs),
                    ),
                    ..self
                }
            },
        }
    }

    /// The state with `channels`, of the guild `guild_id`, cached in order.
    pub open spec fn with_guild_channels(
        self,
        guild_id: GuildId,
        channels: Seq<GuildChannel>,
    ) -> CacheState {
        channels.fold_left(
            self,
            |s: CacheState, channel: GuildChannel| s.with_guild_channel(guild_id, channel),
        )
    }

    /// The state with `emojis`, of the guild `guild_id`, cached in order.
    pub open spec fn with_emojis(self, guild_id: GuildId, emojis: Seq<Emoji>) -> CacheState {
        emojis.fold_left(self, |s: CacheState, emoji: Emoji| s.with_emoji(guild_id, emoji))
    }

    /// The state with `members`, of the guild `guild_id`, cached in order.
    pub open spec fn with_members(self, guild_id: GuildId, members: Seq<Member>) -> CacheState {
        members.fold_left(self, |s: CacheState, member: Member| s.with_member(guild_id, member))
    }

    /// The state with `presences`, in the guild `guild_id` or outside of any,
    /// cached in order.
    pub open spec fn with_presences(
        self,
        guild_id: Option<GuildId>,
        presences: Seq<Presence>,
    ) -> CacheState {
        presences.fold_left(
            self,
            |s: CacheState, presence: Presence| s.with_presence(guild_id, presence),
        )
    }

    /// The state with `roles`, of the guild `guild_id`, cached in order.
    pub open spec fn with_roles(self, guild_id: GuildId, roles: Seq<Role>) -> CacheState {
        roles.fold_left(self, |s: CacheState, role: Role| s.with_role(guild_id, role))
    }

    /// The state with `voice_states` cached in order.
    pub open spec fn with_voice_states(self, voice_states: Seq<VoiceState>) -> CacheState {
        voice_states.fold_left(self, |s: CacheState, vs: VoiceState| s.with_voice_state(vs))
    }

    /// The state in which the guild `guild_id` has places for what belongs to
    /// it, all of them empty.
    pub open spec fn with_places_for(self, guild_id: GuildId) -> CacheState {
        CacheState {
            guild_channels: self.guild_channels.insert(guild_id.0, Set::empty()),
            guild_emojis: self.guild_emojis.insert(guild_id.0, Set::empty()),
            guild_members: self.guild_members.insert(guild_id.0, Set::empty()),
            guild_presences: self.guild_presences.insert(guild_id.0, Set::empty()),
            guild_roles: self.guild_roles.insert(guild_id.0, Set::empty()),
            guild_voice_states: self.guild_voice_states.insert(guild_id.0, Map::empty()),
            ..self
        }
    }

    /// The state with what belongs to a guild cached, except for the voice states.
    pub open spec fn with_parts_but_voice_states(self, parts: GuildParts) -> CacheState {
        let id = parts.guild.id;
        self.with_guild_channels(id, parts.channels@).with_emojis(
            id,
            parts.emojis@,
        ).with_members(id, parts.members@).with_presences(
            Some(id),
            parts.presences@,
        ).with_roles(id, parts.roles@)
    }

    /// Whether each voice state of `guild` either names no guild, or that guild,
    /// or one whose voice states have a place in the cache.
    pub open spec fn can_cache_guild(self, guild: Guild) -> bool {
        forall|key: u64| #[trigger]
            guild.voice_states@.contains_key(key) ==> self.with_places_for(
                guild.id,
            ).knows_guild_of(guild.voice_states@[key])
    }

    /// The same of a guild that is given apart from what belongs to it.
    pub open spec fn can_cache_guild_parts(self, parts: GuildParts) -> bool {
        forall|i: int|
            0 <= i < parts.voice_states@.len() ==> self.with_places_for(
                parts.guild.id,
            ).knows_guild_of(#[trigger] parts.voice_states@[i])
    }

    /// The state with a guild cached: its places are made anew, what belongs to
    /// it is cached, and it is available.
    pub open spec fn with_guild(self, parts: GuildParts) -> CacheState {
        let id = parts.guild.id;
        let filled = self.with_places_for(id).with_parts_but_voice_states(
            parts,
        ).with_voice_states(parts.voice_states@);
        CacheState {
            unavailable_guilds: filled.unavailable_guilds.remove(id.0),
            guilds: filled.guilds.insert(id.0, Arc::new(parts.guild)),
            ..filled
        }
    }

    /// The state without the group `channel_id`.
    pub open spec fn without_group(self, channel_id: ChannelId) -> CacheState {
        CacheState { groups: self.groups.remove(channel_id.0), ..self }
    }

    /// The state without the guild channel `channel_id`, neither as data nor
    /// among the channels of the guild that it was cached for.
    pub open spec fn without_guild_channel(self, channel_id: ChannelId) -> CacheState {
        if !self.channels_guild.contains_key(channel_id.0) {
            self
        } else {
            let guild_id = self.channels_guild[channel_id.0].guild_id.0;
            CacheState {
                channels_guild: self.channels_guild.remove(channel_id.0),
                guild_channels: if self.guild_channels.contains_key(guild_id) {
                    self.guild_channels.insert(
                        guild_id,
                        self.guild_channels[guild_id].remove(channel_id.0),
                    )
                } else {
                    self.guild_channels
                },
                ..self
            }
        }
    }

    /// The state without the role `role_id`, neither as data nor among the
    /// roles of the guild that it was cached for.
    pub open spec fn without_role(self, role_id: RoleId) -> CacheState {
        if !self.roles.contains_key(role_id.0) {
            self
        } else {
            let guild_id = self.roles[role_id.0].guild_id.0;
            CacheState {
                roles: self.roles.remove(role_id.0),
                guild_roles: if self.guild_roles.contains_key(guild_id) {
                    self.guild_roles.insert(guild_id, self.guild_roles[guild_id].remove(role_id.0))
                } else {
                    self.guild_roles
                },
                ..self
            }
        }
    }

    /// The state in which the guild `guild_id` is unavailable.
    pub open spec fn with_unavailable_guild(self, guild_id: GuildId) -> CacheState {
        CacheState {
            unavailable_guilds: self.unavailable_guilds.insert(guild_id.0),
            guilds: self.guilds.remove(guild_id.0),
            ..self
        }
    }
}

} // verus!
