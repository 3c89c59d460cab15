//! The cache.

use crate::config::{InMemoryConfig, InMemoryConfigBuilder};
use crate::consistency::{
    a_new_cache_is_consistent,
    an_unavailable_guild_keeps_the_cache_consistent,
    caching_a_group_keeps_the_cache_consistent,
    caching_a_guild_channel_keeps_the_cache_consistent,
    caching_a_guild_keeps_the_cache_consistent,
    caching_a_member_keeps_the_cache_consistent,
    caching_a_presence_keeps_the_cache_consistent,
    caching_a_private_channel_keeps_the_cache_consistent,
    caching_a_role_keeps_the_cache_consistent,
    caching_a_user_keeps_the_cache_consistent,
    caching_a_voice_state_keeps_the_cache_consistent,
    caching_an_emoji_keeps_the_cache_consistent,
    caching_emojis_keeps_the_cache_consistent,
    caching_guild_channels_keeps_the_cache_consistent,
    caching_members_keeps_the_cache_consistent,
    caching_presences_keeps_the_cache_consistent,
    caching_roles_keeps_the_cache_consistent,
    caching_the_current_user_keeps_the_cache_consistent,
    caching_voice_states_keeps_the_cache_consistent,
    deleting_a_group_keeps_the_cache_consistent,
    deleting_a_guild_channel_keeps_the_cache_consistent,
    deleting_a_role_keeps_the_cache_consistent,
};
use crate::error::InMemoryCacheError;
use crate::folds::{lemma_fold_step, lemma_image_step};
use crate::frames::parts_of_a_guild_leave_guilds_and_voice_states_alone;
use crate::model::cached::{
    lemma_lists_only_values, CachedEmoji, CachedGuild, CachedMember, CachedMessage,
    CachedPresence, GuildParts,
};
use crate::model::channel::{Group, GuildChannel, PrivateChannel};
use crate::model::guild::{Emoji, Guild, Member, Role};
use crate::model::id::{ChannelId, EmojiId, GuildId, MessageId, RoleId, UserId};
use crate::model::presence::{presence_user_id, Presence};
use crate::model::user::{CurrentUser, User};
use crate::model::voice::VoiceState;
use crate::state::{
    guild_number, lookup, lookup_data, lookup_in, upsert, upsert_in_guild, voice_states_with,
    CacheState, GuildItem,
};
use crate::tables;
use crate::tables::{Table, Tables};
use crate::update::UpdateCache;
use dashmap::{DashMap, DashSet};
use std::collections::hash_map::RandomState;
use std::collections::{BTreeMap, HashMap, HashSet};
use std::hash::Hash;
use std::sync::Arc;
use vstd::prelude::*;
use vstd::std_specs::cmp::PartialEqSpec;

verus! {

/// An in-memory cache of Discord data, for use by the current process.
///
/// What is read from the cache is behind an `Arc`, and does not change. Whoever
/// holds it while the cache is updated holds what is then outdated, but still
/// exists. Data is meant to be held for as long as its state at one point in time
/// is needed, and to be read again after that.
///
/// The last message id of a channel is not kept up to date as messages come in.
#[derive(Debug)]
pub struct InMemoryCache {
    config: InMemoryConfig,
    current_user: Option<Arc<CurrentUser>>,
    tables: Tables,
    unavailable_guilds: DashSet<u64, RandomState>,
}

/// The contents of a table of sets.
spec fn id_sets(entries: Map<u64, HashSet<u64>>) -> Map<u64, Set<u64>> {
    entries.map_values(|set: HashSet<u64>| set@)
}

impl View for InMemoryCache {
    type V = CacheState;

    /// What the cache holds.
    closed spec fn view(&self) -> CacheState {
        CacheState {
            config: self.config,
            channels_guild: self.tables.channels_guild.entries(),
            channels_private: self.tables.channels_private.entries(),
            current_user: self.current_user,
            emojis: self.tables.emojis.entries(),
            groups: self.tables.groups.entries(),
            guilds: self.tables.guilds.entries(),
            guild_channels: id_sets(self.tables.guild_channels.entries()),
            guild_emojis: id_sets(self.tables.guild_emojis.entries()),
            guild_members: id_sets(self.tables.guild_members.entries()),
            guild_presences: id_sets(self.tables.guild_presences.entries()),
            guild_roles: id_sets(self.tables.guild_roles.entries()),
            guild_voice_states: self.tables.guild_voice_states.entries().map_values(
                |states: HashMap<u64, Arc<VoiceState>>| states@,
            ),
            members: self.tables.members.entries(),
            messages: self.tables.messages.entries().map_values(
                |messages: BTreeMap<u64, Arc<CachedMessage>>| messages@,
            ),
            presences: self.tables.presences.entries(),
            roles: self.tables.roles.entries(),
            unavailable_guilds: tables::id_elements(self.unavailable_guilds),
            users: self.tables.users.entries(),
        }
    }
}

/// The value under `key`, if there is one, shared with the table.
fn shared<K: Eq + Hash, V>(map: &DashMap<K, Arc<V>, RandomState>, key: K) -> (found: Option<
    Arc<V>,
>) where DashMap<K, Arc<V>, RandomState>: Table<K, Arc<V>>
    ensures
        found == lookup(map.entries(), key),
{
    tables::get(
        map,
        key,
        |held: &Arc<V>| -> (value: Arc<V>)
            ensures
                value == *held
            { Arc::clone(held) },
    )
}

/// The data under `key`, if there is any, shared with the table.
fn shared_data<V>(map: &DashMap<u64, GuildItem<V>, RandomState>, key: u64) -> (found: Option<
    Arc<V>,
>) where DashMap<u64, GuildItem<V>, RandomState>: Table<u64, GuildItem<V>>
    ensures
        found == lookup_data(map.entries(), key),
{
    tables::get(
        map,
        key,
        |item: &GuildItem<V>| -> (data: Arc<V>)
            ensures
                data == item.data
            { Arc::clone(&item.data) },
    )
}

/// Puts `v` under `k`, unless what is there equals it. Returns what is there in
/// the end.
fn upsert_item<V: PartialEq>(map: &mut DashMap<u64, Arc<V>, RandomState>, k: u64, v: V) -> (held:
    Arc<V>) where DashMap<u64, Arc<V>, RandomState>: Table<u64, Arc<V>>
    requires
        V::obeys_eq_spec(),
    ensures
        final(map).entries() == upsert(old(map).entries(), k, v),
        held == final(map).entries()[k],
{
    let held = tables::get(
        map,
        k,
        |held: &Arc<V>| -> (same: Option<Arc<V>>)
            ensures
                same == (if (**held).eq_spec(&v) {
                    Some(*held)
                } else {
                    None
                })
            {
                if **held == v {
                    Some(Arc::clone(held))
                } else {
                    None
                }
            },
    );
    match held {
        Some(Some(held)) => held,
        _ => {
            let v = Arc::new(v);
            tables::insert(map, k, Arc::clone(&v));
            v
        },
    }
}

/// Puts `v`, of the guild `guild_id`, under `k`, unless the data of what is
/// there equals it. Returns the data that is there in the end.
fn upsert_guild_item<V: PartialEq>(
    map: &mut DashMap<u64, GuildItem<V>, RandomState>,
    guild_id: GuildId,
    k: u64,
    v: V,
) -> (held: Arc<V>) where DashMap<u64, GuildItem<V>, RandomState>: Table<u64, GuildItem<V>>
    requires
        V::obeys_eq_spec(),
    ensures
        final(map).entries() == upsert_in_guild(old(map).entries(), guild_id, k, v),
        held == final(map).entries()[k].data,
{
    let held = tables::get(
        map,
        k,
        |item: &GuildItem<V>| -> (same: Option<Arc<V>>)
            ensures
                same == (if (*item.data).eq_spec(&v) {
                    Some(item.data)
                } else {
                    None
                })
            {
                if *item.data == v {
                    Some(Arc::clone(&item.data))
                } else {
                    None
                }
            },
    );
    match held {
        Some(Some(held)) => held,
        _ => {
            let data = Arc::new(v);
            tables::insert(map, k, GuildItem { data: Arc::clone(&data), guild_id });
            data
        },
    }
}

/// Puts `vs` among the voice states of a guild, by its user, and returns it as
/// it is held; takes out what is there of that user if `vs` names no channel.
fn put_voice_state(states: &mut HashMap<u64, Arc<VoiceState>>, vs: VoiceState) -> (held: Option<
    Arc<VoiceState>,
>)
    ensures
        final(states)@ == voice_states_with(old(states)@, vs),
        held == lookup(final(states)@, vs.user_id.0),
{
    let user_id = vs.user_id.0;
    if vs.channel_id.is_none() {
        // The user has left their voice channel. Their last state would only
        // grow stale in the cache.
        states.remove(&user_id);
        return None;
    }
    if let Some(held) = states.get(&user_id) {
        if **held == vs {
            return Some(Arc::clone(held));
        }
    }
    let state = Arc::new(vs);
    states.insert(user_id, Arc::clone(&state));
    Some(state)
}

/// `Arc::get_mut`: a reference to what is shared, through which it can be
/// changed in place, if there is no other pointer to it; `None`, and no change,
/// if there is one. Whether there is one is left open.
#[verifier::external_body]
fn unshared<T>(shared: &mut Arc<T>) -> (found: Option<&mut T>)
    ensures
        match found {
            Some(value) => *value == **old(shared) && **final(shared) == *final(value),
            None => *final(shared) == *old(shared),
        },
{
    Arc::get_mut(shared)
}

impl InMemoryCache {
    /// Creates a new, empty cache. To choose its configuration, use `from`.
    pub fn new() -> (cache: InMemoryCache)
        ensures
            cache@ == CacheState::empty(InMemoryConfig { message_cache_size: 100 }),
            cache@.consistent(),
    {
        Self::default()
    }

    /// Returns a copy of the configuration of the cache.
    pub fn config(&self) -> (config: InMemoryConfig)
        ensures
            config == self@.config,
    {
        self.config
    }

    /// Updates the cache by an event.
    pub fn update<T: UpdateCache>(&mut self, value: &T) -> (done: Result<(), InMemoryCacheError>)
        requires
            value.can_update(old(self)@),
        ensures
            value.updates(old(self)@, final(self)@, done),
    {
        value.update(self)
    }

    /// Gets a channel of a guild by its id.
    pub fn guild_channel(&self, channel_id: ChannelId) -> (found: Result<
        Option<Arc<GuildChannel>>,
        InMemoryCacheError,
    >)
        ensures
            found == Ok::<_, InMemoryCacheError>(
                lookup_data(self@.channels_guild, channel_id.0),
            ),
    {
        Ok(shared_data(&self.tables.channels_guild, channel_id.0))
    }

    /// Gets the current user.
    pub fn current_user(&self) -> (found: Result<Option<Arc<CurrentUser>>, InMemoryCacheError>)
        ensures
            found == Ok::<_, InMemoryCacheError>(self@.current_user),
    {
        match &self.current_user {
            Some(user) => Ok(Some(Arc::clone(user))),
            None => Ok(None),
        }
    }

    /// Gets an emoji by its id.
    pub fn emoji(&self, emoji_id: EmojiId) -> (found: Result<
        Option<Arc<CachedEmoji>>,
        InMemoryCacheError,
    >)
        ensures
            found == Ok::<_, InMemoryCacheError>(lookup_data(self@.emojis, emoji_id.0)),
    {
        Ok(shared_data(&self.tables.emojis, emoji_id.0))
    }

    /// Gets a group by its id.
    pub fn group(&self, channel_id: ChannelId) -> (found: Result<
        Option<Arc<Group>>,
        InMemoryCacheError,
    >)
        ensures
            found == Ok::<_, InMemoryCacheError>(lookup(self@.groups, channel_id.0)),
    {
        Ok(shared(&self.tables.groups, channel_id.0))
    }

    /// Gets a guild by its id.
    pub fn guild(&self, guild_id: GuildId) -> (found: Result<
        Option<Arc<CachedGuild>>,
        InMemoryCacheError,
    >)
        ensures
            found == Ok::<_, InMemoryCacheError>(lookup(self@.guilds, guild_id.0)),
    {
        Ok(shared(&self.tables.guilds, guild_id.0))
    }

    /// Gets a member by the ids of the guild and of the user.
    pub fn member(&self, guild_id: GuildId, user_id: UserId) -> (found: Result<
        Option<Arc<CachedMember>>,
        InMemoryCacheError,
    >)
        ensures
            found == Ok::<_, InMemoryCacheError>(
                lookup(self@.members, (guild_id.0, user_id.0)),
            ),
    {
        Ok(shared(&self.tables.members, (guild_id.0, user_id.0)))
    }

    /// Gets a message by its id and that of its channel.
    pub fn message(&self, channel_id: ChannelId, message_id: MessageId) -> (found: Result<
        Option<Arc<CachedMessage>>,
        InMemoryCacheError,
    >)
        ensures
            found == Ok::<_, InMemoryCacheError>(
                lookup_in(self@.messages, channel_id.0, message_id.0),
            ),
    {
        let found = tables::get(
            &self.tables.messages,
            channel_id.0,
            |messages: &BTreeMap<u64, Arc<CachedMessage>>| -> (found: Option<Arc<CachedMessage>>)
                ensures
                    found == lookup(messages@, message_id.0)
                {
                    match messages.get(&message_id.0) {
                        Some(message) => Some(Arc::clone(message)),
                        None => None,
                    }
                },
        );
        match found {
            Some(found) => Ok(found),
            None => Ok(None),
        }
    }

    /// Gets a presence by the id of the guild, if it is in one, and that of the
    /// user.
    pub fn presence(&self, guild_id: Option<GuildId>, user_id: UserId) -> (found: Result<
        Option<Arc<CachedPresence>>,
        InMemoryCacheError,
    >)
        ensures
            found == Ok::<_, InMemoryCacheError>(
                lookup(self@.presences, (guild_number(guild_id), user_id.0)),
            ),
    {
        let guild_id = match guild_id {
            Some(id) => Some(id.0),
            None => None,
        };
        Ok(shared(&self.tables.presences, (guild_id, user_id.0)))
    }

    /// Gets a private channel by its id.
    pub fn private_channel(&self, channel_id: ChannelId) -> (found: Result<
        Option<Arc<PrivateChannel>>,
        InMemoryCacheError,
    >)
        ensures
            found == Ok::<_, InMemoryCacheError>(lookup(self@.channels_private, channel_id.0)),
    {
        Ok(shared(&self.tables.channels_private, channel_id.0))
    }

    /// Gets a role by its id.
    pub fn role(&self, role_id: RoleId) -> (found: Result<
        Option<Arc<Role>>,
        InMemoryCacheError,
    >)
        ensures
            found == Ok::<_, InMemoryCacheError>(lookup_data(self@.roles, role_id.0)),
    {
        Ok(shared_data(&self.tables.roles, role_id.0))
    }

    /// Gets a user by their id.
    pub fn user(&self, user_id: UserId) -> (found: Result<
        Option<Arc<User>>,
        InMemoryCacheError,
    >)
        ensures
            found == Ok::<_, InMemoryCacheError>(lookup(self@.users, user_id.0)),
    {
        Ok(shared(&self.tables.users, user_id.0))
    }

    /// Gets a voice state by the ids of the user and of the guild.
    pub fn voice_state(&self, user_id: UserId, guild_id: GuildId) -> (found: Result<
        Option<Arc<VoiceState>>,
        InMemoryCacheError,
    >)
        ensures
            found == Ok::<_, InMemoryCacheError>(
                lookup_in(self@.guild_voice_states, guild_id.0, user_id.0),
            ),
    {
        let found = tables::get(
            &self.tables.guild_voice_states,
            guild_id.0,
            |states: &HashMap<u64, Arc<VoiceState>>| -> (found: Option<Arc<VoiceState>>)
                ensures
                    found == lookup(states@, user_id.0)
                {
                    match states.get(&user_id.0) {
                        Some(vs) => Some(Arc::clone(vs)),
                        None => None,
                    }
                },
        );
        match found {
            Some(found) => Ok(found),
            None => Ok(None),
        }
    }

    /// Whether the voice states of the guild `guild_id` have a place in the
    /// cache: a voice state that names a guild can be cached only then.
    pub fn has_place_for_voice_states(&self, guild_id: GuildId) -> (has: bool)
        ensures
            has == self@.guild_voice_states.contains_key(guild_id.0),
    {
        let found = tables::get(
            &self.tables.guild_voice_states,
            guild_id.0,
            |states: &HashMap<u64, Arc<VoiceState>>| -> (seen: bool) { true },
        );
        found.is_some()
    }

    /// Clears the entire state of the cache. This is equal to creating a new,
    /// empty cache with the same configuration.
    pub fn clear(&mut self) -> (done: Result<(), InMemoryCacheError>)
        ensures
            done == Ok::<(), InMemoryCacheError>(()),
            final(self)@ == CacheState::empty(old(self)@.config),
            final(self)@.consistent(),
    {
        proof {
            a_new_cache_is_consistent(self@.config);
        }
        tables::clear(&mut self.tables.channels_guild);
        tables::clear(&mut self.tables.channels_private);
        self.current_user = None;
        tables::clear(&mut self.tables.emojis);
        tables::clear(&mut self.tables.groups);
        tables::clear(&mut self.tables.guilds);
        tables::clear(&mut self.tables.guild_channels);
        tables::clear(&mut self.tables.guild_emojis);
        tables::clear(&mut self.tables.guild_members);
        tables::clear(&mut self.tables.guild_presences);
        tables::clear(&mut self.tables.guild_roles);
        tables::clear(&mut self.tables.guild_voice_states);
        tables::clear(&mut self.tables.members);
        tables::clear(&mut self.tables.messages);
        tables::clear(&mut self.tables.presences);
        tables::clear(&mut self.tables.roles);
        tables::clear(&mut self.tables.users);
        tables::set_clear(&mut self.unavailable_guilds);
        assert(self@ =~= CacheState::empty(old(self)@.config));
        Ok(())
    }

    /// Caches the current user. Whoever holds the one cached before keeps them
    /// as they were.
    pub fn cache_current_user(&mut self, current_user: CurrentUser)
        ensures
            final(self)@ == old(self)@.with_current_user(current_user),
            old(self)@.consistent() ==> final(self)@.consistent(),
    {
        proof {
            if self@.consistent() {
                caching_the_current_user_keeps_the_cache_consistent(self@, current_user);
            }
        }
        if let Some(held) = &mut self.current_user {
            if let Some(user) = unshared(held) {
                *user = current_user;
                return;
            }
        }
        self.current_user = Some(Arc::new(current_user));
    }

    /// Caches a user, and returns them as they are held.
    pub fn cache_user(&mut self, user: User) -> (held: Arc<User>)
        ensures
            final(self)@ == old(self)@.with_user(user),
            old(self)@.consistent() ==> final(self)@.consistent(),
            held == final(self)@.users[user.id.0],
    {
        proof {
            if self@.consistent() {
                caching_a_user_keeps_the_cache_consistent(self@, user);
            }
        }
        let id = user.id;
        upsert_item(&mut self.tables.users, id.0, user)
    }

    /// Caches a channel of a guild. Whatever guild the channel named, it names
    /// this one afterwards. Returns the channel as it is held.
    pub fn cache_guild_channel(&mut self, guild_id: GuildId, channel: GuildChannel) -> (held: Arc<
        GuildChannel,
    >)
        ensures
            final(self)@ == old(self)@.with_guild_channel(guild_id, channel),
            old(self)@.consistent() ==> final(self)@.consistent(),
            held == final(self)@.channels_guild[channel.spec_id().0].data,
    {
        proof {
            if self@.consistent() {
                caching_a_guild_channel_keeps_the_cache_consistent(self@, guild_id, channel);
            }
        }
        let mut channel = channel;
        match &mut channel {
            GuildChannel::Category(c) => {
                c.guild_id = Some(guild_id);
            },
            GuildChannel::Text(c) => {
                c.guild_id = Some(guild_id);
            },
            GuildChannel::Voice(c) => {
                c.guild_id = Some(guild_id);
            },
        }
        let id = channel.id().0;
        tables::or_default(
            &mut self.tables.guild_channels,
            guild_id.0,
            |ids: &mut HashSet<u64>| -> (new: bool)
                ensures
                    final(ids)@ == old(ids)@.insert(id)
                { ids.insert(id) },
        );
        let held = upsert_guild_item(&mut self.tables.channels_guild, guild_id, id, channel);
        assert(self@ =~= old(self)@.with_guild_channel(guild_id, channel));
        held
    }

    /// Caches a group, and returns it as it is held.
    pub fn cache_group(&mut self, group: Group) -> (held: Arc<Group>)
        ensures
            final(self)@ == old(self)@.with_group(group),
            old(self)@.consistent() ==> final(self)@.consistent(),
            held == final(self)@.groups[group.id.0],
    {
        proof {
            if self@.consistent() {
                caching_a_group_keeps_the_cache_consistent(self@, group);
            }
        }
        let id = group.id;
        upsert_item(&mut self.tables.groups, id.0, group)
    }

    /// Caches a private channel, and returns it as it is held.
    pub fn cache_private_channel(&mut self, private_channel: PrivateChannel) -> (held: Arc<
        PrivateChannel,
    >)
        ensures
            final(self)@ == old(self)@.with_private_channel(private_channel),
            old(self)@.consistent() ==> final(self)@.consistent(),
            held == final(self)@.channels_private[private_channel.id.0],
    {
        proof {
            if self@.consistent() {
                caching_a_private_channel_keeps_the_cache_consistent(self@, private_channel);
            }
        }
        let id = private_channel.id;
        upsert_item(&mut self.tables.channels_private, id.0, private_channel)
    }

    /// Caches a role of a guild, and returns it as it is held.
    pub fn cache_role(&mut self, guild_id: GuildId, role: Role) -> (held: Arc<Role>)
        ensures
            final(self)@ == old(self)@.with_role(guild_id, role),
            old(self)@.consistent() ==> final(self)@.consistent(),
            held == final(self)@.roles[role.id.0].data,
    {
        proof {
            if self@.consistent() {
                caching_a_role_keeps_the_cache_consistent(self@, guild_id, role);
            }
        }
        let id = role.id;
        upsert_guild_item(&mut self.tables.roles, guild_id, id.0, role)
    }

    /// Caches an emoji of a guild, and whoever created it if the emoji says who
    /// that is. Returns the emoji as it is held.
    pub fn cache_emoji(&mut self, guild_id: GuildId, emoji: Emoji) -> (held: Arc<CachedEmoji>)
        ensures
            final(self)@ == old(self)@.with_emoji(guild_id, emoji),
            old(self)@.consistent() ==> final(self)@.consistent(),
            held == final(self)@.emojis[emoji.id.0].data,
    {
        proof {
            if self@.consistent() {
                caching_an_emoji_keeps_the_cache_consistent(self@, guild_id, emoji);
            }
        }
        let same = tables::get(
            &self.tables.emojis,
            emoji.id.0,
            |item: &GuildItem<CachedEmoji>| -> (same: Option<Arc<CachedEmoji>>)
                ensures
                    same == (if (*item.data).eq_spec(&emoji) {
                        Some(item.data)
                    } else {
                        None
                    })
                {
                    if *item.data == emoji {
                        Some(Arc::clone(&item.data))
                    } else {
                        None
                    }
                },
        );
        if let Some(Some(data)) = same {
            return data;
        }
        let user = match emoji.user {
            Some(user) => Some(self.cache_user(user)),
            None => None,
        };
        let cached = Arc::new(
            CachedEmoji {
                id: emoji.id,
                animated: emoji.animated,
                name: emoji.name,
                managed: emoji.managed,
                require_colons: emoji.require_colons,
                roles: emoji.roles,
                user,
                available: emoji.available,
            },
        );
        tables::insert(
            &mut self.tables.emojis,
            cached.id.0,
            GuildItem { data: Arc::clone(&cached), guild_id },
        );
        cached
    }

    /// Caches a member of a guild, and their user. Returns the member as they
    /// are held.
    pub fn cache_member(&mut self, guild_id: GuildId, member: Member) -> (held: Arc<CachedMember>)
        ensures
            final(self)@ == old(self)@.with_member(guild_id, member),
            old(self)@.consistent() ==> final(self)@.consistent(),
            held == final(self)@.members[(guild_id.0, member.user.id.0)],
    {
        proof {
            if self@.consistent() {
                caching_a_member_keeps_the_cache_consistent(self@, guild_id, member);
            }
        }
        let key = (guild_id.0, member.user.id.0);
        let same = tables::get(
            &self.tables.members,
            key,
            |held: &Arc<CachedMember>| -> (same: Option<Arc<CachedMember>>)
                ensures
                    same == (if (**held).eq_spec(&member) {
                        Some(*held)
                    } else {
                        None
                    })
                {
                    if **held == member {
                        Some(Arc::clone(held))
                    } else {
                        None
                    }
                },
        );
        if let Some(Some(held)) = same {
            return held;
        }
        let user = self.cache_user(member.user);
        let cached = Arc::new(
            CachedMember {
                deaf: member.deaf,
                guild_id,
                joined_at: member.joined_at,
                mute: member.mute,
                nick: member.nick,
                premium_since: member.premium_since,
                roles: member.roles,
                user,
            },
        );
        tables::insert(&mut self.tables.members, key, Arc::clone(&cached));
        cached
    }

    /// Caches a presence, in a guild or outside of any, and returns it as it is
    /// held.
    pub fn cache_presence(&mut self, guild_id: Option<GuildId>, presence: Presence) -> (held: Arc<
        CachedPresence,
    >)
        ensures
            final(self)@ == old(self)@.with_presence(guild_id, presence),
            old(self)@.consistent() ==> final(self)@.consistent(),
            held == final(self)@.presences[(guild_number(guild_id), presence.user.spec_id().0)],
    {
        proof {
            if self@.consistent() {
                caching_a_presence_keeps_the_cache_consistent(self@, guild_id, presence);
            }
        }
        let guild_id = match guild_id {
            Some(id) => Some(id.0),
            None => None,
        };
        let key = (guild_id, presence_user_id(&presence).0);
        let same = tables::get(
            &self.tables.presences,
            key,
            |held: &Arc<CachedPresence>| -> (same: Option<Arc<CachedPresence>>)
                ensures
                    same == (if (**held).eq_spec(&presence) {
                        Some(*held)
                    } else {
                        None
                    })
                {
                    if **held == presence {
                        Some(Arc::clone(held))
                    } else {
                        None
                    }
                },
        );
        if let Some(Some(held)) = same {
            return held;
        }
        let cached = Arc::new(CachedPresence::from(presence));
        tables::insert(&mut self.tables.presences, key, Arc::clone(&cached));
        cached
    }

    /// Caches a voice state, and returns it as it is held. A voice state that
    /// names no guild is not cached. One that names no channel says that the
    /// user has left: what is cached of that user in the guild is taken out.
    fn cache_voice_state(&mut self, vs: VoiceState) -> (held: Option<Arc<VoiceState>>)
        requires
            old(self)@.knows_guild_of(vs),
        ensures
            final(self)@ == old(self)@.with_voice_state(vs),
            old(self)@.consistent() ==> final(self)@.consistent(),
            held == (match vs.guild_id {
                Some(guild_id) => lookup_in(
                    final(self)@.guild_voice_states,
                    guild_id.0,
                    vs.user_id.0,
                ),
                None => None,
            }),
    {
        proof {
            if self@.consistent() {
                caching_a_voice_state_keeps_the_cache_consistent(self@, vs);
            }
        }
        let guild_id = match vs.guild_id {
            Some(id) => id,
            None => return None,
        };
        let held = tables::get_mut(
            &mut self.tables.guild_voice_states,
            guild_id.0,
            |states: &mut HashMap<u64, Arc<VoiceState>>| -> (held: Option<Arc<VoiceState>>)
                ensures
                    final(states)@ == voice_states_with(old(states)@, vs),
                    held == lookup(final(states)@, vs.user_id.0)
                { put_voice_state(states, vs) },
        );
        assert(self@ =~= old(self)@.with_voice_state(vs));
        match held {
            Some(held) => held,
            None => None,
        }
    }

    /// Caches channels of a guild, in order, and returns their ids.
    pub fn cache_guild_channels(
        &mut self,
        guild_id: GuildId,
        channels: Vec<GuildChannel>,
    ) -> (ids: HashSet<u64>)
        ensures
            final(self)@ == old(self)@.with_guild_channels(guild_id, channels@),
            old(self)@.consistent() ==> final(self)@.consistent(),
            ids@ == channels@.map_values(|channel: GuildChannel| channel.spec_id().0).to_set(),
    {
        proof {
            if self@.consistent() {
                caching_guild_channels_keeps_the_cache_consistent(self@, guild_id, channels@);
            }
        }
        let ghost all = channels@;
        let mut ids: HashSet<u64> = HashSet::new();
        for channel in it: channels
            invariant
                self@ == old(self)@.with_guild_channels(guild_id, it.seq().take(it.index())),
                ids@ == it.seq().take(it.index()).map_values(
                    |channel: GuildChannel| channel.spec_id().0,
                ).to_set(),
        {
            proof {
                lemma_fold_step(
                    it.seq(),
                    it.index(),
                    old(self)@,
                    |s: CacheState, channel: GuildChannel| s.with_guild_channel(guild_id, channel),
                );
                lemma_image_step(it.seq(), it.index(), |channel: GuildChannel| channel.spec_id().0);
            }
            ids.insert(channel.id().0);
            self.cache_guild_channel(guild_id, channel);
        }
        assert(all.take(all.len() as int) =~= all);
        ids
    }

    /// Caches emojis of a guild, in order, and returns their ids.
    pub fn cache_emojis(&mut self, guild_id: GuildId, emojis: Vec<Emoji>) -> (ids: HashSet<u64>)
        ensures
            final(self)@ == old(self)@.with_emojis(guild_id, emojis@),
            old(self)@.consistent() ==> final(self)@.consistent(),
            ids@ == emojis@.map_values(|emoji: Emoji| emoji.id.0).to_set(),
    {
        proof {
            if self@.consistent() {
                caching_emojis_keeps_the_cache_consistent(self@, guild_id, emojis@);
            }
        }
        let ghost all = emojis@;
        let mut ids: HashSet<u64> = HashSet::new();
        for emoji in it: emojis
            invariant
                self@ == old(self)@.with_emojis(guild_id, it.seq().take(it.index())),
                ids@ == it.seq().take(it.index()).map_values(
                    |emoji: Emoji| emoji.id.0,
                ).to_set(),
        {
            proof {
                lemma_fold_step(
                    it.seq(),
                    it.index(),
                    old(self)@,
                    |s: CacheState, emoji: Emoji| s.with_emoji(guild_id, emoji),
                );
                lemma_image_step(it.seq(), it.index(), |emoji: Emoji| emoji.id.0);
            }
            ids.insert(emoji.id.0);
            self.cache_emoji(guild_id, emoji);
        }
        assert(all.take(all.len() as int) =~= all);
        ids
    }

    /// Caches members of a guild, in order, and returns the ids of their users.
    pub fn cache_members(&mut self, guild_id: GuildId, members: Vec<Member>) -> (ids: HashSet<u64>)
        ensures
            final(self)@ == old(self)@.with_members(guild_id, members@),
            old(self)@.consistent() ==> final(self)@.consistent(),
            ids@ == members@.map_values(|member: Member| member.user.id.0).to_set(),
    {
        proof {
            if self@.consistent() {
                caching_members_keeps_the_cache_consistent(self@, guild_id, members@);
            }
        }
        let ghost all = members@;
        let mut ids: HashSet<u64> = HashSet::new();
        for member in it: members
            invariant
                self@ == old(self)@.with_members(guild_id, it.seq().take(it.index())),
                ids@ == it.seq().take(it.index()).map_values(
                    |member: Member| member.user.id.0,
                ).to_set(),
        {
            proof {
                lemma_fold_step(
                    it.seq(),
                    it.index(),
                    old(self)@,
                    |s: CacheState, member: Member| s.with_member(guild_id, member),
                );
                lemma_image_step(it.seq(), it.index(), |member: Member| member.user.id.0);
            }
            ids.insert(member.user.id.0);
            self.cache_member(guild_id, member);
        }
        assert(all.take(all.len() as int) =~= all);
        ids
    }

    /// Caches presences, in a guild or outside of any, in order, and returns
    /// the ids of their users.
    pub fn cache_presences(
        &mut self,
        guild_id: Option<GuildId>,
        presences: Vec<Presence>,
    ) -> (ids: HashSet<u64>)
        ensures
            final(self)@ == old(self)@.with_presences(guild_id, presences@),
            old(self)@.consistent() ==> final(self)@.consistent(),
            ids@ == presences@.map_values(|presence: Presence| presence.user.spec_id().0).to_set(),
    {
        proof {
            if self@.consistent() {
                caching_presences_keeps_the_cache_consistent(self@, guild_id, presences@);
            }
        }
        let ghost all = presences@;
        let mut ids: HashSet<u64> = HashSet::new();
        for presence in it: presences
            invariant
                self@ == old(self)@.with_presences(guild_id, it.seq().take(it.index())),
                ids@ == it.seq().take(it.index()).map_values(
                    |presence: Presence| presence.user.spec_id().0,
                ).to_set(),
        {
            proof {
                lemma_fold_step(
                    it.seq(),
                    it.index(),
                    old(self)@,
                    |s: CacheState, presence: Presence| s.with_presence(guild_id, presence),
                );
                lemma_image_step(
                    it.seq(),
                    it.index(),
                    |presence: Presence| presence.user.spec_id().0,
                );
            }
            ids.insert(presence_user_id(&presence).0);
            self.cache_presence(guild_id, presence);
        }
        assert(all.take(all.len() as int) =~= all);
        ids
    }

    /// Caches roles of a guild, in order, and returns their ids.
    pub fn cache_roles(&mut self, guild_id: GuildId, roles: Vec<Role>) -> (ids: HashSet<u64>)
        ensures
            final(self)@ == old(self)@.with_roles(guild_id, roles@),
            old(self)@.consistent() ==> final(self)@.consistent(),
            ids@ == roles@.map_values(|role: Role| role.id.0).to_set(),
    {
        proof {
            if self@.consistent() {
                caching_roles_keeps_the_cache_consistent(self@, guild_id, roles@);
            }
        }
        let ghost all = roles@;
        let mut ids: HashSet<u64> = HashSet::new();
        for role in it: roles
            invariant
                self@ == old(self)@.with_roles(guild_id, it.seq().take(it.index())),
                ids@ == it.seq().take(it.index()).map_values(
                    |role: Role| role.id.0,
                ).to_set(),
        {
            proof {
                lemma_fold_step(
                    it.seq(),
                    it.index(),
                    old(self)@,
                    |s: CacheState, role: Role| s.with_role(guild_id, role),
                );
                lemma_image_step(it.seq(), it.index(), |role: Role| role.id.0);
            }
            ids.insert(role.id.0);
            self.cache_role(guild_id, role);
        }
        assert(all.take(all.len() as int) =~= all);
        ids
    }

    /// Caches voice states, in order, and returns the ids of their users. The
    /// guild of each, if it names one, must have a place for voice states.
    pub fn cache_voice_states(&mut self, voice_states: Vec<VoiceState>) -> (ids: HashSet<u64>)
        requires
            forall|i: int|
                0 <= i < voice_states.len() ==> old(self)@.knows_guild_of(
                    #[trigger] voice_states@[i],
                ),
        ensures
            final(self)@ == old(self)@.with_voice_states(voice_states@),
            old(self)@.consistent() ==> final(self)@.consistent(),
            ids@ == voice_states@.map_values(|vs: VoiceState| vs.user_id.0).to_set(),
    {
        proof {
            if self@.consistent() {
                caching_voice_states_keeps_the_cache_consistent(self@, voice_states@);
            }
        }
        let ghost all = voice_states@;
        let mut ids: HashSet<u64> = HashSet::new();
        for vs in it: voice_states
            invariant
                self@ == old(self)@.with_voice_states(it.seq().take(it.index())),
                ids@ == it.seq().take(it.index()).map_values(
                    |vs: VoiceState| vs.user_id.0,
                ).to_set(),
                self@.guild_voice_states.dom() == old(self)@.guild_voice_states.dom(),
                forall|i: int|
                    0 <= i < it.seq().len() ==> old(self)@.knows_guild_of(#[trigger] it.seq()[i]),
        {
            proof {
                lemma_fold_step(
                    it.seq(),
                    it.index(),
                    old(self)@,
                    |s: CacheState, vs: VoiceState| s.with_voice_state(vs),
                );
                lemma_image_step(it.seq(), it.index(), |vs: VoiceState| vs.user_id.0);
            }
            ids.insert(vs.user_id.0);
            self.cache_voice_state(vs);
        }
        assert(all.take(all.len() as int) =~= all);
        ids
    }

    /// Caches a guild and what belongs to it, and notes that it is available.
    ///
    /// What the guild had before in the cache is forgotten first. The channels,
    /// emojis, members, presences, roles and voice states of the guild are then
    /// cached, in this order. Within each sort the order is left open, as it is
    /// that in which a hash map is walked.
    pub fn cache_guild(&mut self, guild: Guild)
        requires
            old(self)@.can_cache_guild(guild),
        ensures
            exists|parts: GuildParts| #[trigger]
                parts.are_of(guild) && final(self)@ == old(self)@.with_guild(parts),
            old(self)@.consistent() ==> final(self)@.consistent(),
    {
        let parts = GuildParts::of(guild);
        proof {
            lemma_lists_only_values(parts.voice_states@, guild.voice_states@);
        }
        self.cache_guild_parts(parts);
    }

    /// Caches a guild, given apart from what belongs to it.
    pub fn cache_guild_parts(&mut self, parts: GuildParts)
        requires
            old(self)@.can_cache_guild_parts(parts),
        ensures
            final(self)@ == old(self)@.with_guild(parts),
            old(self)@.consistent() ==> final(self)@.consistent(),
    {
        proof {
            if self@.consistent() {
                caching_a_guild_keeps_the_cache_consistent(self@, parts);
            }
        }
        let id = parts.guild.id;
        // What belongs to the guild needs a place before it is cached.
        tables::insert(&mut self.tables.guild_channels, id.0, HashSet::new());
        tables::insert(&mut self.tables.guild_emojis, id.0, HashSet::new());
        tables::insert(&mut self.tables.guild_members, id.0, HashSet::new());
        tables::insert(&mut self.tables.guild_presences, id.0, HashSet::new());
        tables::insert(&mut self.tables.guild_roles, id.0, HashSet::new());
        tables::insert(&mut self.tables.guild_voice_states, id.0, HashMap::new());
        assert(self@ =~= old(self)@.with_places_for(id));
        let ghost with_places = self@;

        self.cache_guild_channels(id, parts.channels);
        self.cache_emojis(id, parts.emojis);
        self.cache_members(id, parts.members);
        self.cache_presences(Some(id), parts.presences);
        self.cache_roles(id, parts.roles);
        proof {
            parts_of_a_guild_leave_guilds_and_voice_states_alone(with_places, parts);
        }
        self.cache_voice_states(parts.voice_states);

        tables::set_remove(&mut self.unavailable_guilds, id.0);
        tables::insert(&mut self.tables.guilds, id.0, Arc::new(parts.guild));
    }

    /// Deletes a group, and returns it if there was one.
    pub fn delete_group(&mut self, channel_id: ChannelId) -> (deleted: Option<Arc<Group>>)
        ensures
            final(self)@ == old(self)@.without_group(channel_id),
            old(self)@.consistent() ==> final(self)@.consistent(),
            deleted == lookup(old(self)@.groups, channel_id.0),
    {
        proof {
            if self@.consistent() {
                deleting_a_group_keeps_the_cache_consistent(self@, channel_id);
            }
        }
        match tables::remove(&mut self.tables.groups, channel_id.0) {
            Some((_, group)) => Some(group),
            None => None,
        }
    }

    /// Notes that a guild is unavailable: the guild itself leaves the cache.
    pub fn unavailable_guild(&mut self, guild_id: GuildId)
        ensures
            final(self)@ == old(self)@.with_unavailable_guild(guild_id),
            old(self)@.consistent() ==> final(self)@.consistent(),
    {
        proof {
            if self@.consistent() {
                an_unavailable_guild_keeps_the_cache_consistent(self@, guild_id);
            }
        }
        tables::set_insert(&mut self.unavailable_guilds, guild_id.0);
        tables::remove(&mut self.tables.guilds, guild_id.0);
    }

    /// Deletes a channel of a guild, and returns it if there was one.
    ///
    /// The channel itself and its entry among the channels of its guild are
    /// deleted.
    pub fn delete_guild_channel(&mut self, channel_id: ChannelId) -> (deleted: Option<
        Arc<GuildChannel>,
    >)
        ensures
            final(self)@ == old(self)@.without_guild_channel(channel_id),
            old(self)@.consistent() ==> final(self)@.consistent(),
            deleted == lookup_data(old(self)@.channels_guild, channel_id.0),
    {
        proof {
            if self@.consistent() {
                deleting_a_guild_channel_keeps_the_cache_consistent(self@, channel_id);
            }
        }
        let item = match tables::remove(&mut self.tables.channels_guild, channel_id.0) {
            Some((_, item)) => item,
            None => return None,
        };
        tables::get_mut(
            &mut self.tables.guild_channels,
            item.guild_id.0,
            |ids: &mut HashSet<u64>| -> (was_there: bool)
                ensures
                    final(ids)@ == old(ids)@.remove(channel_id.0)
                { ids.remove(&channel_id.0) },
        );
        assert(self@ =~= old(self)@.without_guild_channel(channel_id));
        Some(item.data)
    }

    /// Deletes a role, and returns it if there was one.
    pub fn delete_role(&mut self, role_id: RoleId) -> (deleted: Option<Arc<Role>>)
        ensures
            final(self)@ == old(self)@.without_role(role_id),
            old(self)@.consistent() ==> final(self)@.consistent(),
            deleted == lookup_data(old(self)@.roles, role_id.0),
    {
        proof {
            if self@.consistent() {
                deleting_a_role_keeps_the_cache_consistent(self@, role_id);
            }
        }
        let item = match tables::remove(&mut self.tables.roles, role_id.0) {
            Some((_, item)) => item,
            None => return None,
        };
        tables::get_mut(
            &mut self.tables.guild_roles,
            item.guild_id.0,
            |ids: &mut HashSet<u64>| -> (was_there: bool)
                ensures
                    final(ids)@ == old(ids)@.remove(role_id.0)
                { ids.remove(&role_id.0) },
        );
        assert(self@ =~= old(self)@.without_role(role_id));
        Some(item.data)
    }
}

impl Default for InMemoryCache {
    fn default() -> (cache: InMemoryCache)
        ensures
            cache@ == CacheState::empty(InMemoryConfig { message_cache_size: 100 }),
            cache@.consistent(),
    {
        Self::from(InMemoryConfig::default())
    }
}

impl vstd::std_specs::convert::FromSpecImpl<InMemoryConfig> for InMemoryCache {
    /// Two caches that hold the same need not be the same value, so what a new
    /// cache holds is said where it is made.
    open spec fn obeys_from_spec() -> bool {
        false
    }

    open spec fn from_spec(config: InMemoryConfig) -> InMemoryCache {
        arbitrary()
    }
}

impl From<InMemoryConfig> for InMemoryCache {
    /// Creates a new, empty cache with the configuration `config`.
    fn from(config: InMemoryConfig) -> (cache: InMemoryCache)
        ensures
            cache@ == CacheState::empty(config),
            cache@.consistent(),
    {
        proof {
            a_new_cache_is_consistent(config);
        }
        let cache = InMemoryCache {
            config,
            current_user: None,
            tables: tables::new_tables(),
            unavailable_guilds: tables::new_set(),
        };
        assert(cache@ =~= CacheState::empty(config));
        cache
    }
}

impl vstd::std_specs::convert::FromSpecImpl<InMemoryConfigBuilder> for InMemoryCache {
    /// As for a configuration.
    open spec fn obeys_from_spec() -> bool {
        false
    }

    open spec fn from_spec(builder: InMemoryConfigBuilder) -> InMemoryCache {
        arbitrary()
    }
}

impl From<InMemoryConfigBuilder> for InMemoryCache {
    /// Creates a new, empty cache with the configuration that `builder` builds.
    fn from(builder: InMemoryConfigBuilder) -> (cache: InMemoryCache)
        ensures
            cache@ == CacheState::empty(builder.0),
            cache@.consistent(),
    {
        Self::from(builder.build())
    }
}

} // verus!
