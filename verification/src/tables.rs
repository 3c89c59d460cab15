//! The tables of the cache: concurrent maps of the crate `dashmap`, and what is
//! taken for granted of them.
//!
//! A table changes only through an exclusive reference here, although `dashmap`
//! itself would allow a shared one. So what a table holds is a function of its
//! value, and has a name: one for each type of table. The functions below say
//! how each operation of `dashmap` changes what a table holds.

use crate::model::cached::{
    CachedEmoji, CachedGuild, CachedMember, CachedMessage, CachedPresence,
};
use crate::model::channel::{Group, GuildChannel, PrivateChannel};
use crate::model::guild::Role;
use crate::model::user::User;
use crate::model::voice::VoiceState;
use crate::state::GuildItem;
use dashmap::{DashMap, DashSet};
use std::collections::hash_map::RandomState;
use std::collections::{BTreeMap, HashMap, HashSet};
use std::hash::Hash;
use std::sync::Arc;
use vstd::prelude::*;

verus! {

/// `dashmap::DashMap`, a concurrent hash map. Nothing is known of its insides.
#[verifier::external_type_specification]
#[verifier::external_body]
#[verifier::reject_recursive_types(K)]
#[verifier::reject_recursive_types(V)]
#[verifier::reject_recursive_types(S)]
pub struct ExDashMap<K, V, S>(DashMap<K, V, S>);

/// `dashmap::DashSet`, a concurrent hash set. Nothing is known of its insides.
#[verifier::external_type_specification]
#[verifier::external_body]
#[verifier::reject_recursive_types(K)]
#[verifier::reject_recursive_types(S)]
pub struct ExDashSet<K, S>(DashSet<K, S>);

/// What a table of guild channels holds.
pub uninterp spec fn guild_channel_entries(
    table: DashMap<u64, GuildItem<GuildChannel>, RandomState>,
) -> Map<u64, GuildItem<GuildChannel>>;

/// What a table of private channels holds.
pub uninterp spec fn private_channel_entries(
    table: DashMap<u64, Arc<PrivateChannel>, RandomState>,
) -> Map<u64, Arc<PrivateChannel>>;

/// What a table of emojis holds.
pub uninterp spec fn emoji_entries(
    table: DashMap<u64, GuildItem<CachedEmoji>, RandomState>,
) -> Map<u64, GuildItem<CachedEmoji>>;

/// What a table of groups holds.
pub uninterp spec fn group_entries(table: DashMap<u64, Arc<Group>, RandomState>) -> Map<
    u64,
    Arc<Group>,
>;

/// What a table of guilds holds.
pub uninterp spec fn guild_entries(table: DashMap<u64, Arc<CachedGuild>, RandomState>) -> Map<
    u64,
    Arc<CachedGuild>,
>;

/// What a table of sets of ids, one set for each guild, holds.
pub uninterp spec fn id_set_entries(table: DashMap<u64, HashSet<u64>, RandomState>) -> Map<
    u64,
    HashSet<u64>,
>;

/// What a table of the voice states of each guild holds.
pub uninterp spec fn voice_state_entries(
    table: DashMap<u64, HashMap<u64, Arc<VoiceState>>, RandomState>,
) -> Map<u64, HashMap<u64, Arc<VoiceState>>>;

/// What a table of members, by guild and user, holds.
pub uninterp spec fn member_entries(
    table: DashMap<(u64, u64), Arc<CachedMember>, RandomState>,
) -> Map<(u64, u64), Arc<CachedMember>>;

/// What a table of the messages of each channel holds.
pub uninterp spec fn message_entries(
    table: DashMap<u64, BTreeMap<u64, Arc<CachedMessage>>, RandomState>,
) -> Map<u64, BTreeMap<u64, Arc<CachedMessage>>>;

/// What a table of presences, by guild, if any, and user, holds.
pub uninterp spec fn presence_entries(
    table: DashMap<(Option<u64>, u64), Arc<CachedPresence>, RandomState>,
) -> Map<(Option<u64>, u64), Arc<CachedPresence>>;

/// What a table of roles holds.
pub uninterp spec fn role_entries(table: DashMap<u64, GuildItem<Role>, RandomState>) -> Map<
    u64,
    GuildItem<Role>,
>;

/// What a table of users holds.
pub uninterp spec fn user_entries(table: DashMap<u64, Arc<User>, RandomState>) -> Map<
    u64,
    Arc<User>,
>;

/// What a set of ids holds.
pub uninterp spec fn id_elements(set: DashSet<u64, RandomState>) -> Set<u64>;

/// A type of table. What a table of it holds is, for each type, what the name
/// of that type says. The keys are integers, and pairs and options of them, so
/// that two keys are equal exactly if they are the same.
pub trait Table<K, V> {
    /// What the table holds.
    spec fn entries(&self) -> Map<K, V>;
}

impl Table<u64, GuildItem<GuildChannel>> for DashMap<u64, GuildItem<GuildChannel>, RandomState> {
    open spec fn entries(&self) -> Map<u64, GuildItem<GuildChannel>> {
        guild_channel_entries(*self)
    }
}

impl Table<u64, Arc<PrivateChannel>> for DashMap<u64, Arc<PrivateChannel>, RandomState> {
    open spec fn entries(&self) -> Map<u64, Arc<PrivateChannel>> {
        private_channel_entries(*self)
    }
}

impl Table<u64, GuildItem<CachedEmoji>> for DashMap<u64, GuildItem<CachedEmoji>, RandomState> {
    open spec fn entries(&self) -> Map<u64, GuildItem<CachedEmoji>> {
        emoji_entries(*self)
    }
}

impl Table<u64, Arc<Group>> for DashMap<u64, Arc<Group>, RandomState> {
    open spec fn entries(&self) -> Map<u64, Arc<Group>> {
        group_entries(*self)
    }
}

impl Table<u64, Arc<CachedGuild>> for DashMap<u64, Arc<CachedGuild>, RandomState> {
    open spec fn entries(&self) -> Map<u64, Arc<CachedGuild>> {
        guild_entries(*self)
    }
}

impl Table<u64, HashSet<u64>> for DashMap<u64, HashSet<u64>, RandomState> {
    open spec fn entries(&self) -> Map<u64, HashSet<u64>> {
        id_set_entries(*self)
    }
}

impl Table<u64, HashMap<u64, Arc<VoiceState>>> for DashMap<
    u64,
    HashMap<u64, Arc<VoiceState>>,
    RandomState,
> {
    open spec fn entries(&self) -> Map<u64, HashMap<u64, Arc<VoiceState>>> {
        voice_state_entries(*self)
    }
}

impl Table<(u64, u64), Arc<CachedMember>> for DashMap<(u64, u64), Arc<CachedMember>, RandomState> {
    open spec fn entries(&self) -> Map<(u64, u64), Arc<CachedMember>> {
        member_entries(*self)
    }
}

impl Table<u64, BTreeMap<u64, Arc<CachedMessage>>> for DashMap<
    u64,
    BTreeMap<u64, Arc<CachedMessage>>,
    RandomState,
> {
    open spec fn entries(&self) -> Map<u64, BTreeMap<u64, Arc<CachedMessage>>> {
        message_entries(*self)
    }
}

impl Table<(Option<u64>, u64), Arc<CachedPresence>> for DashMap<
    (Option<u64>, u64),
    Arc<CachedPresence>,
    RandomState,
> {
    open spec fn entries(&self) -> Map<(Option<u64>, u64), Arc<CachedPresence>> {
        presence_entries(*self)
    }
}

impl Table<u64, GuildItem<Role>> for DashMap<u64, GuildItem<Role>, RandomState> {
    open spec fn entries(&self) -> Map<u64, GuildItem<Role>> {
        role_entries(*self)
    }
}

impl Table<u64, Arc<User>> for DashMap<u64, Arc<User>, RandomState> {
    open spec fn entries(&self) -> Map<u64, Arc<User>> {
        user_entries(*self)
    }
}

/// The tables of a cache.
#[derive(Debug)]
pub struct Tables {
    pub channels_guild: DashMap<u64, GuildItem<GuildChannel>, RandomState>,
    pub channels_private: DashMap<u64, Arc<PrivateChannel>, RandomState>,
    pub emojis: DashMap<u64, GuildItem<CachedEmoji>, RandomState>,
    pub groups: DashMap<u64, Arc<Group>, RandomState>,
    pub guilds: DashMap<u64, Arc<CachedGuild>, RandomState>,
    pub guild_channels: DashMap<u64, HashSet<u64>, RandomState>,
    pub guild_emojis: DashMap<u64, HashSet<u64>, RandomState>,
    pub guild_members: DashMap<u64, HashSet<u64>, RandomState>,
    pub guild_presences: DashMap<u64, HashSet<u64>, RandomState>,
    pub guild_roles: DashMap<u64, HashSet<u64>, RandomState>,
    pub guild_voice_states: DashMap<u64, HashMap<u64, Arc<VoiceState>>, RandomState>,
    pub members: DashMap<(u64, u64), Arc<CachedMember>, RandomState>,
    pub messages: DashMap<u64, BTreeMap<u64, Arc<CachedMessage>>, RandomState>,
    pub presences: DashMap<(Option<u64>, u64), Arc<CachedPresence>, RandomState>,
    pub roles: DashMap<u64, GuildItem<Role>, RandomState>,
    pub users: DashMap<u64, Arc<User>, RandomState>,
}

/// `DashMap::default`: a new table holds nothing. Makes every table of a cache.
#[verifier::external_body]
pub(crate) fn new_tables() -> (tables: Tables)
    ensures
        guild_channel_entries(tables.channels_guild).is_empty(),
        private_channel_entries(tables.channels_private).is_empty(),
        emoji_entries(tables.emojis).is_empty(),
        group_entries(tables.groups).is_empty(),
        guild_entries(tables.guilds).is_empty(),
        id_set_entries(tables.guild_channels).is_empty(),
        id_set_entries(tables.guild_emojis).is_empty(),
        id_set_entries(tables.guild_members).is_empty(),
        id_set_entries(tables.guild_presences).is_empty(),
        id_set_entries(tables.guild_roles).is_empty(),
        voice_state_entries(tables.guild_voice_states).is_empty(),
        member_entries(tables.members).is_empty(),
        message_entries(tables.messages).is_empty(),
        presence_entries(tables.presences).is_empty(),
        role_entries(tables.roles).is_empty(),
        user_entries(tables.users).is_empty(),
{
    Tables {
        channels_guild: DashMap::default(), channels_private: DashMap::default(),
        emojis: DashMap::default(), groups: DashMap::default(), guilds: DashMap::default(),
        guild_channels: DashMap::default(), guild_emojis: DashMap::default(),
        guild_members: DashMap::default(), guild_presences: DashMap::default(),
        guild_roles: DashMap::default(), guild_voice_states: DashMap::default(),
        members: DashMap::default(), messages: DashMap::default(),
        presences: DashMap::default(), roles: DashMap::default(), users: DashMap::default(),
    }
}

/// `DashMap::get`: shows `read` the value under `key`, and returns what `read`
/// makes of it, if the table holds that key; returns `None` if it does not.
#[verifier::external_body]
pub(crate) fn get<K: Eq + Hash, V, R, F: FnOnce(&V) -> R>(
    table: &DashMap<K, V, RandomState>,
    key: K,
    read: F,
) -> (found: Option<R>) where DashMap<K, V, RandomState>: Table<K, V>
    requires
        table.entries().contains_key(key) ==> read.requires((&table.entries()[key],)),
    ensures
        match found {
            Some(r) => table.entries().contains_key(key) && read.ensures(
                (&table.entries()[key],),
                r,
            ),
            None => !table.entries().contains_key(key),
        },
{
    table.get(&key).map(|entry| read(entry.value()))
}

/// `DashMap::get_mut`: hands `change` the value under `key` to change in place,
/// and returns what `change` returns, if the table holds that key; does nothing
/// and returns `None` if it does not.
#[verifier::external_body]
pub(crate) fn get_mut<K: Eq + Hash, V, R, F: FnOnce(&mut V) -> R>(
    table: &mut DashMap<K, V, RandomState>,
    key: K,
    change: F,
) -> (found: Option<R>) where DashMap<K, V, RandomState>: Table<K, V>
    requires
        forall|value: &mut V|
            old(table).entries().contains_key(key) && *value == old(table).entries()[key]
                ==> #[trigger] change.requires((value,)),
    ensures
        match found {
            Some(r) => old(table).entries().contains_key(key) && exists|value: &mut V|
                {
                    &&& *value == old(table).entries()[key]
                    &&& #[trigger] change.ensures((value,), r)
                    &&& final(table).entries() == old(table).entries().insert(key, *final(value))
                },
            None => !old(table).entries().contains_key(key) && final(table).entries() == old(
                table,
            ).entries(),
        },
{
    table.get_mut(&key).map(|mut entry| change(entry.value_mut()))
}

/// `DashMap::entry` and `Entry::or_default`: hands `change` the value under
/// `key` to change in place, after putting a default value there if the table
/// holds none, and returns what `change` returns.
#[verifier::external_body]
pub(crate) fn or_default<K: Eq + Hash, V: Default, R, F: FnOnce(&mut V) -> R>(
    table: &mut DashMap<K, V, RandomState>,
    key: K,
    change: F,
) -> (r: R) where DashMap<K, V, RandomState>: Table<K, V>
    requires
        forall|value: &mut V|
            (if old(table).entries().contains_key(key) {
                *value == old(table).entries()[key]
            } else {
                V::default.ensures((), *value)
            }) ==> #[trigger] change.requires((value,)),
    ensures
        exists|value: &mut V|
            {
                &&& if old(table).entries().contains_key(key) {
                    *value == old(table).entries()[key]
                } else {
                    V::default.ensures((), *value)
                }
                &&& #[trigger] change.ensures((value,), r)
                &&& final(table).entries() == old(table).entries().insert(key, *final(value))
            },
{
    change(table.entry(key).or_default().value_mut())
}

/// `DashMap::insert`: puts `value` under `key`, and returns the value that was
/// there.
#[verifier::external_body]
pub(crate) fn insert<K: Eq + Hash, V>(
    table: &mut DashMap<K, V, RandomState>,
    key: K,
    value: V,
) -> (previous: Option<V>) where DashMap<K, V, RandomState>: Table<K, V>
    ensures
        final(table).entries() == old(table).entries().insert(key, value),
        previous == (if old(table).entries().contains_key(key) {
            Some(old(table).entries()[key])
        } else {
            None
        }),
{
    table.insert(key, value)
}

/// `DashMap::remove`: takes out `key` and what is under it, and returns both.
#[verifier::external_body]
pub(crate) fn remove<K: Eq + Hash, V>(table: &mut DashMap<K, V, RandomState>, key: K) -> (removed:
    Option<(K, V)>) where DashMap<K, V, RandomState>: Table<K, V>
    ensures
        final(table).entries() == old(table).entries().remove(key),
        removed == (if old(table).entries().contains_key(key) {
            Some((key, old(table).entries()[key]))
        } else {
            None
        }),
{
    table.remove(&key)
}

/// `DashMap::clear`: takes everything out.
#[verifier::external_body]
pub(crate) fn clear<K: Eq + Hash, V>(table: &mut DashMap<K, V, RandomState>) where
    DashMap<K, V, RandomState>: Table<K, V>,
    ensures
        final(table).entries().is_empty(),
{
    table.clear()
}

/// `DashSet::default`: a new set holds nothing.
#[verifier::external_body]
pub(crate) fn new_set() -> (set: DashSet<u64, RandomState>)
    ensures
        id_elements(set).is_empty(),
{
    DashSet::default()
}

/// `DashSet::insert`: adds `id`, and says whether it was not there before.
#[verifier::external_body]
pub(crate) fn set_insert(set: &mut DashSet<u64, RandomState>, id: u64) -> (new: bool)
    ensures
        id_elements(*final(set)) == id_elements(*old(set)).insert(id),
        new == !id_elements(*old(set)).contains(id),
{
    set.insert(id)
}

/// `DashSet::remove`: takes out `id`, and returns it if it was there.
#[verifier::external_body]
pub(crate) fn set_remove(set: &mut DashSet<u64, RandomState>, id: u64) -> (removed: Option<u64>)
    ensures
        id_elements(*final(set)) == id_elements(*old(set)).remove(id),
        removed == (if id_elements(*old(set)).contains(id) {
            Some(id)
        } else {
            None
        }),
{
    set.remove(&id)
}

/// `DashSet::clear`: takes everything out.
#[verifier::external_body]
pub(crate) fn set_clear(set: &mut DashSet<u64, RandomState>)
    ensures
        id_elements(*final(set)).is_empty(),
{
    set.clear()
}

} // verus!
