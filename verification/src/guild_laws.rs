//! What caching a guild adds up to: the guild, and all that belongs to it, is
//! read back.

use crate::consistency::caching_a_guild_keeps_the_cache_consistent;
use crate::folds::{
    keys_differ, lemma_fold_keeps, lemma_fold_reaches, lemma_fold_step, lemma_image_step,
};
use crate::frames::{
    emojis_change_only_emojis_and_users, guild_channels_change_only_guild_channels,
    members_change_only_members_and_users, presences_change_only_presences,
    roles_change_only_roles, voice_states_change_only_voice_states,
};
use crate::model::cached::{
    lemma_lists_only_values, lists_values, lists_values_by, CachedGuild, GuildParts,
};
use crate::model::channel::GuildChannel;
use crate::model::guild::{Emoji, Guild, Member, Role};
use crate::model::id::GuildId;
use crate::model::presence::Presence;
use crate::model::voice::VoiceState;
use crate::order::{
    guild_channels_can_be_cached_in_any_order, presences_can_be_cached_in_any_order,
    roles_can_be_cached_in_any_order, same_elements, voice_states_can_be_cached_in_any_order,
};
use crate::state::{guild_number, lookup, lookup_data, lookup_in, CacheState};
use std::sync::Arc;
use vstd::prelude::*;
use vstd::std_specs::cmp::PartialEqSpec;

verus! {

/// Every value of `map` is in a list of its values.
proof fn lemma_lists_every_value<V>(list: Seq<V>, map: Map<u64, V>, key: u64) -> (i: int)
    requires
        lists_values(list, map),
        map.contains_key(key),
    ensures
        0 <= i < list.len(),
        list[i] == map[key],
{
    let keys = choose|keys: Seq<u64>| lists_values_by(keys, list, map);
    assert(keys.to_set().contains(key));
    let i = choose|i: int| 0 <= i < keys.len() && keys[i] == key;
    assert(list[i] == map[key]);
    i
}

/// The values of a map that is keyed by something of theirs differ in it.
proof fn lemma_listed_keys_differ<V>(list: Seq<V>, map: Map<u64, V>, key: spec_fn(V) -> u64)
    requires
        lists_values(list, map),
        forall|k: u64| #[trigger] map.contains_key(k) ==> key(map[k]) == k,
    ensures
        keys_differ(list, key),
        forall|i: int|
            0 <= i < list.len() ==> map.contains_key(key(#[trigger] list[i])) && map[key(list[i])]
                == list[i],
{
    let keys = choose|keys: Seq<u64>| lists_values_by(keys, list, map);
    assert forall|i: int| 0 <= i < list.len() implies key(#[trigger] list[i]) == keys[i]
        && map.contains_key(keys[i]) && map[keys[i]] == list[i] by {
        assert(keys.to_set().contains(keys[i]));
        assert(map.contains_key(keys[i]));
    }
    assert forall|i: int, j: int| 0 <= i < j < list.len() implies key(#[trigger] list[i]) != key(
        #[trigger] list[j],
    ) by {
        assert(keys[i] != keys[j]);
    }
}

/// The state after each step of caching a guild, in order: with its places, then
/// with its channels, emojis, members, presences, roles and voice states.
struct Stages {
    places: CacheState,
    channels: CacheState,
    emojis: CacheState,
    members: CacheState,
    presences: CacheState,
    roles: CacheState,
    voice_states: CacheState,
}

/// The steps of caching a guild in the cache that holds `state`.
spec fn stages(state: CacheState, parts: GuildParts) -> Stages {
    let id = parts.guild.id;
    let places = state.with_places_for(id);
    let channels = places.with_guild_channels(id, parts.channels@);
    let emojis = channels.with_emojis(id, parts.emojis@);
    let members = emojis.with_members(id, parts.members@);
    let presences = members.with_presences(Some(id), parts.presences@);
    let roles = presences.with_roles(id, parts.roles@);
    let voice_states = roles.with_voice_states(parts.voice_states@);
    Stages { places, channels, emojis, members, presences, roles, voice_states }
}

/// Each step of caching a guild changes what it is about, and the later steps
/// leave it alone.
proof fn lemma_stages(state: CacheState, parts: GuildParts)
    ensures
        ({
            let after = state.with_guild(parts);
            let s = stages(state, parts);
            &&& after.channels_guild == s.channels.channels_guild
            &&& after.guild_channels == s.channels.guild_channels
            &&& after.emojis == s.emojis.emojis
            &&& after.members == s.members.members
            &&& after.presences == s.presences.presences
            &&& s.members.presences == state.presences
            &&& after.roles == s.roles.roles
            &&& s.presences.roles == state.roles
            &&& after.guild_voice_states == s.voice_states.guild_voice_states
            &&& s.roles.guild_voice_states == s.places.guild_voice_states
            &&& after.guilds == state.guilds.insert(parts.guild.id.0, Arc::new(parts.guild))
            &&& after.unavailable_guilds == state.unavailable_guilds.remove(parts.guild.id.0)
            &&& after.config == state.config
            &&& after.channels_private == state.channels_private
            &&& after.current_user == state.current_user
            &&& after.groups == state.groups
            &&& after.guild_emojis == s.places.guild_emojis
            &&& after.guild_members == s.places.guild_members
            &&& after.guild_presences == s.places.guild_presences
            &&& after.guild_roles == s.places.guild_roles
            &&& after.messages == state.messages
        }),
{
    let id = parts.guild.id;
    let s = stages(state, parts);
    guild_channels_change_only_guild_channels(s.places, id, parts.channels@);
    emojis_change_only_emojis_and_users(s.channels, id, parts.emojis@);
    members_change_only_members_and_users(s.emojis, id, parts.members@);
    presences_change_only_presences(s.members, Some(id), parts.presences@);
    roles_change_only_roles(s.presences, id, parts.roles@);
    voice_states_change_only_voice_states(s.roles, parts.voice_states@);
}

/// The ids of the channels of a guild after some of them are cached.
proof fn lemma_channel_ids(state: CacheState, guild_id: GuildId, channels: Seq<GuildChannel>)
    ensures
        state.with_guild_channels(guild_id, channels).channels_of(guild_id) == state.channels_of(
            guild_id,
        ).union(channels.map_values(|channel: GuildChannel| channel.spec_id().0).to_set()),
    decreases channels.len(),
{
    let ids = |channel: GuildChannel| channel.spec_id().0;
    let after = state.with_guild_channels(guild_id, channels);
    if channels.len() > 0 {
        let front = channels.drop_last();
        lemma_channel_ids(state, guild_id, front);
        lemma_image_step(channels, channels.len() - 1, ids);
        assert(channels.take(channels.len() as int) =~= channels);
        assert(channels.take(channels.len() - 1) =~= front);
    } else {
        assert(channels.map_values(ids).to_set() =~= Set::<u64>::empty());
    }
    assert(after.channels_of(guild_id) =~= state.channels_of(guild_id).union(
        channels.map_values(ids).to_set(),
    ));
}

/// Every channel that comes with a cached guild can be read, names that guild,
/// even if it named none when it came, and is among the channels of the guild.
/// No other channel is.
pub proof fn the_channels_of_a_cached_guild_name_it(state: CacheState, parts: GuildParts)
    ensures
        ({
            let id = parts.guild.id;
            let after = state.with_guild(parts);
            &&& forall|i: int|
                0 <= i < parts.channels@.len() ==> (lookup_data(
                    after.channels_guild,
                    (#[trigger] parts.channels@[i]).spec_id().0,
                ) matches Some(held) && held.spec_guild_id() == Some(id))
            &&& after.channels_of(id) == parts.channels@.map_values(
                |channel: GuildChannel| channel.spec_id().0,
            ).to_set()
        }),
{
    let id = parts.guild.id;
    let after = state.with_guild(parts);
    let s = stages(state, parts);
    let step = |t: CacheState, channel: GuildChannel| t.with_guild_channel(id, channel);
    lemma_stages(state, parts);
    assert forall|i: int| 0 <= i < parts.channels@.len() implies lookup_data(
        after.channels_guild,
        (#[trigger] parts.channels@[i]).spec_id().0,
    ) matches Some(held) && held.spec_guild_id() == Some(id) by {
        let key = parts.channels@[i].spec_id().0;
        let holds = |t: CacheState|
            lookup_data(t.channels_guild, key) matches Some(held) && held.spec_guild_id() == Some(
                id,
            );
        lemma_fold_reaches(parts.channels@, i, s.places, step, holds);
        assert(holds(s.channels));
    }
    lemma_channel_ids(s.places, id, parts.channels@);
    assert(after.channels_of(id) =~= parts.channels@.map_values(
        |channel: GuildChannel| channel.spec_id().0,
    ).to_set());
}

/// Each channel of a cached guild whose maps are keyed by id is read back. It
/// equals the one that came with the guild, but for naming the guild.
pub proof fn each_channel_of_a_cached_guild_is_read_back(
    state: CacheState,
    guild: Guild,
    parts: GuildParts,
    key: u64,
)
    requires
        guild.is_keyed_by_id(),
        parts.are_of(guild),
        guild.channels@.contains_key(key),
    ensures
        ({
            let id = guild.id;
            let after = state.with_guild(parts);
            lookup_data(after.channels_guild, key) matches Some(held)
                && (*held).eq_spec(&guild.channels@[key].in_guild(id))
                && held.spec_guild_id() == Some(id)
        }),
{
    let id = guild.id;
    let s = stages(state, parts);
    let key_of = |channel: GuildChannel| channel.spec_id().0;
    let step = |t: CacheState, channel: GuildChannel| t.with_guild_channel(id, channel);
    let holds = |t: CacheState|
        lookup_data(t.channels_guild, key) matches Some(held)
            && (*held).eq_spec(&guild.channels@[key].in_guild(id))
            && held.spec_guild_id() == Some(id);
    lemma_stages(state, parts);
    lemma_listed_keys_differ(parts.channels@, guild.channels@, key_of);
    let i = lemma_lists_every_value(parts.channels@, guild.channels@, key);
    assert forall|t: CacheState, j: int|
        i < j < parts.channels@.len() && holds(t) implies #[trigger] holds(
        step(t, parts.channels@[j]),
    ) by {
        assert(key_of(parts.channels@[i]) != key_of(parts.channels@[j]));
    }
    lemma_fold_reaches(parts.channels@, i, s.places, step, holds);
    assert(holds(s.channels));
}

/// Each emoji of a cached guild whose maps are keyed by id is read back, and
/// equals the one that came with the guild.
pub proof fn each_emoji_of_a_cached_guild_is_read_back(
    state: CacheState,
    guild: Guild,
    parts: GuildParts,
    key: u64,
)
    requires
        guild.is_keyed_by_id(),
        parts.are_of(guild),
        guild.emojis@.contains_key(key),
    ensures
        ({
            let id = guild.id;
            let after = state.with_guild(parts);
            lookup_data(after.emojis, key) matches Some(held)
                && (*held).eq_spec(&guild.emojis@[key])
        }),
{
    let id = guild.id;
    let s = stages(state, parts);
    let key_of = |emoji: Emoji| emoji.id.0;
    let step = |t: CacheState, emoji: Emoji| t.with_emoji(id, emoji);
    let holds = |t: CacheState|
        lookup_data(t.emojis, key) matches Some(held) && (*held).eq_spec(&guild.emojis@[key]);
    lemma_stages(state, parts);
    lemma_listed_keys_differ(parts.emojis@, guild.emojis@, key_of);
    let i = lemma_lists_every_value(parts.emojis@, guild.emojis@, key);
    assert forall|t: CacheState, j: int|
        i < j < parts.emojis@.len() && holds(t) implies #[trigger] holds(
        step(t, parts.emojis@[j]),
    ) by {
        assert(key_of(parts.emojis@[i]) != key_of(parts.emojis@[j]));
    }
    lemma_fold_reaches(parts.emojis@, i, s.channels, step, holds);
    assert(holds(s.emojis));
}

/// Each member of a cached guild whose maps are keyed by id is read back, and
/// equals the one that came with the guild.
pub proof fn each_member_of_a_cached_guild_is_read_back(
    state: CacheState,
    guild: Guild,
    parts: GuildParts,
    key: u64,
)
    requires
        guild.is_keyed_by_id(),
        parts.are_of(guild),
        guild.members@.contains_key(key),
    ensures
        ({
            let id = guild.id;
            let after = state.with_guild(parts);
            lookup(after.members, (id.0, key)) matches Some(held)
                && (*held).eq_spec(&guild.members@[key])
        }),
{
    let id = guild.id;
    let s = stages(state, parts);
    let key_of = |member: Member| member.user.id.0;
    let step = |t: CacheState, member: Member| t.with_member(id, member);
    let holds = |t: CacheState|
        lookup(t.members, (id.0, key)) matches Some(held) && (*held).eq_spec(&guild.members@[key]);
    lemma_stages(state, parts);
    lemma_listed_keys_differ(parts.members@, guild.members@, key_of);
    let i = lemma_lists_every_value(parts.members@, guild.members@, key);
    assert forall|t: CacheState, j: int|
        i < j < parts.members@.len() && holds(t) implies #[trigger] holds(
        step(t, parts.members@[j]),
    ) by {
        assert(key_of(parts.members@[i]) != key_of(parts.members@[j]));
    }
    lemma_fold_reaches(parts.members@, i, s.emojis, step, holds);
    assert(holds(s.members));
}

/// Each presence of a cached guild whose maps are keyed by id is read back, and
/// equals the one that came with the guild.
pub proof fn each_presence_of_a_cached_guild_is_read_back(
    state: CacheState,
    guild: Guild,
    parts: GuildParts,
    key: u64,
)
    requires
        guild.is_keyed_by_id(),
        parts.are_of(guild),
        guild.presences@.contains_key(key),
    ensures
        ({
            let id = guild.id;
            let after = state.with_guild(parts);
            lookup(after.presences, (Some(id.0), key)) matches Some(held)
                && (*held).eq_spec(&guild.presences@[key])
        }),
{
    let id = guild.id;
    let s = stages(state, parts);
    let key_of = |presence: Presence| presence.user.spec_id().0;
    let step = |t: CacheState, presence: Presence| t.with_presence(Some(id), presence);
    let holds = |t: CacheState|
        lookup(t.presences, (Some(id.0), key)) matches Some(held)
            && (*held).eq_spec(&guild.presences@[key]);
    lemma_stages(state, parts);
    lemma_listed_keys_differ(parts.presences@, guild.presences@, key_of);
    let i = lemma_lists_every_value(parts.presences@, guild.presences@, key);
    assert forall|t: CacheState, j: int|
        i < j < parts.presences@.len() && holds(t) implies #[trigger] holds(
        step(t, parts.presences@[j]),
    ) by {
        assert(key_of(parts.presences@[i]) != key_of(parts.presences@[j]));
    }
    lemma_fold_reaches(parts.presences@, i, s.members, step, holds);
    assert(holds(s.presences));
}

/// Each role of a cached guild whose maps are keyed by id is read back, and
/// equals the one that came with the guild.
pub proof fn each_role_of_a_cached_guild_is_read_back(
    state: CacheState,
    guild: Guild,
    parts: GuildParts,
    key: u64,
)
    requires
        guild.is_keyed_by_id(),
        parts.are_of(guild),
        guild.roles@.contains_key(key),
    ensures
        ({
            let id = guild.id;
            let after = state.with_guild(parts);
            lookup_data(after.roles, key) matches Some(held) && (*held).eq_spec(&guild.roles@[key])
        }),
{
    let id = guild.id;
    let s = stages(state, parts);
    let key_of = |role: Role| role.id.0;
    let step = |t: CacheState, role: Role| t.with_role(id, role);
    let holds = |t: CacheState|
        lookup_data(t.roles, key) matches Some(held) && (*held).eq_spec(&guild.roles@[key]);
    lemma_stages(state, parts);
    lemma_listed_keys_differ(parts.roles@, guild.roles@, key_of);
    let i = lemma_lists_every_value(parts.roles@, guild.roles@, key);
    assert forall|t: CacheState, j: int|
        i < j < parts.roles@.len() && holds(t) implies #[trigger] holds(
        step(t, parts.roles@[j]),
    ) by {
        assert(key_of(parts.roles@[i]) != key_of(parts.roles@[j]));
    }
    lemma_fold_reaches(parts.roles@, i, s.presences, step, holds);
    assert(holds(s.roles));
}

/// Each voice state of a cached guild whose maps are keyed by id is read back, if
/// it names the guild and a channel, and equals the one that came with the guild.
pub proof fn each_voice_state_of_a_cached_guild_is_read_back(
    state: CacheState,
    guild: Guild,
    parts: GuildParts,
    key: u64,
)
    requires
        guild.is_keyed_by_id(),
        parts.are_of(guild),
        guild.voice_states@.contains_key(key),
        guild.voice_states@[key].guild_id == Some(guild.id),
        guild.voice_states@[key].channel_id is Some,
    ensures
        lookup_in(
            state.with_guild(parts).guild_voice_states,
            guild.id.0,
            key,
        ) matches Some(held) && (*held).eq_spec(&guild.voice_states@[key]),
{
    let id = guild.id;
    let s = stages(state, parts);
    let key_of = |vs: VoiceState| vs.user_id.0;
    let step = |t: CacheState, vs: VoiceState| t.with_voice_state(vs);
    let start = s.roles;
    lemma_stages(state, parts);
    lemma_listed_keys_differ(parts.voice_states@, guild.voice_states@, key_of);
    let i = lemma_lists_every_value(parts.voice_states@, guild.voice_states@, key);
    let front = parts.voice_states@.take(i + 1);
    let back = parts.voice_states@.skip(i + 1);
    let holds = |t: CacheState|
        lookup_in(t.guild_voice_states, id.0, key) matches Some(held) && (*held).eq_spec(
            &guild.voice_states@[key],
        );
    lemma_fold_step(parts.voice_states@, i, start, step);
    voice_states_change_only_voice_states(start, parts.voice_states@.take(i));
    assert(holds(front.fold_left(start, step)));
    assert forall|t: CacheState, j: int|
        0 <= j < back.len() && holds(t) implies #[trigger] holds(step(t, back[j])) by {
        assert(back[j] == parts.voice_states@[i + 1 + j]);
        assert(key_of(parts.voice_states@[i]) != key_of(parts.voice_states@[i + 1 + j]));
    }
    lemma_fold_keeps(back, front.fold_left(start, step), step, holds);
    parts.voice_states@.lemma_fold_left_split(start, step, i + 1);
}

/// A cached guild is read back, and is available.
pub proof fn a_cached_guild_is_read_back(state: CacheState, guild: Guild, parts: GuildParts)
    requires
        parts.are_of(guild),
    ensures
        ({
            let after = state.with_guild(parts);
            &&& lookup(after.guilds, guild.id.0) == Some(Arc::new(CachedGuild::of(guild)))
            &&& !after.unavailable_guilds.contains(guild.id.0)
            &&& forall|other: u64|
                other != guild.id.0 ==> lookup(after.guilds, other) == lookup(state.guilds, other)
                    && after.unavailable_guilds.contains(other)
                    == state.unavailable_guilds.contains(other)
        }),
{
    lemma_stages(state, parts);
}

/// In whatever order the hash maps of a guild whose maps are keyed by id are
/// walked, caching it has one outcome but for the emojis, the members and the
/// users: a user may come with several of these, and differ from one to the next,
/// and then the last one stays.
pub proof fn a_cached_guild_has_one_outcome(
    state: CacheState,
    guild: Guild,
    parts: GuildParts,
    others: GuildParts,
)
    requires
        guild.is_keyed_by_id(),
        parts.are_of(guild),
        others.are_of(guild),
    ensures
        ({
            let after = state.with_guild(parts);
            let other = state.with_guild(others);
            other == CacheState {
                emojis: other.emojis,
                members: other.members,
                users: other.users,
                ..after
            }
        }),
{
    let id = guild.id;
    let s = stages(state, parts);
    let t = stages(state, others);
    lemma_stages(state, parts);
    lemma_stages(state, others);

    let channel_id = |channel: GuildChannel| channel.spec_id().0;
    lemma_listed_keys_differ(parts.channels@, guild.channels@, channel_id);
    lemma_listed_keys_differ(others.channels@, guild.channels@, channel_id);
    lemma_same_elements(parts.channels@, others.channels@, guild.channels@);
    guild_channels_can_be_cached_in_any_order(s.places, id, parts.channels@, others.channels@);

    let user_id = |presence: Presence| presence.user.spec_id().0;
    let presence_key = |presence: Presence|
        (guild_number(Some(id)), presence.user.spec_id().0);
    lemma_listed_keys_differ(parts.presences@, guild.presences@, user_id);
    lemma_listed_keys_differ(others.presences@, guild.presences@, user_id);
    lemma_finer_keys_differ(parts.presences@, user_id, presence_key);
    lemma_finer_keys_differ(others.presences@, user_id, presence_key);
    lemma_same_elements(parts.presences@, others.presences@, guild.presences@);
    lemma_presences_depend_on_presences(s.members, t.members, Some(id), others.presences@);
    presences_can_be_cached_in_any_order(
        s.members,
        Some(id),
        parts.presences@,
        others.presences@,
    );

    let role_id = |role: Role| role.id.0;
    lemma_listed_keys_differ(parts.roles@, guild.roles@, role_id);
    lemma_listed_keys_differ(others.roles@, guild.roles@, role_id);
    lemma_same_elements(parts.roles@, others.roles@, guild.roles@);
    lemma_roles_depend_on_roles(s.presences, t.presences, id, others.roles@);
    roles_can_be_cached_in_any_order(s.presences, id, parts.roles@, others.roles@);

    let vs_user_id = |vs: VoiceState| vs.user_id.0;
    let vs_key = |vs: VoiceState| (guild_number(vs.guild_id), vs.user_id.0);
    lemma_listed_keys_differ(parts.voice_states@, guild.voice_states@, vs_user_id);
    lemma_listed_keys_differ(others.voice_states@, guild.voice_states@, vs_user_id);
    lemma_finer_keys_differ(parts.voice_states@, vs_user_id, vs_key);
    lemma_finer_keys_differ(others.voice_states@, vs_user_id, vs_key);
    lemma_same_elements(parts.voice_states@, others.voice_states@, guild.voice_states@);
    lemma_voice_states_depend_on_voice_states(s.roles, t.roles, others.voice_states@);
    voice_states_can_be_cached_in_any_order(s.roles, parts.voice_states@, others.voice_states@);
}

/// What presences are held after caching some depends only on those held before.
proof fn lemma_presences_depend_on_presences(
    state: CacheState,
    other: CacheState,
    guild_id: Option<GuildId>,
    presences: Seq<Presence>,
)
    requires
        state.presences == other.presences,
    ensures
        state.with_presences(guild_id, presences).presences == other.with_presences(
            guild_id, presences,
        ).presences,
    decreases presences.len(),
{
    if presences.len() > 0 {
        lemma_presences_depend_on_presences(state, other, guild_id, presences.drop_last());
    }
}

/// What roles are held after caching some depends only on those held before.
proof fn lemma_roles_depend_on_roles(
    state: CacheState,
    other: CacheState,
    guild_id: GuildId,
    roles: Seq<Role>,
)
    requires
        state.roles == other.roles,
    ensures
        state.with_roles(guild_id, roles).roles == other.with_roles(guild_id, roles).roles,
    decreases roles.len(),
{
    if roles.len() > 0 {
        lemma_roles_depend_on_roles(state, other, guild_id, roles.drop_last());
    }
}

/// What voice states are held after caching some depends only on those held before.
proof fn lemma_voice_states_depend_on_voice_states(
    state: CacheState,
    other: CacheState,
    voice_states: Seq<VoiceState>,
)
    requires
        state.guild_voice_states == other.guild_voice_states,
    ensures
        state.with_voice_states(voice_states).guild_voice_states == other.with_voice_states(
            voice_states,
        ).guild_voice_states,
    decreases voice_states.len(),
{
    if voice_states.len() > 0 {
        lemma_voice_states_depend_on_voice_states(state, other, voice_states.drop_last());
    }
}

/// Two lists of the values of one map hold the same items.
proof fn lemma_same_elements<V>(list: Seq<V>, other: Seq<V>, map: Map<u64, V>)
    requires
        lists_values(list, map),
        lists_values(other, map),
    ensures
        same_elements(list, other),
{
    assert forall|v: V| #[trigger] list.contains(v) == other.contains(v) by {
        lemma_lists_exactly_the_values(list, map, v);
        lemma_lists_exactly_the_values(other, map, v);
    }
}

/// What is in a list of the values of a map is exactly what is in the map.
proof fn lemma_lists_exactly_the_values<V>(list: Seq<V>, map: Map<u64, V>, v: V)
    requires
        lists_values(list, map),
    ensures
        list.contains(v) == map.contains_value(v),
{
    if list.contains(v) {
        lemma_lists_only_values(list, map);
    }
    if map.contains_value(v) {
        let key = choose|key: u64| #[trigger] map.contains_key(key) && map[key] == v;
        let i = lemma_lists_every_value(list, map, key);
        assert(list[i] == v);
    }
}

/// Keys that tell more apart differ where others do.
proof fn lemma_finer_keys_differ<A, K, L>(
    items: Seq<A>,
    key: spec_fn(A) -> K,
    finer: spec_fn(A) -> (L, K),
)
    requires
        keys_differ(items, key),
        forall|a: A| #[trigger] finer(a).1 == key(a),
    ensures
        keys_differ(items, finer),
{
    assert forall|i: int, j: int| 0 <= i < j < items.len() implies finer(#[trigger] items[i])
        != finer(#[trigger] items[j]) by {
        assert(key(items[i]) != key(items[j]));
        assert(finer(items[i]).1 == key(items[i]));
        assert(finer(items[j]).1 == key(items[j]));
    }
}

/// A cache that lists each channel for the guild that it holds it for does so
/// after caching a guild, if all the channels that it held for that guild come
/// with it again, and it held none of those that come for another guild.
pub proof fn caching_a_guild_lists_its_channels(state: CacheState, parts: GuildParts)
    requires
        state.consistent(),
        state.lists_what_it_holds(),
        forall|id: u64| #[trigger]
            state.holds_channel_for(parts.guild.id.0, id) ==> parts.channels@.map_values(
                |channel: GuildChannel| channel.spec_id().0,
            ).contains(id),
        forall|i: int|
            0 <= i < parts.channels@.len() && state.channels_guild.contains_key(
                (#[trigger] parts.channels@[i]).spec_id().0,
            ) ==> state.holds_channel_for(parts.guild.id.0, parts.channels@[i].spec_id().0),
    ensures
        state.with_guild(parts).lists_what_it_holds(),
{
    let gid = parts.guild.id;
    let after = state.with_guild(parts);
    let s = stages(state, parts);
    let ids = parts.channels@.map_values(|channel: GuildChannel| channel.spec_id().0);
    let step = |t: CacheState, channel: GuildChannel| t.with_guild_channel(gid, channel);
    lemma_stages(state, parts);
    the_channels_of_a_cached_guild_name_it(state, parts);
    caching_a_guild_keeps_the_cache_consistent(state, parts);
    assert forall|g: u64, id: u64| #[trigger]
        after.lists_channel(g, id) == after.holds_channel_for(g, id) by {
        assert(state.lists_channel(g, id) == state.holds_channel_for(g, id));
        let same = |t: CacheState|
            {
                &&& lookup(t.channels_guild, id) == lookup(state.channels_guild, id)
                &&& g != gid.0 ==> lookup(t.guild_channels, g) == lookup(state.guild_channels, g)
            };
        let same_list = |t: CacheState|
            g != gid.0 ==> lookup(t.guild_channels, g) == lookup(state.guild_channels, g);
        lemma_fold_keeps(parts.channels@, s.places, step, same_list);
        assert(same_list(s.channels));
        if ids.contains(id) {
            let i = choose|i: int| 0 <= i < ids.len() && ids[i] == id;
            assert(parts.channels@[i].spec_id().0 == id);
            assert(ids.to_set().contains(id));
        } else {
            assert forall|t: CacheState, i: int|
                0 <= i < parts.channels@.len() && same(t) implies #[trigger] same(
                step(t, parts.channels@[i]),
            ) by {
                assert(ids[i] == parts.channels@[i].spec_id().0);
            }
            lemma_fold_keeps(parts.channels@, s.places, step, same);
            assert(same(s.channels));
            assert(!ids.to_set().contains(id));
        }
    }
}

/// A cached guild is held under its id with every part as it came.
pub proof fn a_guild_is_held_as_it_came(state: CacheState, guild: Guild, parts: GuildParts)
    requires
        parts.are_of(guild),
    ensures
        ({
            let after = state.with_guild(parts);
            let held = *after.guilds[guild.id.0];
            &&& after.guilds.contains_key(guild.id.0)
            &&& held.id == guild.id
            &&& held.afk_channel_id == guild.afk_channel_id
            &&& held.afk_timeout == guild.afk_timeout
            &&& held.application_id == guild.application_id
            &&& held.banner == guild.banner
            &&& held.default_message_notifications == guild.default_message_notifications
            &&& held.description == guild.description
            &&& held.discovery_splash == guild.discovery_splash
            &&& held.embed_channel_id == guild.embed_channel_id
            &&& held.embed_enabled == guild.embed_enabled
            &&& held.explicit_content_filter == guild.explicit_content_filter
            &&& held.features == guild.features
            &&& held.icon == guild.icon
            &&& held.joined_at == guild.joined_at
            &&& held.large == guild.large
            &&& held.lazy == guild.lazy
            &&& held.max_members == guild.max_members
            &&& held.max_presences == guild.max_presences
            &&& held.member_count == guild.member_count
            &&& held.mfa_level == guild.mfa_level
            &&& held.name == guild.name
            &&& held.owner == guild.owner
            &&& held.owner_id == guild.owner_id
            &&& held.permissions == guild.permissions
            &&& held.preferred_locale == guild.preferred_locale
            &&& held.premium_subscription_count == guild.premium_subscription_count
            &&& held.premium_tier == guild.premium_tier
            &&& held.region == guild.region
            &&& held.rules_channel_id == guild.rules_channel_id
            &&& held.splash == guild.splash
            &&& held.system_channel_id == guild.system_channel_id
            &&& held.system_channel_flags == guild.system_channel_flags
            &&& held.unavailable == guild.unavailable
            &&& held.verification_level == guild.verification_level
            &&& held.vanity_url_code == guild.vanity_url_code
            &&& held.widget_channel_id == guild.widget_channel_id
            &&& held.widget_enabled == guild.widget_enabled
        }),
{
    lemma_stages(state, parts);
}

/// Caching a guild gives it empty lists of emojis, members, presences and roles,
/// and takes it from the unavailable guilds. The other guilds, and what is neither
/// a guild nor belongs to one, are as they were.
pub proof fn a_cached_guild_leaves_the_rest_alone(state: CacheState, parts: GuildParts)
    ensures
        ({
            let after = state.with_guild(parts);
            let id = parts.guild.id.0;
            &&& after.config == state.config
            &&& after.channels_private == state.channels_private
            &&& after.current_user == state.current_user
            &&& after.groups == state.groups
            &&& after.messages == state.messages
            &&& after.guilds.remove(id) == state.guilds.remove(id)
            &&& after.unavailable_guilds == state.unavailable_guilds.remove(id)
            &&& after.guild_emojis == state.guild_emojis.insert(id, Set::empty())
            &&& after.guild_members == state.guild_members.insert(id, Set::empty())
            &&& after.guild_presences == state.guild_presences.insert(id, Set::empty())
            &&& after.guild_roles == state.guild_roles.insert(id, Set::empty())
            &&& after.guild_channels.remove(id) == state.guild_channels.remove(id)
            &&& after.guild_channels.contains_key(id)
            &&& after.guild_voice_states.dom() == state.guild_voice_states.dom().insert(id)
        }),
{
    let id = parts.guild.id;
    let after = state.with_guild(parts);
    let s = stages(state, parts);
    lemma_stages(state, parts);
    let step = |t: CacheState, channel: GuildChannel| t.with_guild_channel(id, channel);
    let same = |t: CacheState|
        {
            &&& t.guild_channels.remove(id.0) == state.guild_channels.remove(id.0)
            &&& t.guild_channels.contains_key(id.0)
        };
    assert(s.places.guild_channels.remove(id.0) =~= state.guild_channels.remove(id.0));
    assert forall|t: CacheState, i: int|
        0 <= i < parts.channels@.len() && same(t) implies #[trigger] same(
        step(t, parts.channels@[i]),
    ) by {
        let stepped = t.with_guild_channel(id, parts.channels@[i]);
        assert(stepped.guild_channels.remove(id.0) =~= t.guild_channels.remove(id.0));
    }
    lemma_fold_keeps(parts.channels@, s.places, step, same);
    assert(same(s.channels));
    assert(after.guilds.remove(id.0) =~= state.guilds.remove(id.0));
    voice_states_change_only_voice_states(s.roles, parts.voice_states@);
    assert(after.guild_voice_states.dom() =~= state.guild_voice_states.dom().insert(id.0));
}

/// A channel that does not come with a cached guild is as it was.
pub proof fn other_channels_are_as_they_were(state: CacheState, parts: GuildParts, key: u64)
    requires
        forall|i: int|
            0 <= i < parts.channels@.len() ==> (#[trigger] parts.channels@[i]).spec_id().0 != key,
    ensures
        ({
            let after = state.with_guild(parts);
            &&& after.channels_guild.contains_key(key) == state.channels_guild.contains_key(key)
            &&& after.channels_guild.contains_key(key) ==> after.channels_guild[key]
                == state.channels_guild[key]
        }),
{
    let id = parts.guild.id;
    let s = stages(state, parts);
    lemma_stages(state, parts);
    let step = |t: CacheState, channel: GuildChannel| t.with_guild_channel(id, channel);
    let same = |t: CacheState|
        {
            &&& t.channels_guild.contains_key(key) == state.channels_guild.contains_key(key)
            &&& t.channels_guild.contains_key(key) ==> t.channels_guild[key]
                == state.channels_guild[key]
        };
    guild_channels_change_only_guild_channels(s.places, id, parts.channels@);
    emojis_change_only_emojis_and_users(s.channels, id, parts.emojis@);
    assert(same(s.places));
    lemma_fold_keeps(parts.channels@, s.places, step, same);
    assert(same(s.channels));
}

/// An emoji that does not come with a cached guild is as it was.
pub proof fn other_emojis_are_as_they_were(state: CacheState, parts: GuildParts, key: u64)
    requires
        forall|i: int|
            0 <= i < parts.emojis@.len() ==> (#[trigger] parts.emojis@[i]).id.0 != key,
    ensures
        ({
            let after = state.with_guild(parts);
            &&& after.emojis.contains_key(key) == state.emojis.contains_key(key)
            &&& after.emojis.contains_key(key) ==> after.emojis[key] == state.emojis[key]
        }),
{
    let id = parts.guild.id;
    let s = stages(state, parts);
    lemma_stages(state, parts);
    let step = |t: CacheState, emoji: Emoji| t.with_emoji(id, emoji);
    let same = |t: CacheState|
        {
            &&& t.emojis.contains_key(key) == state.emojis.contains_key(key)
            &&& t.emojis.contains_key(key) ==> t.emojis[key] == state.emojis[key]
        };
    guild_channels_change_only_guild_channels(s.places, id, parts.channels@);
    emojis_change_only_emojis_and_users(s.channels, id, parts.emojis@);
    assert(same(s.channels));
    lemma_fold_keeps(parts.emojis@, s.channels, step, same);
    assert(same(s.emojis));
}

/// A role that does not come with a cached guild is as it was.
pub proof fn other_roles_are_as_they_were(state: CacheState, parts: GuildParts, key: u64)
    requires
        forall|i: int|
            0 <= i < parts.roles@.len() ==> (#[trigger] parts.roles@[i]).id.0 != key,
    ensures
        ({
            let after = state.with_guild(parts);
            &&& after.roles.contains_key(key) == state.roles.contains_key(key)
            &&& after.roles.contains_key(key) ==> after.roles[key] == state.roles[key]
        }),
{
    let id = parts.guild.id;
    let s = stages(state, parts);
    lemma_stages(state, parts);
    let step = |t: CacheState, role: Role| t.with_role(id, role);
    let same = |t: CacheState|
        {
            &&& t.roles.contains_key(key) == state.roles.contains_key(key)
            &&& t.roles.contains_key(key) ==> t.roles[key] == state.roles[key]
        };
    guild_channels_change_only_guild_channels(s.places, id, parts.channels@);
    emojis_change_only_emojis_and_users(s.channels, id, parts.emojis@);
    assert(same(s.presences));
    lemma_fold_keeps(parts.roles@, s.presences, step, same);
    assert(same(s.roles));
}

/// A member that does not come with a cached guild is as they were.
pub proof fn other_members_are_as_they_were(state: CacheState, parts: GuildParts, key: (u64, u64))
    requires
        forall|i: int|
            0 <= i < parts.members@.len() ==> (
                parts.guild.id.0,
                (#[trigger] parts.members@[i]).user.id.0,
            ) != key,
    ensures
        ({
            let after = state.with_guild(parts);
            &&& after.members.contains_key(key) == state.members.contains_key(key)
            &&& after.members.contains_key(key) ==> after.members[key] == state.members[key]
        }),
{
    let id = parts.guild.id;
    let s = stages(state, parts);
    lemma_stages(state, parts);
    let step = |t: CacheState, member: Member| t.with_member(id, member);
    let same = |t: CacheState|
        {
            &&& t.members.contains_key(key) == state.members.contains_key(key)
            &&& t.members.contains_key(key) ==> t.members[key] == state.members[key]
        };
    guild_channels_change_only_guild_channels(s.places, id, parts.channels@);
    emojis_change_only_emojis_and_users(s.channels, id, parts.emojis@);
    assert(same(s.emojis));
    lemma_fold_keeps(parts.members@, s.emojis, step, same);
    assert(same(s.members));
}

/// A presence that does not come with a cached guild is as it was.
pub proof fn other_presences_are_as_they_were(
    state: CacheState,
    parts: GuildParts,
    key: (Option<u64>, u64),
)
    requires
        forall|i: int|
            0 <= i < parts.presences@.len() ==> (
                Some(parts.guild.id.0),
                (#[trigger] parts.presences@[i]).user.spec_id().0,
            ) != key,
    ensures
        ({
            let after = state.with_guild(parts);
            &&& after.presences.contains_key(key) == state.presences.contains_key(key)
            &&& after.presences.contains_key(key) ==> after.presences[key] == state.presences[key]
        }),
{
    let id = parts.guild.id;
    let s = stages(state, parts);
    lemma_stages(state, parts);
    let step = |t: CacheState, presence: Presence| t.with_presence(Some(id), presence);
    let same = |t: CacheState|
        {
            &&& t.presences.contains_key(key) == state.presences.contains_key(key)
            &&& t.presences.contains_key(key) ==> t.presences[key] == state.presences[key]
        };
    guild_channels_change_only_guild_channels(s.places, id, parts.channels@);
    emojis_change_only_emojis_and_users(s.channels, id, parts.emojis@);
    assert(same(s.members));
    lemma_fold_keeps(parts.presences@, s.members, step, same);
    assert(same(s.presences));
}

/// Caching a guild forgets the voice states that were held of it: of a user whose
/// voice state does not come with it, none is held. In other guilds, a voice state
/// that does not come with the guild is as it was.
pub proof fn other_voice_states_are_forgotten_or_as_they_were(
    state: CacheState,
    parts: GuildParts,
    guild_id: u64,
    user_id: u64,
)
    requires
        forall|i: int|
            0 <= i < parts.voice_states@.len() ==> (#[trigger] parts.voice_states@[i]).guild_id
                != Some(GuildId(guild_id)) || parts.voice_states@[i].user_id.0 != user_id,
    ensures
        lookup_in(state.with_guild(parts).guild_voice_states, guild_id, user_id) == (if guild_id
            == parts.guild.id.0 {
            None
        } else {
            lookup_in(state.guild_voice_states, guild_id, user_id)
        }),
{
    let s = stages(state, parts);
    lemma_stages(state, parts);
    let step = |t: CacheState, vs: VoiceState| t.with_voice_state(vs);
    let found = lookup_in(s.places.guild_voice_states, guild_id, user_id);
    let same = |t: CacheState| lookup_in(t.guild_voice_states, guild_id, user_id) == found;
    assert(same(s.roles));
    assert forall|t: CacheState, i: int|
        0 <= i < parts.voice_states@.len() && same(t) implies #[trigger] same(
        step(t, parts.voice_states@[i]),
    ) by {
        let vs = parts.voice_states@[i];
        if let Some(named) = vs.guild_id {
            assert(named.0 != guild_id || vs.user_id.0 != user_id);
        }
    }
    lemma_fold_keeps(parts.voice_states@, s.roles, step, same);
    assert(same(s.voice_states));
}

/// The user of a member who comes with a guild, and does not equal the one held,
/// is held by the users as the member brings them, whoever else comes with the
/// guild: the members come after the emojis. No two members may be of one user.
pub proof fn the_users_of_members_are_held_as_they_came(
    state: CacheState,
    parts: GuildParts,
    i: int,
)
    requires
        0 <= i < parts.members@.len(),
        forall|j: int|
            0 <= j < parts.members@.len() && j != i ==> (#[trigger] parts.members@[j]).user.id
                != parts.members@[i].user.id,
        ({
            let key = (parts.guild.id.0, parts.members@[i].user.id.0);
            state.members.contains_key(key) ==> !(*state.members[key]).eq_spec(&parts.members@[i])
        }),
    ensures
        ({
            let after = state.with_guild(parts);
            let user = parts.members@[i].user;
            let key = (parts.guild.id.0, user.id.0);
            &&& after.users.contains_key(user.id.0)
            &&& (*after.users[user.id.0]).eq_spec(&user)
            &&& after.members.contains_key(key)
            &&& after.members[key].user == after.users[user.id.0]
        }),
{
    let id = parts.guild.id;
    let s = stages(state, parts);
    let member = parts.members@[i];
    let user = member.user;
    let key = (id.0, user.id.0);
    let step = |t: CacheState, m: Member| t.with_member(id, m);
    lemma_stages(state, parts);
    guild_channels_change_only_guild_channels(s.places, id, parts.channels@);
    emojis_change_only_emojis_and_users(s.channels, id, parts.emojis@);
    let before = parts.members@.take(i);
    let rest = parts.members@.skip(i + 1);
    let unheld = |t: CacheState|
        t.members.contains_key(key) ==> !(*t.members[key]).eq_spec(&member);
    assert(unheld(s.emojis));
    assert forall|t: CacheState, j: int|
        0 <= j < before.len() && unheld(t) implies #[trigger] unheld(step(t, before[j])) by {
        assert(before[j] == parts.members@[j]);
    }
    lemma_fold_keeps(before, s.emojis, step, unheld);
    let at_member = before.fold_left(s.emojis, step);
    let held = |t: CacheState|
        {
            &&& t.users.contains_key(user.id.0)
            &&& (*t.users[user.id.0]).eq_spec(&user)
            &&& t.members.contains_key(key)
            &&& t.members[key].user == t.users[user.id.0]
        };
    lemma_fold_step(parts.members@, i, s.emojis, step);
    let upto = parts.members@.take(i + 1).fold_left(s.emojis, step);
    assert(upto == at_member.with_member(id, member));
    assert(held(upto));
    assert forall|t: CacheState, j: int|
        0 <= j < rest.len() && held(t) implies #[trigger] held(step(t, rest[j])) by {
        assert(rest[j] == parts.members@[i + 1 + j]);
    }
    lemma_fold_keeps(rest, upto, step, held);
    parts.members@.lemma_fold_left_split(s.emojis, step, i + 1);
    assert(held(s.members));
    lemma_users_stay(state, parts);
}

/// The presences, roles and voice states of a guild bring no users.
proof fn lemma_users_stay(state: CacheState, parts: GuildParts)
    ensures
        state.with_guild(parts).users == stages(state, parts).members.users,
        stages(state, parts).channels.users == state.users,
{
    let id = parts.guild.id;
    let s = stages(state, parts);
    guild_channels_change_only_guild_channels(s.places, id, parts.channels@);
    presences_change_only_presences(s.members, Some(id), parts.presences@);
    roles_change_only_roles(s.presences, id, parts.roles@);
    voice_states_change_only_voice_states(s.roles, parts.voice_states@);
}

/// The user who made an emoji that comes with a guild, and does not equal the one
/// held, is held by the users as the emoji brings them, if no member of the guild
/// is that user, and no other emoji that comes names them or has the same id.
pub proof fn the_users_of_emojis_are_held_as_they_came(
    state: CacheState,
    parts: GuildParts,
    i: int,
)
    requires
        0 <= i < parts.emojis@.len(),
        parts.emojis@[i].user is Some,
        forall|j: int|
            0 <= j < parts.members@.len() ==> (#[trigger] parts.members@[j]).user.id
                != parts.emojis@[i].user->0.id,
        forall|j: int|
            0 <= j < parts.emojis@.len() && j != i ==> (#[trigger] parts.emojis@[j]).id
                != parts.emojis@[i].id && (parts.emojis@[j].user is Some
                ==> parts.emojis@[j].user->0.id != parts.emojis@[i].user->0.id),
        ({
            let key = parts.emojis@[i].id.0;
            state.emojis.contains_key(key) ==> !(*state.emojis[key].data).eq_spec(
                &parts.emojis@[i],
            )
        }),
    ensures
        ({
            let after = state.with_guild(parts);
            let user = parts.emojis@[i].user->0;
            let key = parts.emojis@[i].id.0;
            &&& after.users.contains_key(user.id.0)
            &&& (*after.users[user.id.0]).eq_spec(&user)
            &&& after.emojis.contains_key(key)
            &&& after.emojis[key].data.user == Some(after.users[user.id.0])
        }),
{
    let id = parts.guild.id;
    let s = stages(state, parts);
    let emoji = parts.emojis@[i];
    let user = emoji.user->0;
    let key = emoji.id.0;
    let step = |t: CacheState, e: Emoji| t.with_emoji(id, e);
    lemma_stages(state, parts);
    lemma_users_stay(state, parts);
    guild_channels_change_only_guild_channels(s.places, id, parts.channels@);
    let before = parts.emojis@.take(i);
    let rest = parts.emojis@.skip(i + 1);
    let unheld = |t: CacheState|
        t.emojis.contains_key(key) ==> !(*t.emojis[key].data).eq_spec(&emoji);
    assert(unheld(s.channels));
    assert forall|t: CacheState, j: int|
        0 <= j < before.len() && unheld(t) implies #[trigger] unheld(step(t, before[j])) by {
        assert(before[j] == parts.emojis@[j]);
    }
    lemma_fold_keeps(before, s.channels, step, unheld);
    let held = |t: CacheState|
        {
            &&& t.users.contains_key(user.id.0)
            &&& (*t.users[user.id.0]).eq_spec(&user)
            &&& t.emojis.contains_key(key)
            &&& t.emojis[key].data.user == Some(t.users[user.id.0])
        };
    lemma_fold_step(parts.emojis@, i, s.channels, step);
    let upto = parts.emojis@.take(i + 1).fold_left(s.channels, step);
    assert(held(upto));
    assert forall|t: CacheState, j: int|
        0 <= j < rest.len() && held(t) implies #[trigger] held(step(t, rest[j])) by {
        assert(rest[j] == parts.emojis@[i + 1 + j]);
    }
    lemma_fold_keeps(rest, upto, step, held);
    parts.emojis@.lemma_fold_left_split(s.channels, step, i + 1);
    assert(held(s.emojis));
    let bring = |t: CacheState, m: Member| t.with_member(id, m);
    assert forall|t: CacheState, j: int|
        0 <= j < parts.members@.len() && held(t) implies #[trigger] held(
        bring(t, parts.members@[j]),
    ) by {
        assert(parts.members@[j].user.id != user.id);
    }
    lemma_fold_keeps(parts.members@, s.emojis, bring, held);
    assert(held(s.members));
    members_change_only_members_and_users(s.emojis, id, parts.members@);
}

/// A user who neither made an emoji nor is a member that comes with a guild is as
/// they were.
pub proof fn other_users_are_as_they_were(state: CacheState, parts: GuildParts, key: u64)
    requires
        forall|i: int|
            0 <= i < parts.emojis@.len() && (#[trigger] parts.emojis@[i]).user is Some
                ==> parts.emojis@[i].user->0.id.0 != key,
        forall|i: int|
            0 <= i < parts.members@.len() ==> (#[trigger] parts.members@[i]).user.id.0 != key,
    ensures
        ({
            let after = state.with_guild(parts);
            &&& after.users.contains_key(key) == state.users.contains_key(key)
            &&& after.users.contains_key(key) ==> after.users[key] == state.users[key]
        }),
{
    let id = parts.guild.id;
    let s = stages(state, parts);
    lemma_users_stay(state, parts);
    let same = |t: CacheState|
        {
            &&& t.users.contains_key(key) == state.users.contains_key(key)
            &&& t.users.contains_key(key) ==> t.users[key] == state.users[key]
        };
    let make = |t: CacheState, e: Emoji| t.with_emoji(id, e);
    let bring = |t: CacheState, m: Member| t.with_member(id, m);
    lemma_fold_keeps(parts.emojis@, s.channels, make, same);
    assert(same(s.emojis));
    lemma_fold_keeps(parts.members@, s.emojis, bring, same);
    assert(same(s.members));
}

/// What channels of guilds are held after caching some depends only on those held before.
proof fn lemma_guild_channels_depend_on_what_is_held(
    state: CacheState,
    other: CacheState,
    guild_id: GuildId,
    channels: Seq<GuildChannel>,
)
    requires
        state.channels_guild == other.channels_guild,
    ensures
        state.with_guild_channels(guild_id, channels).channels_guild
            == other.with_guild_channels(guild_id, channels).channels_guild,
    decreases channels.len(),
{
    if channels.len() > 0 {
        lemma_guild_channels_depend_on_what_is_held(state, other, guild_id, channels.drop_last());
    }
}

/// What emojis and users are held after caching some depends only on those held before.
proof fn lemma_emojis_depend_on_what_is_held(
    state: CacheState,
    other: CacheState,
    guild_id: GuildId,
    emojis: Seq<Emoji>,
)
    requires
        state.emojis == other.emojis,
        state.users == other.users,
    ensures
        state.with_emojis(guild_id, emojis).emojis == other.with_emojis(guild_id, emojis).emojis,
        state.with_emojis(guild_id, emojis).users == other.with_emojis(guild_id, emojis).users,
    decreases emojis.len(),
{
    if emojis.len() > 0 {
        lemma_emojis_depend_on_what_is_held(state, other, guild_id, emojis.drop_last());
    }
}

/// What members and users are held after caching some depends only on those held before.
proof fn lemma_members_depend_on_what_is_held(
    state: CacheState,
    other: CacheState,
    guild_id: GuildId,
    members: Seq<Member>,
)
    requires
        state.members == other.members,
        state.users == other.users,
    ensures
        state.with_members(guild_id, members).members == other.with_members(
            guild_id,
            members,
        ).members,
        state.with_members(guild_id, members).users == other.with_members(guild_id, members).users,
    decreases members.len(),
{
    if members.len() > 0 {
        lemma_members_depend_on_what_is_held(state, other, guild_id, members.drop_last());
    }
}

/// Caching a guild holds of its channels, emojis, members, presences and roles
/// what caching these alone, in this order, holds. Of its voice states it holds
/// what caching these holds, once those held of the guild are forgotten.
pub proof fn caching_a_guild_is_caching_what_belongs_to_it(state: CacheState, parts: GuildParts)
    ensures
        ({
            let id = parts.guild.id;
            let after = state.with_guild(parts);
            let channels = state.with_guild_channels(id, parts.channels@);
            let emojis = channels.with_emojis(id, parts.emojis@);
            let members = emojis.with_members(id, parts.members@);
            let presences = members.with_presences(Some(id), parts.presences@);
            let roles = presences.with_roles(id, parts.roles@);
            let forgotten = CacheState {
                guild_voice_states: state.guild_voice_states.insert(id.0, Map::empty()),
                ..state
            };
            &&& after.channels_guild == roles.channels_guild
            &&& after.emojis == roles.emojis
            &&& after.members == roles.members
            &&& after.presences == roles.presences
            &&& after.roles == roles.roles
            &&& after.users == roles.users
            &&& after.guild_voice_states == forgotten.with_voice_states(
                parts.voice_states@,
            ).guild_voice_states
        }),
{
    let id = parts.guild.id;
    let s = stages(state, parts);
    let channels = state.with_guild_channels(id, parts.channels@);
    let emojis = channels.with_emojis(id, parts.emojis@);
    let members = emojis.with_members(id, parts.members@);
    let presences = members.with_presences(Some(id), parts.presences@);
    let forgotten = CacheState {
        guild_voice_states: state.guild_voice_states.insert(id.0, Map::empty()),
        ..state
    };
    lemma_stages(state, parts);
    lemma_users_stay(state, parts);
    guild_channels_change_only_guild_channels(s.places, id, parts.channels@);
    guild_channels_change_only_guild_channels(state, id, parts.channels@);
    emojis_change_only_emojis_and_users(s.channels, id, parts.emojis@);
    emojis_change_only_emojis_and_users(channels, id, parts.emojis@);
    members_change_only_members_and_users(s.emojis, id, parts.members@);
    members_change_only_members_and_users(emojis, id, parts.members@);
    presences_change_only_presences(members, Some(id), parts.presences@);
    roles_change_only_roles(presences, id, parts.roles@);
    lemma_guild_channels_depend_on_what_is_held(s.places, state, id, parts.channels@);
    lemma_emojis_depend_on_what_is_held(s.channels, channels, id, parts.emojis@);
    lemma_members_depend_on_what_is_held(s.emojis, emojis, id, parts.members@);
    lemma_presences_depend_on_presences(s.members, members, Some(id), parts.presences@);
    lemma_roles_depend_on_roles(s.presences, presences, id, parts.roles@);
    lemma_voice_states_depend_on_voice_states(s.roles, forgotten, parts.voice_states@);
}

/// A list of the values of a map holds as many items as there are values.
proof fn lemma_lists_as_many<V>(list: Seq<V>, map: Map<u64, V>)
    requires
        lists_values(list, map),
    ensures
        list.len() == map.dom().len(),
{
    let keys = choose|keys: Seq<u64>| lists_values_by(keys, list, map);
    keys.unique_seq_to_set();
}

/// The parts of a guild are what came with it: all of it, and nothing else, each
/// once.
pub proof fn the_parts_of_a_guild_are_what_came_with_it(guild: Guild, parts: GuildParts)
    requires
        parts.are_of(guild),
    ensures
        parts.channels@.len() == guild.channels@.dom().len(),
        forall|v: GuildChannel| #[trigger]
            parts.channels@.contains(v) == guild.channels@.contains_value(v),
        parts.emojis@.len() == guild.emojis@.dom().len(),
        forall|v: Emoji| #[trigger] parts.emojis@.contains(v) == guild.emojis@.contains_value(v),
        parts.members@.len() == guild.members@.dom().len(),
        forall|v: Member| #[trigger] parts.members@.contains(v) == guild.members@.contains_value(v),
        parts.presences@.len() == guild.presences@.dom().len(),
        forall|v: Presence| #[trigger]
            parts.presences@.contains(v) == guild.presences@.contains_value(v),
        parts.roles@.len() == guild.roles@.dom().len(),
        forall|v: Role| #[trigger] parts.roles@.contains(v) == guild.roles@.contains_value(v),
        parts.voice_states@.len() == guild.voice_states@.dom().len(),
        forall|v: VoiceState| #[trigger]
            parts.voice_states@.contains(v) == guild.voice_states@.contains_value(v),
{
    lemma_lists_as_many(parts.channels@, guild.channels@);
    assert forall|v: GuildChannel| #[trigger]
        parts.channels@.contains(v) == guild.channels@.contains_value(v) by {
        lemma_lists_exactly_the_values(parts.channels@, guild.channels@, v);
    }
    lemma_lists_as_many(parts.emojis@, guild.emojis@);
    assert forall|v: Emoji| #[trigger]
        parts.emojis@.contains(v) == guild.emojis@.contains_value(v) by {
        lemma_lists_exactly_the_values(parts.emojis@, guild.emojis@, v);
    }
    lemma_lists_as_many(parts.members@, guild.members@);
    assert forall|v: Member| #[trigger]
        parts.members@.contains(v) == guild.members@.contains_value(v) by {
        lemma_lists_exactly_the_values(parts.members@, guild.members@, v);
    }
    lemma_lists_as_many(parts.presences@, guild.presences@);
    assert forall|v: Presence| #[trigger]
        parts.presences@.contains(v) == guild.presences@.contains_value(v) by {
        lemma_lists_exactly_the_values(parts.presences@, guild.presences@, v);
    }
    lemma_lists_as_many(parts.roles@, guild.roles@);
    assert forall|v: Role| #[trigger]
        parts.roles@.contains(v) == guild.roles@.contains_value(v) by {
        lemma_lists_exactly_the_values(parts.roles@, guild.roles@, v);
    }
    lemma_lists_as_many(parts.voice_states@, guild.voice_states@);
    assert forall|v: VoiceState| #[trigger]
        parts.voice_states@.contains(v) == guild.voice_states@.contains_value(v) by {
        lemma_lists_exactly_the_values(parts.voice_states@, guild.voice_states@, v);
    }
}

} // verus!
