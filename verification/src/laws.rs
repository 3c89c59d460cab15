//! What the operations of the cache add up to: what is cached is read back,
//! what is deleted is gone, and what is cached twice is cached once.

use crate::config::{InMemoryConfig, InMemoryConfigBuilder};
use crate::error::InMemoryCacheError;
use crate::model::channel::{Group, GuildChannel, PrivateChannel};
use crate::model::guild::{Emoji, Member, Role};
use crate::model::id::{ChannelId, GuildId, RoleId};
use crate::model::presence::Presence;
use crate::model::user::{CurrentUser, User};
use crate::model::voice::VoiceState;
use crate::state::{
    guild_number, lookup, lookup_data, lookup_in, upsert, upsert_in_guild, voice_states_with,
    CacheState, GuildItem,
};
use crate::update::{RoleDelete, UpdateCache};
use std::sync::Arc;
use vstd::prelude::*;
use vstd::std_specs::cmp::PartialEqSpec;
use vstd::std_specs::convert::FromSpec;

verus! {

/// A new cache holds nothing that can be read.
pub proof fn a_new_cache_is_empty(config: InMemoryConfig)
    ensures
        ({
            let state = CacheState::empty(config);
            &&& state.config == config
            &&& state.current_user is None
            &&& forall|id: u64| lookup_data(state.channels_guild, id) is None
            &&& forall|id: u64| lookup(state.channels_private, id) is None
            &&& forall|id: u64| lookup_data(state.emojis, id) is None
            &&& forall|id: u64| lookup(state.groups, id) is None
            &&& forall|id: u64| lookup(state.guilds, id) is None
            &&& forall|key: (u64, u64)| lookup(state.members, key) is None
            &&& forall|channel: u64, id: u64| lookup_in(state.messages, channel, id) is None
            &&& forall|key: (Option<u64>, u64)| lookup(state.presences, key) is None
            &&& forall|id: u64| lookup_data(state.roles, id) is None
            &&& forall|id: u64| lookup(state.users, id) is None
            &&& forall|guild: u64, user: u64|
                lookup_in(state.guild_voice_states, guild, user) is None
        }),
{
}

/// The current user is read back as they were cached.
pub proof fn the_cached_current_user_is_read_back(state: CacheState, user: CurrentUser)
    ensures
        state.with_current_user(user).current_user == Some(Arc::new(user)),
{
}

/// A cached user is read back, and equals the one that was cached.
pub proof fn a_cached_user_is_read_back(state: CacheState, user: User)
    ensures
        lookup(state.with_user(user).users, user.id.0) matches Some(held) && (*held).eq_spec(&user),
{
}

/// A cached group is read back, and equals the one that was cached.
pub proof fn a_cached_group_is_read_back(state: CacheState, group: Group)
    ensures
        lookup(state.with_group(group).groups, group.id.0) matches Some(held) && (*held).eq_spec(
            &group,
        ),
{
}

/// A cached private channel is read back, and equals the one that was cached.
pub proof fn a_cached_private_channel_is_read_back(state: CacheState, channel: PrivateChannel)
    ensures
        lookup(
            state.with_private_channel(channel).channels_private,
            channel.id.0,
        ) matches Some(held) && (*held).eq_spec(&channel),
{
}

/// A cached role is read back, and equals the one that was cached.
pub proof fn a_cached_role_is_read_back(state: CacheState, guild_id: GuildId, role: Role)
    ensures
        lookup_data(state.with_role(guild_id, role).roles, role.id.0) matches Some(held)
            && (*held).eq_spec(&role),
{
}

/// A cached channel of a guild is read back. It equals the one that was cached,
/// but for naming the guild that it was cached for, and is among the channels of
/// that guild.
pub proof fn a_cached_guild_channel_is_read_back(
    state: CacheState,
    guild_id: GuildId,
    channel: GuildChannel,
)
    ensures
        ({
            let after = state.with_guild_channel(guild_id, channel);
            let id = channel.spec_id().0;
            &&& lookup_data(after.channels_guild, id) matches Some(held) && {
                &&& (*held).eq_spec(&channel.in_guild(guild_id))
                &&& held.spec_guild_id() == Some(guild_id)
            }
            &&& after.channels_of(guild_id).contains(id)
        }),
{
}

/// A cached emoji is read back, and equals the one that was cached.
pub proof fn a_cached_emoji_is_read_back(state: CacheState, guild_id: GuildId, emoji: Emoji)
    ensures
        lookup_data(state.with_emoji(guild_id, emoji).emojis, emoji.id.0) matches Some(held)
            && (*held).eq_spec(&emoji),
{
}

/// A cached member is read back, and equals the one that was cached.
pub proof fn a_cached_member_is_read_back(state: CacheState, guild_id: GuildId, member: Member)
    ensures
        lookup(
            state.with_member(guild_id, member).members,
            (guild_id.0, member.user.id.0),
        ) matches Some(held) && (*held).eq_spec(&member),
{
}

/// A cached presence is read back, and equals the one that was cached.
pub proof fn a_cached_presence_is_read_back(
    state: CacheState,
    guild_id: Option<GuildId>,
    presence: Presence,
)
    ensures
        lookup(
            state.with_presence(guild_id, presence).presences,
            (guild_number(guild_id), presence.user.spec_id().0),
        ) matches Some(held) && (*held).eq_spec(&presence),
{
}

/// A cached voice state in a channel of a guild that has a place for it is read
/// back, and equals the one that was cached. One that is in no channel is not
/// read back, and neither is what was cached before of its user in its guild.
pub proof fn a_cached_voice_state_is_read_back(
    state: CacheState,
    vs: VoiceState,
    guild_id: GuildId,
)
    requires
        vs.guild_id == Some(guild_id),
        state.knows_guild_of(vs),
    ensures
        ({
            let found = lookup_in(
                state.with_voice_state(vs).guild_voice_states,
                guild_id.0,
                vs.user_id.0,
            );
            if vs.channel_id is Some {
                found matches Some(held) && (*held).eq_spec(&vs)
            } else {
                found is None
            }
        }),
{
}

/// A voice state outside of any guild changes nothing.
pub proof fn a_voice_state_without_a_guild_changes_nothing(state: CacheState, vs: VoiceState)
    requires
        vs.guild_id is None,
    ensures
        state.with_voice_state(vs) == state,
{
}

/// Caching the current user once more changes nothing.
pub proof fn caching_the_current_user_once_more_changes_nothing(
    state: CacheState,
    user: CurrentUser,
)
    ensures
        state.with_current_user(user).with_current_user(user) == state.with_current_user(user),
{
}

/// Caching a user once more changes nothing.
pub proof fn caching_a_user_once_more_changes_nothing(
    state: CacheState,
    user: User,
)
    ensures
        state.with_user(user).with_user(user) == state.with_user(user),
{
}

/// Caching a group once more changes nothing.
pub proof fn caching_a_group_once_more_changes_nothing(
    state: CacheState,
    group: Group,
)
    ensures
        state.with_group(group).with_group(group) == state.with_group(group),
{
}

/// Caching a private channel once more changes nothing.
pub proof fn caching_a_private_channel_once_more_changes_nothing(
    state: CacheState,
    channel: PrivateChannel,
)
    ensures
        state.with_private_channel(channel).with_private_channel(channel)
            == state.with_private_channel(channel),
{
}

/// Caching a role once more changes nothing.
pub proof fn caching_a_role_once_more_changes_nothing(
    state: CacheState,
    guild_id: GuildId,
    role: Role,
)
    ensures
        state.with_role(guild_id, role).with_role(guild_id, role)
            == state.with_role(guild_id, role),
{
}

/// Caching a channel of a guild once more changes nothing.
pub proof fn caching_a_guild_channel_once_more_changes_nothing(
    state: CacheState,
    guild_id: GuildId,
    channel: GuildChannel,
)
    ensures
        state.with_guild_channel(guild_id, channel).with_guild_channel(guild_id, channel)
            == state.with_guild_channel(guild_id, channel),
{
    let once = state.with_guild_channel(guild_id, channel);
    let id = channel.spec_id().0;
    assert(once.channels_of(guild_id).insert(id) =~= once.channels_of(guild_id));
    assert(once.with_guild_channel(guild_id, channel) =~= once);
}

/// Caching an emoji once more changes nothing.
pub proof fn caching_an_emoji_once_more_changes_nothing(
    state: CacheState,
    guild_id: GuildId,
    emoji: Emoji,
)
    ensures
        state.with_emoji(guild_id, emoji).with_emoji(guild_id, emoji)
            == state.with_emoji(guild_id, emoji),
{
}

/// Caching a member once more changes nothing.
pub proof fn caching_a_member_once_more_changes_nothing(
    state: CacheState,
    guild_id: GuildId,
    member: Member,
)
    ensures
        state.with_member(guild_id, member).with_member(guild_id, member)
            == state.with_member(guild_id, member),
{
}

/// Caching a presence once more changes nothing.
pub proof fn caching_a_presence_once_more_changes_nothing(
    state: CacheState,
    guild_id: Option<GuildId>,
    presence: Presence,
)
    ensures
        state.with_presence(guild_id, presence).with_presence(guild_id, presence)
            == state.with_presence(guild_id, presence),
{
}

/// Caching a voice state once more changes nothing.
pub proof fn caching_a_voice_state_once_more_changes_nothing(
    state: CacheState,
    vs: VoiceState,
)
    ensures
        state.with_voice_state(vs).with_voice_state(vs) == state.with_voice_state(vs),
{
    let once = state.with_voice_state(vs);
    if let Some(guild_id) = vs.guild_id {
        if state.guild_voice_states.contains_key(guild_id.0) {
            let states = once.guild_voice_states[guild_id.0];
            assert(voice_states_with(states, vs) =~= states);
        }
    }
    assert(once.with_voice_state(vs) =~= once);
}

/// A deleted group is not read, whether or not it was cached, and deleting it
/// once more changes nothing.
pub proof fn a_deleted_group_is_gone(state: CacheState, channel_id: ChannelId)
    ensures
        ({
            let after = state.without_group(channel_id);
            &&& lookup(after.groups, channel_id.0) is None
            &&& after.without_group(channel_id) == after
        }),
{
    let after = state.without_group(channel_id);
    assert(after.without_group(channel_id) =~= after);
}

/// A deleted channel of a guild is not read, nor is it among the channels of the
/// guild that it was cached for. Deleting it once more changes nothing.
pub proof fn a_deleted_guild_channel_is_gone(state: CacheState, channel_id: ChannelId)
    ensures
        ({
            let after = state.without_guild_channel(channel_id);
            &&& lookup_data(after.channels_guild, channel_id.0) is None
            &&& state.channels_guild.contains_key(channel_id.0) ==> !after.channels_of(
                state.channels_guild[channel_id.0].guild_id,
            ).contains(channel_id.0)
            &&& after.without_guild_channel(channel_id) == after
        }),
{
}

/// A deleted role is not read, nor is it among the roles of the guild that it
/// was cached for. Deleting it once more changes nothing.
pub proof fn a_deleted_role_is_gone(state: CacheState, role_id: RoleId)
    ensures
        ({
            let after = state.without_role(role_id);
            &&& lookup_data(after.roles, role_id.0) is None
            &&& forall|guild_id: u64|
                state.roles.contains_key(role_id.0) && state.roles[role_id.0].guild_id.0
                    == guild_id && #[trigger] after.guild_roles.contains_key(guild_id)
                    ==> !after.guild_roles[guild_id].contains(role_id.0)
            &&& after.without_role(role_id) == after
        }),
{
}

/// Deleting a group undoes caching it, if no group with its id was cached.
pub proof fn deleting_a_group_undoes_caching_it(state: CacheState, group: Group)
    requires
        !state.groups.contains_key(group.id.0),
    ensures
        state.with_group(group).without_group(group.id) == state,
{
    assert(state.with_group(group).without_group(group.id) =~= state);
}

/// Deleting a channel of a guild undoes caching it, if no channel with its id
/// was cached and the guild had a place for its channels, without that id.
pub proof fn deleting_a_guild_channel_undoes_caching_it(
    state: CacheState,
    guild_id: GuildId,
    channel: GuildChannel,
)
    requires
        !state.channels_guild.contains_key(channel.spec_id().0),
        state.guild_channels.contains_key(guild_id.0),
        !state.channels_of(guild_id).contains(channel.spec_id().0),
    ensures
        state.with_guild_channel(guild_id, channel).without_guild_channel(channel.spec_id())
            == state,
{
    let after = state.with_guild_channel(guild_id, channel).without_guild_channel(
        channel.spec_id(),
    );
    assert(after.guild_channels[guild_id.0] =~= state.guild_channels[guild_id.0]);
    assert(after =~= state);
}

/// Deleting a role undoes caching it, if no role with its id was cached or
/// listed in the guild.
pub proof fn deleting_a_role_undoes_caching_it(state: CacheState, guild_id: GuildId, role: Role)
    requires
        !state.roles.contains_key(role.id.0),
        state.guild_roles.contains_key(guild_id.0) ==> !state.guild_roles[guild_id.0].contains(
            role.id.0,
        ),
    ensures
        state.with_role(guild_id, role).without_role(role.id) == state,
{
    let after = state.with_role(guild_id, role).without_role(role.id);
    if state.guild_roles.contains_key(guild_id.0) {
        assert(after.guild_roles[guild_id.0] =~= state.guild_roles[guild_id.0]);
    }
    assert(after =~= state);
}

/// An unavailable guild is not read. The other guilds are as they were.
pub proof fn an_unavailable_guild_is_not_read(state: CacheState, guild_id: GuildId)
    ensures
        ({
            let after = state.with_unavailable_guild(guild_id);
            &&& lookup(after.guilds, guild_id.0) is None
            &&& after.unavailable_guilds.contains(guild_id.0)
            &&& forall|other: u64|
                other != guild_id.0 ==> lookup(after.guilds, other) == lookup(state.guilds, other)
                    && after.unavailable_guilds.contains(other)
                    == state.unavailable_guilds.contains(other)
        }),
{
}

/// What is held under one key does not depend on what is cached under another.
pub proof fn caching_under_one_key_leaves_the_others_alone<V: PartialEq>(
    map: Map<u64, Arc<V>>,
    key: u64,
    value: V,
    other: u64,
)
    requires
        other != key,
    ensures
        lookup(upsert(map, key, value), other) == lookup(map, other),
{
}

/// What is held of a guild under one key does not depend on what is cached under
/// another.
pub proof fn caching_in_a_guild_under_one_key_leaves_the_others_alone<V: PartialEq>(
    map: Map<u64, GuildItem<V>>,
    guild_id: GuildId,
    key: u64,
    value: V,
    other: u64,
)
    requires
        other != key,
    ensures
        lookup(upsert_in_guild(map, guild_id, key, value), other) == lookup(map, other),
{
}

/// A new cache lists the channels that it holds: none.
pub proof fn a_new_cache_lists_what_it_holds(config: InMemoryConfig)
    ensures
        CacheState::empty(config).lists_what_it_holds(),
{
}

/// A cache that lists each channel for the guild that it holds it for does so
/// after caching a channel, unless it held that channel for another guild.
pub proof fn caching_a_guild_channel_lists_it(
    state: CacheState,
    guild_id: GuildId,
    channel: GuildChannel,
)
    requires
        state.consistent(),
        state.lists_what_it_holds(),
        state.channels_guild.contains_key(channel.spec_id().0) ==> state.holds_channel_for(
            guild_id.0,
            channel.spec_id().0,
        ),
    ensures
        state.with_guild_channel(guild_id, channel).lists_what_it_holds(),
{
    let after = state.with_guild_channel(guild_id, channel);
    assert forall|g: u64, id: u64| #[trigger]
        after.lists_channel(g, id) == after.holds_channel_for(g, id) by {
        assert(state.lists_channel(g, id) == state.holds_channel_for(g, id));
    }
}

/// A cache that lists each channel for the guild that it holds it for does so
/// after deleting a channel.
pub proof fn deleting_a_guild_channel_unlists_it(state: CacheState, channel_id: ChannelId)
    requires
        state.lists_what_it_holds(),
    ensures
        state.without_guild_channel(channel_id).lists_what_it_holds(),
{
    let after = state.without_guild_channel(channel_id);
    assert forall|g: u64, id: u64| #[trigger]
        after.lists_channel(g, id) == after.holds_channel_for(g, id) by {
        assert(state.lists_channel(g, id) == state.holds_channel_for(g, id));
    }
}

/// What is read under a key is what is held there, if anything is.
pub proof fn what_is_read_is_what_is_held<K, V>(map: Map<K, V>, key: K)
    ensures
        map.contains_key(key) ==> lookup(map, key) == Some(map[key]),
        !map.contains_key(key) ==> lookup(map, key) is None,
{
}

/// What is read of a guild under a key is the data that is held there, if any is.
pub proof fn what_is_read_of_a_guild_is_what_is_held<T>(map: Map<u64, GuildItem<T>>, key: u64)
    ensures
        map.contains_key(key) ==> lookup_data(map, key) == Some(map[key].data),
        !map.contains_key(key) ==> lookup_data(map, key) is None,
{
}

/// What is read under two keys is what is held there, if anything is.
pub proof fn what_is_read_under_two_keys_is_what_is_held<V>(
    maps: Map<u64, Map<u64, V>>,
    outer: u64,
    key: u64,
)
    ensures
        maps.contains_key(outer) && maps[outer].contains_key(key) ==> lookup_in(maps, outer, key)
            == Some(maps[outer][key]),
        maps.contains_key(outer) && !maps[outer].contains_key(key) ==> lookup_in(maps, outer, key)
            is None,
        !maps.contains_key(outer) ==> lookup_in(maps, outer, key) is None,
{
}

/// Presences in a guild are read by the number of the guild, and those outside of
/// any apart from them.
pub proof fn presences_are_read_by_guild(guild_id: GuildId)
    ensures
        guild_number(Some(guild_id)) == Some(guild_id.0),
        guild_number(None) is None,
{
}

/// A channel of a guild says its own id, and the guild that it names itself.
pub proof fn a_guild_channel_says_its_ids(channel: GuildChannel)
    ensures
        channel is Category ==> channel.spec_id() == channel->Category_0.id
            && channel.spec_guild_id() == channel->Category_0.guild_id,
        channel is Text ==> channel.spec_id() == channel->Text_0.id && channel.spec_guild_id()
            == channel->Text_0.guild_id,
        channel is Voice ==> channel.spec_id() == channel->Voice_0.id && channel.spec_guild_id()
            == channel->Voice_0.guild_id,
{
}

/// A presence is about the user that it names, in full or by id.
pub proof fn a_presence_is_about_the_user_that_it_names(presence: Presence)
    ensures
        presence.user is User ==> presence.user.spec_id() == presence.user->User_0.id,
        presence.user is UserId ==> presence.user.spec_id() == presence.user->UserId_id,
{
}

/// A voice state can be cached if it names no guild, or one that has a place for
/// voice states, and not otherwise.
pub proof fn a_voice_state_needs_a_place(state: CacheState, vs: VoiceState)
    ensures
        vs.guild_id is None ==> state.knows_guild_of(vs),
        vs.guild_id is Some ==> state.knows_guild_of(vs) == state.guild_voice_states.contains_key(
            (vs.guild_id->0).0,
        ),
{
}

/// Deleting a group takes out what is held under its id. Nothing else changes.
pub proof fn deleting_a_group_changes_nothing_else(state: CacheState, channel_id: ChannelId)
    ensures
        ({
            let after = state.without_group(channel_id);
            &&& after.groups == state.groups.remove(channel_id.0)
            &&& after == (CacheState { groups: after.groups, ..state })
        }),
{
}

/// Deleting a channel of a guild takes out what is held under its id, and its id
/// from the list of the guild that it is held for. Nothing else changes.
pub proof fn deleting_a_guild_channel_changes_nothing_else(
    state: CacheState,
    channel_id: ChannelId,
)
    ensures
        ({
            let after = state.without_guild_channel(channel_id);
            let id = channel_id.0;
            let guild_id = state.channels_guild[id].guild_id.0;
            &&& after.channels_guild == state.channels_guild.remove(id)
            &&& after == (CacheState {
                channels_guild: after.channels_guild,
                guild_channels: after.guild_channels,
                ..state
            })
            &&& !state.channels_guild.contains_key(id) ==> after == state
            &&& state.channels_guild.contains_key(id) ==> {
                &&& after.guild_channels.remove(guild_id) == state.guild_channels.remove(guild_id)
                &&& after.guild_channels.contains_key(guild_id)
                    == state.guild_channels.contains_key(guild_id)
                &&& state.guild_channels.contains_key(guild_id) ==> after.guild_channels[guild_id]
                    == state.guild_channels[guild_id].remove(id)
            }
        }),
{
    let after = state.without_guild_channel(channel_id);
    let guild_id = state.channels_guild[channel_id.0].guild_id.0;
    assert(after.channels_guild =~= state.channels_guild.remove(channel_id.0));
    assert(after.guild_channels.remove(guild_id) =~= state.guild_channels.remove(guild_id));
}

/// Deleting a role takes out what is held under its id, and its id from the list
/// of the guild that it is held for. Nothing else changes.
pub proof fn deleting_a_role_changes_nothing_else(state: CacheState, role_id: RoleId)
    ensures
        ({
            let after = state.without_role(role_id);
            let id = role_id.0;
            let guild_id = state.roles[id].guild_id.0;
            &&& after.roles == state.roles.remove(id)
            &&& after == (CacheState {
                roles: after.roles,
                guild_roles: after.guild_roles,
                ..state
            })
            &&& !state.roles.contains_key(id) ==> after == state
            &&& state.roles.contains_key(id) ==> {
                &&& after.guild_roles.remove(guild_id) == state.guild_roles.remove(guild_id)
                &&& after.guild_roles.contains_key(guild_id) == state.guild_roles.contains_key(
                    guild_id,
                )
                &&& state.guild_roles.contains_key(guild_id) ==> after.guild_roles[guild_id]
                    == state.guild_roles[guild_id].remove(id)
            }
        }),
{
    let after = state.without_role(role_id);
    let guild_id = state.roles[role_id.0].guild_id.0;
    assert(after.roles =~= state.roles.remove(role_id.0));
    assert(after.guild_roles.remove(guild_id) =~= state.guild_roles.remove(guild_id));
}

/// The deletion of a role can always update the cache. It takes out the role, if
/// it is held, whatever guild the event names, and leaves all the other roles,
/// and all else that can be read, as it was.
pub proof fn the_deletion_of_a_role_takes_out_the_role(
    event: RoleDelete,
    before: CacheState,
    after: CacheState,
    done: Result<(), InMemoryCacheError>,
)
    ensures
        event.can_update(before),
        event.updates(before, after, done) ==> {
            &&& done is Ok
            &&& after.roles == before.roles.remove(event.role_id.0)
            &&& after == (CacheState {
                roles: after.roles,
                guild_roles: after.guild_roles,
                ..before
            })
        },
{
    if event.updates(before, after, done) {
        deleting_a_role_changes_nothing_else(before, event.role_id);
    }
}

/// Noting that a guild is unavailable changes whether it is, and takes out the
/// guild. Nothing else changes.
pub proof fn an_unavailable_guild_changes_nothing_else(state: CacheState, guild_id: GuildId)
    ensures
        ({
            let after = state.with_unavailable_guild(guild_id);
            &&& after.guilds == state.guilds.remove(guild_id.0)
            &&& after.unavailable_guilds == state.unavailable_guilds.insert(guild_id.0)
            &&& after == (CacheState {
                guilds: after.guilds,
                unavailable_guilds: after.unavailable_guilds,
                ..state
            })
        }),
{
}

/// A new cache has no place for anything, and knows of no unavailable guild.
pub proof fn a_new_cache_has_no_places(config: InMemoryConfig)
    ensures
        ({
            let state = CacheState::empty(config);
            &&& state.guild_channels.is_empty()
            &&& state.guild_emojis.is_empty()
            &&& state.guild_members.is_empty()
            &&& state.guild_presences.is_empty()
            &&& state.guild_roles.is_empty()
            &&& state.guild_voice_states.is_empty()
            &&& state.unavailable_guilds.is_empty()
        }),
{
}

/// What a builder builds is what was set in it.
pub proof fn a_configuration_is_what_was_set(builder: InMemoryConfigBuilder)
    ensures
        <InMemoryConfig as FromSpec<InMemoryConfigBuilder>>::obeys_from_spec(),
        <InMemoryConfig as FromSpec<InMemoryConfigBuilder>>::from_spec(builder).message_cache_size
            == builder.0.message_cache_size,
{
}

/// Caching channels of a guild is caching them one after the other, the last one
/// last.
pub proof fn guild_channels_are_cached_one_after_the_other(
    state: CacheState,
    guild_id: GuildId,
    first: Seq<GuildChannel>,
    last: GuildChannel,
)
    ensures
        state.with_guild_channels(guild_id, Seq::empty()) == state,
        state.with_guild_channels(guild_id, first.push(last))
            == state.with_guild_channels(guild_id, first).with_guild_channel(
            guild_id,
            last,
        ),
{
    assert(first.push(last).drop_last() =~= first);
}

/// Caching emojis is caching them one after the other, the last one last.
pub proof fn emojis_are_cached_one_after_the_other(
    state: CacheState,
    guild_id: GuildId,
    first: Seq<Emoji>,
    last: Emoji,
)
    ensures
        state.with_emojis(guild_id, Seq::empty()) == state,
        state.with_emojis(guild_id, first.push(last))
            == state.with_emojis(guild_id, first).with_emoji(
            guild_id,
            last,
        ),
{
    assert(first.push(last).drop_last() =~= first);
}

/// Caching members is caching them one after the other, the last one last.
pub proof fn members_are_cached_one_after_the_other(
    state: CacheState,
    guild_id: GuildId,
    first: Seq<Member>,
    last: Member,
)
    ensures
        state.with_members(guild_id, Seq::empty()) == state,
        state.with_members(guild_id, first.push(last))
            == state.with_members(guild_id, first).with_member(
            guild_id,
            last,
        ),
{
    assert(first.push(last).drop_last() =~= first);
}

/// Caching presences is caching them one after the other, the last one last.
pub proof fn presences_are_cached_one_after_the_other(
    state: CacheState,
    guild_id: Option<GuildId>,
    first: Seq<Presence>,
    last: Presence,
)
    ensures
        state.with_presences(guild_id, Seq::empty()) == state,
        state.with_presences(guild_id, first.push(last))
            == state.with_presences(guild_id, first).with_presence(
            guild_id,
            last,
        ),
{
    assert(first.push(last).drop_last() =~= first);
}

/// Caching roles is caching them one after the other, the last one last.
pub proof fn roles_are_cached_one_after_the_other(
    state: CacheState,
    guild_id: GuildId,
    first: Seq<Role>,
    last: Role,
)
    ensures
        state.with_roles(guild_id, Seq::empty()) == state,
        state.with_roles(guild_id, first.push(last)) == state.with_roles(guild_id, first).with_role(
            guild_id,
            last,
        ),
{
    assert(first.push(last).drop_last() =~= first);
}

/// Caching voice states is caching them one after the other, the last one last.
pub proof fn voice_states_are_cached_one_after_the_other(
    state: CacheState,
    first: Seq<VoiceState>,
    last: VoiceState,
)
    ensures
        state.with_voice_states(Seq::empty()) == state,
        state.with_voice_states(first.push(last))
            == state.with_voice_states(first).with_voice_state(
            last,
        ),
{
    assert(first.push(last).drop_last() =~= first);
}

} // verus!
