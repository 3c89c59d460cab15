//! That the order in which things with different ids are cached makes no
//! difference.

use crate::folds::{keys_differ, lemma_keyed_fold_in_any_order};
use crate::frames::{
    guild_channels_change_only_guild_channels, presences_change_only_presences,
    roles_change_only_roles, voice_states_change_only_voice_states,
};
use crate::model::channel::GuildChannel;
use crate::model::guild::Role;
use crate::model::id::GuildId;
use crate::model::presence::Presence;
use crate::model::voice::VoiceState;
use crate::state::{guild_number, lookup, lookup_in, CacheState};
use vstd::prelude::*;

verus! {

/// Two lists hold the same items.
pub open spec fn same_elements<A>(items: Seq<A>, others: Seq<A>) -> bool {
    forall|a: A| #[trigger] items.contains(a) == others.contains(a)
}

/// Two maps in which the same is found everywhere are the same.
proof fn lemma_same_lookups<K, V>(map: Map<K, V>, other: Map<K, V>)
    requires
        forall|k: K| #[trigger] lookup(map, k) == lookup(other, k),
    ensures
        map == other,
{
    assert forall|k: K| #[trigger] map.dom().contains(k) == other.dom().contains(k) by {
        assert(lookup(map, k) == lookup(other, k));
    }
    assert(map.dom() =~= other.dom());
    assert forall|k: K| #[trigger] map.dom().contains(k) implies map[k] == other[k] by {
        assert(lookup(map, k) == lookup(other, k));
    }
    assert(map =~= other);
}

/// Roles of a guild with different ids can be cached in any order.
pub proof fn roles_can_be_cached_in_any_order(
    state: CacheState,
    guild_id: GuildId,
    roles: Seq<Role>,
    others: Seq<Role>,
)
    requires
        keys_differ(roles, |role: Role| role.id.0),
        keys_differ(others, |role: Role| role.id.0),
        same_elements(roles, others),
    ensures
        state.with_roles(guild_id, roles) == state.with_roles(guild_id, others),
{
    let step = |s: CacheState, role: Role| s.with_role(guild_id, role);
    let key = |role: Role| role.id.0;
    let at = |s: CacheState, k: u64| lookup(s.roles, k);
    let after = state.with_roles(guild_id, roles);
    let other = state.with_roles(guild_id, others);
    assert forall|k: u64| #[trigger]
        lookup(after.roles, k) == lookup(other.roles, k) by {
        lemma_keyed_fold_in_any_order(roles, others, state, step, key, at, k);
        assert(at(after, k) == at(other, k));
    }
    lemma_same_lookups(after.roles, other.roles);
    roles_change_only_roles(state, guild_id, roles);
    roles_change_only_roles(state, guild_id, others);
}

/// Presences of different users, in one guild or all outside of any, can be
/// cached in any order.
pub proof fn presences_can_be_cached_in_any_order(
    state: CacheState,
    guild_id: Option<GuildId>,
    presences: Seq<Presence>,
    others: Seq<Presence>,
)
    requires
        keys_differ(
            presences,
            |presence: Presence| (guild_number(guild_id), presence.user.spec_id().0),
        ),
        keys_differ(
            others,
            |presence: Presence| (guild_number(guild_id), presence.user.spec_id().0),
        ),
        same_elements(presences, others),
    ensures
        state.with_presences(guild_id, presences) == state.with_presences(guild_id, others),
{
    let step = |s: CacheState, presence: Presence| s.with_presence(guild_id, presence);
    let key = |presence: Presence| (guild_number(guild_id), presence.user.spec_id().0);
    let at = |s: CacheState, k: (Option<u64>, u64)| lookup(s.presences, k);
    let after = state.with_presences(guild_id, presences);
    let other = state.with_presences(guild_id, others);
    assert forall|k: (Option<u64>, u64)| #[trigger]
        lookup(after.presences, k) == lookup(other.presences, k) by {
        lemma_keyed_fold_in_any_order(presences, others, state, step, key, at, k);
        assert(at(after, k) == at(other, k));
    }
    lemma_same_lookups(after.presences, other.presences);
    presences_change_only_presences(state, guild_id, presences);
    presences_change_only_presences(state, guild_id, others);
}

/// Channels of a guild with different ids can be cached in any order.
pub proof fn guild_channels_can_be_cached_in_any_order(
    state: CacheState,
    guild_id: GuildId,
    channels: Seq<GuildChannel>,
    others: Seq<GuildChannel>,
)
    requires
        keys_differ(channels, |channel: GuildChannel| channel.spec_id().0),
        keys_differ(others, |channel: GuildChannel| channel.spec_id().0),
        same_elements(channels, others),
    ensures
        state.with_guild_channels(guild_id, channels) == state.with_guild_channels(
            guild_id,
            others,
        ),
{
    let step = |s: CacheState, channel: GuildChannel| s.with_guild_channel(guild_id, channel);
    let key = |channel: GuildChannel| channel.spec_id().0;
    let at = |s: CacheState, k: u64| lookup(s.channels_guild, k);
    let after = state.with_guild_channels(guild_id, channels);
    let other = state.with_guild_channels(guild_id, others);
    assert forall|k: u64| #[trigger]
        lookup(after.channels_guild, k) == lookup(other.channels_guild, k) by {
        lemma_keyed_fold_in_any_order(channels, others, state, step, key, at, k);
        assert(at(after, k) == at(other, k));
    }
    lemma_same_lookups(after.channels_guild, other.channels_guild);
    let listed = |s: CacheState, k: u64| s.channels_of(guild_id).contains(k);
    assert forall|k: u64| after.channels_of(guild_id).contains(k) == other.channels_of(
        guild_id,
    ).contains(k) by {
        lemma_keyed_fold_in_any_order(channels, others, state, step, key, listed, k);
        assert(listed(after, k) == listed(other, k));
    }
    assert(after.channels_of(guild_id) =~= other.channels_of(guild_id));
    lemma_lists_of_channels(state, guild_id, channels);
    lemma_lists_of_channels(state, guild_id, others);
    assert(channels.len() == 0 <==> others.len() == 0) by {
        if channels.len() > 0 {
            assert(channels.contains(channels[0]));
            assert(others.contains(channels[0]));
        }
        if others.len() > 0 {
            assert(others.contains(others[0]));
            assert(channels.contains(others[0]));
        }
    }
    guild_channels_change_only_guild_channels(state, guild_id, channels);
    guild_channels_change_only_guild_channels(state, guild_id, others);
}

/// Caching channels of a guild changes no list of channels but that of the guild.
proof fn lemma_lists_of_channels(state: CacheState, guild_id: GuildId, channels: Seq<GuildChannel>)
    ensures
        ({
            let after = state.with_guild_channels(guild_id, channels);
            after.guild_channels == (if channels.len() == 0 {
                state.guild_channels
            } else {
                state.guild_channels.insert(guild_id.0, after.channels_of(guild_id))
            })
        }),
    decreases channels.len(),
{
    let after = state.with_guild_channels(guild_id, channels);
    if channels.len() > 0 {
        lemma_lists_of_channels(state, guild_id, channels.drop_last());
        assert(after.guild_channels =~= state.guild_channels.insert(
            guild_id.0,
            after.channels_of(guild_id),
        ));
    }
}

/// Voice states of different users, or in different guilds, can be cached in any
/// order.
pub proof fn voice_states_can_be_cached_in_any_order(
    state: CacheState,
    voice_states: Seq<VoiceState>,
    others: Seq<VoiceState>,
)
    requires
        keys_differ(voice_states, |vs: VoiceState| (guild_number(vs.guild_id), vs.user_id.0)),
        keys_differ(others, |vs: VoiceState| (guild_number(vs.guild_id), vs.user_id.0)),
        same_elements(voice_states, others),
    ensures
        state.with_voice_states(voice_states) == state.with_voice_states(others),
{
    let step = |s: CacheState, vs: VoiceState| s.with_voice_state(vs);
    let key = |vs: VoiceState| (guild_number(vs.guild_id), vs.user_id.0);
    let at = |s: CacheState, k: (Option<u64>, u64)|
        match k.0 {
            Some(guild_id) => (
                s.guild_voice_states.contains_key(guild_id),
                lookup_in(s.guild_voice_states, guild_id, k.1),
            ),
            None => (false, None),
        };
    let after = state.with_voice_states(voice_states);
    let other = state.with_voice_states(others);
    voice_states_change_only_voice_states(state, voice_states);
    voice_states_change_only_voice_states(state, others);
    assert forall|guild_id: u64| #[trigger]
        after.guild_voice_states.contains_key(guild_id) implies after.guild_voice_states[guild_id]
        == other.guild_voice_states[guild_id] by {
        let left = after.guild_voice_states[guild_id];
        let right = other.guild_voice_states[guild_id];
        assert forall|user_id: u64| #[trigger] lookup(left, user_id) == lookup(right, user_id) by {
            let k = (Some(guild_id), user_id);
            lemma_keyed_fold_in_any_order(voice_states, others, state, step, key, at, k);
            assert(at(after, k) == at(other, k));
        }
        lemma_same_lookups(left, right);
    }
    assert(after.guild_voice_states =~= other.guild_voice_states);
}

} // verus!
