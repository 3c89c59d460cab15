//! That everything in the cache is found where its own ids say, whatever has
//! been cached and deleted.

use crate::config::InMemoryConfig;
use crate::folds::lemma_fold_keeps;
use crate::frames::{
    parts_of_a_guild_leave_guilds_and_voice_states_alone, voice_states_change_only_voice_states,
};
use crate::model::cached::GuildParts;
use crate::model::channel::{Group, GuildChannel, PrivateChannel};
use crate::model::guild::{Emoji, Member, Role};
use crate::model::id::{ChannelId, GuildId, RoleId};
use crate::model::presence::Presence;
use crate::model::user::{CurrentUser, User};
use crate::model::voice::VoiceState;
use crate::state::{belongs_there, lookup_in, CacheState};
use vstd::prelude::*;

verus! {

/// A new cache is consistent.
pub proof fn a_new_cache_is_consistent(config: InMemoryConfig)
    ensures
        CacheState::empty(config).consistent(),
{
}

/// Caching the current user keeps the cache consistent.
pub proof fn caching_the_current_user_keeps_the_cache_consistent(
    state: CacheState,
    user: CurrentUser,
)
    requires
        state.consistent(),
    ensures
        state.with_current_user(user).consistent(),
{
}

/// Caching a user keeps the cache consistent.
pub proof fn caching_a_user_keeps_the_cache_consistent(state: CacheState, user: User)
    requires
        state.consistent(),
    ensures
        state.with_user(user).consistent(),
{
}

/// Caching a group keeps the cache consistent.
pub proof fn caching_a_group_keeps_the_cache_consistent(state: CacheState, group: Group)
    requires
        state.consistent(),
    ensures
        state.with_group(group).consistent(),
{
}

/// Caching a private channel keeps the cache consistent.
pub proof fn caching_a_private_channel_keeps_the_cache_consistent(
    state: CacheState,
    channel: PrivateChannel,
)
    requires
        state.consistent(),
    ensures
        state.with_private_channel(channel).consistent(),
{
}

/// Caching a role keeps the cache consistent.
pub proof fn caching_a_role_keeps_the_cache_consistent(
    state: CacheState,
    guild_id: GuildId,
    role: Role,
)
    requires
        state.consistent(),
    ensures
        state.with_role(guild_id, role).consistent(),
{
}

/// Caching a channel of a guild keeps the cache consistent.
pub proof fn caching_a_guild_channel_keeps_the_cache_consistent(
    state: CacheState,
    guild_id: GuildId,
    channel: GuildChannel,
)
    requires
        state.consistent(),
    ensures
        state.with_guild_channel(guild_id, channel).consistent(),
{
}

/// Caching an emoji keeps the cache consistent.
pub proof fn caching_an_emoji_keeps_the_cache_consistent(
    state: CacheState,
    guild_id: GuildId,
    emoji: Emoji,
)
    requires
        state.consistent(),
    ensures
        state.with_emoji(guild_id, emoji).consistent(),
{
}

/// Caching a member keeps the cache consistent.
pub proof fn caching_a_member_keeps_the_cache_consistent(
    state: CacheState,
    guild_id: GuildId,
    member: Member,
)
    requires
        state.consistent(),
    ensures
        state.with_member(guild_id, member).consistent(),
{
}

/// Caching a presence keeps the cache consistent.
pub proof fn caching_a_presence_keeps_the_cache_consistent(
    state: CacheState,
    guild_id: Option<GuildId>,
    presence: Presence,
)
    requires
        state.consistent(),
    ensures
        state.with_presence(guild_id, presence).consistent(),
{
}

/// Caching a voice state keeps the cache consistent.
pub proof fn caching_a_voice_state_keeps_the_cache_consistent(state: CacheState, vs: VoiceState)
    requires
        state.consistent(),
    ensures
        state.with_voice_state(vs).consistent(),
{
    let after = state.with_voice_state(vs);
    assert forall|guild_id: u64, user_id: u64|
        belongs_there(
            #[trigger] lookup_in(after.guild_voice_states, guild_id, user_id),
            guild_id,
            user_id,
        ) by {
        assert(belongs_there(
            lookup_in(state.guild_voice_states, guild_id, user_id),
            guild_id,
            user_id,
        ));
    }
}

/// Caching channels of a guild keeps the cache consistent.
pub proof fn caching_guild_channels_keeps_the_cache_consistent(
    state: CacheState,
    guild_id: GuildId,
    channels: Seq<GuildChannel>,
)
    requires
        state.consistent(),
    ensures
        state.with_guild_channels(guild_id, channels).consistent(),
{
    let step = |s: CacheState, channel: GuildChannel| s.with_guild_channel(guild_id, channel);
    let consistent = |s: CacheState| s.consistent();
    assert forall|s: CacheState, i: int|
        0 <= i < channels.len() && consistent(s) implies #[trigger] consistent(
        step(s, channels[i]),
    ) by {
        caching_a_guild_channel_keeps_the_cache_consistent(s, guild_id, channels[i]);
    }
    lemma_fold_keeps(channels, state, step, consistent);
}

/// Caching emojis keeps the cache consistent.
pub proof fn caching_emojis_keeps_the_cache_consistent(
    state: CacheState,
    guild_id: GuildId,
    emojis: Seq<Emoji>,
)
    requires
        state.consistent(),
    ensures
        state.with_emojis(guild_id, emojis).consistent(),
{
    let step = |s: CacheState, emoji: Emoji| s.with_emoji(guild_id, emoji);
    let consistent = |s: CacheState| s.consistent();
    assert forall|s: CacheState, i: int|
        0 <= i < emojis.len() && consistent(s) implies #[trigger] consistent(
        step(s, emojis[i]),
    ) by {
        caching_an_emoji_keeps_the_cache_consistent(s, guild_id, emojis[i]);
    }
    lemma_fold_keeps(emojis, state, step, consistent);
}

/// Caching members keeps the cache consistent.
pub proof fn caching_members_keeps_the_cache_consistent(
    state: CacheState,
    guild_id: GuildId,
    members: Seq<Member>,
)
    requires
        state.consistent(),
    ensures
        state.with_members(guild_id, members).consistent(),
{
    let step = |s: CacheState, member: Member| s.with_member(guild_id, member);
    let consistent = |s: CacheState| s.consistent();
    assert forall|s: CacheState, i: int|
        0 <= i < members.len() && consistent(s) implies #[trigger] consistent(
        step(s, members[i]),
    ) by {
        caching_a_member_keeps_the_cache_consistent(s, guild_id, members[i]);
    }
    lemma_fold_keeps(members, state, step, consistent);
}

/// Caching presences keeps the cache consistent.
pub proof fn caching_presences_keeps_the_cache_consistent(
    state: CacheState,
    guild_id: Option<GuildId>,
    presences: Seq<Presence>,
)
    requires
        state.consistent(),
    ensures
        state.with_presences(guild_id, presences).consistent(),
{
    let step = |s: CacheState, presence: Presence| s.with_presence(guild_id, presence);
    let consistent = |s: CacheState| s.consistent();
    assert forall|s: CacheState, i: int|
        0 <= i < presences.len() && consistent(s) implies #[trigger] consistent(
        step(s, presences[i]),
    ) by {
        caching_a_presence_keeps_the_cache_consistent(s, guild_id, presences[i]);
    }
    lemma_fold_keeps(presences, state, step, consistent);
}

/// Caching roles keeps the cache consistent.
pub proof fn caching_roles_keeps_the_cache_consistent(
    state: CacheState,
    guild_id: GuildId,
    roles: Seq<Role>,
)
    requires
        state.consistent(),
    ensures
        state.with_roles(guild_id, roles).consistent(),
{
    let step = |s: CacheState, role: Role| s.with_role(guild_id, role);
    let consistent = |s: CacheState| s.consistent();
    assert forall|s: CacheState, i: int|
        0 <= i < roles.len() && consistent(s) implies #[trigger] consistent(
        step(s, roles[i]),
    ) by {
        caching_a_role_keeps_the_cache_consistent(s, guild_id, roles[i]);
    }
    lemma_fold_keeps(roles, state, step, consistent);
}

/// Caching voice states keeps the cache consistent.
pub proof fn caching_voice_states_keeps_the_cache_consistent(
    state: CacheState,
    voice_states: Seq<VoiceState>,
)
    requires
        state.consistent(),
    ensures
        state.with_voice_states(voice_states).consistent(),
{
    let step = |s: CacheState, vs: VoiceState| s.with_voice_state(vs);
    let consistent = |s: CacheState| s.consistent();
    assert forall|s: CacheState, i: int|
        0 <= i < voice_states.len() && consistent(s) implies #[trigger] consistent(
        step(s, voice_states[i]),
    ) by {
        caching_a_voice_state_keeps_the_cache_consistent(s, voice_states[i]);
    }
    lemma_fold_keeps(voice_states, state, step, consistent);
}

/// Caching a guild keeps the cache consistent.
pub proof fn caching_a_guild_keeps_the_cache_consistent(state: CacheState, parts: GuildParts)
    requires
        state.consistent(),
    ensures
        state.with_guild(parts).consistent(),
{
    let id = parts.guild.id;
    let s0 = state.with_places_for(id);
    assert forall|guild_id: u64, user_id: u64|
        belongs_there(
            #[trigger] lookup_in(s0.guild_voice_states, guild_id, user_id),
            guild_id,
            user_id,
        ) by {
        assert(belongs_there(
            lookup_in(state.guild_voice_states, guild_id, user_id),
            guild_id,
            user_id,
        ));
    }
    let s1 = s0.with_guild_channels(id, parts.channels@);
    caching_guild_channels_keeps_the_cache_consistent(s0, id, parts.channels@);
    let s2 = s1.with_emojis(id, parts.emojis@);
    caching_emojis_keeps_the_cache_consistent(s1, id, parts.emojis@);
    let s3 = s2.with_members(id, parts.members@);
    caching_members_keeps_the_cache_consistent(s2, id, parts.members@);
    let s4 = s3.with_presences(Some(id), parts.presences@);
    caching_presences_keeps_the_cache_consistent(s3, Some(id), parts.presences@);
    let s5 = s4.with_roles(id, parts.roles@);
    caching_roles_keeps_the_cache_consistent(s4, id, parts.roles@);
    let s6 = s5.with_voice_states(parts.voice_states@);
    caching_voice_states_keeps_the_cache_consistent(s5, parts.voice_states@);
    parts_of_a_guild_leave_guilds_and_voice_states_alone(s0, parts);
    voice_states_change_only_voice_states(s5, parts.voice_states@);
}

/// Deleting a group keeps the cache consistent.
pub proof fn deleting_a_group_keeps_the_cache_consistent(state: CacheState, channel_id: ChannelId)
    requires
        state.consistent(),
    ensures
        state.without_group(channel_id).consistent(),
{
}

/// Deleting a channel of a guild keeps the cache consistent.
pub proof fn deleting_a_guild_channel_keeps_the_cache_consistent(
    state: CacheState,
    channel_id: ChannelId,
)
    requires
        state.consistent(),
    ensures
        state.without_guild_channel(channel_id).consistent(),
{
}

/// Deleting a role keeps the cache consistent.
pub proof fn deleting_a_role_keeps_the_cache_consistent(state: CacheState, role_id: RoleId)
    requires
        state.consistent(),
    ensures
        state.without_role(role_id).consistent(),
{
}

/// Noting that a guild is unavailable keeps the cache consistent.
pub proof fn an_unavailable_guild_keeps_the_cache_consistent(state: CacheState, guild_id: GuildId)
    requires
        state.consistent(),
    ensures
        state.with_unavailable_guild(guild_id).consistent(),
{
}

} // verus!
