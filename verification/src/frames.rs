//! That caching one sort of thing leaves the others alone.

use crate::folds::lemma_fold_keeps;
use crate::model::cached::GuildParts;
use crate::model::channel::GuildChannel;
use crate::model::guild::{Emoji, Member, Role};
use crate::model::id::GuildId;
use crate::model::presence::Presence;
use crate::model::voice::VoiceState;
use crate::state::CacheState;
use vstd::prelude::*;

verus! {

/// Caching channels of a guild changes the channels of guilds, and nothing else,
/// and no guild loses its place for them.
pub proof fn guild_channels_change_only_guild_channels(
    state: CacheState,
    guild_id: GuildId,
    channels: Seq<GuildChannel>,
)
    ensures
        ({
            let after = state.with_guild_channels(guild_id, channels);
            &&& after == (CacheState {
                channels_guild: after.channels_guild,
                guild_channels: after.guild_channels,
                ..state
            })
            &&& state.guild_channels.dom().subset_of(after.guild_channels.dom())
        }),
{
    let holds = |after: CacheState|
        {
            &&& after == (CacheState {
                channels_guild: after.channels_guild,
                guild_channels: after.guild_channels,
                ..state
            })
            &&& state.guild_channels.dom().subset_of(after.guild_channels.dom())
        };
    let step = |s: CacheState, channel: GuildChannel| s.with_guild_channel(guild_id, channel);
    assert forall|s: CacheState, i: int|
        0 <= i < channels.len() && holds(s) implies #[trigger] holds(step(s, channels[i])) by {
        assert(step(s, channels[i]) == s.with_guild_channel(guild_id, channels[i]));
    }
    lemma_fold_keeps(channels, state, step, holds);
}

/// Caching emojis changes the emojis and the users, and nothing else.
pub proof fn emojis_change_only_emojis_and_users(
    state: CacheState,
    guild_id: GuildId,
    emojis: Seq<Emoji>,
)
    ensures
        ({
            let after = state.with_emojis(guild_id, emojis);
            after == (CacheState { emojis: after.emojis, users: after.users, ..state })
        }),
{
    let holds = |after: CacheState|
        after == (CacheState { emojis: after.emojis, users: after.users, ..state });
    let step = |s: CacheState, emoji: Emoji| s.with_emoji(guild_id, emoji);
    assert forall|s: CacheState, i: int|
        0 <= i < emojis.len() && holds(s) implies #[trigger] holds(step(s, emojis[i])) by {
        assert(step(s, emojis[i]) == s.with_emoji(guild_id, emojis[i]));
    }
    lemma_fold_keeps(emojis, state, step, holds);
}

/// Caching members changes the members and the users, and nothing else.
pub proof fn members_change_only_members_and_users(
    state: CacheState,
    guild_id: GuildId,
    members: Seq<Member>,
)
    ensures
        ({
            let after = state.with_members(guild_id, members);
            after == (CacheState { members: after.members, users: after.users, ..state })
        }),
{
    let holds = |after: CacheState|
        after == (CacheState { members: after.members, users: after.users, ..state });
    let step = |s: CacheState, member: Member| s.with_member(guild_id, member);
    assert forall|s: CacheState, i: int|
        0 <= i < members.len() && holds(s) implies #[trigger] holds(step(s, members[i])) by {
        assert(step(s, members[i]) == s.with_member(guild_id, members[i]));
    }
    lemma_fold_keeps(members, state, step, holds);
}

/// Caching presences changes the presences, and nothing else.
pub proof fn presences_change_only_presences(
    state: CacheState,
    guild_id: Option<GuildId>,
    presences: Seq<Presence>,
)
    ensures
        ({
            let after = state.with_presences(guild_id, presences);
            after == (CacheState { presences: after.presences, ..state })
        }),
{
    let holds = |after: CacheState| after == (CacheState { presences: after.presences, ..state });
    let step = |s: CacheState, presence: Presence| s.with_presence(guild_id, presence);
    assert forall|s: CacheState, i: int|
        0 <= i < presences.len() && holds(s) implies #[trigger] holds(step(s, presences[i])) by {
        assert(step(s, presences[i]) == s.with_presence(guild_id, presences[i]));
    }
    lemma_fold_keeps(presences, state, step, holds);
}

/// Caching roles changes the roles, and nothing else.
pub proof fn roles_change_only_roles(
    state: CacheState,
    guild_id: GuildId,
    roles: Seq<Role>,
)
    ensures
        ({
            let after = state.with_roles(guild_id, roles);
            after == (CacheState { roles: after.roles, ..state })
        }),
{
    let holds = |after: CacheState| after == (CacheState { roles: after.roles, ..state });
    let step = |s: CacheState, role: Role| s.with_role(guild_id, role);
    assert forall|s: CacheState, i: int|
        0 <= i < roles.len() && holds(s) implies #[trigger] holds(step(s, roles[i])) by {
        assert(step(s, roles[i]) == s.with_role(guild_id, roles[i]));
    }
    lemma_fold_keeps(roles, state, step, holds);
}

/// Caching voice states changes the voice states, and nothing else, and no guild
/// loses or gains a place for them.
pub proof fn voice_states_change_only_voice_states(
    state: CacheState,
    voice_states: Seq<VoiceState>,
)
    ensures
        ({
            let after = state.with_voice_states(voice_states);
            &&& after == (CacheState { guild_voice_states: after.guild_voice_states, ..state })
            &&& after.guild_voice_states.dom() == state.guild_voice_states.dom()
        }),
{
    let holds = |after: CacheState|
        {
            &&& after == (CacheState { guild_voice_states: after.guild_voice_states, ..state })
            &&& after.guild_voice_states.dom() == state.guild_voice_states.dom()
        };
    let step = |s: CacheState, vs: VoiceState| s.with_voice_state(vs);
    assert forall|s: CacheState, i: int|
        0 <= i < voice_states.len() && holds(s) implies #[trigger] holds(
        step(s, voice_states[i]),
    ) by {
        let after = s.with_voice_state(voice_states[i]);
        assert(after.guild_voice_states.dom() =~= s.guild_voice_states.dom());
    }
    lemma_fold_keeps(voice_states, state, step, holds);
}

/// Caching what belongs to a guild, short of its voice states, leaves the
/// guilds, and the voice states, alone, and no guild loses a place.
pub proof fn parts_of_a_guild_leave_guilds_and_voice_states_alone(
    state: CacheState,
    parts: GuildParts,
)
    ensures
        ({
            let after = state.with_parts_but_voice_states(parts);
            &&& after.config == state.config
            &&& after.channels_private == state.channels_private
            &&& after.current_user == state.current_user
            &&& after.groups == state.groups
            &&& after.guilds == state.guilds
            &&& after.guild_emojis == state.guild_emojis
            &&& after.guild_members == state.guild_members
            &&& after.guild_presences == state.guild_presences
            &&& after.guild_roles == state.guild_roles
            &&& after.guild_voice_states == state.guild_voice_states
            &&& after.messages == state.messages
            &&& after.unavailable_guilds == state.unavailable_guilds
            &&& state.guild_channels.dom().subset_of(after.guild_channels.dom())
        }),
{
    let id = parts.guild.id;
    let s1 = state.with_guild_channels(id, parts.channels@);
    guild_channels_change_only_guild_channels(state, id, parts.channels@);
    let s2 = s1.with_emojis(id, parts.emojis@);
    emojis_change_only_emojis_and_users(s1, id, parts.emojis@);
    let s3 = s2.with_members(id, parts.members@);
    members_change_only_members_and_users(s2, id, parts.members@);
    let s4 = s3.with_presences(Some(id), parts.presences@);
    presences_change_only_presences(s3, Some(id), parts.presences@);
    roles_change_only_roles(s4, id, parts.roles@);
}

} // verus!
