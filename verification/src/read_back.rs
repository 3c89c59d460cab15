//! What is held after something is cached: every part of it as it came, and
//! all else as it was.

use crate::equality_laws::{
    categories_are_equal_exactly_if_every_part_is, text_channels_are_equal_exactly_if_every_part_is,
    voice_channels_are_equal_exactly_if_every_part_is,
};
use crate::model::channel::{Group, GuildChannel, PrivateChannel};
use crate::model::guild::{Emoji, Member, Role};
use crate::model::id::GuildId;
use crate::model::presence::{Presence, UserOrId};
use crate::model::user::{CurrentUser, User};
use crate::model::voice::VoiceState;
use crate::state::CacheState;
use vstd::prelude::*;
use vstd::std_specs::cmp::PartialEqSpec;

verus! {

/// The current user is held as they came. Nothing else changes.
pub proof fn the_current_user_is_held_as_they_came(state: CacheState, user: CurrentUser)
    ensures
        ({
            let after = state.with_current_user(user);
            &&& after.current_user is Some
            &&& *after.current_user->0 == user
            &&& after == (CacheState { current_user: after.current_user, ..state })
        }),
{
}

/// A cached user is held with every part as it came, and one that equals the one
/// held leaves that one there. Nothing else changes.
pub proof fn a_user_is_held_as_they_came(
    state: CacheState,
    user: User,
)
    ensures
        ({
            let after = state.with_user(user);
            let id = user.id.0;
            let held = *after.users[id];
            let same = state.users.contains_key(id) && (*state.users[id]).eq_spec(&user);
            &&& after.users.contains_key(id)
            &&& held.avatar.deep_view() == user.avatar.deep_view()
            &&& held.bot == user.bot
            &&& held.discriminator@ == user.discriminator@
            &&& held.email.deep_view() == user.email.deep_view()
            &&& held.flags == user.flags
            &&& held.id == user.id
            &&& held.locale.deep_view() == user.locale.deep_view()
            &&& held.mfa_enabled == user.mfa_enabled
            &&& held.name@ == user.name@
            &&& held.premium_type == user.premium_type
            &&& held.public_flags == user.public_flags
            &&& held.system == user.system
            &&& held.verified == user.verified
            &&& after.users.remove(id) == state.users.remove(id)
            &&& after == (CacheState { users: after.users, ..state })
            &&& same ==> after == state
            &&& !same ==> held == user
        }),
{
    let after = state.with_user(user);
    assert(after.users.remove(user.id.0) =~= state.users.remove(user.id.0));
}

/// A cached group is held with every part as it came, and one that equals the one
/// held leaves that one there. Nothing else changes.
pub proof fn a_group_is_held_as_it_came(
    state: CacheState,
    group: Group,
)
    ensures
        ({
            let after = state.with_group(group);
            let id = group.id.0;
            let held = *after.groups[id];
            let same = state.groups.contains_key(id) && (*state.groups[id]).eq_spec(&group);
            &&& after.groups.contains_key(id)
            &&& held.application_id == group.application_id
            &&& held.icon.deep_view() == group.icon.deep_view()
            &&& held.id == group.id
            &&& held.kind == group.kind
            &&& held.last_message_id == group.last_message_id
            &&& held.last_pin_timestamp.deep_view() == group.last_pin_timestamp.deep_view()
            &&& held.name.deep_view() == group.name.deep_view()
            &&& held.owner_id == group.owner_id
            &&& held.recipients@.len() == group.recipients@.len()
            &&& forall|i: int|
                0 <= i < held.recipients@.len() ==> (#[trigger] held.recipients@[i]).eq_spec(
                    &group.recipients@[i],
                )
            &&& after.groups.remove(id) == state.groups.remove(id)
            &&& after == (CacheState { groups: after.groups, ..state })
            &&& same ==> after == state
            &&& !same ==> held == group
        }),
{
    let after = state.with_group(group);
    assert(after.groups.remove(group.id.0) =~= state.groups.remove(group.id.0));
}

/// A cached private channel is held with every part as it came, and one that
/// equals the one held leaves that one there. Nothing else changes.
pub proof fn a_private_channel_is_held_as_it_came(
    state: CacheState,
    channel: PrivateChannel,
)
    ensures
        ({
            let after = state.with_private_channel(channel);
            let id = channel.id.0;
            let held = *after.channels_private[id];
            let same = state.channels_private.contains_key(id)
                && (*state.channels_private[id]).eq_spec(&channel);
            &&& after.channels_private.contains_key(id)
            &&& held.id == channel.id
            &&& held.last_message_id == channel.last_message_id
            &&& held.last_pin_timestamp.deep_view() == channel.last_pin_timestamp.deep_view()
            &&& held.kind == channel.kind
            &&& held.recipients@.len() == channel.recipients@.len()
            &&& forall|i: int|
                0 <= i < held.recipients@.len() ==> (#[trigger] held.recipients@[i]).eq_spec(
                    &channel.recipients@[i],
                )
            &&& after.channels_private.remove(id) == state.channels_private.remove(id)
            &&& after == (CacheState { channels_private: after.channels_private, ..state })
            &&& same ==> after == state
            &&& !same ==> held == channel
        }),
{
    let after = state.with_private_channel(channel);
    assert(after.channels_private.remove(channel.id.0) =~= state.channels_private.remove(
        channel.id.0,
    ));
}

/// A cached role is held with every part as it came, for its guild, and one that
/// equals the one held leaves that one there. Nothing else changes.
pub proof fn a_role_is_held_as_it_came(
    state: CacheState,
    guild_id: GuildId,
    role: Role,
)
    ensures
        ({
            let after = state.with_role(guild_id, role);
            let id = role.id.0;
            let held = *after.roles[id].data;
            let same = state.roles.contains_key(id) && (*state.roles[id].data).eq_spec(&role);
            &&& after.roles.contains_key(id)
            &&& held.color == role.color
            &&& held.hoist == role.hoist
            &&& held.id == role.id
            &&& held.managed == role.managed
            &&& held.mentionable == role.mentionable
            &&& held.name@ == role.name@
            &&& held.permissions == role.permissions
            &&& held.position == role.position
            &&& after.roles.remove(id) == state.roles.remove(id)
            &&& after == (CacheState { roles: after.roles, ..state })
            &&& same ==> after == state
            &&& !same ==> held == role && after.roles[id].guild_id == guild_id
        }),
{
    let after = state.with_role(guild_id, role);
    assert(after.roles.remove(role.id.0) =~= state.roles.remove(role.id.0));
}

/// The channel of a guild that is held under `id`.
spec fn channel_under(state: CacheState, id: u64) -> GuildChannel {
    *state.channels_guild[id].data
}

/// A cached category of a guild is held as a category, with every part as it came,
/// but that it names the guild.
pub proof fn a_category_is_held_as_it_came(
    state: CacheState,
    guild_id: GuildId,
    channel: GuildChannel,
)
    requires
        channel is Category,
    ensures
        ({
            let after = state.with_guild_channel(guild_id, channel);
            let came = channel->Category_0;
            let id = came.id.0;
            let held = (*after.channels_guild[id].data)->Category_0;
            &&& after.channels_guild.contains_key(id)
            &&& *after.channels_guild[id].data is Category
            &&& held.guild_id == Some(guild_id)
            &&& held.id == came.id
            &&& held.kind == came.kind
            &&& held.name@ == came.name@
            &&& held.nsfw == came.nsfw
            &&& held.parent_id == came.parent_id
            &&& held.permission_overwrites@ == came.permission_overwrites@
            &&& held.position == came.position
        }),
{
    let after = state.with_guild_channel(guild_id, channel);
    let came = channel->Category_0;
    categories_are_equal_exactly_if_every_part_is(
        channel_under(after, came.id.0)->Category_0,
        channel.in_guild(guild_id)->Category_0,
    );
}

/// A cached text channel of a guild is held as a text channel, with every part as it came,
/// but that it names the guild.
pub proof fn a_text_channel_is_held_as_it_came(
    state: CacheState,
    guild_id: GuildId,
    channel: GuildChannel,
)
    requires
        channel is Text,
    ensures
        ({
            let after = state.with_guild_channel(guild_id, channel);
            let came = channel->Text_0;
            let id = came.id.0;
            let held = (*after.channels_guild[id].data)->Text_0;
            &&& after.channels_guild.contains_key(id)
            &&& *after.channels_guild[id].data is Text
            &&& held.guild_id == Some(guild_id)
            &&& held.id == came.id
            &&& held.kind == came.kind
            &&& held.last_message_id == came.last_message_id
            &&& held.last_pin_timestamp.deep_view() == came.last_pin_timestamp.deep_view()
            &&& held.name@ == came.name@
            &&& held.nsfw == came.nsfw
            &&& held.permission_overwrites@ == came.permission_overwrites@
            &&& held.parent_id == came.parent_id
            &&& held.position == came.position
            &&& held.rate_limit_per_user == came.rate_limit_per_user
            &&& held.topic.deep_view() == came.topic.deep_view()
        }),
{
    let after = state.with_guild_channel(guild_id, channel);
    let came = channel->Text_0;
    text_channels_are_equal_exactly_if_every_part_is(
        channel_under(after, came.id.0)->Text_0,
        channel.in_guild(guild_id)->Text_0,
    );
}

/// A cached voice channel of a guild is held as a voice channel, with every part as it came,
/// but that it names the guild.
pub proof fn a_voice_channel_is_held_as_it_came(
    state: CacheState,
    guild_id: GuildId,
    channel: GuildChannel,
)
    requires
        channel is Voice,
    ensures
        ({
            let after = state.with_guild_channel(guild_id, channel);
            let came = channel->Voice_0;
            let id = came.id.0;
            let held = (*after.channels_guild[id].data)->Voice_0;
            &&& after.channels_guild.contains_key(id)
            &&& *after.channels_guild[id].data is Voice
            &&& held.guild_id == Some(guild_id)
            &&& held.bitrate == came.bitrate
            &&& held.id == came.id
            &&& held.kind == came.kind
            &&& held.name@ == came.name@
            &&& held.permission_overwrites@ == came.permission_overwrites@
            &&& held.parent_id == came.parent_id
            &&& held.position == came.position
            &&& held.user_limit == came.user_limit
        }),
{
    let after = state.with_guild_channel(guild_id, channel);
    let came = channel->Voice_0;
    voice_channels_are_equal_exactly_if_every_part_is(
        channel_under(after, came.id.0)->Voice_0,
        channel.in_guild(guild_id)->Voice_0,
    );
}

/// A cached channel of a guild is held under its id, for the guild, and is added
/// to the channels of the guild. One that equals the one held leaves that one
/// there. Nothing else changes.
pub proof fn a_guild_channel_is_held_for_its_guild(
    state: CacheState,
    guild_id: GuildId,
    channel: GuildChannel,
)
    ensures
        ({
            let after = state.with_guild_channel(guild_id, channel);
            let id = match channel {
                GuildChannel::Category(c) => c.id.0,
                GuildChannel::Text(c) => c.id.0,
                GuildChannel::Voice(c) => c.id.0,
            };
            let listed = if state.guild_channels.contains_key(guild_id.0) {
                state.guild_channels[guild_id.0]
            } else {
                Set::empty()
            };
            let same = state.channels_guild.contains_key(id)
                && (*state.channels_guild[id].data).eq_spec(&*after.channels_guild[id].data);
            &&& after.channels_guild.contains_key(id)
            &&& after.channels_guild.remove(id) == state.channels_guild.remove(id)
            &&& same ==> after.channels_guild == state.channels_guild
            &&& !same || state.consistent() ==> after.channels_guild[id].guild_id == guild_id
            &&& after.guild_channels == state.guild_channels.insert(guild_id.0, listed.insert(id))
            &&& after == (CacheState {
                channels_guild: after.channels_guild,
                guild_channels: after.guild_channels,
                ..state
            })
        }),
{
    let after = state.with_guild_channel(guild_id, channel);
    let id = channel.spec_id().0;
    assert(after.channels_guild.remove(id) =~= state.channels_guild.remove(id));
}

/// A cached emoji is held with every part as it came. One that equals the one
/// held changes nothing. Any other is held for its guild, and brings the user who
/// made it, if it names one: the users then hold that user as they came, and the
/// emoji shares the one that they hold. Nothing else changes.
pub proof fn an_emoji_is_held_as_it_came(state: CacheState, guild_id: GuildId, emoji: Emoji)
    ensures
        ({
            let after = state.with_emoji(guild_id, emoji);
            let id = emoji.id.0;
            let held = *after.emojis[id].data;
            let same = state.emojis.contains_key(id) && (*state.emojis[id].data).eq_spec(&emoji);
            &&& after.emojis.contains_key(id)
            &&& held.animated == emoji.animated
            &&& held.available == emoji.available
            &&& held.id == emoji.id
            &&& held.managed == emoji.managed
            &&& held.name@ == emoji.name@
            &&& held.require_colons == emoji.require_colons
            &&& held.roles@ == emoji.roles@
            &&& held.user is Some == emoji.user is Some
            &&& held.user is Some ==> (*held.user->0).eq_spec(&emoji.user->0)
            &&& after.emojis.remove(id) == state.emojis.remove(id)
            &&& after == (CacheState { emojis: after.emojis, users: after.users, ..state })
            &&& same ==> after == state
            &&& !same ==> after.emojis[id].guild_id == guild_id
            &&& !same && emoji.user is None ==> after.users == state.users
            &&& !same && emoji.user is Some ==> {
                let user = emoji.user->0;
                &&& after.users.contains_key(user.id.0)
                &&& held.user == Some(after.users[user.id.0])
                &&& (*after.users[user.id.0]).eq_spec(&user)
                &&& after.users.remove(user.id.0) == state.users.remove(user.id.0)
                &&& state.users.contains_key(user.id.0) && (*state.users[user.id.0]).eq_spec(&user)
                    ==> after.users == state.users
            }
        }),
{
    let after = state.with_emoji(guild_id, emoji);
    assert(after.emojis.remove(emoji.id.0) =~= state.emojis.remove(emoji.id.0));
    if let Some(user) = emoji.user {
        assert(state.with_user(user).users.remove(user.id.0) =~= state.users.remove(user.id.0));
    }
}

/// A cached member is held with every part as it came. One that equals the one
/// held changes nothing. Any other is held for their guild, and brings their
/// user: the users then hold that user as they came, and the member shares the
/// one that they hold. Nothing else changes.
pub proof fn a_member_is_held_as_they_came(state: CacheState, guild_id: GuildId, member: Member)
    ensures
        ({
            let after = state.with_member(guild_id, member);
            let user = member.user;
            let key = (guild_id.0, user.id.0);
            let held = *after.members[key];
            let same = state.members.contains_key(key) && (*state.members[key]).eq_spec(&member);
            &&& after.members.contains_key(key)
            &&& held.deaf == member.deaf
            &&& held.joined_at.deep_view() == member.joined_at.deep_view()
            &&& held.mute == member.mute
            &&& held.nick.deep_view() == member.nick.deep_view()
            &&& held.premium_since.deep_view() == member.premium_since.deep_view()
            &&& held.roles@ == member.roles@
            &&& (*held.user).eq_spec(&user)
            &&& after.members.remove(key) == state.members.remove(key)
            &&& after == (CacheState { members: after.members, users: after.users, ..state })
            &&& same ==> after == state
            &&& !same ==> {
                &&& held.guild_id == guild_id
                &&& after.users.contains_key(user.id.0)
                &&& held.user == after.users[user.id.0]
                &&& (*after.users[user.id.0]).eq_spec(&user)
                &&& after.users.remove(user.id.0) == state.users.remove(user.id.0)
                &&& state.users.contains_key(user.id.0) && (*state.users[user.id.0]).eq_spec(&user)
                    ==> after.users == state.users
            }
        }),
{
    let after = state.with_member(guild_id, member);
    let user = member.user;
    let key = (guild_id.0, user.id.0);
    assert(after.members.remove(key) =~= state.members.remove(key));
    assert(state.with_user(user).users.remove(user.id.0) =~= state.users.remove(user.id.0));
}

/// A cached presence is held with every part as it came, by the guild that it is
/// cached for, if any, and the id of its user. One that equals the one held leaves
/// that one there. Nothing else changes.
pub proof fn a_presence_is_held_as_it_came(
    state: CacheState,
    guild_id: Option<GuildId>,
    presence: Presence,
)
    ensures
        ({
            let after = state.with_presence(guild_id, presence);
            let user_id = match presence.user {
                UserOrId::User(user) => user.id,
                UserOrId::UserId { id } => id,
            };
            let key = match guild_id {
                Some(id) => (Some(id.0), user_id.0),
                None => (None, user_id.0),
            };
            let held = *after.presences[key];
            &&& after.presences.contains_key(key)
            &&& held.activities@.len() == presence.activities@.len()
            &&& forall|i: int|
                0 <= i < held.activities@.len() ==> (#[trigger] held.activities@[i]).eq_spec(
                    &presence.activities@[i],
                )
            &&& held.client_status == presence.client_status
            &&& held.game is Some == presence.game is Some
            &&& held.game is Some ==> held.game->0.eq_spec(&presence.game->0)
            &&& held.guild_id == presence.guild_id
            &&& held.nick.deep_view() == presence.nick.deep_view()
            &&& held.status == presence.status
            &&& held.user_id == user_id
            &&& after.presences.remove(key) == state.presences.remove(key)
            &&& after == (CacheState { presences: after.presences, ..state })
            &&& state.presences.contains_key(key) && (*state.presences[key]).eq_spec(&presence)
                ==> after == state
        }),
{
    let after = state.with_presence(guild_id, presence);
    let user_id = presence.user.spec_id();
    let key = match guild_id {
        Some(id) => (Some(id.0), user_id.0),
        None => (None, user_id.0),
    };
    assert(after.presences.remove(key) =~= state.presences.remove(key));
}

/// A voice state in a channel of a guild that has a place for it is held with
/// every part as it came, by its guild and user, and one that equals the one held
/// leaves that one there. One in no channel takes out what is held of its user in
/// its guild. Nothing else changes.
pub proof fn a_voice_state_is_held_as_it_came(state: CacheState, guild_id: GuildId, vs: VoiceState)
    requires
        vs.guild_id == Some(guild_id),
        state.guild_voice_states.contains_key(guild_id.0),
    ensures
        ({
            let after = state.with_voice_state(vs);
            let states = state.guild_voice_states[guild_id.0];
            let states_after = after.guild_voice_states[guild_id.0];
            let user_id = vs.user_id.0;
            let held = *states_after[user_id];
            &&& vs.channel_id is None ==> !states_after.contains_key(user_id)
            &&& vs.channel_id is Some ==> {
                &&& states_after.contains_key(user_id)
                &&& held.channel_id == vs.channel_id
                &&& held.deaf == vs.deaf
                &&& held.guild_id == vs.guild_id
                &&& held.member is Some == vs.member is Some
                &&& held.member is Some ==> held.member->0.eq_spec(&vs.member->0)
                &&& held.mute == vs.mute
                &&& held.self_deaf == vs.self_deaf
                &&& held.self_mute == vs.self_mute
                &&& held.self_stream == vs.self_stream
                &&& held.session_id@ == vs.session_id@
                &&& held.suppress == vs.suppress
                &&& held.token.deep_view() == vs.token.deep_view()
                &&& held.user_id == vs.user_id
                &&& states.contains_key(user_id) && (*states[user_id]).eq_spec(&vs)
                    ==> states_after == states
            }
            &&& states_after.remove(user_id) == states.remove(user_id)
            &&& after.guild_voice_states.contains_key(guild_id.0)
            &&& after.guild_voice_states.remove(guild_id.0) == state.guild_voice_states.remove(
                guild_id.0,
            )
            &&& after == (CacheState { guild_voice_states: after.guild_voice_states, ..state })
        }),
{
    let after = state.with_voice_state(vs);
    let states = state.guild_voice_states[guild_id.0];
    let states_after = after.guild_voice_states[guild_id.0];
    assert(states_after.remove(vs.user_id.0) =~= states.remove(vs.user_id.0));
    assert(after.guild_voice_states.remove(guild_id.0) =~= state.guild_voice_states.remove(
        guild_id.0,
    ));
}

} // verus!
