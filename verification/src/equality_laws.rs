//! What it means for two things to be equal: that each of their parts is. What
//! is cached replaces what is held unless the two are equal, so a part that did
//! not count would be a change that is lost.

use crate::model::cached::{CachedEmoji, CachedMember, CachedPresence};
use crate::model::channel::{
    CategoryChannel, Group, GuildChannel, PermissionOverwrite, PrivateChannel, TextChannel,
    VoiceChannel,
};
use crate::model::guild::{Emoji, Member, Role};
use crate::model::presence::{
    Activity, ActivityAssets, ActivityEmoji, ActivityParty, ActivitySecrets, Presence, UserOrId,
};
use crate::model::user::User;
use crate::model::voice::VoiceState;
use vstd::prelude::*;
use vstd::std_specs::cmp::PartialEqSpec;

verus! {

/// Permission overwrites are equal exactly if every part of them is.
pub proof fn permission_overwrites_are_equal_exactly_if_every_part_is(
    a: PermissionOverwrite,
    b: PermissionOverwrite,
)
    ensures
        a.eq_spec(&b) == ({
            &&& a.allow == b.allow
            &&& a.deny == b.deny
            &&& a.kind == b.kind
        }),
{
}

/// Categories are equal exactly if every part of them is.
pub proof fn categories_are_equal_exactly_if_every_part_is(a: CategoryChannel, b: CategoryChannel)
    ensures
        a.eq_spec(&b) == ({
            &&& a.guild_id == b.guild_id
            &&& a.id == b.id
            &&& a.kind == b.kind
            &&& a.name@ == b.name@
            &&& a.nsfw == b.nsfw
            &&& a.parent_id == b.parent_id
            &&& a.permission_overwrites@ == b.permission_overwrites@
            &&& a.position == b.position
        }),
{
    if a.eq_spec(&b) {
        assert forall|i: int| 0 <= i < a.permission_overwrites@.len() implies
            a.permission_overwrites@[i] == b.permission_overwrites@[i] by {
            assert(a.permission_overwrites@[i].eq_spec(&b.permission_overwrites@[i]));
        }
        assert(a.permission_overwrites@ =~= b.permission_overwrites@);
    }
}

/// Text channels are equal exactly if every part of them is.
pub proof fn text_channels_are_equal_exactly_if_every_part_is(a: TextChannel, b: TextChannel)
    ensures
        a.eq_spec(&b) == ({
            &&& a.guild_id == b.guild_id
            &&& a.id == b.id
            &&& a.kind == b.kind
            &&& a.last_message_id == b.last_message_id
            &&& a.last_pin_timestamp.deep_view() == b.last_pin_timestamp.deep_view()
            &&& a.name@ == b.name@
            &&& a.nsfw == b.nsfw
            &&& a.permission_overwrites@ == b.permission_overwrites@
            &&& a.parent_id == b.parent_id
            &&& a.position == b.position
            &&& a.rate_limit_per_user == b.rate_limit_per_user
            &&& a.topic.deep_view() == b.topic.deep_view()
        }),
{
    if a.eq_spec(&b) {
        assert forall|i: int| 0 <= i < a.permission_overwrites@.len() implies
            a.permission_overwrites@[i] == b.permission_overwrites@[i] by {
            assert(a.permission_overwrites@[i].eq_spec(&b.permission_overwrites@[i]));
        }
        assert(a.permission_overwrites@ =~= b.permission_overwrites@);
    }
}

/// Voice channels are equal exactly if every part of them is.
pub proof fn voice_channels_are_equal_exactly_if_every_part_is(a: VoiceChannel, b: VoiceChannel)
    ensures
        a.eq_spec(&b) == ({
            &&& a.bitrate == b.bitrate
            &&& a.guild_id == b.guild_id
            &&& a.id == b.id
            &&& a.kind == b.kind
            &&& a.name@ == b.name@
            &&& a.permission_overwrites@ == b.permission_overwrites@
            &&& a.parent_id == b.parent_id
            &&& a.position == b.position
            &&& a.user_limit == b.user_limit
        }),
{
    if a.eq_spec(&b) {
        assert forall|i: int| 0 <= i < a.permission_overwrites@.len() implies
            a.permission_overwrites@[i] == b.permission_overwrites@[i] by {
            assert(a.permission_overwrites@[i].eq_spec(&b.permission_overwrites@[i]));
        }
        assert(a.permission_overwrites@ =~= b.permission_overwrites@);
    }
}

/// Groups are equal exactly if every part of them is.
pub proof fn groups_are_equal_exactly_if_every_part_is(a: Group, b: Group)
    ensures
        a.eq_spec(&b) == ({
            &&& a.application_id == b.application_id
            &&& a.icon.deep_view() == b.icon.deep_view()
            &&& a.id == b.id
            &&& a.kind == b.kind
            &&& a.last_message_id == b.last_message_id
            &&& a.last_pin_timestamp.deep_view() == b.last_pin_timestamp.deep_view()
            &&& a.name.deep_view() == b.name.deep_view()
            &&& a.owner_id == b.owner_id
            &&& a.recipients@.len() == b.recipients@.len()
            &&& forall|i: int|
                0 <= i < a.recipients@.len() ==> (#[trigger] a.recipients@[i]).eq_spec(
                    &b.recipients@[i],
                )
        }),
{
}

/// Private channels are equal exactly if every part of them is.
pub proof fn private_channels_are_equal_exactly_if_every_part_is(
    a: PrivateChannel,
    b: PrivateChannel,
)
    ensures
        a.eq_spec(&b) == ({
            &&& a.id == b.id
            &&& a.last_message_id == b.last_message_id
            &&& a.last_pin_timestamp.deep_view() == b.last_pin_timestamp.deep_view()
            &&& a.kind == b.kind
            &&& a.recipients@.len() == b.recipients@.len()
            &&& forall|i: int|
                0 <= i < a.recipients@.len() ==> (#[trigger] a.recipients@[i]).eq_spec(
                    &b.recipients@[i],
                )
        }),
{
}

/// Roles are equal exactly if every part of them is.
pub proof fn roles_are_equal_exactly_if_every_part_is(a: Role, b: Role)
    ensures
        a.eq_spec(&b) == ({
            &&& a.color == b.color
            &&& a.hoist == b.hoist
            &&& a.id == b.id
            &&& a.managed == b.managed
            &&& a.mentionable == b.mentionable
            &&& a.name@ == b.name@
            &&& a.permissions == b.permissions
            &&& a.position == b.position
        }),
{
}

/// Members are equal exactly if every part of them is.
pub proof fn members_are_equal_exactly_if_every_part_is(a: Member, b: Member)
    ensures
        a.eq_spec(&b) == ({
            &&& a.deaf == b.deaf
            &&& a.guild_id == b.guild_id
            &&& a.hoisted_role == b.hoisted_role
            &&& a.joined_at.deep_view() == b.joined_at.deep_view()
            &&& a.mute == b.mute
            &&& a.nick.deep_view() == b.nick.deep_view()
            &&& a.premium_since.deep_view() == b.premium_since.deep_view()
            &&& a.roles@ == b.roles@
            &&& a.user.eq_spec(&b.user)
        }),
{
}

/// Users are equal exactly if every part of them is.
pub proof fn users_are_equal_exactly_if_every_part_is(a: User, b: User)
    ensures
        a.eq_spec(&b) == ({
            &&& a.avatar.deep_view() == b.avatar.deep_view()
            &&& a.bot == b.bot
            &&& a.discriminator@ == b.discriminator@
            &&& a.email.deep_view() == b.email.deep_view()
            &&& a.flags == b.flags
            &&& a.id == b.id
            &&& a.locale.deep_view() == b.locale.deep_view()
            &&& a.mfa_enabled == b.mfa_enabled
            &&& a.name@ == b.name@
            &&& a.premium_type == b.premium_type
            &&& a.public_flags == b.public_flags
            &&& a.system == b.system
            &&& a.verified == b.verified
        }),
{
}

/// Voice states are equal exactly if every part of them is.
pub proof fn voice_states_are_equal_exactly_if_every_part_is(a: VoiceState, b: VoiceState)
    ensures
        a.eq_spec(&b) == ({
            &&& a.channel_id == b.channel_id
            &&& a.deaf == b.deaf
            &&& a.guild_id == b.guild_id
            &&& a.member is Some == b.member is Some
            &&& a.member is Some ==> a.member->0.eq_spec(&b.member->0)
            &&& a.mute == b.mute
            &&& a.self_deaf == b.self_deaf
            &&& a.self_mute == b.self_mute
            &&& a.self_stream == b.self_stream
            &&& a.session_id@ == b.session_id@
            &&& a.suppress == b.suppress
            &&& a.token.deep_view() == b.token.deep_view()
            &&& a.user_id == b.user_id
        }),
{
}

/// Emojis of activities are equal exactly if every part of them is.
pub proof fn activity_emojis_are_equal_exactly_if_every_part_is(a: ActivityEmoji, b: ActivityEmoji)
    ensures
        a.eq_spec(&b) == ({
            &&& a.animated == b.animated
            &&& a.id.deep_view() == b.id.deep_view()
            &&& a.name@ == b.name@
        }),
{
}

/// Images of activities are equal exactly if every part of them is.
pub proof fn activity_assets_are_equal_exactly_if_every_part_is(
    a: ActivityAssets,
    b: ActivityAssets,
)
    ensures
        a.eq_spec(&b) == ({
            &&& a.large_image.deep_view() == b.large_image.deep_view()
            &&& a.large_text.deep_view() == b.large_text.deep_view()
            &&& a.small_image.deep_view() == b.small_image.deep_view()
            &&& a.small_text.deep_view() == b.small_text.deep_view()
        }),
{
}

/// Parties of activities are equal exactly if every part of them is.
pub proof fn activity_parties_are_equal_exactly_if_every_part_is(a: ActivityParty, b: ActivityParty)
    ensures
        a.eq_spec(&b) == ({
            &&& a.id.deep_view() == b.id.deep_view()
            &&& a.size == b.size
        }),
{
}

/// Secrets of activities are equal exactly if every part of them is.
pub proof fn activity_secrets_are_equal_exactly_if_every_part_is(
    a: ActivitySecrets,
    b: ActivitySecrets,
)
    ensures
        a.eq_spec(&b) == ({
            &&& a.join.deep_view() == b.join.deep_view()
            &&& a.match_.deep_view() == b.match_.deep_view()
            &&& a.spectate.deep_view() == b.spectate.deep_view()
        }),
{
}

/// Activities are equal exactly if every part of them is.
pub proof fn activities_are_equal_exactly_if_every_part_is(a: Activity, b: Activity)
    ensures
        a.eq_spec(&b) == ({
            &&& a.application_id == b.application_id
            &&& a.assets is Some == b.assets is Some
            &&& a.assets is Some ==> a.assets->0.eq_spec(&b.assets->0)
            &&& a.created_at == b.created_at
            &&& a.details.deep_view() == b.details.deep_view()
            &&& a.emoji is Some == b.emoji is Some
            &&& a.emoji is Some ==> a.emoji->0.eq_spec(&b.emoji->0)
            &&& a.flags == b.flags
            &&& a.id.deep_view() == b.id.deep_view()
            &&& a.instance == b.instance
            &&& a.kind == b.kind
            &&& a.name@ == b.name@
            &&& a.party is Some == b.party is Some
            &&& a.party is Some ==> a.party->0.eq_spec(&b.party->0)
            &&& a.secrets is Some == b.secrets is Some
            &&& a.secrets is Some ==> a.secrets->0.eq_spec(&b.secrets->0)
            &&& a.state.deep_view() == b.state.deep_view()
            &&& a.timestamps == b.timestamps
            &&& a.url.deep_view() == b.url.deep_view()
        }),
{
}

/// Channels of guilds are equal exactly if they are of one sort, and equal as
/// channels of that sort.
pub proof fn guild_channels_are_equal_exactly_if_of_one_sort_and_equal(
    a: GuildChannel,
    b: GuildChannel,
)
    ensures
        a.eq_spec(&b) == ({
            ||| a is Category && b is Category && a->Category_0.eq_spec(&b->Category_0)
            ||| a is Text && b is Text && a->Text_0.eq_spec(&b->Text_0)
            ||| a is Voice && b is Voice && a->Voice_0.eq_spec(&b->Voice_0)
        }),
{
}

/// A held emoji equals one that comes exactly if every part of it does.
pub proof fn emojis_are_equal_exactly_if_every_part_is(held: CachedEmoji, emoji: Emoji)
    ensures
        held.eq_spec(&emoji) == ({
            &&& held.animated == emoji.animated
            &&& held.available == emoji.available
            &&& held.id == emoji.id
            &&& held.managed == emoji.managed
            &&& held.name@ == emoji.name@
            &&& held.require_colons == emoji.require_colons
            &&& held.roles@ == emoji.roles@
            &&& held.user is Some == emoji.user is Some
            &&& held.user is Some ==> (*held.user->0).eq_spec(&emoji.user->0)
        }),
{
}

/// A held member equals one that comes exactly if every part that is held does.
pub proof fn held_members_are_equal_exactly_if_every_part_is(held: CachedMember, member: Member)
    ensures
        held.eq_spec(&member) == ({
            &&& held.deaf == member.deaf
            &&& held.joined_at.deep_view() == member.joined_at.deep_view()
            &&& held.mute == member.mute
            &&& held.nick.deep_view() == member.nick.deep_view()
            &&& held.premium_since.deep_view() == member.premium_since.deep_view()
            &&& held.roles@ == member.roles@
            &&& (*held.user).eq_spec(&member.user)
        }),
{
}

/// A held presence equals one that comes exactly if every part of it does. The
/// user counts by id, whether they come in full or not.
pub proof fn presences_are_equal_exactly_if_every_part_is(held: CachedPresence, presence: Presence)
    ensures
        held.eq_spec(&presence) == ({
            &&& held.activities@.len() == presence.activities@.len()
            &&& forall|i: int|
                0 <= i < held.activities@.len() ==> (#[trigger] held.activities@[i]).eq_spec(
                    &presence.activities@[i],
                )
            &&& held.client_status == presence.client_status
            &&& held.game is Some == presence.game is Some
            &&& held.game is Some ==> held.game->0.eq_spec(&presence.game->0)
            &&& held.guild_id == presence.guild_id
            &&& held.nick.deep_view() == presence.nick.deep_view()
            &&& held.status == presence.status
            &&& match presence.user {
                UserOrId::User(user) => held.user_id == user.id,
                UserOrId::UserId { id } => held.user_id == id,
            }
        }),
{
}

} // verus!
