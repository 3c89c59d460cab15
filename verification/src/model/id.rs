//! Identifiers. Each kind of entity has its own, so that an id of one kind
//! cannot be used to look up another.

use vstd::prelude::*;

verus! {

/// The id of an application.
#[derive(Clone, Copy, Debug, PartialEq, Eq, Hash, PartialOrd, Ord, Structural)]
pub struct ApplicationId(pub u64);

/// The id of a channel: a guild channel, a private channel or a group.
#[derive(Clone, Copy, Debug, PartialEq, Eq, Hash, PartialOrd, Ord, Structural)]
pub struct ChannelId(pub u64);

/// The id of a custom emoji.
#[derive(Clone, Copy, Debug, PartialEq, Eq, Hash, PartialOrd, Ord, Structural)]
pub struct EmojiId(pub u64);

/// The id of a guild.
#[derive(Clone, Copy, Debug, PartialEq, Eq, Hash, PartialOrd, Ord, Structural)]
pub struct GuildId(pub u64);

/// The id of a message.
#[derive(Clone, Copy, Debug, PartialEq, Eq, Hash, PartialOrd, Ord, Structural)]
pub struct MessageId(pub u64);

/// The id of a role.
#[derive(Clone, Copy, Debug, PartialEq, Eq, Hash, PartialOrd, Ord, Structural)]
pub struct RoleId(pub u64);

/// The id of a user.
#[derive(Clone, Copy, Debug, PartialEq, Eq, Hash, PartialOrd, Ord, Structural)]
pub struct UserId(pub u64);

} // verus!
