//! The widget of a guild.

use crate::model::id::ChannelId;
use vstd::prelude::*;

verus! {

/// Whether a guild shows its widget, and the channel that the widget invites to.
#[derive(Clone, Copy, Debug, PartialEq, Eq, Hash, Structural)]
pub struct GuildWidget {
    pub channel_id: ChannelId,
    pub enabled: bool,
}

} // verus!
