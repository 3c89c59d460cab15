//! Voice states.

use crate::model::equality::{same_text, text_eq};
use crate::model::guild::Member;
use crate::model::id::{ChannelId, GuildId, UserId};
use vstd::prelude::*;
use vstd::std_specs::cmp::PartialEqSpec;

verus! {

/// The connection of a user to a voice channel. A state without a channel says
/// that the user has left.
#[derive(Clone, Debug)]
pub struct VoiceState {
    pub channel_id: Option<ChannelId>,
    pub deaf: bool,
    pub guild_id: Option<GuildId>,
    pub member: Option<Member>,
    pub mute: bool,
    pub self_deaf: bool,
    pub self_mute: bool,
    pub self_stream: bool,
    pub session_id: String,
    pub suppress: bool,
    pub token: Option<String>,
    pub user_id: UserId,
}

impl vstd::std_specs::cmp::PartialEqSpecImpl for VoiceState {
    open spec fn obeys_eq_spec() -> bool {
        true
    }

    open spec fn eq_spec(&self, other: &VoiceState) -> bool {
        &&& self.channel_id == other.channel_id
        &&& self.deaf == other.deaf
        &&& self.guild_id == other.guild_id
        &&& PartialEqSpec::eq_spec(&self.member, &other.member)
        &&& self.mute == other.mute
        &&& self.self_deaf == other.self_deaf
        &&& self.self_mute == other.self_mute
        &&& self.self_stream == other.self_stream
        &&& self.session_id@ == other.session_id@
        &&& self.suppress == other.suppress
        &&& same_text(self.token, other.token)
        &&& self.user_id == other.user_id
    }
}

impl PartialEq for VoiceState {
    fn eq(&self, other: &VoiceState) -> (r: bool) {
        self.channel_id == other.channel_id && self.deaf == other.deaf && self.guild_id
            == other.guild_id && self.member == other.member && self.mute == other.mute
            && self.self_deaf == other.self_deaf && self.self_mute == other.self_mute
            && self.self_stream == other.self_stream && self.session_id == other.session_id
            && self.suppress == other.suppress && text_eq(&self.token, &other.token)
            && self.user_id == other.user_id
    }
}

} // verus!
