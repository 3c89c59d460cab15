//! Presences: what a user is doing and whether they are online.

use crate::model::equality::{same_text, text_eq};
use crate::model::id::{ApplicationId, GuildId, UserId};
use crate::model::user::User;
use vstd::prelude::*;
use vstd::std_specs::cmp::PartialEqSpec;

verus! {

/// The kind of an activity.
#[derive(Clone, Copy, Debug, PartialEq, Eq, Hash, Structural)]
pub enum ActivityType {
    Playing,
    Streaming,
    Listening,
    Watching,
    Custom,
}

/// What an activity offers, as bits.
#[derive(Clone, Copy, Debug, PartialEq, Eq, Hash, Structural)]
pub struct ActivityFlags(pub u64);

/// The emoji of a custom activity.
#[derive(Clone, Debug)]
pub struct ActivityEmoji {
    pub animated: Option<bool>,
    pub id: Option<String>,
    pub name: String,
}

impl vstd::std_specs::cmp::PartialEqSpecImpl for ActivityEmoji {
    open spec fn obeys_eq_spec() -> bool {
        true
    }

    open spec fn eq_spec(&self, other: &ActivityEmoji) -> bool {
        &&& self.animated == other.animated
        &&& same_text(self.id, other.id)
        &&& self.name@ == other.name@
    }
}

impl PartialEq for ActivityEmoji {
    fn eq(&self, other: &ActivityEmoji) -> (r: bool) {
        self.animated == other.animated && text_eq(&self.id, &other.id) && self.name == other.name
    }
}

/// The images of an activity.
#[derive(Clone, Debug)]
pub struct ActivityAssets {
    pub large_image: Option<String>,
    pub large_text: Option<String>,
    pub small_image: Option<String>,
    pub small_text: Option<String>,
}

impl vstd::std_specs::cmp::PartialEqSpecImpl for ActivityAssets {
    open spec fn obeys_eq_spec() -> bool {
        true
    }

    open spec fn eq_spec(&self, other: &ActivityAssets) -> bool {
        &&& same_text(self.large_image, other.large_image)
        &&& same_text(self.large_text, other.large_text)
        &&& same_text(self.small_image, other.small_image)
        &&& same_text(self.small_text, other.small_text)
    }
}

impl PartialEq for ActivityAssets {
    fn eq(&self, other: &ActivityAssets) -> (r: bool) {
        text_eq(&self.large_image, &other.large_image) && text_eq(
            &self.large_text,
            &other.large_text,
        ) && text_eq(&self.small_image, &other.small_image) && text_eq(
            &self.small_text,
            &other.small_text,
        )
    }
}

/// The party of an activity: its id, and its current and largest size.
#[derive(Clone, Debug)]
pub struct ActivityParty {
    pub id: Option<String>,
    pub size: Option<(u64, u64)>,
}

impl vstd::std_specs::cmp::PartialEqSpecImpl for ActivityParty {
    open spec fn obeys_eq_spec() -> bool {
        true
    }

    open spec fn eq_spec(&self, other: &ActivityParty) -> bool {
        &&& same_text(self.id, other.id)
        &&& self.size == other.size
    }
}

impl PartialEq for ActivityParty {
    fn eq(&self, other: &ActivityParty) -> (r: bool) {
        let same_size = match (self.size, other.size) {
            (Some(a), Some(b)) => a.0 == b.0 && a.1 == b.1,
            (None, None) => true,
            _ => false,
        };
        text_eq(&self.id, &other.id) && same_size
    }
}

/// The secrets with which an activity is joined or watched.
#[derive(Clone, Debug)]
pub struct ActivitySecrets {
    pub join: Option<String>,
    pub match_: Option<String>,
    pub spectate: Option<String>,
}

impl vstd::std_specs::cmp::PartialEqSpecImpl for ActivitySecrets {
    open spec fn obeys_eq_spec() -> bool {
        true
    }

    open spec fn eq_spec(&self, other: &ActivitySecrets) -> bool {
        &&& same_text(self.join, other.join)
        &&& same_text(self.match_, other.match_)
        &&& same_text(self.spectate, other.spectate)
    }
}

impl PartialEq for ActivitySecrets {
    fn eq(&self, other: &ActivitySecrets) -> (r: bool) {
        text_eq(&self.join, &other.join) && text_eq(&self.match_, &other.match_) && text_eq(
            &self.spectate,
            &other.spectate,
        )
    }
}

/// When an activity started and when it ends.
#[derive(Clone, Copy, Debug, PartialEq, Eq, Hash, Structural)]
pub struct ActivityTimestamps {
    pub end: Option<u64>,
    pub start: Option<u64>,
}

/// Something that a user is doing.
#[derive(Clone, Debug)]
pub struct Activity {
    pub application_id: Option<ApplicationId>,
    pub assets: Option<ActivityAssets>,
    pub created_at: Option<u64>,
    pub details: Option<String>,
    pub emoji: Option<ActivityEmoji>,
    pub flags: Option<ActivityFlags>,
    pub id: Option<String>,
    pub instance: Option<bool>,
    pub kind: ActivityType,
    pub name: String,
    pub party: Option<ActivityParty>,
    pub secrets: Option<ActivitySecrets>,
    pub state: Option<String>,
    pub timestamps: Option<ActivityTimestamps>,
    pub url: Option<String>,
}

impl vstd::std_specs::cmp::PartialEqSpecImpl for Activity {
    open spec fn obeys_eq_spec() -> bool {
        true
    }

    open spec fn eq_spec(&self, other: &Activity) -> bool {
        &&& self.application_id == other.application_id
        &&& PartialEqSpec::eq_spec(&self.assets, &other.assets)
        &&& self.created_at == other.created_at
        &&& same_text(self.details, other.details)
        &&& PartialEqSpec::eq_spec(&self.emoji, &other.emoji)
        &&& self.flags == other.flags
        &&& same_text(self.id, other.id)
        &&& self.instance == other.instance
        &&& self.kind == other.kind
        &&& self.name@ == other.name@
        &&& PartialEqSpec::eq_spec(&self.party, &other.party)
        &&& PartialEqSpec::eq_spec(&self.secrets, &other.secrets)
        &&& same_text(self.state, other.state)
        &&& self.timestamps == other.timestamps
        &&& same_text(self.url, other.url)
    }
}

impl PartialEq for Activity {
    fn eq(&self, other: &Activity) -> (r: bool) {
        self.application_id == other.application_id && self.assets == other.assets
            && self.created_at == other.created_at && text_eq(&self.details, &other.details)
            && self.emoji == other.emoji && self.flags == other.flags && text_eq(
            &self.id,
            &other.id,
        ) && self.instance == other.instance && self.kind == other.kind && self.name == other.name
            && self.party == other.party && self.secrets == other.secrets && text_eq(
            &self.state,
            &other.state,
        ) && self.timestamps == other.timestamps && text_eq(&self.url, &other.url)
    }
}

/// Whether a user is online.
#[derive(Clone, Copy, Debug, PartialEq, Eq, Hash, Structural)]
pub enum Status {
    DoNotDisturb,
    Idle,
    Invisible,
    Offline,
    Online,
}

/// The status of a user on each kind of client.
#[derive(Clone, Copy, Debug, PartialEq, Eq, Hash, Structural)]
pub struct ClientStatus {
    pub desktop: Option<Status>,
    pub mobile: Option<Status>,
    pub web: Option<Status>,
}

/// A user, in full or by id alone.
#[derive(Clone, Debug)]
pub enum UserOrId {
    User(User),
    UserId { id: UserId },
}

impl UserOrId {
    /// The id of the user, in either case.
    pub open spec fn spec_id(&self) -> UserId {
        match *self {
            UserOrId::User(user) => user.id,
            UserOrId::UserId { id } => id,
        }
    }
}

/// The presence of a user, in a guild or outside of one.
#[derive(Clone, Debug)]
pub struct Presence {
    pub activities: Vec<Activity>,
    pub client_status: ClientStatus,
    pub game: Option<Activity>,
    pub guild_id: Option<GuildId>,
    pub nick: Option<String>,
    pub status: Status,
    pub user: UserOrId,
}

/// Returns the id of the user that a presence is about.
pub fn presence_user_id(presence: &Presence) -> (id: UserId)
    ensures
        id == presence.user.spec_id(),
{
    match &presence.user {
        UserOrId::User(u) => u.id,
        UserOrId::UserId { id } => *id,
    }
}

} // verus!
