//! Users.

use crate::model::equality::{same_text, text_eq};
use crate::model::id::UserId;
use vstd::prelude::*;

verus! {

/// The badges of an account, as a set of bits.
#[derive(Clone, Copy, Debug, PartialEq, Eq, Hash, Structural)]
pub struct UserFlags(pub u64);

/// The kind of Nitro subscription of a user.
#[derive(Clone, Copy, Debug, PartialEq, Eq, Hash, Structural)]
pub enum PremiumType {
    NoSubscription,
    NitroClassic,
    Nitro,
}

/// A user, as seen by other users.
#[derive(Clone, Debug)]
pub struct User {
    pub avatar: Option<String>,
    pub bot: bool,
    pub discriminator: String,
    pub email: Option<String>,
    pub flags: Option<UserFlags>,
    pub id: UserId,
    pub locale: Option<String>,
    pub mfa_enabled: Option<bool>,
    pub name: String,
    pub premium_type: Option<PremiumType>,
    pub public_flags: Option<UserFlags>,
    pub system: Option<bool>,
    pub verified: Option<bool>,
}

impl vstd::std_specs::cmp::PartialEqSpecImpl for User {
    open spec fn obeys_eq_spec() -> bool {
        true
    }

    open spec fn eq_spec(&self, other: &User) -> bool {
        &&& same_text(self.avatar, other.avatar)
        &&& self.bot == other.bot
        &&& self.discriminator@ == other.discriminator@
        &&& same_text(self.email, other.email)
        &&& self.flags == other.flags
        &&& self.id == other.id
        &&& same_text(self.locale, other.locale)
        &&& self.mfa_enabled == other.mfa_enabled
        &&& self.name@ == other.name@
        &&& self.premium_type == other.premium_type
        &&& self.public_flags == other.public_flags
        &&& self.system == other.system
        &&& self.verified == other.verified
    }
}

impl PartialEq for User {
    fn eq(&self, other: &User) -> (r: bool) {
        text_eq(&self.avatar, &other.avatar) && self.bot == other.bot && self.discriminator
            == other.discriminator && text_eq(&self.email, &other.email) && self.flags
            == other.flags && self.id == other.id && text_eq(&self.locale, &other.locale)
            && self.mfa_enabled == other.mfa_enabled && self.name == other.name
            && self.premium_type == other.premium_type && self.public_flags == other.public_flags
            && self.system == other.system && self.verified == other.verified
    }
}

/// The user that the process is logged in as.
#[derive(Clone, Debug)]
pub struct CurrentUser {
    pub avatar: Option<String>,
    pub bot: bool,
    pub discriminator: String,
    pub email: Option<String>,
    pub flags: Option<UserFlags>,
    pub id: UserId,
    pub locale: Option<String>,
    pub mfa_enabled: bool,
    pub name: String,
    pub premium_type: Option<PremiumType>,
    pub public_flags: Option<UserFlags>,
    pub verified: Option<bool>,
}

} // verus!
