//! The data that the cache receives and the data that it hands out.

pub mod cached;
pub mod channel;
pub mod decimal;
pub mod equality;
pub mod guild;
pub mod id;
pub mod presence;
pub mod user;
pub mod voice;
pub mod widget;
