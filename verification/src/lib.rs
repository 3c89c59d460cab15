//! An in-process cache of Discord data.
//!
//! The cache keeps one table per kind of entity (users, members, roles,
//! channels, ...). Data that arrives from the gateway is handed to one of the
//! `cache_*` methods of [`cache::InMemoryCache`], and is read back, behind an
//! `Arc`, by the getter of that kind. Every method is specified over
//! [`state::CacheState`], the mathematical contents of the cache.

pub mod cache;
pub mod config;
pub mod consistency;
pub mod equality_laws;
pub mod error;
mod folds;
pub mod frames;
pub mod guild_laws;
pub mod laws;
pub mod model;
pub mod order;
pub mod read_back;
pub mod state;
mod tables;
pub mod update;

pub use cache::InMemoryCache;
pub use error::InMemoryCacheError;
