//! Events that update the cache.

use crate::cache::InMemoryCache;
use crate::error::InMemoryCacheError;
use crate::model::id::{GuildId, RoleId};
use crate::state::CacheState;
use vstd::prelude::*;

verus! {

/// An event that can update a cache.
pub trait UpdateCache {
    /// Whether the event can update a cache that holds `state`.
    spec fn can_update(&self, state: CacheState) -> bool;

    /// Whether the event may take a cache from `before` to `after`, and end as
    /// `done` says.
    spec fn updates(
        &self,
        before: CacheState,
        after: CacheState,
        done: Result<(), InMemoryCacheError>,
    ) -> bool;

    /// Updates `cache` by the event.
    fn update(&self, cache: &mut InMemoryCache) -> (done: Result<(), InMemoryCacheError>)
        requires
            self.can_update(old(cache)@),
        ensures
            self.updates(old(cache)@, final(cache)@, done),
    ;
}

/// A role of a guild has been deleted.
#[derive(Clone, Copy, Debug, PartialEq, Eq, Hash, Structural)]
pub struct RoleDelete {
    pub guild_id: GuildId,
    pub role_id: RoleId,
}

impl UpdateCache for RoleDelete {
    /// Always.
    open spec fn can_update(&self, state: CacheState) -> bool {
        true
    }

    /// The role leaves the cache.
    open spec fn updates(
        &self,
        before: CacheState,
        after: CacheState,
        done: Result<(), InMemoryCacheError>,
    ) -> bool {
        &&& after == before.without_role(self.role_id)
        &&& done == Ok::<(), InMemoryCacheError>(())
    }

    fn update(&self, cache: &mut InMemoryCache) -> (done: Result<(), InMemoryCacheError>) {
        cache.delete_role(self.role_id);
        Ok(())
    }
}

} // verus!
