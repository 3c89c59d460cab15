# twilight_cache_inmemory

An in-process cache of Discord data: users, members, guilds, channels, roles,
emojis, presences and voice states, kept in concurrent maps of the crate
`dashmap` and handed out behind `Arc`.

- `src/cache.rs` is the cache. The contract of each method says how it changes
  `state::CacheState`, the mathematical contents of the cache, and what it
  returns.
- `src/state.rs` defines these contents, and what each operation makes of them.
- `src/tables.rs` states what is taken for granted of `dashmap`.
- `src/consistency.rs`, `src/frames.rs`, `src/laws.rs`, `src/guild_laws.rs` and
  `src/order.rs` prove what the operations add up to: everything is found where
  its ids say, what is cached is read back, what is deleted is gone, and the
  order of things with different ids makes no difference.
- `src/model/` holds the data, `src/update.rs` the events that update the cache.
- `app/` wraps the cache for use from several tasks, and holds the types that are
  read and written with `serde`.
