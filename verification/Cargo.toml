[package]
name = "twilight_cache_inmemory"
version = "0.1.0"
edition = "2021"
publish = false

[dependencies]
dashmap = "3.11"
futures-util = "0.3"
serde = { version = "1", features = ["derive"] }

[dev-dependencies]
serde_test = "1"
