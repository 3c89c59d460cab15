//! Configuration of the cache.

use vstd::prelude::*;

verus! {

/// How a cache is set up.
#[derive(Clone, Copy, Debug, PartialEq, Eq, Hash, Structural)]
pub struct InMemoryConfig {
    /// How many messages are kept for each channel.
    pub message_cache_size: usize,
}

impl InMemoryConfig {
    /// Creates a builder that starts from the default configuration.
    pub fn builder() -> (builder: InMemoryConfigBuilder)
        ensures
            builder.0.message_cache_size == 100,
    {
        InMemoryConfigBuilder::new()
    }

    /// Returns how many messages are kept for each channel.
    pub fn message_cache_size(&self) -> (size: usize)
        ensures
            size == self.message_cache_size,
    {
        self.message_cache_size
    }
}

impl Default for InMemoryConfig {
    fn default() -> (config: InMemoryConfig)
        ensures
            config.message_cache_size == 100,
    {
        InMemoryConfig { message_cache_size: 100 }
    }
}

/// Builds an [`InMemoryConfig`].
#[derive(Clone, Copy, Debug, PartialEq, Eq, Hash, Structural)]
pub struct InMemoryConfigBuilder(pub InMemoryConfig);

impl InMemoryConfigBuilder {
    /// Creates a builder that starts from the default configuration.
    pub fn new() -> (builder: InMemoryConfigBuilder)
        ensures
            builder.0.message_cache_size == 100,
    {
        InMemoryConfigBuilder(InMemoryConfig::default())
    }

    /// Returns the configuration that has been built.
    pub fn build(self) -> (config: InMemoryConfig)
        ensures
            config == self.0,
    {
        self.0
    }

    /// Sets how many messages are kept for each channel.
    pub fn message_cache_size(self, message_cache_size: usize) -> (builder: InMemoryConfigBuilder)
        ensures
            builder.0 == (InMemoryConfig { message_cache_size, ..self.0 }),
    {
        InMemoryConfigBuilder(InMemoryConfig { message_cache_size, ..self.0 })
    }
}

impl vstd::std_specs::convert::FromSpecImpl<InMemoryConfigBuilder> for InMemoryConfig {
    open spec fn obeys_from_spec() -> bool {
        true
    }

    open spec fn from_spec(builder: InMemoryConfigBuilder) -> InMemoryConfig {
        builder.0
    }
}

impl From<InMemoryConfigBuilder> for InMemoryConfig {
    fn from(builder: InMemoryConfigBuilder) -> (config: InMemoryConfig) {
        builder.build()
    }
}

} // verus!
