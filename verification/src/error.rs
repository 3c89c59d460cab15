//! The error of cache operations.

use std::convert::Infallible;
use vstd::prelude::*;

verus! {

/// Error type for cache operations.
///
/// Currently there is no value of it, as no error can occur.
#[derive(Clone, Copy, Debug)]
pub enum InMemoryCacheError {
    Impossible(Infallible),
}

impl InMemoryCacheError {
    /// Returns the text that describes the error.
    pub fn description(&self) -> (text: String)
        ensures
            text@ == "InMemoryCacheError"@,
    {
        "InMemoryCacheError".to_owned()
    }
}

} // verus!
