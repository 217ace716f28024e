//! The web fetch client in builds without it.

use vstd::prelude::*;

verus! {

/// Why a web fetch failed.
pub enum WebFetchError {
    NotCompiledIn,
}

/// Web fetch client; cannot be built in this build.
pub struct WebFetchClient;

impl WebFetchClient {
    pub fn new() -> (r: Result<Self, WebFetchError>)
        ensures
            r matches Err(WebFetchError::NotCompiledIn),
    {
        Err(WebFetchError::NotCompiledIn)
    }
}

} // verus!
