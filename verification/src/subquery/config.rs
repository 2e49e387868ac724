//! The access-token configuration handed to the API client.

use vstd::prelude::*;

verus! {

/// Subquery config
#[derive(Clone, Debug)]
pub struct Config {
    token: String,
}

impl Config {
    /// Create new config instance
    pub fn new(token: String) -> (r: Self)
        ensures
            r.spec_token() == token,
    {
        Self { token }
    }

    /// Get token
    pub fn token(&self) -> (r: &String)
        ensures
            r == self.spec_token(),
    {
        &self.token
    }

    /// The token as the contracts see it.
    pub closed spec fn spec_token(self) -> String {
        self.token
    }
}

} // verus!
