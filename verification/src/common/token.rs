//! The body that carries an access token to a client.

use vstd::prelude::*;

verus! {

/// A signed access token, ready to be sent.
#[derive(Debug)]
pub struct AccessToken {
    pub access_token: String,
}

impl AccessToken {
    /// Wraps a signed access token.
    pub fn new(access_token: String) -> (body: Self)
        ensures
            body.access_token == access_token,
    {
        Self { access_token }
    }
}

} // verus!
