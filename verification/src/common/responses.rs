//! The bodies of the hub's answers.

use vstd::prelude::*;
use crate::common::user::UserSession;

verus! {

/// The answer to a registration: the new user's identifier.
#[derive(Clone, Copy, Debug, PartialEq, Eq, Structural)]
pub struct RegistrationResponse {
    pub uuid: u128,
}

impl RegistrationResponse {
    /// Wraps the identifier of a new user.
    pub fn new(uuid: u128) -> (body: Self)
        ensures
            body.uuid == uuid,
    {
        Self { uuid }
    }
}

/// A user's sessions, one at most for each client type. An absent session is
/// left out of the answer.
#[derive(Clone, Copy, Debug, PartialEq, Eq, Structural)]
pub struct SessionsResponse {
    pub web: Option<UserSession>,
    pub game: Option<UserSession>,
    pub mobile: Option<UserSession>,
}

} // verus!
