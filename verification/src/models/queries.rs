//! Questions that name a user.

use vstd::prelude::*;

verus! {

/// Names a user by identifier or by username.
#[derive(Debug)]
pub struct UserIdQuery {
    pub uuid: Option<u128>,
    pub username: Option<String>,
}

} // verus!
