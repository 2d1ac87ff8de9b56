//! Users and their sessions as the hub's clients see them.

use vstd::prelude::*;

verus! {

/// A user's own account data.
#[derive(Debug)]
pub struct UserData {
    pub uuid: u128,
    pub username: String,
    pub email: String,
    pub status: UserStatus,
    /// Seconds since the epoch.
    pub created_at: i64,
}

/// What anyone may learn of a user.
#[derive(Debug)]
pub struct UserInfo {
    pub uuid: u128,
    pub username: String,
    pub status: UserStatus,
}

/// Whether an account may be used.
#[derive(Clone, Copy, Debug, PartialEq, Eq, Structural)]
pub enum UserStatus {
    Active,
    Inactive,
    Banned,
}

/// Which product surface a session or a token belongs to.
#[derive(Clone, Copy, Debug, PartialEq, Eq, Structural)]
pub enum ClientType {
    Web,
    Game,
    Mobile,
}

/// One session of a user. Times are seconds since the epoch.
#[derive(Clone, Copy, Debug, PartialEq, Eq, Structural)]
pub struct UserSession {
    pub uuid: u128,
    pub ct: ClientType,
    pub expires_at: i64,
    pub updated_at: i64,
    pub created_at: i64,
}

impl UserStatus {
    /// The number that stands for this status on the wire and in storage.
    pub open spec fn spec_code(self) -> i16 {
        match self {
            UserStatus::Active => 0,
            UserStatus::Inactive => 1,
            UserStatus::Banned => 2,
        }
    }

    /// The status that a number stands for.
    pub open spec fn spec_from_code(code: int) -> Option<UserStatus> {
        if code == 0 {
            Some(UserStatus::Active)
        } else if code == 1 {
            Some(UserStatus::Inactive)
        } else if code == 2 {
            Some(UserStatus::Banned)
        } else {
            None
        }
    }

    /// The number that stands for this status on the wire and in storage.
    pub fn code(self) -> (n: i16)
        ensures
            n == self.spec_code(),
            Self::spec_from_code(n as int) == Some(self),
    {
        match self {
            UserStatus::Active => 0,
            UserStatus::Inactive => 1,
            UserStatus::Banned => 2,
        }
    }

    /// Reads a status from its number; `None` for a number that stands for
    /// no status.
    pub fn from_code(code: i64) -> (status: Option<UserStatus>)
        ensures
            status == Self::spec_from_code(code as int),
    {
        if code == 0 {
            Some(UserStatus::Active)
        } else if code == 1 {
            Some(UserStatus::Inactive)
        } else if code == 2 {
            Some(UserStatus::Banned)
        } else {
            None
        }
    }
}

impl ClientType {
    /// The number that stands for this client type on the wire and in storage.
    pub open spec fn spec_code(self) -> i16 {
        match self {
            ClientType::Web => 0,
            ClientType::Game => 1,
            ClientType::Mobile => 2,
        }
    }

    /// The client type that a number stands for.
    pub open spec fn spec_from_code(code: int) -> Option<ClientType> {
        if code == 0 {
            Some(ClientType::Web)
        } else if code == 1 {
            Some(ClientType::Game)
        } else if code == 2 {
            Some(ClientType::Mobile)
        } else {
            None
        }
    }

    /// The number that stands for this client type on the wire and in storage.
    pub fn code(self) -> (n: i16)
        ensures
            n == self.spec_code(),
            Self::spec_from_code(n as int) == Some(self),
    {
        match self {
            ClientType::Web => 0,
            ClientType::Game => 1,
            ClientType::Mobile => 2,
        }
    }

    /// Reads a client type from its number; `None` for a number that stands
    /// for no client type.
    pub fn from_code(code: i64) -> (ct: Option<ClientType>)
        ensures
            ct == Self::spec_from_code(code as int),
    {
        if code == 0 {
            Some(ClientType::Web)
        } else if code == 1 {
            Some(ClientType::Game)
        } else if code == 2 {
            Some(ClientType::Mobile)
        } else {
            None
        }
    }
}

impl ClientType {
    /// Every client type, in the order of their numbers.
    pub fn all() -> (all: [ClientType; 3])
        ensures
            all@ == seq![ClientType::Web, ClientType::Game, ClientType::Mobile],
    {
        [ClientType::Web, ClientType::Game, ClientType::Mobile]
    }
}

impl Default for ClientType {
    /// A client that names no type is a web client.
    fn default() -> (ct: Self)
        ensures
            ct == ClientType::Web,
    {
        ClientType::Web
    }
}

} // verus!
