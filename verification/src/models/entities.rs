//! The rows that the hub stores, and the statements that read and write the
//! session tables.

use vstd::prelude::*;
use vstd::string::*;
use crate::common::user::{ClientType, UserData, UserInfo, UserStatus};
use crate::types::CiText;

verus! {

/// The column by which a session is looked for.
#[derive(Clone, Copy, Debug, PartialEq, Eq, Structural)]
pub enum FindBy {
    Uuid,
    Sub,
    Token,
}

/// A user's account. Times are seconds since the epoch.
#[derive(Clone, Debug)]
pub struct User {
    pub uuid: u128,
    pub username: String,
    pub email: CiText,
    /// The hash of the password.
    pub password: String,
    /// Further attributes, as the text of a JSON object. The hub keeps them
    /// and never reads them.
    pub other: String,
    pub status: UserStatus,
    pub updated: i64,
    pub created: i64,
}

/// A user's account as contracts see it.
pub struct UserView {
    pub uuid: u128,
    pub username: Seq<char>,
    pub email: Seq<char>,
    pub password: Seq<char>,
    pub other: Seq<char>,
    pub status: UserStatus,
    pub updated: i64,
    pub created: i64,
}

impl View for User {
    type V = UserView;

    open spec fn view(&self) -> UserView {
        UserView {
            uuid: self.uuid,
            username: self.username@,
            email: self.email@,
            password: self.password@,
            other: self.other@,
            status: self.status,
            updated: self.updated,
            created: self.created,
        }
    }
}

impl User {
    /// A new account, made at the time `now`, with no further attributes.
    pub fn new(
        uuid: u128,
        username: String,
        email: String,
        password: String,
        status: UserStatus,
        now: i64,
    ) -> (user: Self)
        ensures
            user@ == (UserView {
                uuid,
                username: username@,
                email: email@,
                password: password@,
                other: "{}"@,
                status,
                updated: now,
                created: now,
            }),
    {
        Self {
            uuid,
            username,
            email: CiText(email),
            password,
            other: String::from_str("{}"),
            status,
            updated: now,
            created: now,
        }
    }

    /// A copy of the account.
    pub fn copy(&self) -> (user: Self)
        ensures
            user@ == self@,
    {
        Self {
            uuid: self.uuid,
            username: self.username.clone(),
            email: CiText(self.email.0.clone()),
            password: self.password.clone(),
            other: self.other.clone(),
            status: self.status,
            updated: self.updated,
            created: self.created,
        }
    }

    /// What the user may learn of their own account.
    pub fn into_data(self) -> (data: UserData)
        ensures
            data.uuid == self.uuid,
            data.username@ == self.username@,
            data.email@ == self.email@,
            data.status == self.status,
            data.created_at == self.created,
    {
        UserData {
            uuid: self.uuid,
            username: self.username,
            email: self.email.0,
            status: self.status,
            created_at: self.created,
        }
    }

    /// What anyone may learn of the account.
    pub fn into_info(self) -> (info: UserInfo)
        ensures
            info.uuid == self.uuid,
            info.username@ == self.username@,
            info.status == self.status,
    {
        UserInfo { uuid: self.uuid, username: self.username, status: self.status }
    }

    /// The statement that finds a user by username.
    pub fn query_find_by_username() -> (sql: &'static str)
        ensures
            sql@ == "SELECT * FROM \"User\" WHERE username = $1"@,
    {
        "SELECT * FROM \"User\" WHERE username = $1"
    }

    /// The statement that finds a user by identifier.
    pub fn query_find_by_uuid() -> (sql: &'static str)
        ensures
            sql@ == "SELECT * FROM \"User\" WHERE uuid = $1"@,
    {
        "SELECT * FROM \"User\" WHERE uuid = $1"
    }

    /// The statement that stores a new user.
    pub fn query_insert() -> (sql: &'static str)
        ensures
            sql@ == "INSERT INTO \"User\" VALUES ($1, $2, $3, $4, $5, $6)"@,
    {
        "INSERT INTO \"User\" VALUES ($1, $2, $3, $4, $5, $6)"
    }

    /// The statement that replaces a user's password.
    pub fn query_update_password() -> (sql: &'static str)
        ensures
            sql@ == "UPDATE \"User\" SET password = $1 WHERE uuid = $2"@,
    {
        "UPDATE \"User\" SET password = $1 WHERE uuid = $2"
    }
}

/// One session: a user's login from one client type. Times are seconds
/// since the epoch.
#[derive(Clone, Copy, Debug, PartialEq, Eq, Structural)]
pub struct Session {
    /// The session's identifier, which it keeps for as long as it lives.
    pub uuid: u128,
    /// The user that owns the session.
    pub sub: u128,
    /// The identifier of the refresh token in force.
    pub token: u128,
    /// When the session ends.
    pub exp: i64,
    /// When the refresh token was last rotated.
    pub updated_at: i64,
    /// When the session was made.
    pub created_at: i64,
}

/// The name of the table that holds the sessions of a client type.
pub open spec fn table_name(client_type: ClientType) -> Seq<char> {
    match client_type {
        ClientType::Web => "WebSession"@,
        ClientType::Game => "GameSession"@,
        ClientType::Mobile => "MobileSession"@,
    }
}

/// The name of the column that a session is looked for by.
pub open spec fn column_name(by: FindBy) -> Seq<char> {
    match by {
        FindBy::Uuid => "uuid"@,
        FindBy::Sub => "sub"@,
        FindBy::Token => "token"@,
    }
}

/// The condition that picks the rows whose column holds the first parameter,
/// with the quote that closes the table's name before it.
pub open spec fn where_clause(by: FindBy) -> Seq<char> {
    match by {
        FindBy::Uuid => "\" WHERE uuid = $1"@,
        FindBy::Sub => "\" WHERE sub = $1"@,
        FindBy::Token => "\" WHERE token = $1"@,
    }
}

impl Session {
    /// The column of the session that `by` names.
    pub open spec fn column(self, by: FindBy) -> u128 {
        match by {
            FindBy::Uuid => self.uuid,
            FindBy::Sub => self.sub,
            FindBy::Token => self.token,
        }
    }

    /// Reads the column of the session that `by` names.
    pub fn get(&self, by: FindBy) -> (value: u128)
        ensures
            value == self.column(by),
    {
        match by {
            FindBy::Uuid => self.uuid,
            FindBy::Sub => self.sub,
            FindBy::Token => self.token,
        }
    }

    /// The name of the table that holds the sessions of a client type.
    pub fn table(client_type: ClientType) -> (name: &'static str)
        ensures
            name@ == table_name(client_type),
    {
        match client_type {
            ClientType::Web => "WebSession",
            ClientType::Game => "GameSession",
            ClientType::Mobile => "MobileSession",
        }
    }

    fn condition(by: FindBy) -> (text: &'static str)
        ensures
            text@ == where_clause(by),
    {
        match by {
            FindBy::Uuid => "\" WHERE uuid = $1",
            FindBy::Sub => "\" WHERE sub = $1",
            FindBy::Token => "\" WHERE token = $1",
        }
    }

    /// The statement that stores a session for a user, in place of the one
    /// that the user may have in the table, and hands the row back.
    pub fn query_new(client_type: ClientType) -> (sql: String)
        ensures
            sql@ == "INSERT INTO \""@ + table_name(client_type)
                + "\" (sub, exp) VALUES ($1, $2) ON CONFLICT (sub) DO UPDATE SET uuid = excluded.uuid, "@
                + "token = excluded.token, exp = excluded.exp, created_at = default RETURNING *;"@,
    {
        let mut sql = String::from_str("INSERT INTO \"");
        sql.append(Self::table(client_type));
        sql.append(
            "\" (sub, exp) VALUES ($1, $2) ON CONFLICT (sub) DO UPDATE SET uuid = excluded.uuid, ",
        );
        sql.append("token = excluded.token, exp = excluded.exp, created_at = default RETURNING *;");
        sql
    }

    /// The statement that deletes the sessions whose column `by` holds the
    /// first parameter.
    pub fn query_delete(client_type: ClientType, by: FindBy) -> (sql: String)
        ensures
            sql@ == "DELETE FROM \""@ + table_name(client_type) + where_clause(by),
    {
        let mut sql = String::from_str("DELETE FROM \"");
        sql.append(Self::table(client_type));
        sql.append(Self::condition(by));
        sql
    }

    /// The statement that finds the sessions whose column `by` holds the
    /// first parameter.
    pub fn query_find(client_type: ClientType, by: FindBy) -> (sql: String)
        ensures
            sql@ == "SELECT * FROM \""@ + table_name(client_type) + where_clause(by),
    {
        let mut sql = String::from_str("SELECT * FROM \"");
        sql.append(Self::table(client_type));
        sql.append(Self::condition(by));
        sql
    }

    /// The statement that gives a session a new refresh token and a new end,
    /// and hands the token back.
    pub fn query_refresh(client_type: ClientType) -> (sql: String)
        ensures
            sql@ == "UPDATE \""@ + table_name(client_type)
                + "\" SET token = DEFAULT, exp = $1 WHERE uuid = $2 RETURNING token;"@,
    {
        let mut sql = String::from_str("UPDATE \"");
        sql.append(Self::table(client_type));
        sql.append("\" SET token = DEFAULT, exp = $1 WHERE uuid = $2 RETURNING token;");
        sql
    }

    /// The session as a client is told of it.
    pub fn to_user_session(&self, client_type: ClientType) -> (shown: crate::common::user::UserSession)
        ensures
            shown == (crate::common::user::UserSession {
                uuid: self.uuid,
                ct: client_type,
                expires_at: self.exp,
                updated_at: self.updated_at,
                created_at: self.created_at,
            }),
    {
        crate::common::user::UserSession {
            uuid: self.uuid,
            ct: client_type,
            expires_at: self.exp,
            updated_at: self.updated_at,
            created_at: self.created_at,
        }
    }
}

} // verus!
