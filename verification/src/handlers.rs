//! The hub's answers: what each request does to the tables and what it
//! returns. Every rule of login, refresh and revocation is decided here.
//!
//! A handler that needs the time or random identifiers comes in two forms:
//! one that takes them as arguments and whose contract says exactly what
//! happens, and one that draws them and does the same.

use vstd::prelude::*;
use vstd::string::*;
use crate::app::HubState;
use crate::common::hub::HubStatus;
use crate::common::responses::{RegistrationResponse, SessionsResponse};
use crate::common::user::{ClientType, UserData, UserInfo, UserSession, UserStatus};
use crate::http::{Cookie, CookieView, StatusCode};
use crate::ident::{fresh_id, is_random_id};
use crate::jwt::jwt_encoded;
use crate::keys::{Keys, KeysView};
use crate::models::entities::{FindBy, Session, User, UserView};
use crate::models::parsers::{
    is_password, is_server_id, is_username, email_accepted, KeyFormat, KeyFormatQuery, LoginBody,
    PITQuery, PasswordChangeBody, RegisterBody, UserInfoQuery,
};
use crate::models::tokens::{
    decoded, AccessToken, PlayerIdentityToken, RefreshToken, SecurityToken,
};
use crate::store::{
    found_session, found_user, insert_outcome, password_outcome, rotate_outcome, upsert_outcome,
    user_has_id, user_has_name, without, DBView, DbError, DB,
};
use crate::utils::{hash_password, is_moment, now, password_matches, verify_password, TIME_MAX};

verus! {

/// Answers a health check.
pub fn health() -> (code: StatusCode)
    ensures
        code == StatusCode::Success,
{
    StatusCode::Success
}

/// Tells what the hub says of itself.
pub fn status(debug: bool) -> (status: HubStatus<'static>)
    ensures
        status.name@ == crate::config::NAME@,
        status.hub_version@ == crate::config::VERSION@,
        status.api_version == crate::common::hub::HubApiVersion::V1,
        status.mode == if debug {
            crate::common::hub::HubMode::Debug
        } else {
            crate::common::hub::HubMode::Testing
        },
{
    crate::config::status(debug)
}

/// Hands out the public key with which the hub's tokens are checked, in
/// lower-case hexadecimal or as PEM text.
pub fn pubkey(keys: &Keys, format: KeyFormatQuery) -> (text: String)
    ensures
        keys@.wf(),
        text@ == match format.format {
            KeyFormat::Hex => keys@.public_hex,
            KeyFormat::Pem => keys@.public_pem,
        },
{
    match format.format {
        KeyFormat::Hex => String::from_str(keys.public_hex()),
        KeyFormat::Pem => String::from_str(keys.public_pem()),
    }
}

/// How a question for public data names its user.
#[derive(Debug)]
pub enum UserKey {
    Uuid(u128),
    Username(String),
}

/// How a question for public data names its user, as contracts see it.
pub enum UserKeyView {
    Uuid(u128),
    Username(Seq<char>),
}

impl View for UserKey {
    type V = UserKeyView;

    open spec fn view(&self) -> UserKeyView {
        match self {
            UserKey::Uuid(uuid) => UserKeyView::Uuid(*uuid),
            UserKey::Username(name) => UserKeyView::Username(name@),
        }
    }
}

/// By what a question for public data looks its user up: by the identifier
/// where one is given, else by the username. A username that is none, or a
/// question that names nothing, is a bad request.
pub open spec fn user_key_of(uuid: Option<u128>, username: Option<Seq<char>>) -> Result<
    UserKeyView,
    StatusCode,
> {
    if username is Some && !is_username(username->0) {
        Err(StatusCode::BadRequest)
    } else if uuid is Some {
        Ok(UserKeyView::Uuid(uuid->0))
    } else if username is Some {
        Ok(UserKeyView::Username(username->0))
    } else {
        Err(StatusCode::BadRequest)
    }
}

/// Decides by what a question for public data looks its user up.
pub fn user_info_key(query: &UserInfoQuery) -> (res: Result<UserKey, StatusCode>)
    ensures
        match res {
            Ok(key) => user_key_of(query.uuid, name_view(query.username)) == Ok::<
                UserKeyView,
                StatusCode,
            >(key@),
            Err(code) => user_key_of(query.uuid, name_view(query.username)) == Err::<
                UserKeyView,
                StatusCode,
            >(code),
        },
{
    if !query.validate() {
        return Err(StatusCode::BadRequest);
    }
    match (query.uuid, &query.username) {
        (Some(uuid), _) => Ok(UserKey::Uuid(uuid)),
        (None, Some(username)) => Ok(UserKey::Username(username.clone())),
        _ => Err(StatusCode::BadRequest),
    }
}

/// Answers a question for public data with what anyone may learn of the
/// user found; not found where there is none.
pub fn user_info_answer(found: Option<User>) -> (res: Result<UserInfo, StatusCode>)
    ensures
        match res {
            Ok(info) => {
                &&& found matches Some(user)
                &&& info.uuid == user.uuid
                &&& info.username@ == user.username@
                &&& info.status == user.status
            },
            Err(code) => found is None && code == StatusCode::NotFound,
        },
{
    match found {
        Some(user) => Ok(user.into_info()),
        None => Err(StatusCode::NotFound),
    }
}

/// Answers a question for a user's own data with the account found; not
/// found where there is none.
pub fn user_data_answer(found: Option<User>) -> (res: Result<UserData, StatusCode>)
    ensures
        match res {
            Ok(data) => {
                &&& found matches Some(user)
                &&& data.uuid == user.uuid
                &&& data.username@ == user.username@
                &&& data.email@ == user.email@
                &&& data.status == user.status
                &&& data.created_at == user.created
            },
            Err(code) => found is None && code == StatusCode::NotFound,
        },
{
    match found {
        Some(user) => Ok(user.into_data()),
        None => Err(StatusCode::NotFound),
    }
}

/// The session that was found, or not found where there is none.
pub fn session_or_not_found(found: Option<Session>) -> (res: Result<Session, StatusCode>)
    ensures
        res == match found {
            Some(session) => Ok::<Session, StatusCode>(session),
            None => Err::<Session, StatusCode>(StatusCode::NotFound),
        },
{
    match found {
        Some(session) => Ok(session),
        None => Err(StatusCode::NotFound),
    }
}

/// The hash that was made, or an internal error where there is none.
pub fn hash_or_internal_error(hash: Option<String>) -> (res: Result<String, StatusCode>)
    ensures
        match res {
            Ok(text) => hash == Some(text),
            Err(code) => hash is None && code == StatusCode::InternalServerError,
        },
{
    match hash {
        Some(text) => Ok(text),
        None => Err(StatusCode::InternalServerError),
    }
}

/// The user that a question for public data names: the one with the
/// identifier where one is given, else the one with the username. A username
/// that is none, or a question that names nothing, is a bad request; a user
/// that is not there is not found.
pub open spec fn user_info_outcome(
    db: DBView,
    uuid: Option<u128>,
    username: Option<Seq<char>>,
) -> Result<UserView, StatusCode> {
    if username is Some && !is_username(username->0) {
        Err(StatusCode::BadRequest)
    } else if uuid is Some {
        match found_user(db.users, user_has_id(uuid->0)) {
            Some(user) => Ok(user),
            None => Err(StatusCode::NotFound),
        }
    } else if username is Some {
        match found_user(db.users, user_has_name(username->0)) {
            Some(user) => Ok(user),
            None => Err(StatusCode::NotFound),
        }
    } else {
        Err(StatusCode::BadRequest)
    }
}

/// The username of a question, as contracts see it.
pub open spec fn name_view(username: Option<String>) -> Option<Seq<char>> {
    match username {
        Some(name) => Some(name@),
        None => None,
    }
}

/// Looks up what anyone may learn of a user.
pub fn user_info(state: &HubState, query: &UserInfoQuery) -> (res: Result<UserInfo, StatusCode>)
    ensures
        match res {
            Ok(info) => {
                &&& user_info_outcome(state.db@, query.uuid, name_view(query.username)) is Ok
                &&& info.uuid == user_info_outcome(
                    state.db@,
                    query.uuid,
                    name_view(query.username),
                )->Ok_0.uuid
                &&& info.username@ == user_info_outcome(
                    state.db@,
                    query.uuid,
                    name_view(query.username),
                )->Ok_0.username
                &&& info.status == user_info_outcome(
                    state.db@,
                    query.uuid,
                    name_view(query.username),
                )->Ok_0.status
            },
            Err(code) => user_info_outcome(state.db@, query.uuid, name_view(query.username))
                == Err::<UserView, StatusCode>(code),
        },
{
    let found = match user_info_key(query) {
        Ok(UserKey::Uuid(uuid)) => User::find_by_uuid(&state.db, uuid),
        Ok(UserKey::Username(username)) => User::find_by_username(&state.db, username.as_str()),
        Err(code) => {
            return Err(code);
        },
    };
    user_info_answer(found)
}

/// Hands the user of an access token their own account data; not found
/// where the user is gone.
pub fn user_data(state: &HubState, token: &AccessToken) -> (res: Result<UserData, StatusCode>)
    ensures
        match res {
            Ok(data) => {
                &&& found_user(state.db@.users, user_has_id(token.sub)) matches Some(user)
                &&& data.uuid == user.uuid
                &&& data.username@ == user.username
                &&& data.email@ == user.email
                &&& data.status == user.status
                &&& data.created_at == user.created
            },
            Err(code) => code == StatusCode::NotFound && found_user(
                state.db@.users,
                user_has_id(token.sub),
            ) is None,
        },
{
    user_data_answer(User::find_by_uuid(&state.db, token.sub))
}

/// The session of a user in the table of a client type, as a client is told
/// of it.
pub open spec fn shown_session(db: DBView, sub: u128, client_type: ClientType) -> Option<
    UserSession,
> {
    match found_session(db.sessions(client_type), FindBy::Sub, sub) {
        Some(row) => Some(
            UserSession {
                uuid: row.uuid,
                ct: client_type,
                expires_at: row.exp,
                updated_at: row.updated_at,
                created_at: row.created_at,
            },
        ),
        None => None,
    }
}

fn show_session(db: &DB, sub: u128, client_type: ClientType) -> (shown: Option<UserSession>)
    ensures
        shown == shown_session(db@, sub, client_type),
{
    match Session::find_by(db, client_type, sub, FindBy::Sub) {
        Some(row) => Some(row.to_user_session(client_type)),
        None => None,
    }
}

/// Lists the sessions of the user of an access token, one at most for each
/// client type.
pub fn user_sessions(state: &HubState, token: &AccessToken) -> (res: SessionsResponse)
    ensures
        res.web == shown_session(state.db@, token.sub, ClientType::Web),
        res.game == shown_session(state.db@, token.sub, ClientType::Game),
        res.mobile == shown_session(state.db@, token.sub, ClientType::Mobile),
{
    SessionsResponse {
        web: show_session(&state.db, token.sub, ClientType::Web),
        game: show_session(&state.db, token.sub, ClientType::Game),
        mobile: show_session(&state.db, token.sub, ClientType::Mobile),
    }
}

/// What revoking the session of an access token does: where the session is
/// there, it is deleted; where it is not, nothing changes and it is not
/// found.
pub open spec fn revoke_outcome(db: DBView, token: AccessToken) -> (StatusCode, DBView) {
    let rows = db.sessions(token.ct);
    match found_session(rows, FindBy::Uuid, token.iss) {
        Some(session) => (
            StatusCode::Success,
            db.with_sessions(token.ct, without(rows, FindBy::Uuid, session.uuid)),
        ),
        None => (StatusCode::NotFound, db),
    }
}

/// Ends the session that an access token was made for.
pub fn token_revoke(state: &mut HubState, token: &AccessToken) -> (code: StatusCode)
    ensures
        final(state).keys == old(state).keys,
        final(state).db@.wf(),
        (code, final(state).db@) == revoke_outcome(old(state).db@, *token),
{
    proof {
        use_type_invariant(&state.db);
    }
    match session_or_not_found(Session::find_by(&state.db, token.ct, token.iss, FindBy::Uuid)) {
        Ok(session) => {
            session.delete(&mut state.db, token.ct);
            StatusCode::Success
        },
        Err(code) => code,
    }
}

/// The cookie that carries the signed refresh token of a session, starting
/// at the time `now`; `None` where the token cannot be signed.
pub open spec fn refresh_cookie(keys: KeysView, session: Session, ct: ClientType, now: i64) -> Option<
    CookieView,
> {
    match jwt_encoded(
        RefreshToken::claims_of(
            RefreshToken {
                sess: session.uuid,
                sub: session.sub,
                jti: session.token,
                exp: session.exp,
                nbf: now,
                ct,
            },
        ),
        keys.secret_pem,
    ) {
        Some(value) => Some(RefreshToken::cookie_of(value)),
        None => None,
    }
}

/// The signed access token made at the time `now` under the identifier
/// `jti`; `None` where the token cannot be signed.
pub open spec fn access_text(
    keys: KeysView,
    iss: u128,
    sub: u128,
    ct: ClientType,
    jti: u128,
    now: i64,
) -> Option<Seq<char>> {
    jwt_encoded(AccessToken::claims_of(AccessToken::made(iss, sub, ct, jti, now)), keys.secret_pem)
}

/// Signs the refresh token of a session and wraps it in its cookie. A
/// failure to sign is an internal error.
pub fn issue_cookie(keys: &Keys, session: &Session, ct: ClientType, now: i64) -> (res: Result<
    Cookie,
    StatusCode,
>)
    ensures
        match res {
            Ok(cookie) => refresh_cookie(keys@, *session, ct, now) == Some(cookie@),
            Err(code) => refresh_cookie(keys@, *session, ct, now) is None && code
                == StatusCode::InternalServerError,
        },
{
    match RefreshToken::from_session(session, ct, now).to_cookie(keys) {
        Ok(cookie) => Ok(cookie),
        Err(_) => Err(StatusCode::InternalServerError),
    }
}

/// Makes and signs an access token at the time `now` under the identifier
/// `jti`. A failure to sign is an internal error.
pub fn issue_access(keys: &Keys, iss: u128, sub: u128, ct: ClientType, jti: u128, now: i64) -> (res:
    Result<String, StatusCode>)
    requires
        now <= TIME_MAX,
    ensures
        match res {
            Ok(text) => access_text(keys@, iss, sub, ct, jti, now) == Some(text@),
            Err(code) => access_text(keys@, iss, sub, ct, jti, now) is None && code
                == StatusCode::InternalServerError,
        },
{
    match AccessToken::new_at(iss, sub, ct, jti, now).sign(keys) {
        Ok(text) => Ok(text),
        Err(_) => Err(StatusCode::InternalServerError),
    }
}

/// Whether a login may go on, given the user found under the username and
/// the password offered: an unknown user and a wrong password are both
/// unauthorized, a stored hash that is none is an internal error, an inactive
/// account is a teapot and a banned one is gone.
pub open spec fn login_verdict(found: Option<UserView>, password: Seq<char>) -> Result<
    UserView,
    StatusCode,
> {
    match found {
        None => Err(StatusCode::Unauthorized),
        Some(user) => match password_matches(password, user.password) {
            None => Err(StatusCode::InternalServerError),
            Some(false) => Err(StatusCode::Unauthorized),
            Some(true) => match user.status {
                UserStatus::Active => Ok(user),
                UserStatus::Inactive => Err(StatusCode::ImATeapot),
                UserStatus::Banned => Err(StatusCode::Gone),
            },
        },
    }
}

/// What the outcome of checking a password and the status of an account
/// say of a login.
pub open spec fn login_gate(matches: Option<bool>, status: UserStatus) -> Result<(), StatusCode> {
    match matches {
        None => Err(StatusCode::InternalServerError),
        Some(false) => Err(StatusCode::Unauthorized),
        Some(true) => match status {
            UserStatus::Active => Ok(()),
            UserStatus::Inactive => Err(StatusCode::ImATeapot),
            UserStatus::Banned => Err(StatusCode::Gone),
        },
    }
}

/// Decides whether a login may go on, from the outcome of checking the
/// password and from the status of the account.
pub fn login_decision(matches: Option<bool>, status: UserStatus) -> (res: Result<(), StatusCode>)
    ensures
        res == login_gate(matches, status),
{
    match matches {
        None => Err(StatusCode::InternalServerError),
        Some(false) => Err(StatusCode::Unauthorized),
        Some(true) => match status {
            UserStatus::Active => Ok(()),
            UserStatus::Inactive => Err(StatusCode::ImATeapot),
            UserStatus::Banned => Err(StatusCode::Gone),
        },
    }
}

/// Checks the password offered for a login against the user found under the
/// username, and then the status of the account.
pub fn check_login(found: Option<User>, password: &str) -> (res: Result<User, StatusCode>)
    ensures
        match res {
            Ok(user) => found is Some && found->0 == user && login_verdict(
                Some(user@),
                password@,
            ) == Ok::<UserView, StatusCode>(user@),
            Err(code) => login_verdict(
                match found {
                    Some(user) => Some(user@),
                    None => None,
                },
                password@,
            ) == Err::<UserView, StatusCode>(code),
        },
{
    match found {
        None => Err(StatusCode::Unauthorized),
        Some(user) => {
            let matches = verify_password(password, user.password.as_str());
            match login_decision(matches, user.status) {
                Ok(()) => Ok(user),
                Err(code) => Err(code),
            }
        },
    }
}

/// What a login does at the time `now`, with `uuid` and `token` as the new
/// session's identifier and refresh token and `jti` as the access token's
/// identifier: the answer, and the tables afterwards.
///
/// A body that breaks its rules is a bad request. Then the user is looked up
/// and the password checked. A login that may go on writes the user's
/// session for the client type, in place of the one that may be there; the
/// answer is the cookie with the session's refresh token, and an access
/// token for the session. A session that was written stays written even if
/// a token cannot be signed.
pub open spec fn login_outcome(
    db: DBView,
    keys: KeysView,
    username: Seq<char>,
    password: Seq<char>,
    ct: ClientType,
    now: i64,
    uuid: u128,
    token: u128,
    jti: u128,
) -> (Result<(CookieView, Seq<char>), StatusCode>, DBView) {
    if !(is_username(username) && is_password(password)) {
        (Err(StatusCode::BadRequest), db)
    } else {
        match login_verdict(found_user(db.users, user_has_name(username)), password) {
            Err(code) => (Err(code), db),
            Ok(user) => match upsert_outcome(db, ct, user.uuid, uuid, token, now) {
                (Err(_), after) => (Err(StatusCode::InternalServerError), after),
                (Ok(session), after) => (tokens_outcome(keys, session, ct, now, jti), after),
            },
        }
    }
}

/// The answer that carries a session's tokens: the cookie with its refresh
/// token and an access token; an internal error where either cannot be
/// signed.
pub open spec fn tokens_outcome(
    keys: KeysView,
    session: Session,
    ct: ClientType,
    now: i64,
    jti: u128,
) -> Result<(CookieView, Seq<char>), StatusCode> {
    match refresh_cookie(keys, session, ct, now) {
        None => Err(StatusCode::InternalServerError),
        Some(cookie) => match access_text(keys, session.uuid, session.sub, ct, jti, now) {
            None => Err(StatusCode::InternalServerError),
            Some(access) => Ok((cookie, access)),
        },
    }
}

/// Signs the two tokens of a session: the refresh token in its cookie, and
/// an access token.
pub fn issue_tokens(keys: &Keys, session: &Session, ct: ClientType, now: i64, jti: u128) -> (res:
    Result<(Cookie, String), StatusCode>)
    requires
        now <= TIME_MAX,
    ensures
        match res {
            Ok(pair) => tokens_outcome(keys@, *session, ct, now, jti) == Ok::<
                (CookieView, Seq<char>),
                StatusCode,
            >((pair.0@, pair.1@)),
            Err(code) => tokens_outcome(keys@, *session, ct, now, jti) == Err::<
                (CookieView, Seq<char>),
                StatusCode,
            >(code),
        },
{
    let cookie = match issue_cookie(keys, session, ct, now) {
        Ok(cookie) => cookie,
        Err(code) => {
            return Err(code);
        },
    };
    match issue_access(keys, session.uuid, session.sub, ct, jti, now) {
        Ok(access) => Ok((cookie, access)),
        Err(code) => Err(code),
    }
}

/// That `res` carries what the answer `expected` says.
pub open spec fn tokens_answer(
    res: Result<(Cookie, String), StatusCode>,
    expected: Result<(CookieView, Seq<char>), StatusCode>,
) -> bool {
    match res {
        Ok(pair) => expected == Ok::<(CookieView, Seq<char>), StatusCode>((pair.0@, pair.1@)),
        Err(code) => expected == Err::<(CookieView, Seq<char>), StatusCode>(code),
    }
}

/// Logs a user in at the time `now`: see `login_outcome`.
pub fn user_login_at(
    state: &mut HubState,
    body: &LoginBody,
    now: i64,
    uuid: u128,
    token: u128,
    jti: u128,
) -> (res: Result<(Cookie, String), StatusCode>)
    requires
        now <= TIME_MAX,
    ensures
        final(state).keys == old(state).keys,
        final(state).db@.wf(),
        tokens_answer(
            res,
            login_outcome(
                old(state).db@,
                old(state).keys@,
                body.username@,
                body.password@,
                body.ct,
                now,
                uuid,
                token,
                jti,
            ).0,
        ),
        final(state).db@ == login_outcome(
            old(state).db@,
            old(state).keys@,
            body.username@,
            body.password@,
            body.ct,
            now,
            uuid,
            token,
            jti,
        ).1,
{
    proof {
        use_type_invariant(&state.db);
    }
    if !body.validate() {
        return Err(StatusCode::BadRequest);
    }
    let found = User::find_by_username(&state.db, body.username.as_str());
    let user = match check_login(found, body.password.as_str()) {
        Ok(user) => user,
        Err(code) => {
            return Err(code);
        },
    };
    let session = match Session::upsert(&mut state.db, body.ct, user.uuid, uuid, token, now) {
        Ok(session) => session,
        Err(_) => {
            return Err(StatusCode::InternalServerError);
        },
    };
    issue_tokens(&state.keys, &session, body.ct, now, jti)
}

/// Logs a user in now, with fresh random identifiers: some time and some
/// identifiers make the outcome that of `login_outcome`.
pub fn user_login(state: &mut HubState, body: &LoginBody) -> (res: Result<
    (Cookie, String),
    StatusCode,
>)
    ensures
        final(state).keys == old(state).keys,
        final(state).db@.wf(),
        exists|now: i64, uuid: u128, token: u128, jti: u128|
            is_moment(now) && is_random_id(uuid) && is_random_id(token) && is_random_id(jti)
                && tokens_answer(
                res,
                (#[trigger] login_outcome(
                    old(state).db@,
                    old(state).keys@,
                    body.username@,
                    body.password@,
                    body.ct,
                    now,
                    uuid,
                    token,
                    jti,
                )).0,
            ) && final(state).db@ == login_outcome(
                old(state).db@,
                old(state).keys@,
                body.username@,
                body.password@,
                body.ct,
                now,
                uuid,
                token,
                jti,
            ).1,
{
    let moment = now();
    let uuid = fresh_id();
    let token = fresh_id();
    let jti = fresh_id();
    let res = user_login_at(state, body, moment, uuid, token, jti);
    proof {
        let outcome = login_outcome(
            old(state).db@,
            old(state).keys@,
            body.username@,
            body.password@,
            body.ct,
            moment,
            uuid,
            token,
            jti,
        );
        assert(is_moment(moment) && is_random_id(uuid) && is_random_id(token) && is_random_id(jti)
            && tokens_answer(res, outcome.0) && state.db@ == outcome.1);
    }
    res
}

/// What the stored session says of a refresh token that was presented: a
/// session that is gone is not found, a token that is not the one in force
/// is forbidden; else the answer tells whether the token is due for
/// rotation, which it is when the session has less than seven days left.
pub open spec fn refresh_verdict(found: Option<Session>, jti: u128, now: i64) -> Result<
    bool,
    StatusCode,
> {
    match found {
        None => Err(StatusCode::NotFound),
        Some(session) => if session.token != jti {
            Err(StatusCode::Forbidden)
        } else {
            Ok(session.exp - now < RefreshToken::ROTATION_PERIOD)
        },
    }
}

/// Judges a refresh token that was presented against the stored session.
pub fn refresh_decision(found: Option<Session>, jti: u128, now: i64) -> (res: Result<
    bool,
    StatusCode,
>)
    ensures
        res == refresh_verdict(found, jti, now),
{
    match found {
        None => Err(StatusCode::NotFound),
        Some(session) => {
            if session.token != jti {
                Err(StatusCode::Forbidden)
            } else {
                Ok((session.exp as i128) - (now as i128) < 604800)
            }
        },
    }
}

/// What a refresh does at the time `now`, with `token` as the refresh token
/// to rotate to and `jti` as the access token's identifier: the answer, and
/// the tables afterwards.
///
/// Without the cookie the expectation fails; a cookie that does not decode
/// is forbidden. Then the stored session is judged. A refresh that may go on
/// answers with a new access token, and, where the refresh token is due for
/// rotation, with the cookie of the rotated token as well. A rotation that
/// the tables refuse, or a token that cannot be signed, is an internal
/// error.
pub open spec fn refresh_outcome(
    db: DBView,
    keys: KeysView,
    cookie: Option<Seq<char>>,
    now: i64,
    token: u128,
    jti: u128,
) -> (Result<(Option<CookieView>, Seq<char>), StatusCode>, DBView) {
    match cookie {
        None => (Err(StatusCode::ExpectationFailed), db),
        Some(text) => match decoded::<RefreshToken>(text, keys.public_pem, now) {
            Err(_) => (Err(StatusCode::Forbidden), db),
            Ok(claims) => {
                let found = found_session(db.sessions(claims.ct), FindBy::Uuid, claims.sess);
                match refresh_verdict(found, claims.jti, now) {
                    Err(code) => (Err(code), db),
                    Ok(false) => (
                        match access_text(keys, found->0.uuid, claims.sub, claims.ct, jti, now) {
                            Some(access) => Ok((None, access)),
                            None => Err(StatusCode::InternalServerError),
                        },
                        db,
                    ),
                    Ok(true) => {
                        let rotation = rotate_outcome(db, claims.ct, found->0, token, now);
                        (
                            match (rotation.0, refresh_cookie(keys, rotation.1, claims.ct, now)) {
                                (Ok(_), Some(cookie)) => match access_text(
                                    keys,
                                    rotation.1.uuid,
                                    claims.sub,
                                    claims.ct,
                                    jti,
                                    now,
                                ) {
                                    Some(access) => Ok((Some(cookie), access)),
                                    None => Err(StatusCode::InternalServerError),
                                },
                                _ => Err(StatusCode::InternalServerError),
                            },
                            rotation.2,
                        )
                    },
                }
            },
        },
    }
}

/// A cookie that may be there, as contracts see it.
pub open spec fn cookie_view(cookie: Option<Cookie>) -> Option<CookieView> {
    match cookie {
        Some(cookie) => Some(cookie@),
        None => None,
    }
}

/// A text that may be there, as contracts see it.
pub open spec fn text_view(text: Option<&str>) -> Option<Seq<char>> {
    match text {
        Some(text) => Some(text@),
        None => None,
    }
}

/// That `res` carries what the answer `expected` says.
pub open spec fn refresh_answer(
    res: Result<(Option<Cookie>, String), StatusCode>,
    expected: Result<(Option<CookieView>, Seq<char>), StatusCode>,
) -> bool {
    match res {
        Ok(pair) => expected == Ok::<(Option<CookieView>, Seq<char>), StatusCode>(
            (cookie_view(pair.0), pair.1@),
        ),
        Err(code) => expected == Err::<(Option<CookieView>, Seq<char>), StatusCode>(code),
    }
}

/// Refreshes an access token at the time `now`: see `refresh_outcome`.
pub fn token_refresh_at(
    state: &mut HubState,
    cookie: Option<&str>,
    now: i64,
    token: u128,
    jti: u128,
) -> (res: Result<(Option<Cookie>, String), StatusCode>)
    requires
        now <= TIME_MAX,
    ensures
        final(state).keys == old(state).keys,
        final(state).db@.wf(),
        refresh_answer(
            res,
            refresh_outcome(old(state).db@, old(state).keys@, text_view(cookie), now, token, jti).0,
        ),
        final(state).db@ == refresh_outcome(
            old(state).db@,
            old(state).keys@,
            text_view(cookie),
            now,
            token,
            jti,
        ).1,
{
    proof {
        use_type_invariant(&state.db);
    }
    let text = match cookie {
        Some(text) => text,
        None => {
            return Err(StatusCode::ExpectationFailed);
        },
    };
    let claims = match RefreshToken::decode_at(text, &state.keys, now) {
        Ok(claims) => claims,
        Err(_) => {
            return Err(StatusCode::Forbidden);
        },
    };
    let found = Session::find_by(&state.db, claims.ct, claims.sess, FindBy::Uuid);
    let rotate = match refresh_decision(found, claims.jti, now) {
        Ok(rotate) => rotate,
        Err(code) => {
            return Err(code);
        },
    };
    let mut session = match found {
        Some(session) => session,
        None => {
            return Err(StatusCode::NotFound);
        },
    };
    if rotate {
        if session.rotate(&mut state.db, claims.ct, token, now).is_err() {
            return Err(StatusCode::InternalServerError);
        }
        let cookie = match issue_cookie(&state.keys, &session, claims.ct, now) {
            Ok(cookie) => cookie,
            Err(code) => {
                return Err(code);
            },
        };
        match issue_access(&state.keys, session.uuid, claims.sub, claims.ct, jti, now) {
            Ok(access) => Ok((Some(cookie), access)),
            Err(code) => Err(code),
        }
    } else {
        match issue_access(&state.keys, session.uuid, claims.sub, claims.ct, jti, now) {
            Ok(access) => Ok((None, access)),
            Err(code) => Err(code),
        }
    }
}

/// Refreshes an access token now, with fresh random identifiers: some time
/// and some identifiers make the outcome that of `refresh_outcome`.
pub fn token_refresh(state: &mut HubState, cookie: Option<&str>) -> (res: Result<
    (Option<Cookie>, String),
    StatusCode,
>)
    ensures
        final(state).keys == old(state).keys,
        final(state).db@.wf(),
        exists|now: i64, token: u128, jti: u128|
            is_moment(now) && is_random_id(token) && is_random_id(jti) && refresh_answer(
                res,
                (#[trigger] refresh_outcome(
                    old(state).db@,
                    old(state).keys@,
                    text_view(cookie),
                    now,
                    token,
                    jti,
                )).0,
            ) && final(state).db@ == refresh_outcome(
                old(state).db@,
                old(state).keys@,
                text_view(cookie),
                now,
                token,
                jti,
            ).1,
{
    let moment = now();
    let token = fresh_id();
    let jti = fresh_id();
    let res = token_refresh_at(state, cookie, moment, token, jti);
    proof {
        let outcome = refresh_outcome(
            old(state).db@,
            old(state).keys@,
            text_view(cookie),
            moment,
            token,
            jti,
        );
        assert(is_moment(moment) && is_random_id(token) && is_random_id(jti) && refresh_answer(
            res,
            outcome.0,
        ) && state.db@ == outcome.1);
    }
    res
}

/// The tables after every session of a user is deleted, whatever the client
/// type.
pub open spec fn without_user(db: DBView, sub: u128) -> DBView {
    DBView {
        users: db.users,
        web: without(db.web, FindBy::Sub, sub),
        game: without(db.game, FindBy::Sub, sub),
        mobile: without(db.mobile, FindBy::Sub, sub),
    }
}

/// The tables after the sessions of a user are deleted from the tables of
/// the first `n` client types.
pub open spec fn cleared(db: DBView, sub: u128, n: int) -> DBView {
    DBView {
        users: db.users,
        web: if n >= 1 {
            without(db.web, FindBy::Sub, sub)
        } else {
            db.web
        },
        game: if n >= 2 {
            without(db.game, FindBy::Sub, sub)
        } else {
            db.game
        },
        mobile: if n >= 3 {
            without(db.mobile, FindBy::Sub, sub)
        } else {
            db.mobile
        },
    }
}

/// Deletes the sessions of a user from the table of every client type.
pub fn delete_everywhere(db: &mut DB, sub: u128)
    ensures
        final(db)@.wf(),
        final(db)@ == without_user(old(db)@, sub),
{
    proof {
        use_type_invariant(&*db);
    }
    let ghost before = db@;
    let all = ClientType::all();
    let mut i: usize = 0;
    assert(db@ == cleared(before, sub, 0));
    while i < 3
        invariant
            i <= 3,
            all@ == seq![ClientType::Web, ClientType::Game, ClientType::Mobile],
            db@.wf(),
            db@ == cleared(before, sub, i as int),
        decreases 3 - i,
    {
        Session::delete_by(db, all[i], sub, FindBy::Sub);
        i = i + 1;
    }
}

/// What revoking all sessions does at the time `now`, with `uuid` and
/// `token` as the new session's identifier and refresh token: the answer,
/// and the tables afterwards.
///
/// Where the session of the access token is gone, nothing changes and it is
/// not found. Else every session of the user is deleted, whatever the client
/// type, and one new session is written for the client type of the access
/// token; the answer is the cookie with its refresh token.
pub open spec fn revoke_all_outcome(
    db: DBView,
    keys: KeysView,
    access: AccessToken,
    now: i64,
    uuid: u128,
    token: u128,
) -> (Result<CookieView, StatusCode>, DBView) {
    match found_session(db.sessions(access.ct), FindBy::Uuid, access.iss) {
        None => (Err(StatusCode::NotFound), db),
        Some(_) => match upsert_outcome(
            without_user(db, access.sub),
            access.ct,
            access.sub,
            uuid,
            token,
            now,
        ) {
            (Err(_), after) => (Err(StatusCode::InternalServerError), after),
            (Ok(session), after) => (
                match refresh_cookie(keys, session, access.ct, now) {
                    Some(cookie) => Ok(cookie),
                    None => Err(StatusCode::InternalServerError),
                },
                after,
            ),
        },
    }
}

/// Ends all sessions of the user of an access token at the time `now` and
/// starts a new one: see `revoke_all_outcome`.
pub fn token_revoke_all_at(
    state: &mut HubState,
    access: &AccessToken,
    now: i64,
    uuid: u128,
    token: u128,
) -> (res: Result<Cookie, StatusCode>)
    requires
        now <= TIME_MAX,
    ensures
        final(state).keys == old(state).keys,
        final(state).db@.wf(),
        match res {
            Ok(cookie) => revoke_all_outcome(
                old(state).db@,
                old(state).keys@,
                *access,
                now,
                uuid,
                token,
            ).0 == Ok::<CookieView, StatusCode>(cookie@),
            Err(code) => revoke_all_outcome(
                old(state).db@,
                old(state).keys@,
                *access,
                now,
                uuid,
                token,
            ).0 == Err::<CookieView, StatusCode>(code),
        },
        final(state).db@ == revoke_all_outcome(
            old(state).db@,
            old(state).keys@,
            *access,
            now,
            uuid,
            token,
        ).1,
{
    proof {
        use_type_invariant(&state.db);
    }
    let found = Session::find_by(&state.db, access.ct, access.iss, FindBy::Uuid);
    if let Err(code) = session_or_not_found(found) {
        return Err(code);
    }
    delete_everywhere(&mut state.db, access.sub);
    let session = match Session::upsert(&mut state.db, access.ct, access.sub, uuid, token, now) {
        Ok(session) => session,
        Err(_) => {
            return Err(StatusCode::InternalServerError);
        },
    };
    issue_cookie(&state.keys, &session, access.ct, now)
}

/// Ends all sessions of the user of an access token now and starts a new
/// one under fresh random identifiers: some time and some identifiers make
/// the outcome that of `revoke_all_outcome`.
pub fn token_revoke_all(state: &mut HubState, access: &AccessToken) -> (res: Result<
    Cookie,
    StatusCode,
>)
    ensures
        final(state).keys == old(state).keys,
        final(state).db@.wf(),
        exists|now: i64, uuid: u128, token: u128|
            is_moment(now) && is_random_id(uuid) && is_random_id(token) && (match res {
                Ok(cookie) => (#[trigger] revoke_all_outcome(
                    old(state).db@,
                    old(state).keys@,
                    *access,
                    now,
                    uuid,
                    token,
                )).0 == Ok::<CookieView, StatusCode>(cookie@),
                Err(code) => revoke_all_outcome(
                    old(state).db@,
                    old(state).keys@,
                    *access,
                    now,
                    uuid,
                    token,
                ).0 == Err::<CookieView, StatusCode>(code),
            }) && final(state).db@ == revoke_all_outcome(
                old(state).db@,
                old(state).keys@,
                *access,
                now,
                uuid,
                token,
            ).1,
{
    let moment = now();
    let uuid = fresh_id();
    let token = fresh_id();
    let res = token_revoke_all_at(state, access, moment, uuid, token);
    proof {
        let outcome = revoke_all_outcome(
            old(state).db@,
            old(state).keys@,
            *access,
            moment,
            uuid,
            token,
        );
        assert(is_moment(moment) && is_random_id(uuid) && is_random_id(token) && (match res {
            Ok(cookie) => outcome.0 == Ok::<CookieView, StatusCode>(cookie@),
            Err(code) => outcome.0 == Err::<CookieView, StatusCode>(code),
        }) && state.db@ == outcome.1);
    }
    res
}

/// The player identity token that an access token's user gets for a server
/// at the time `now` under the identifier `jti`: a server identifier that is
/// none is a bad request, a failure to sign an internal error.
pub open spec fn pit_outcome(
    keys: KeysView,
    access: AccessToken,
    sid: Seq<char>,
    now: i64,
    jti: u128,
) -> Result<Seq<char>, StatusCode> {
    if !is_server_id(sid) {
        Err(StatusCode::BadRequest)
    } else {
        match jwt_encoded(
            PlayerIdentityToken::claims_of(
                PlayerIdentityToken::made(sid, access.sub, access.ct, jti, now),
            ),
            keys.secret_pem,
        ) {
            Some(text) => Ok(text),
            None => Err(StatusCode::InternalServerError),
        }
    }
}

/// That `res` carries what the answer `expected` says.
pub open spec fn text_answer(
    res: Result<String, StatusCode>,
    expected: Result<Seq<char>, StatusCode>,
) -> bool {
    match res {
        Ok(text) => expected == Ok::<Seq<char>, StatusCode>(text@),
        Err(code) => expected == Err::<Seq<char>, StatusCode>(code),
    }
}

/// Makes a player identity token at the time `now`: see `pit_outcome`.
pub fn token_pit_at(
    keys: &Keys,
    access: &AccessToken,
    query: &PITQuery,
    now: i64,
    jti: u128,
) -> (res: Result<String, StatusCode>)
    requires
        now <= TIME_MAX,
    ensures
        text_answer(res, pit_outcome(keys@, *access, query.sid@, now, jti)),
{
    if !query.validate() {
        return Err(StatusCode::BadRequest);
    }
    let token = PlayerIdentityToken::new_at(query.sid.clone(), access.sub, access.ct, jti, now);
    match token.sign(keys) {
        Ok(text) => Ok(text),
        Err(_) => Err(StatusCode::InternalServerError),
    }
}

/// Makes a player identity token now, under a fresh random identifier: some
/// time and some identifier make the outcome that of `pit_outcome`.
pub fn token_pit(keys: &Keys, access: &AccessToken, query: &PITQuery) -> (res: Result<
    String,
    StatusCode,
>)
    ensures
        exists|now: i64, jti: u128|
            is_moment(now) && is_random_id(jti) && text_answer(
                res,
                #[trigger] pit_outcome(keys@, *access, query.sid@, now, jti),
            ),
{
    let moment = now();
    let jti = fresh_id();
    let res = token_pit_at(keys, access, query, moment, jti);
    assert(is_moment(moment) && is_random_id(jti) && text_answer(
        res,
        pit_outcome(keys@, *access, query.sid@, moment, jti),
    ));
    res
}

impl AccessToken {
    /// Reads the access token that a request carries as its bearer
    /// credential, at the time `now`: without the credential the expectation
    /// fails, and a token that does not decode is forbidden.
    pub fn from_bearer(bearer: Option<&str>, keys: &Keys, now: i64) -> (res: Result<
        AccessToken,
        StatusCode,
    >)
        ensures
            res == access_outcome(keys@, text_view(bearer), now),
    {
        match bearer {
            None => Err(StatusCode::ExpectationFailed),
            Some(text) => match AccessToken::decode_at(text, keys, now) {
                Ok(token) => Ok(token),
                Err(_) => Err(StatusCode::Forbidden),
            },
        }
    }

    /// Reads the access token that a request carries as its bearer
    /// credential, at the present time, whatever that is.
    pub fn from_request_parts(bearer: Option<&str>, keys: &Keys) -> (res: Result<
        AccessToken,
        StatusCode,
    >)
        ensures
            exists|now: i64|
                is_moment(now) && res == #[trigger] access_outcome(keys@, text_view(bearer), now),
    {
        let moment = now();
        let res = Self::from_bearer(bearer, keys, moment);
        assert(is_moment(moment) && res == access_outcome(keys@, text_view(bearer), moment));
        res
    }
}

/// The access token that a bearer credential stands for at the time `now`.
pub open spec fn access_outcome(keys: KeysView, bearer: Option<Seq<char>>, now: i64) -> Result<
    AccessToken,
    StatusCode,
> {
    match bearer {
        None => Err(StatusCode::ExpectationFailed),
        Some(text) => match decoded::<AccessToken>(text, keys.public_pem, now) {
            Ok(token) => Ok(token),
            Err(_) => Err(StatusCode::Forbidden),
        },
    }
}

/// What a client is told when a registration breaks a rule of the tables:
/// which of username and email is taken, where the rule broken is one of
/// theirs.
pub open spec fn conflict_message(
    constraint: Seq<char>,
    username: Seq<char>,
    email: Seq<char>,
) -> Seq<char> {
    if constraint == "User_username_key"@ {
        "username '"@ + username + "' already taken"@
    } else if constraint == "User_email_key"@ {
        "email '"@ + email + "' already taken"@
    } else {
        "db error"@
    }
}

/// Writes what a client is told when a registration breaks the named rule
/// of the tables.
pub fn conflict_text(constraint: &str, username: &str, email: &str) -> (text: String)
    ensures
        text@ == conflict_message(constraint@, username@, email@),
{
    if crate::text::same_text(constraint, "User_username_key") {
        let mut text = String::from_str("username '");
        text.append(username);
        text.append("' already taken");
        text
    } else if crate::text::same_text(constraint, "User_email_key") {
        let mut text = String::from_str("email '");
        text.append(email);
        text.append("' already taken");
        text
    } else {
        String::from_str("db error")
    }
}

/// The account that a registration stores.
pub open spec fn registered_user(
    uuid: u128,
    username: Seq<char>,
    email: Seq<char>,
    hash: Seq<char>,
    now: i64,
) -> UserView {
    UserView {
        uuid,
        username,
        email,
        password: hash,
        other: "{}"@,
        status: UserStatus::Active,
        updated: now,
        created: now,
    }
}

/// What a registration does at the time `now`, with `uuid` as the new
/// user's identifier and `hash` as the hash of the password, if it could be
/// hashed: the answer, and the tables afterwards.
///
/// A body that breaks its rules is a bad request, a password that cannot be
/// hashed an internal error. Else the account is stored as an active one and
/// the answer is its identifier; where the tables refuse it, the answer is a
/// conflict with a message that names what is taken.
pub open spec fn register_outcome(
    db: DBView,
    username: Seq<char>,
    email: Seq<char>,
    password: Seq<char>,
    now: i64,
    uuid: u128,
    hash: Option<Seq<char>>,
) -> (Result<RegistrationResponse, (StatusCode, Seq<char>)>, DBView) {
    if !(is_username(username) && email_accepted(email) && is_password(password)) {
        (Err((StatusCode::BadRequest, Seq::empty())), db)
    } else if hash is None {
        (Err((StatusCode::InternalServerError, Seq::empty())), db)
    } else {
        match insert_outcome(db, registered_user(uuid, username, email, hash->0, now)) {
            (Ok(_), after) => (Ok(RegistrationResponse { uuid }), after),
            (Err(DbError::UniqueViolation(constraint)), after) => (
                Err(
                    (
                        StatusCode::Conflict,
                        conflict_message(constraint.spec_name(), username, email),
                    ),
                ),
                after,
            ),
            (Err(DbError::RowNotFound), after) => (
                Err((StatusCode::InternalServerError, Seq::empty())),
                after,
            ),
        }
    }
}

/// That `res` carries what the answer `expected` says.
pub open spec fn register_answer(
    res: Result<RegistrationResponse, (StatusCode, String)>,
    expected: Result<RegistrationResponse, (StatusCode, Seq<char>)>,
) -> bool {
    match res {
        Ok(body) => expected == Ok::<RegistrationResponse, (StatusCode, Seq<char>)>(body),
        Err(refusal) => expected == Err::<RegistrationResponse, (StatusCode, Seq<char>)>(
            (refusal.0, refusal.1@),
        ),
    }
}

/// Registers a user at the time `now`: see `register_outcome`. The answer
/// `Ok` goes out with status 201, the answer `Err` with the status and the
/// message that it holds.
pub fn user_register_at(
    state: &mut HubState,
    body: &RegisterBody,
    now: i64,
    uuid: u128,
    hash: Option<String>,
) -> (res: Result<RegistrationResponse, (StatusCode, String)>)
    ensures
        final(state).keys == old(state).keys,
        final(state).db@.wf(),
        register_answer(
            res,
            register_outcome(
                old(state).db@,
                body.username@,
                body.email@,
                body.password@,
                now,
                uuid,
                name_view(hash),
            ).0,
        ),
        final(state).db@ == register_outcome(
            old(state).db@,
            body.username@,
            body.email@,
            body.password@,
            now,
            uuid,
            name_view(hash),
        ).1,
{
    proof {
        use_type_invariant(&state.db);
    }
    if !body.validate() {
        return Err((StatusCode::BadRequest, String::new()));
    }
    let hash = match hash_or_internal_error(hash) {
        Ok(hash) => hash,
        Err(code) => {
            return Err((code, String::new()));
        },
    };
    let user = User::new(
        uuid,
        body.username.clone(),
        body.email.clone(),
        hash,
        UserStatus::Active,
        now,
    );
    match user.insert(&mut state.db) {
        Ok(_) => Ok(RegistrationResponse::new(uuid)),
        Err(DbError::UniqueViolation(constraint)) => Err(
            (
                StatusCode::Conflict,
                conflict_text(constraint.name(), body.username.as_str(), body.email.as_str()),
            ),
        ),
        Err(DbError::RowNotFound) => Err((StatusCode::InternalServerError, String::new())),
    }
}

/// Registers a user now, under a fresh random identifier and with the
/// password hashed under a fresh random salt: some time, some identifier and
/// some hash make the outcome that of `register_outcome`.
pub fn user_register(state: &mut HubState, body: &RegisterBody) -> (res: Result<
    RegistrationResponse,
    (StatusCode, String),
>)
    ensures
        final(state).keys == old(state).keys,
        final(state).db@.wf(),
        exists|now: i64, uuid: u128, hash: Option<Seq<char>>|
            is_moment(now) && is_random_id(uuid) && (body.valid() ==> hash is Some) && (hash
                is Some ==> password_matches(body.password@, hash->0) == Some(true))
                && register_answer(
                res,
                (#[trigger] register_outcome(
                    old(state).db@,
                    body.username@,
                    body.email@,
                    body.password@,
                    now,
                    uuid,
                    hash,
                )).0,
            ) && final(state).db@ == register_outcome(
                old(state).db@,
                body.username@,
                body.email@,
                body.password@,
                now,
                uuid,
                hash,
            ).1,
{
    let moment = now();
    let uuid = fresh_id();
    let hash = if body.validate() {
        hash_password(body.password.as_str())
    } else {
        None
    };
    let ghost hashed = name_view(hash);
    let res = user_register_at(state, body, moment, uuid, hash);
    proof {
        let outcome = register_outcome(
            old(state).db@,
            body.username@,
            body.email@,
            body.password@,
            moment,
            uuid,
            hashed,
        );
        assert(is_moment(moment) && is_random_id(uuid) && (body.valid() ==> hashed is Some) && (
        hashed is Some ==> password_matches(body.password@, hashed->0) == Some(true))
            && register_answer(res, outcome.0) && state.db@ == outcome.1);
    }
    res
}

/// Whether a password change may go on: both passwords must be passwords,
/// the user of the access token must be there, and the old password must be
/// the user's. A wrong old password leaves the account not modified; a
/// stored hash that is none is an internal error.
pub open spec fn password_verdict(
    db: DBView,
    sub: u128,
    old_password: Seq<char>,
    new_password: Seq<char>,
) -> Result<UserView, StatusCode> {
    if !(is_password(old_password) && is_password(new_password)) {
        Err(StatusCode::BadRequest)
    } else {
        match found_user(db.users, user_has_id(sub)) {
            None => Err(StatusCode::NotFound),
            Some(user) => match password_matches(old_password, user.password) {
                Some(true) => Ok(user),
                Some(false) => Err(StatusCode::NotModified),
                None => Err(StatusCode::InternalServerError),
            },
        }
    }
}

/// What a password change does, with `hash` as the hash of the new
/// password, if it could be hashed: the answer, and the tables afterwards.
pub open spec fn password_change_outcome(
    db: DBView,
    sub: u128,
    old_password: Seq<char>,
    new_password: Seq<char>,
    hash: Option<Seq<char>>,
) -> (StatusCode, DBView) {
    match password_verdict(db, sub, old_password, new_password) {
        Err(code) => (code, db),
        Ok(user) => match hash {
            None => (StatusCode::InternalServerError, db),
            Some(hash) => (StatusCode::Success, password_outcome(db, user.uuid, hash).1),
        },
    }
}

/// What the outcome of checking the old password says of a password
/// change: a wrong one leaves the account not modified, and a stored hash
/// that is none is an internal error.
pub open spec fn old_password_gate(matches: Option<bool>) -> Result<(), StatusCode> {
    match matches {
        Some(true) => Ok(()),
        Some(false) => Err(StatusCode::NotModified),
        None => Err(StatusCode::InternalServerError),
    }
}

/// Checks the old password offered for a password change against the user
/// found under the access token; not found where there is no user.
pub fn check_old_password(found: Option<User>, old_password: &str) -> (res: Result<
    User,
    StatusCode,
>)
    ensures
        match res {
            Ok(user) => found == Some(user) && old_password_gate(
                password_matches(old_password@, user.password@),
            ) is Ok,
            Err(code) => match found {
                None => code == StatusCode::NotFound,
                Some(user) => old_password_gate(password_matches(old_password@, user.password@))
                    == Err::<(), StatusCode>(code),
            },
        },
{
    match found {
        None => Err(StatusCode::NotFound),
        Some(user) => match verify_password(old_password, user.password.as_str()) {
            Some(true) => Ok(user),
            Some(false) => Err(StatusCode::NotModified),
            None => Err(StatusCode::InternalServerError),
        },
    }
}

/// The account with the hash of its new password in place of the old one;
/// an internal error where there is no hash.
pub fn with_new_password(user: User, hash: Option<String>) -> (res: Result<User, StatusCode>)
    ensures
        match res {
            Ok(changed) => hash matches Some(text) && changed@ == (UserView {
                password: text@,
                ..user@
            }),
            Err(code) => hash is None && code == StatusCode::InternalServerError,
        },
{
    match hash_or_internal_error(hash) {
        Ok(text) => {
            let mut user = user;
            user.password = text;
            Ok(user)
        },
        Err(code) => Err(code),
    }
}

/// Decides whether a password change may go on, and finds the user whose
/// password is to change.
pub fn password_change_check(state: &HubState, access: &AccessToken, body: &PasswordChangeBody) -> (res:
    Result<User, StatusCode>)
    ensures
        state.db@.wf(),
        match res {
            Ok(user) => password_verdict(
                state.db@,
                access.sub,
                body.old_password@,
                body.new_password@,
            ) == Ok::<UserView, StatusCode>(user@),
            Err(code) => password_verdict(
                state.db@,
                access.sub,
                body.old_password@,
                body.new_password@,
            ) == Err::<UserView, StatusCode>(code),
        },
{
    proof {
        use_type_invariant(&state.db);
    }
    if !body.validate() {
        return Err(StatusCode::BadRequest);
    }
    check_old_password(User::find_by_uuid(&state.db, access.sub), body.old_password.as_str())
}

/// Stores the hash of a user's new password; an internal error where there
/// is no hash.
pub fn password_change_apply(state: &mut HubState, user: User, hash: Option<String>) -> (code:
    StatusCode)
    ensures
        final(state).keys == old(state).keys,
        final(state).db@.wf(),
        match hash {
            None => code == StatusCode::InternalServerError && final(state).db@ == old(state).db@,
            Some(hash) => code == StatusCode::Success && final(state).db@ == password_outcome(
                old(state).db@,
                user.uuid,
                hash@,
            ).1,
        },
{
    proof {
        use_type_invariant(&state.db);
    }
    match with_new_password(user, hash) {
        Ok(user) => {
            user.update_password(&mut state.db);
            StatusCode::Success
        },
        Err(code) => code,
    }
}

/// Changes the password of the user of an access token, hashing the new
/// password under a fresh random salt: some hash makes the outcome that of
/// `password_change_outcome`.
pub fn user_password(state: &mut HubState, access: &AccessToken, body: &PasswordChangeBody) -> (code:
    StatusCode)
    ensures
        final(state).keys == old(state).keys,
        final(state).db@.wf(),
        exists|hash: Option<Seq<char>>|
            (password_verdict(
                old(state).db@,
                access.sub,
                body.old_password@,
                body.new_password@,
            ) is Ok ==> hash is Some) && (hash is Some ==> password_matches(
                body.new_password@,
                hash->0,
            ) == Some(true)) && (code, final(state).db@) == #[trigger] password_change_outcome(
                old(state).db@,
                access.sub,
                body.old_password@,
                body.new_password@,
                hash,
            ),
{
    match password_change_check(state, access, body) {
        Err(code) => {
            assert(password_verdict(
                old(state).db@,
                access.sub,
                body.old_password@,
                body.new_password@,
            ) is Err && (code, state.db@) == password_change_outcome(
                old(state).db@,
                access.sub,
                body.old_password@,
                body.new_password@,
                None,
            ));
            code
        },
        Ok(user) => {
            let hash = hash_password(body.new_password.as_str());
            let ghost hashed = name_view(hash);
            let code = password_change_apply(state, user, hash);
            assert(hashed is Some && password_matches(body.new_password@, hashed->0) == Some(
                true,
            ) && (code, state.db@) == password_change_outcome(
                old(state).db@,
                access.sub,
                body.old_password@,
                body.new_password@,
                hashed,
            ));
            code
        },
    }
}

/// Once a session's refresh token is rotated to a new one, the old token is
/// refused whenever it is presented again for that session, and the new one
/// is the only one that the session lets pass.
pub proof fn lemma_rotated_token_is_refused(
    db: DBView,
    client_type: ClientType,
    session: Session,
    token: u128,
    now: i64,
    later: i64,
    presented: u128,
)
    requires
        db.wf(),
        found_session(db.sessions(client_type), FindBy::Uuid, session.uuid) == Some(session),
        token != session.token,
    ensures
        refresh_verdict(
            found_session(
                rotate_outcome(db, client_type, session, token, now).2.sessions(client_type),
                FindBy::Uuid,
                session.uuid,
            ),
            session.token,
            later,
        ) == Err::<bool, StatusCode>(StatusCode::Forbidden),
        refresh_verdict(
            found_session(
                rotate_outcome(db, client_type, session, token, now).2.sessions(client_type),
                FindBy::Uuid,
                session.uuid,
            ),
            presented,
            later,
        ) is Ok <==> presented == token,
{
    crate::store::lemma_rotation_replaces_token(db, client_type, session, token, now);
}

/// After a login that was answered with tokens, the tables keep their rule
/// and hold the new session under its identifier, with the new refresh
/// token in force.
pub proof fn lemma_login_writes_session(
    db: DBView,
    keys: KeysView,
    username: Seq<char>,
    password: Seq<char>,
    ct: ClientType,
    now: i64,
    uuid: u128,
    token: u128,
    jti: u128,
)
    requires
        db.wf(),
        login_outcome(db, keys, username, password, ct, now, uuid, token, jti).0 is Ok,
    ensures
        login_outcome(db, keys, username, password, ct, now, uuid, token, jti).1.wf(),
        found_session(
            login_outcome(db, keys, username, password, ct, now, uuid, token, jti).1.sessions(ct),
            FindBy::Uuid,
            uuid,
        ) matches Some(session) && session.token == token,
{
    let user = login_verdict(found_user(db.users, user_has_name(username)), password)->Ok_0;
    let row = crate::store::upsert_row(db.sessions(ct), user.uuid, uuid, token, now);
    crate::store::lemma_upserted_is_found(db.sessions(ct), row);
}

/// After all sessions of a user were revoked and the answer was a cookie,
/// the tables keep their rule, the user has the one new session in the table
/// of the caller's client type, and none in the table of any other.
pub proof fn lemma_revoke_all_leaves_one_session(
    db: DBView,
    keys: KeysView,
    access: AccessToken,
    now: i64,
    uuid: u128,
    token: u128,
    other: ClientType,
)
    requires
        db.wf(),
        revoke_all_outcome(db, keys, access, now, uuid, token).0 is Ok,
        other != access.ct,
    ensures
        revoke_all_outcome(db, keys, access, now, uuid, token).1.wf(),
        found_session(
            revoke_all_outcome(db, keys, access, now, uuid, token).1.sessions(access.ct),
            FindBy::Sub,
            access.sub,
        ) matches Some(session) && session.uuid == uuid && session.token == token,
        found_session(
            revoke_all_outcome(db, keys, access, now, uuid, token).1.sessions(other),
            FindBy::Sub,
            access.sub,
        ) is None,
{
    crate::store::lemma_without_finds_none(db.web, FindBy::Sub, access.sub);
    crate::store::lemma_without_finds_none(db.game, FindBy::Sub, access.sub);
    crate::store::lemma_without_finds_none(db.mobile, FindBy::Sub, access.sub);
    let cleared = without_user(db, access.sub);
    let row = crate::store::upsert_row(cleared.sessions(access.ct), access.sub, uuid, token, now);
    crate::store::lemma_upserted_is_found(cleared.sessions(access.ct), row);
}

/// After a login that was answered with tokens, the user has exactly one
/// session in the table of the client type, whether or not one was there
/// before.
pub proof fn lemma_login_leaves_one_session(
    db: DBView,
    keys: KeysView,
    username: Seq<char>,
    password: Seq<char>,
    ct: ClientType,
    now: i64,
    uuid: u128,
    token: u128,
    jti: u128,
)
    requires
        db.wf(),
        login_outcome(db, keys, username, password, ct, now, uuid, token, jti).0 is Ok,
    ensures
        login_verdict(found_user(db.users, user_has_name(username)), password) is Ok,
        crate::store::count_for(
            login_outcome(db, keys, username, password, ct, now, uuid, token, jti).1.sessions(ct),
            login_verdict(found_user(db.users, user_has_name(username)), password)->Ok_0.uuid,
        ) == 1,
        found_session(
            login_outcome(db, keys, username, password, ct, now, uuid, token, jti).1.sessions(ct),
            FindBy::Sub,
            login_verdict(found_user(db.users, user_has_name(username)), password)->Ok_0.uuid,
        ) matches Some(session) && session.uuid == uuid && session.token == token,
{
    let user = login_verdict(found_user(db.users, user_has_name(username)), password)->Ok_0;
    let row = crate::store::upsert_row(db.sessions(ct), user.uuid, uuid, token, now);
    crate::store::lemma_upserted_is_found(db.sessions(ct), row);
    crate::store::lemma_found_is_counted(
        crate::store::upserted(db.sessions(ct), row),
        user.uuid,
    );
}

/// After a registration that was answered with an identifier, the tables
/// keep their rule and hold the new account behind all others: active, under
/// the identifier, the username and the email given, with the hash given.
/// Looked up by that username, the account is found, and a login with a
/// password that matches the hash may go on.
pub proof fn lemma_register_stores_user(
    db: DBView,
    username: Seq<char>,
    email: Seq<char>,
    password: Seq<char>,
    now: i64,
    uuid: u128,
    hash: Option<Seq<char>>,
)
    requires
        db.wf(),
        register_outcome(db, username, email, password, now, uuid, hash).0 is Ok,
    ensures
        hash is Some,
        register_outcome(db, username, email, password, now, uuid, hash).0 == Ok::<
            RegistrationResponse,
            (StatusCode, Seq<char>),
        >(RegistrationResponse { uuid }),
        register_outcome(db, username, email, password, now, uuid, hash).1.wf(),
        register_outcome(db, username, email, password, now, uuid, hash).1 == db.with_users(
            db.users.push(registered_user(uuid, username, email, hash->0, now)),
        ),
        found_user(
            register_outcome(db, username, email, password, now, uuid, hash).1.users,
            user_has_name(username),
        ) == Some(registered_user(uuid, username, email, hash->0, now)),
        found_user(
            register_outcome(db, username, email, password, now, uuid, hash).1.users,
            user_has_id(uuid),
        ) == Some(registered_user(uuid, username, email, hash->0, now)),
        password_matches(password, hash->0) == Some(true) ==> login_verdict(
            found_user(
                register_outcome(db, username, email, password, now, uuid, hash).1.users,
                user_has_name(username),
            ),
            password,
        ) == Ok::<UserView, StatusCode>(registered_user(uuid, username, email, hash->0, now)),
{
    let user = registered_user(uuid, username, email, hash->0, now);
    let rows = db.users;
    let after = rows.push(user);
    crate::store::lemma_first_index(rows, user_has_id(uuid));
    crate::store::lemma_first_index(rows, user_has_name(username));
    crate::store::lemma_first_index(rows, crate::store::user_has_email(email));
    crate::store::lemma_pushed_is_first(rows, user_has_id(uuid), user);
    crate::store::lemma_pushed_is_first(rows, user_has_name(username), user);
    assert forall|i: int, j: int| 0 <= i < j < after.len() implies (#[trigger] after[i]).uuid != (
    #[trigger] after[j]).uuid && crate::text::fold(after[i].username) != crate::text::fold(
        after[j].username,
    ) && crate::text::fold(after[i].email) != crate::text::fold(after[j].email) by {
        if j < rows.len() {
            assert(after[i] == rows[i] && after[j] == rows[j]);
        } else {
            assert(after[i] == rows[i]);
            assert(!user_has_id(uuid)(rows[i]));
            assert(!user_has_name(username)(rows[i]));
            assert(!crate::store::user_has_email(email)(rows[i]));
        }
    }
}

} // verus!
