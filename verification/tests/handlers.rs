use ecg_hub::app::HubState;
use ecg_hub::common::responses::RegistrationResponse;
use ecg_hub::common::user::{ClientType, UserStatus};
use ecg_hub::config::Config;
use ecg_hub::handlers::{
    check_login, check_old_password, conflict_text, delete_everywhere, hash_or_internal_error,
    issue_access, issue_cookie, issue_tokens, login_decision, password_change_apply,
    password_change_check, refresh_decision, session_or_not_found, token_pit, token_pit_at,
    token_refresh, token_refresh_at, token_revoke, token_revoke_all, token_revoke_all_at,
    user_data, user_data_answer, user_info, user_info_answer, user_info_key, user_login,
    user_login_at, user_password, user_register, user_register_at, user_sessions,
    with_new_password, UserKey,
};
use ecg_hub::ident::random_id;
use ecg_hub::http::StatusCode;
use ecg_hub::models::entities::{FindBy, Session, User};
use ecg_hub::models::parsers::{
    LoginBody, PITQuery, PasswordChangeBody, RegisterBody, UserInfoQuery,
};
use ecg_hub::models::tokens::{AccessToken, PlayerIdentityToken, RefreshToken, SecurityToken};
use ecg_hub::utils::{hash_password, moment_from, now, verify_password, TIME_MAX};

const T0: i64 = 1_700_000_000;
const LIFETIME: i64 = 15552000;
const DAY: i64 = 86400;

fn state() -> HubState {
    let mut config = Config::default();
    let mut seed = [7u8; 32];
    seed[0] = 1;
    config.private_key = Some(seed);
    HubState::new(&config).unwrap()
}

fn register_body(username: &str, email: &str, password: &str) -> RegisterBody {
    RegisterBody {
        username: String::from(username),
        email: String::from(email),
        password: String::from(password),
    }
}

fn login_body(username: &str, password: &str, ct: ClientType) -> LoginBody {
    LoginBody { username: String::from(username), password: String::from(password), ct }
}

fn with_alice() -> (HubState, u128) {
    let mut state = state();
    let body = register_body("alice", "a@x.y", "pw123456");
    let hash = hash_password("pw123456");
    assert!(hash.is_some());
    let answer = user_register_at(&mut state, &body, T0, 0xa11ce, hash).unwrap();
    assert_eq!(answer, RegistrationResponse { uuid: 0xa11ce });
    (state, 0xa11ce)
}

fn put_user(state: &mut HubState, uuid: u128, username: &str, status: UserStatus) {
    let user = User::new(
        uuid,
        String::from(username),
        format!("{}@x.y", username),
        hash_password("pw123456").unwrap(),
        status,
        T0,
    );
    assert_eq!(user.insert(&mut state.db), Ok(1));
}

fn access_of(state: &HubState, text: &str, now: i64) -> AccessToken {
    AccessToken::decode_at(text, &state.keys, now).unwrap()
}

#[test]
fn login_then_access() {
    let (mut state, alice) = with_alice();
    let body = login_body("alice", "pw123456", ClientType::Web);
    let (cookie, access) = user_login_at(&mut state, &body, T0 + 5, 100, 200, 300).unwrap();
    assert_eq!(cookie.name, "hub-rt");
    assert!(cookie.http_only);
    assert_eq!(cookie.max_age, 15552000);
    let claims = access_of(&state, &access, T0 + 5);
    assert_eq!(
        claims,
        AccessToken { iss: 100, sub: alice, jti: 300, exp: T0 + 65, ct: ClientType::Web }
    );
    let refresh = RefreshToken::decode_at(&cookie.value, &state.keys, T0 + 5).unwrap();
    assert_eq!(
        refresh,
        RefreshToken {
            sess: 100,
            sub: alice,
            jti: 200,
            exp: T0 + 5 + LIFETIME,
            nbf: T0 + 5,
            ct: ClientType::Web
        }
    );
    let session = Session::find_by(&state.db, ClientType::Web, alice, FindBy::Sub).unwrap();
    assert_eq!((session.uuid, session.token, session.exp), (100, 200, T0 + 5 + LIFETIME));
    let data = user_data(&state, &claims).unwrap();
    assert_eq!(data.username, "alice");
    assert_eq!(data.email, "a@x.y");
    assert_eq!(data.uuid, alice);
    assert_eq!(data.status, UserStatus::Active);
    assert_eq!(data.created_at, T0);
}

#[test]
fn login_now() {
    let mut state = state();
    let body = register_body("alice", "a@x.y", "pw123456");
    let answer = user_register(&mut state, &body).unwrap();
    assert_eq!(uuid::Uuid::from_u128(answer.uuid).get_version_num(), 4);
    let (cookie, access) =
        user_login(&mut state, &login_body("alice", "pw123456", ClientType::Web)).unwrap();
    let claims = AccessToken::decode(&access, &state.keys).unwrap();
    assert_eq!((claims.sub, claims.ct), (answer.uuid, ClientType::Web));
    let refresh = RefreshToken::decode(&cookie.value, &state.keys).unwrap();
    assert_eq!((refresh.sess, refresh.sub), (claims.iss, answer.uuid));
    assert_eq!(user_data(&state, &claims).unwrap().username, "alice");
    let (next, access) = token_refresh(&mut state, Some(&cookie.value)).unwrap();
    assert!(next.is_none());
    assert_eq!(AccessToken::decode(&access, &state.keys).unwrap().iss, claims.iss);
    let pit =
        token_pit(&state.keys, &claims, &PITQuery { sid: String::from("eYp1Zl1td14E") }).unwrap();
    let read = PlayerIdentityToken::decode(&pit, &state.keys).unwrap();
    assert_eq!((read.aud.as_str(), read.sub, read.ct), ("eYp1Zl1td14E", answer.uuid, ClientType::Web));
    let cookie = token_revoke_all(&mut state, &claims).unwrap();
    let refresh = RefreshToken::decode(&cookie.value, &state.keys).unwrap();
    assert_ne!(refresh.sess, claims.iss);
    assert_eq!(token_revoke(&mut state, &claims), StatusCode::NotFound);
}

#[test]
fn refresh_with_rotation() {
    let (mut state, alice) = with_alice();
    let body = login_body("alice", "pw123456", ClientType::Web);
    let (cookie, _) = user_login_at(&mut state, &body, T0, 100, 200, 300).unwrap();
    let later = T0 + LIFETIME - 3 * DAY;
    let (rotated, access) =
        token_refresh_at(&mut state, Some(&cookie.value), later, 201, 301).unwrap();
    let rotated = rotated.unwrap();
    let claims = RefreshToken::decode_at(&rotated.value, &state.keys, later).unwrap();
    assert_eq!(
        claims,
        RefreshToken {
            sess: 100,
            sub: alice,
            jti: 201,
            exp: later + LIFETIME,
            nbf: later,
            ct: ClientType::Web
        }
    );
    assert_eq!(
        access_of(&state, &access, later),
        AccessToken { iss: 100, sub: alice, jti: 301, exp: later + 60, ct: ClientType::Web }
    );
    let stored = Session::find_by(&state.db, ClientType::Web, 100, FindBy::Uuid).unwrap();
    assert_eq!((stored.token, stored.exp, stored.created_at), (201, later + LIFETIME, T0));
    assert_eq!(
        token_refresh_at(&mut state, Some(&cookie.value), later, 202, 302).err(),
        Some(StatusCode::Forbidden)
    );
    assert_eq!(Session::find_by(&state.db, ClientType::Web, 100, FindBy::Uuid), Some(stored));
    let (again, _) =
        token_refresh_at(&mut state, Some(&rotated.value), later + 1, 203, 303).unwrap();
    assert!(again.is_none());
}

#[test]
fn refresh_without_rotation() {
    let (mut state, alice) = with_alice();
    let body = login_body("alice", "pw123456", ClientType::Game);
    let (cookie, _) = user_login_at(&mut state, &body, T0, 100, 200, 300).unwrap();
    let before = Session::find_by(&state.db, ClientType::Game, 100, FindBy::Uuid).unwrap();
    let (next, access) =
        token_refresh_at(&mut state, Some(&cookie.value), T0 + 10, 201, 301).unwrap();
    assert!(next.is_none());
    assert_eq!(
        access_of(&state, &access, T0 + 10),
        AccessToken { iss: 100, sub: alice, jti: 301, exp: T0 + 70, ct: ClientType::Game }
    );
    assert_eq!(Session::find_by(&state.db, ClientType::Game, 100, FindBy::Uuid), Some(before));
    let (next, _) = token_refresh_at(&mut state, Some(&cookie.value), T0 + 20, 202, 302).unwrap();
    assert!(next.is_none());
}

#[test]
fn rotation_starts_below_seven_days() {
    assert_eq!(refresh_decision(None, 1, T0), Err(StatusCode::NotFound));
    let session =
        Session { uuid: 1, sub: 2, token: 3, exp: T0 + 7 * DAY, updated_at: 0, created_at: 0 };
    assert_eq!(refresh_decision(Some(session), 4, T0), Err(StatusCode::Forbidden));
    assert_eq!(refresh_decision(Some(session), 3, T0), Ok(false));
    assert_eq!(refresh_decision(Some(session), 3, T0 + 1), Ok(true));
    assert_eq!(refresh_decision(Some(session), 3, T0 - 1), Ok(false));
    assert_eq!(refresh_decision(Some(session), 3, T0 + 8 * DAY), Ok(true));
    let far = Session { exp: i64::MAX, ..session };
    assert_eq!(refresh_decision(Some(far), 3, i64::MIN), Ok(false));
    let past = Session { exp: i64::MIN, ..session };
    assert_eq!(refresh_decision(Some(past), 3, i64::MAX), Ok(true));
}

#[test]
fn refresh_refusals() {
    let (mut state, _) = with_alice();
    assert_eq!(
        token_refresh_at(&mut state, None, T0, 1, 2).err(),
        Some(StatusCode::ExpectationFailed)
    );
    assert_eq!(
        token_refresh_at(&mut state, Some("not a token"), T0, 1, 2).err(),
        Some(StatusCode::Forbidden)
    );
    assert_eq!(token_refresh(&mut state, None).err(), Some(StatusCode::ExpectationFailed));
    let body = login_body("alice", "pw123456", ClientType::Web);
    let (cookie, access) = user_login_at(&mut state, &body, T0, 100, 200, 300).unwrap();
    assert_eq!(
        token_refresh_at(&mut state, Some(&access), T0, 1, 2).err(),
        Some(StatusCode::Forbidden)
    );
    assert_eq!(
        token_refresh_at(&mut state, Some(&cookie.value), T0 + LIFETIME + 1, 1, 2).err(),
        Some(StatusCode::Forbidden)
    );
    assert_eq!(
        token_refresh_at(&mut state, Some(&cookie.value), T0 - 2, 1, 2).err(),
        Some(StatusCode::Forbidden)
    );
    let claims = access_of(&state, &access, T0);
    assert_eq!(token_revoke(&mut state, &claims), StatusCode::Success);
    assert_eq!(
        token_refresh_at(&mut state, Some(&cookie.value), T0, 1, 2).err(),
        Some(StatusCode::NotFound)
    );
    assert_eq!(token_revoke(&mut state, &claims), StatusCode::NotFound);
}

#[test]
fn a_new_login_ends_the_old_refresh_token() {
    let (mut state, _) = with_alice();
    let body = login_body("alice", "pw123456", ClientType::Web);
    let (old, _) = user_login_at(&mut state, &body, T0, 100, 200, 300).unwrap();
    let (new, _) = user_login_at(&mut state, &body, T0 + 1, 101, 201, 301).unwrap();
    assert_eq!(
        token_refresh_at(&mut state, Some(&old.value), T0 + 2, 1, 2).err(),
        Some(StatusCode::NotFound)
    );
    assert!(token_refresh_at(&mut state, Some(&new.value), T0 + 2, 1, 2).is_ok());
}

#[test]
fn revoke_all_across_client_types() {
    let (mut state, alice) = with_alice();
    put_user(&mut state, 0xb0b, "bob", UserStatus::Active);
    let web = login_body("alice", "pw123456", ClientType::Web);
    let game = login_body("alice", "pw123456", ClientType::Game);
    let mobile = login_body("alice", "pw123456", ClientType::Mobile);
    let (_, web_access) = user_login_at(&mut state, &web, T0, 100, 200, 300).unwrap();
    let (game_cookie, _) = user_login_at(&mut state, &game, T0, 101, 201, 301).unwrap();
    let (mobile_cookie, _) = user_login_at(&mut state, &mobile, T0, 102, 202, 302).unwrap();
    let bob = login_body("bob", "pw123456", ClientType::Game);
    let (bob_cookie, _) = user_login_at(&mut state, &bob, T0, 103, 203, 303).unwrap();
    let claims = access_of(&state, &web_access, T0);
    let cookie = token_revoke_all_at(&mut state, &claims, T0 + 1, 110, 210).unwrap();
    let refresh = RefreshToken::decode_at(&cookie.value, &state.keys, T0 + 1).unwrap();
    assert_eq!(
        refresh,
        RefreshToken {
            sess: 110,
            sub: alice,
            jti: 210,
            exp: T0 + 1 + LIFETIME,
            nbf: T0 + 1,
            ct: ClientType::Web
        }
    );
    assert_eq!(
        token_refresh_at(&mut state, Some(&game_cookie.value), T0 + 2, 1, 2).err(),
        Some(StatusCode::NotFound)
    );
    assert_eq!(
        token_refresh_at(&mut state, Some(&mobile_cookie.value), T0 + 2, 1, 2).err(),
        Some(StatusCode::NotFound)
    );
    assert!(token_refresh_at(&mut state, Some(&bob_cookie.value), T0 + 2, 1, 2).is_ok());
    let session = Session::find_by(&state.db, ClientType::Web, alice, FindBy::Sub).unwrap();
    assert_eq!(session.uuid, 110);
    assert_ne!(session.uuid, claims.iss);
    assert_eq!(Session::find_by(&state.db, ClientType::Game, alice, FindBy::Sub), None);
    assert_eq!(Session::find_by(&state.db, ClientType::Mobile, alice, FindBy::Sub), None);
    let shown = user_sessions(&state, &claims);
    assert_eq!(shown.web.unwrap().uuid, 110);
    assert_eq!(shown.web.unwrap().created_at, T0 + 1);
    assert_eq!(shown.web.unwrap().expires_at, T0 + 1 + LIFETIME);
    assert_eq!(shown.web.unwrap().ct, ClientType::Web);
    assert!(shown.game.is_none());
    assert!(shown.mobile.is_none());
    assert_eq!(
        token_revoke_all_at(&mut state, &claims, T0 + 3, 111, 211).err(),
        Some(StatusCode::NotFound)
    );
}

#[test]
fn revoke_all_from_a_game_session() {
    let (mut state, alice) = with_alice();
    let web = login_body("alice", "pw123456", ClientType::Web);
    let game = login_body("alice", "pw123456", ClientType::Game);
    user_login_at(&mut state, &web, T0, 100, 200, 300).unwrap();
    let (_, access) = user_login_at(&mut state, &game, T0, 101, 201, 301).unwrap();
    let claims = access_of(&state, &access, T0);
    let cookie = token_revoke_all_at(&mut state, &claims, T0, 110, 210).unwrap();
    let refresh = RefreshToken::decode_at(&cookie.value, &state.keys, T0).unwrap();
    assert_eq!((refresh.ct, refresh.sess), (ClientType::Game, 110));
    assert_eq!(Session::find_by(&state.db, ClientType::Web, alice, FindBy::Sub), None);
    let shown = user_sessions(&state, &claims);
    assert!(shown.web.is_none());
    assert_eq!(shown.game.unwrap().uuid, 110);
}

#[test]
fn login_refusals() {
    let (mut state, alice) = with_alice();
    put_user(&mut state, 2, "banned", UserStatus::Banned);
    put_user(&mut state, 3, "idle", UserStatus::Inactive);
    let attempt = |state: &mut HubState, username: &str, password: &str| {
        user_login_at(state, &login_body(username, password, ClientType::Web), T0, 100, 200, 300)
            .err()
    };
    assert_eq!(attempt(&mut state, "alice", "wrong-password"), Some(StatusCode::Unauthorized));
    assert_eq!(attempt(&mut state, "nobody", "pw123456"), Some(StatusCode::Unauthorized));
    assert_eq!(attempt(&mut state, "banned", "pw123456"), Some(StatusCode::Gone));
    assert_eq!(attempt(&mut state, "idle", "pw123456"), Some(StatusCode::ImATeapot));
    assert_eq!(attempt(&mut state, "banned", "wrong-password"), Some(StatusCode::Unauthorized));
    assert_eq!(attempt(&mut state, "al", "pw123456"), Some(StatusCode::BadRequest));
    assert_eq!(attempt(&mut state, "alice", "pw"), Some(StatusCode::BadRequest));
    assert_eq!(Session::find_by(&state.db, ClientType::Web, alice, FindBy::Sub), None);
    assert_eq!(Session::find_by(&state.db, ClientType::Web, 2, FindBy::Sub), None);
    assert_eq!(attempt(&mut state, "ALICE", "pw123456"), None);
    assert_eq!(
        user_login(&mut state, &login_body("alice", "wrong-password", ClientType::Web)).err(),
        Some(StatusCode::Unauthorized)
    );
}

#[test]
fn login_with_a_stored_hash_that_is_none() {
    let mut state = state();
    let user = User::new(
        1,
        String::from("alice"),
        String::from("a@x.y"),
        String::from("plain text"),
        UserStatus::Active,
        T0,
    );
    user.insert(&mut state.db).unwrap();
    let body = login_body("alice", "pw123456", ClientType::Web);
    assert_eq!(
        user_login_at(&mut state, &body, T0, 100, 200, 300).err(),
        Some(StatusCode::InternalServerError)
    );
}

#[test]
fn login_decisions() {
    assert_eq!(login_decision(Some(true), UserStatus::Active), Ok(()));
    assert_eq!(login_decision(Some(true), UserStatus::Inactive), Err(StatusCode::ImATeapot));
    assert_eq!(login_decision(Some(true), UserStatus::Banned), Err(StatusCode::Gone));
    assert_eq!(login_decision(Some(false), UserStatus::Active), Err(StatusCode::Unauthorized));
    assert_eq!(login_decision(Some(false), UserStatus::Banned), Err(StatusCode::Unauthorized));
    assert_eq!(login_decision(None, UserStatus::Active), Err(StatusCode::InternalServerError));
    assert_eq!(check_login(None, "pw123456").err(), Some(StatusCode::Unauthorized));
    let user = User::new(
        1,
        String::from("alice"),
        String::from("a@x.y"),
        hash_password("pw123456").unwrap(),
        UserStatus::Active,
        T0,
    );
    assert_eq!(check_login(Some(user.copy()), "pw123456").unwrap().uuid, 1);
    assert_eq!(check_login(Some(user), "pw1234567").err(), Some(StatusCode::Unauthorized));
}

#[test]
fn a_login_that_draws_a_taken_session_identifier_fails() {
    let (mut state, _) = with_alice();
    put_user(&mut state, 2, "bob", UserStatus::Active);
    let alice = login_body("alice", "pw123456", ClientType::Web);
    let bob = login_body("bob", "pw123456", ClientType::Web);
    user_login_at(&mut state, &alice, T0, 100, 200, 300).unwrap();
    assert_eq!(
        user_login_at(&mut state, &bob, T0, 100, 201, 301).err(),
        Some(StatusCode::InternalServerError)
    );
    assert_eq!(Session::find_by(&state.db, ClientType::Web, 2, FindBy::Sub), None);
}

#[test]
fn registration_is_unique() {
    let mut state = state();
    let hash = || hash_password("pw123456");
    let bob = register_body("bob", "b@x.y", "pw123456");
    assert_eq!(
        user_register_at(&mut state, &bob, T0, 1, hash()),
        Ok(RegistrationResponse { uuid: 1 })
    );
    let same_name = register_body("bob", "c@x.y", "pw123456");
    let refusal = user_register_at(&mut state, &same_name, T0, 2, hash()).unwrap_err();
    assert_eq!(refusal.0, StatusCode::Conflict);
    assert_eq!(refusal.1, "username 'bob' already taken");
    let same_email = register_body("bob2", "b@x.y", "pw123456");
    let refusal = user_register_at(&mut state, &same_email, T0, 3, hash()).unwrap_err();
    assert_eq!(refusal.0, StatusCode::Conflict);
    assert_eq!(refusal.1, "email 'b@x.y' already taken");
    let same_id = register_body("bob3", "d@x.y", "pw123456");
    let refusal = user_register_at(&mut state, &same_id, T0, 1, hash()).unwrap_err();
    assert_eq!((refusal.0, refusal.1.as_str()), (StatusCode::Conflict, "db error"));
    let refusal = user_register(&mut state, &same_name).unwrap_err();
    assert_eq!((refusal.0, refusal.1.as_str()), (StatusCode::Conflict, "username 'bob' already taken"));
    assert!(User::find_by_username(&state.db, "bob2").is_none());
    assert!(User::find_by_username(&state.db, "bob3").is_none());
}

#[test]
fn registration_refusals() {
    let mut state = state();
    let bad = register_body("b", "b@x.y", "pw123456");
    let refusal = user_register_at(&mut state, &bad, T0, 1, hash_password("pw123456")).unwrap_err();
    assert_eq!((refusal.0, refusal.1.as_str()), (StatusCode::BadRequest, ""));
    let bad = register_body("bob", "not an email", "pw123456");
    assert_eq!(user_register(&mut state, &bad).unwrap_err().0, StatusCode::BadRequest);
    let bad = register_body("bob", "b@x.y", "short");
    assert_eq!(user_register(&mut state, &bad).unwrap_err().0, StatusCode::BadRequest);
    let good = register_body("bob", "b@x.y", "pw123456");
    let refusal = user_register_at(&mut state, &good, T0, 1, None).unwrap_err();
    assert_eq!((refusal.0, refusal.1.as_str()), (StatusCode::InternalServerError, ""));
    assert!(User::find_by_username(&state.db, "bob").is_none());
}

#[test]
fn a_registered_user_is_active_and_hashed() {
    let (state, alice) = with_alice();
    let stored = User::find_by_uuid(&state.db, alice).unwrap();
    assert_eq!(stored.status, UserStatus::Active);
    assert_eq!((stored.created, stored.updated), (T0, T0));
    assert_eq!(stored.other, "{}");
    assert_ne!(stored.password, "pw123456");
    assert!(stored.password.starts_with("$argon2id$"));
    assert_eq!(verify_password("pw123456", &stored.password), Some(true));
    assert_eq!(verify_password("pw1234567", &stored.password), Some(false));
    assert_eq!(verify_password("pw123456", "pw123456"), None);
    assert_ne!(hash_password("pw123456"), hash_password("pw123456"));
}

#[test]
fn conflict_messages() {
    assert_eq!(conflict_text("User_username_key", "bob", "b@x.y"), "username 'bob' already taken");
    assert_eq!(conflict_text("User_email_key", "bob", "b@x.y"), "email 'b@x.y' already taken");
    assert_eq!(conflict_text("User_pkey", "bob", "b@x.y"), "db error");
    assert_eq!(conflict_text("", "bob", "b@x.y"), "db error");
}

#[test]
fn user_info_by_identifier_or_username() {
    let (state, alice) = with_alice();
    let ask = |uuid: Option<u128>, username: Option<&str>| {
        user_info(&state, &UserInfoQuery { uuid, username: username.map(String::from) })
    };
    let info = ask(Some(alice), None).unwrap();
    assert_eq!((info.uuid, info.username.as_str(), info.status), (alice, "alice", UserStatus::Active));
    assert_eq!(ask(None, Some("Alice")).unwrap().uuid, alice);
    assert_eq!(ask(Some(alice), Some("nobody")).unwrap().username, "alice");
    assert_eq!(ask(Some(5), Some("alice")).err(), Some(StatusCode::NotFound));
    assert_eq!(ask(None, Some("nobody")).err(), Some(StatusCode::NotFound));
    assert_eq!(ask(None, None).err(), Some(StatusCode::BadRequest));
    assert_eq!(ask(Some(alice), Some("a")).err(), Some(StatusCode::BadRequest));
    assert_eq!(ask(None, Some("a b c")).err(), Some(StatusCode::BadRequest));
}

#[test]
fn user_data_of_a_user_that_is_gone() {
    let state = state();
    let claims = AccessToken::new_at(100, 5, ClientType::Web, 300, T0);
    assert_eq!(user_data(&state, &claims).err(), Some(StatusCode::NotFound));
    let shown = user_sessions(&state, &claims);
    assert!(shown.web.is_none() && shown.game.is_none() && shown.mobile.is_none());
}

#[test]
fn password_change() {
    let (mut state, alice) = with_alice();
    let claims = AccessToken::new_at(100, alice, ClientType::Web, 300, T0);
    let change = |old: &str, new: &str| PasswordChangeBody {
        old_password: String::from(old),
        new_password: String::from(new),
    };
    assert_eq!(
        user_password(&mut state, &claims, &change("wrong-one", "pw654321")),
        StatusCode::NotModified
    );
    assert_eq!(
        user_password(&mut state, &claims, &change("pw", "pw654321")),
        StatusCode::BadRequest
    );
    assert_eq!(
        user_password(&mut state, &claims, &change("pw123456", "pw")),
        StatusCode::BadRequest
    );
    let stranger = AccessToken { sub: 5, ..claims };
    assert_eq!(
        user_password(&mut state, &stranger, &change("pw123456", "pw654321")),
        StatusCode::NotFound
    );
    let login = |state: &mut HubState, password: &str| {
        user_login_at(state, &login_body("alice", password, ClientType::Web), T0, 100, 200, 300)
            .err()
    };
    assert_eq!(login(&mut state, "pw123456"), None);
    assert_eq!(
        user_password(&mut state, &claims, &change("pw123456", "pw654321")),
        StatusCode::Success
    );
    assert_eq!(login(&mut state, "pw123456"), Some(StatusCode::Unauthorized));
    assert_eq!(login(&mut state, "pw654321"), None);
}

#[test]
fn password_change_in_two_steps() {
    let (mut state, alice) = with_alice();
    let claims = AccessToken::new_at(100, alice, ClientType::Web, 300, T0);
    let body = PasswordChangeBody {
        old_password: String::from("pw123456"),
        new_password: String::from("pw654321"),
    };
    let user = password_change_check(&state, &claims, &body).unwrap();
    assert_eq!(user.uuid, alice);
    assert_eq!(
        password_change_apply(&mut state, user.copy(), None),
        StatusCode::InternalServerError
    );
    assert_eq!(verify_password("pw123456", &User::find_by_uuid(&state.db, alice).unwrap().password), Some(true));
    assert_eq!(
        password_change_apply(&mut state, user, Some(String::from("new hash"))),
        StatusCode::Success
    );
    assert_eq!(User::find_by_uuid(&state.db, alice).unwrap().password, "new hash");
    assert_eq!(
        password_change_check(&state, &claims, &body).err(),
        Some(StatusCode::InternalServerError)
    );
}

#[test]
fn player_identity_tokens() {
    let state = state();
    let claims = AccessToken::new_at(100, 5, ClientType::Game, 300, T0);
    let query = PITQuery { sid: String::from("eYp1Zl1td14E") };
    let text = token_pit_at(&state.keys, &claims, &query, T0, 400).unwrap();
    let read = PlayerIdentityToken::decode_at(&text, &state.keys, T0).unwrap();
    assert_eq!(read.aud, "eYp1Zl1td14E");
    assert_eq!(
        (read.sub, read.jti, read.exp, read.nbf, read.ct),
        (5, 400, T0 + 15, T0, ClientType::Game)
    );
    assert!(PlayerIdentityToken::decode_at(&text, &state.keys, T0 + 15).is_ok());
    assert!(PlayerIdentityToken::decode_at(&text, &state.keys, T0 + 16).is_err());
    let bad = PITQuery { sid: String::from("too short") };
    assert_eq!(
        token_pit_at(&state.keys, &claims, &bad, T0, 400).err(),
        Some(StatusCode::BadRequest)
    );
    assert_eq!(token_pit(&state.keys, &claims, &bad).err(), Some(StatusCode::BadRequest));
}

#[test]
fn issuing_tokens_for_a_session() {
    let state = state();
    let session =
        Session { uuid: 11, sub: 12, token: 13, exp: T0 + 500, updated_at: 1, created_at: 2 };
    let cookie = issue_cookie(&state.keys, &session, ClientType::Mobile, T0).unwrap();
    assert_eq!(
        RefreshToken::decode_at(&cookie.value, &state.keys, T0).unwrap(),
        RefreshToken { sess: 11, sub: 12, jti: 13, exp: T0 + 500, nbf: T0, ct: ClientType::Mobile }
    );
    let access = issue_access(&state.keys, 11, 12, ClientType::Mobile, 14, T0).unwrap();
    assert_eq!(
        access_of(&state, &access, T0),
        AccessToken { iss: 11, sub: 12, jti: 14, exp: T0 + 60, ct: ClientType::Mobile }
    );
    let (both_cookie, both_access) =
        issue_tokens(&state.keys, &session, ClientType::Mobile, T0, 14).unwrap();
    assert_eq!(both_cookie.value, cookie.value);
    assert_eq!(both_access, access);
}

#[test]
fn the_clock_stays_within_bounds() {
    let t = now();
    assert!(t > T0 && t <= TIME_MAX);
    assert_eq!(TIME_MAX, i64::MAX / 2);
    let read = jsonwebtoken::get_current_timestamp() as i64;
    assert!(t <= read && read <= t + 2);
}

#[test]
fn readings_of_the_clock_become_moments() {
    assert_eq!(moment_from(0), 0);
    assert_eq!(moment_from(1_700_000_000), 1_700_000_000);
    assert_eq!(moment_from(TIME_MAX as u64), TIME_MAX);
    assert_eq!(moment_from(TIME_MAX as u64 + 1), TIME_MAX);
    assert_eq!(moment_from(u64::MAX), TIME_MAX);
}

#[test]
fn how_a_question_names_its_user() {
    let ask = |uuid: Option<u128>, username: Option<&str>| {
        user_info_key(&UserInfoQuery { uuid, username: username.map(String::from) })
    };
    assert!(matches!(ask(Some(7), None), Ok(UserKey::Uuid(7))));
    assert!(matches!(ask(Some(7), Some("alice")), Ok(UserKey::Uuid(7))));
    match ask(None, Some("alice")) {
        Ok(UserKey::Username(name)) => assert_eq!(name, "alice"),
        other => panic!("{:?}", other),
    }
    assert_eq!(ask(None, None).err(), Some(StatusCode::BadRequest));
    assert_eq!(ask(Some(7), Some("a")).err(), Some(StatusCode::BadRequest));
    assert_eq!(ask(None, Some("not a name")).err(), Some(StatusCode::BadRequest));
}

#[test]
fn answers_for_a_user_found_or_not() {
    let user = || {
        User::new(
            1,
            String::from("alice"),
            String::from("a@x.y"),
            String::from("hash"),
            UserStatus::Banned,
            T0,
        )
    };
    let info = user_info_answer(Some(user())).unwrap();
    assert_eq!((info.uuid, info.username.as_str(), info.status), (1, "alice", UserStatus::Banned));
    assert_eq!(user_info_answer(None).err(), Some(StatusCode::NotFound));
    let data = user_data_answer(Some(user())).unwrap();
    assert_eq!(
        (data.uuid, data.username.as_str(), data.email.as_str(), data.status, data.created_at),
        (1, "alice", "a@x.y", UserStatus::Banned, T0)
    );
    assert_eq!(user_data_answer(None).err(), Some(StatusCode::NotFound));
}

#[test]
fn a_session_found_or_not() {
    let session = Session { uuid: 1, sub: 2, token: 3, exp: 4, updated_at: 5, created_at: 6 };
    assert_eq!(session_or_not_found(Some(session)), Ok(session));
    assert_eq!(session_or_not_found(None), Err(StatusCode::NotFound));
}

#[test]
fn a_hash_made_or_not() {
    assert_eq!(hash_or_internal_error(Some(String::from("h"))), Ok(String::from("h")));
    assert_eq!(hash_or_internal_error(None), Err(StatusCode::InternalServerError));
    assert!(hash_password("pw1234").is_some());
    assert!(hash_password(&"x".repeat(64)).is_some());
    assert!(hash_password(&"\u{10ffff}".repeat(64)).is_some());
}

#[test]
fn the_old_password_is_checked() {
    let user = || {
        User::new(
            1,
            String::from("alice"),
            String::from("a@x.y"),
            hash_password("pw123456").unwrap(),
            UserStatus::Active,
            T0,
        )
    };
    assert_eq!(check_old_password(Some(user()), "pw123456").unwrap().uuid, 1);
    assert_eq!(check_old_password(Some(user()), "pw654321").err(), Some(StatusCode::NotModified));
    assert_eq!(check_old_password(None, "pw123456").err(), Some(StatusCode::NotFound));
    let mut broken = user();
    broken.password = String::from("no hash");
    assert_eq!(
        check_old_password(Some(broken), "pw123456").err(),
        Some(StatusCode::InternalServerError)
    );
    let changed = with_new_password(user(), Some(String::from("new hash"))).unwrap();
    assert_eq!(
        (changed.uuid, changed.username.as_str(), changed.password.as_str()),
        (1, "alice", "new hash")
    );
    assert_eq!(with_new_password(user(), None).err(), Some(StatusCode::InternalServerError));
}

#[test]
fn deleting_a_user_everywhere() {
    let mut state = state();
    for (n, ct) in ClientType::all().into_iter().enumerate() {
        Session::upsert(&mut state.db, ct, 1, 100 + n as u128, 200, T0).unwrap();
        Session::upsert(&mut state.db, ct, 2, 110 + n as u128, 210, T0).unwrap();
    }
    delete_everywhere(&mut state.db, 1);
    for ct in ClientType::all() {
        assert_eq!(Session::find_by(&state.db, ct, 1, FindBy::Sub), None);
        assert!(Session::find_by(&state.db, ct, 2, FindBy::Sub).is_some());
    }
    assert_eq!(ClientType::all(), [ClientType::Web, ClientType::Game, ClientType::Mobile]);
}

#[test]
fn random_identifiers() {
    let a = random_id();
    let b = random_id();
    assert_ne!(a, b);
    assert_eq!(uuid::Uuid::from_u128(a).get_version_num(), 4);
    assert_eq!(uuid::Uuid::from_u128(b).get_variant(), uuid::Variant::RFC4122);
}

#[test]
fn a_repeated_login_leaves_one_session() {
    let (mut state, alice) = with_alice();
    let body = login_body("alice", "pw123456", ClientType::Web);
    user_login_at(&mut state, &body, T0, 100, 200, 300).unwrap();
    user_login_at(&mut state, &body, T0 + 1, 101, 201, 301).unwrap();
    let session = Session::find_by(&state.db, ClientType::Web, alice, FindBy::Sub).unwrap();
    assert_eq!((session.uuid, session.token), (101, 201));
    assert_eq!(Session::delete_by(&mut state.db, ClientType::Web, alice, FindBy::Sub), 1);
}

#[test]
fn token_ends() {
    let (mut state, alice) = with_alice();
    let body = login_body("alice", "pw123456", ClientType::Web);
    let (cookie, access) = user_login_at(&mut state, &body, T0, 100, 200, 300).unwrap();
    assert_eq!(access_of(&state, &access, T0).exp, T0 + 60);
    let (_, access) = token_refresh_at(&mut state, Some(&cookie.value), T0 + 7, 1, 2).unwrap();
    assert_eq!(access_of(&state, &access, T0 + 7).exp, T0 + 67);
    let claims = AccessToken::new_at(100, alice, ClientType::Web, 300, T0);
    let query = PITQuery { sid: String::from("eYp1Zl1td14E") };
    let pit = token_pit_at(&state.keys, &claims, &query, T0, 400).unwrap();
    let read = PlayerIdentityToken::decode_at(&pit, &state.keys, T0).unwrap();
    assert_eq!((read.exp, read.nbf), (T0 + 15, T0));
}
