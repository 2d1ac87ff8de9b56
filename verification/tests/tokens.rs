use ecg_hub::common::user::{ClientType, UserStatus};
use ecg_hub::config::Config;
use ecg_hub::http::StatusCode;
use ecg_hub::jwt::{find_claim, find_number, find_text, ClaimValue};
use ecg_hub::keys::Keys;
use ecg_hub::models::entities::Session;
use ecg_hub::models::tokens::{
    check_time, find_ct, find_id, AccessToken, PlayerIdentityToken, RefreshToken, SecurityToken,
    TokenError,
};

const SEED_HEX: &str = "9d61b19deffd5a60ba844af492ec2cc44449c5697b326919703bac031cae7f60";

fn keys() -> Keys {
    Keys::new(Config::private_key_deserialize(SEED_HEX).unwrap().unwrap()).unwrap()
}

fn other_keys() -> Keys {
    let mut seed = [0u8; 32];
    seed[0] = 1;
    Keys::new(seed).unwrap()
}

fn refresh() -> RefreshToken {
    RefreshToken::new_raw(
        0xa1a2a3a4b1b2c1c2d1d2d3d4d5d6d7d8,
        2,
        3,
        1_700_000_600,
        1_700_000_000,
        ClientType::Game,
    )
}

fn text_of(claims: &Vec<(String, ClaimValue)>, name: &str) -> String {
    String::from(find_text(claims, name).unwrap())
}

#[test]
fn lifetimes_and_constants() {
    assert_eq!(RefreshToken::LIFETIME, 60 * 60 * 24 * 30 * 6);
    assert_eq!(AccessToken::LIFETIME, 60);
    assert_eq!(PlayerIdentityToken::LIFETIME, 15);
    assert_eq!(RefreshToken::ROTATION_PERIOD, 7 * 24 * 60 * 60);
    assert_eq!(RefreshToken::COOKIE_NAME, "hub-rt");
    assert_eq!(Keys::LEEWAY, 1);
}

#[test]
fn refresh_token_claims() {
    let claims = refresh().to_claims();
    assert_eq!(claims.len(), 6);
    assert_eq!(text_of(&claims, "sess"), "a1a2a3a4-b1b2-c1c2-d1d2-d3d4d5d6d7d8");
    assert_eq!(text_of(&claims, "sub"), "00000000-0000-0000-0000-000000000002");
    assert_eq!(text_of(&claims, "jti"), "00000000-0000-0000-0000-000000000003");
    assert_eq!(find_number(&claims, "exp"), Some(1_700_000_600));
    assert_eq!(find_number(&claims, "nbf"), Some(1_700_000_000));
    assert_eq!(find_number(&claims, "ct"), Some(1));
    assert_eq!(find_number(&claims, "sub"), None);
    assert_eq!(find_text(&claims, "exp"), None);
    assert!(find_claim(&claims, "iss").is_none());
    assert_eq!(find_id(&claims, "sess"), Some(0xa1a2a3a4b1b2c1c2d1d2d3d4d5d6d7d8));
    assert_eq!(find_id(&claims, "exp"), None);
    assert_eq!(find_ct(&claims), Some(ClientType::Game));
}

#[test]
fn claims_read_back_as_the_token() {
    let token = refresh();
    assert_eq!(RefreshToken::from_claims(&token.to_claims()), Some(token));
    let access = AccessToken::new_at(7, 8, ClientType::Mobile, 9, 100);
    assert_eq!(access.exp, 160);
    assert_eq!(AccessToken::from_claims(&access.to_claims()), Some(access));
    let pit =
        PlayerIdentityToken::new_at(String::from("eYp1Zl1td14E"), 8, ClientType::Web, 9, 100);
    let read = PlayerIdentityToken::from_claims(&pit.to_claims()).unwrap();
    assert_eq!(read.aud, "eYp1Zl1td14E");
    assert_eq!((read.sub, read.jti, read.exp, read.nbf, read.ct), (8, 9, 115, 100, ClientType::Web));
}

#[test]
fn claims_of_another_kind_are_refused() {
    let access = AccessToken::new_at(7, 8, ClientType::Mobile, 9, 100);
    assert_eq!(RefreshToken::from_claims(&access.to_claims()), None);
    assert_eq!(AccessToken::from_claims(&refresh().to_claims()), None);
    assert!(PlayerIdentityToken::from_claims(&access.to_claims()).is_none());
}

#[test]
fn claims_with_a_bad_member_are_refused() {
    let good = AccessToken::new_at(7, 8, ClientType::Web, 9, 100);
    let replace = |name: &str, value: ClaimValue| -> Vec<(String, ClaimValue)> {
        let mut claims = good.to_claims();
        for pair in claims.iter_mut() {
            if pair.0 == name {
                pair.1 = match &value {
                    ClaimValue::Text(text) => ClaimValue::Text(text.clone()),
                    ClaimValue::Number(number) => ClaimValue::Number(*number),
                    ClaimValue::Other => ClaimValue::Other,
                };
            }
        }
        claims
    };
    assert_eq!(AccessToken::from_claims(&replace("ct", ClaimValue::Number(3))), None);
    assert_eq!(AccessToken::from_claims(&replace("ct", ClaimValue::Number(-1))), None);
    assert_eq!(AccessToken::from_claims(&replace("ct", ClaimValue::Text(String::from("0")))), None);
    assert_eq!(AccessToken::from_claims(&replace("exp", ClaimValue::Other)), None);
    assert_eq!(AccessToken::from_claims(&replace("iss", ClaimValue::Text(String::from("seven")))), None);
    assert_eq!(AccessToken::from_claims(&replace("sub", ClaimValue::Number(8))), None);
    assert_eq!(
        AccessToken::from_claims(&replace("ct", ClaimValue::Number(2))),
        Some(AccessToken { ct: ClientType::Mobile, ..good })
    );
    assert_eq!(
        AccessToken::from_claims(&replace(
            "iss",
            ClaimValue::Text(String::from("0000000000000000000000000000000A"))
        )),
        Some(AccessToken { iss: 10, ..good })
    );
}

#[test]
fn client_types_and_statuses_have_numbers() {
    assert_eq!(ClientType::Web.code(), 0);
    assert_eq!(ClientType::Game.code(), 1);
    assert_eq!(ClientType::Mobile.code(), 2);
    assert_eq!(ClientType::from_code(0), Some(ClientType::Web));
    assert_eq!(ClientType::from_code(1), Some(ClientType::Game));
    assert_eq!(ClientType::from_code(2), Some(ClientType::Mobile));
    assert_eq!(ClientType::from_code(3), None);
    assert_eq!(ClientType::from_code(-1), None);
    assert_eq!(ClientType::default(), ClientType::Web);
    assert_eq!(UserStatus::Active.code(), 0);
    assert_eq!(UserStatus::Inactive.code(), 1);
    assert_eq!(UserStatus::Banned.code(), 2);
    assert_eq!(UserStatus::from_code(2), Some(UserStatus::Banned));
    assert_eq!(UserStatus::from_code(1), Some(UserStatus::Inactive));
    assert_eq!(UserStatus::from_code(0), Some(UserStatus::Active));
    assert_eq!(UserStatus::from_code(9), None);
}

#[test]
fn times_are_judged_with_one_second_of_leeway() {
    assert_eq!(check_time(100, None, 99), None);
    assert_eq!(check_time(100, None, 100), None);
    assert_eq!(check_time(100, None, 101), Some(TokenError::Expired));
    assert_eq!(check_time(100, Some(50), 50), None);
    assert_eq!(check_time(100, Some(50), 49), None);
    assert_eq!(check_time(100, Some(50), 48), Some(TokenError::Immature));
    assert_eq!(check_time(100, Some(50), 51), None);
    assert_eq!(check_time(100, Some(i64::MAX), i64::MAX - 1), Some(TokenError::Expired));
    assert_eq!(check_time(i64::MAX, Some(i64::MAX), i64::MAX - 1), None);
    assert_eq!(check_time(i64::MAX, Some(i64::MAX), i64::MAX - 2), Some(TokenError::Immature));
    assert_eq!(check_time(100, Some(200), 150), Some(TokenError::Expired));
    assert_eq!(check_time(i64::MAX, Some(i64::MIN), i64::MAX), None);
    assert_eq!(check_time(i64::MIN, None, i64::MIN), None);
    assert_eq!(check_time(i64::MAX, Some(i64::MAX), i64::MAX), None);
}

#[test]
fn a_signed_token_has_three_parts_and_the_eddsa_header() {
    let text = refresh().sign(&keys()).unwrap();
    let parts: Vec<&str> = text.split('.').collect();
    assert_eq!(parts.len(), 3);
    assert_eq!(parts[0], "eyJ0eXAiOiJKV1QiLCJhbGciOiJFZERTQSJ9");
    assert_eq!(jsonwebtoken::decode_header(&text).unwrap().alg, jsonwebtoken::Algorithm::EdDSA);
    assert_ne!(text, parts[1]);
}

#[test]
fn signing_depends_on_claims_and_key_only() {
    let a = refresh().sign(&keys()).unwrap();
    let b = refresh().sign(&keys()).unwrap();
    assert_eq!(a, b);
    let mut changed = refresh();
    changed.jti = 4;
    assert_ne!(changed.sign(&keys()).unwrap(), a);
    assert_ne!(refresh().sign(&other_keys()).unwrap(), a);
}

#[test]
fn sign_then_decode_gives_the_claims_back() {
    let keys = keys();
    let token = refresh();
    let text = token.sign(&keys).unwrap();
    assert_eq!(RefreshToken::decode_at(&text, &keys, 1_700_000_000), Ok(token));
    let access = AccessToken::new_at(7, 8, ClientType::Web, 9, 1_700_000_000);
    let text = access.sign(&keys).unwrap();
    assert_eq!(AccessToken::decode_at(&text, &keys, 1_700_000_030), Ok(access));
    let pit = PlayerIdentityToken::new_at(
        String::from("eYp1Zl1td14E"),
        8,
        ClientType::Game,
        9,
        1_700_000_000,
    );
    let text = pit.sign(&keys).unwrap();
    let read = PlayerIdentityToken::decode_at(&text, &keys, 1_700_000_010).unwrap();
    assert_eq!(read.aud, "eYp1Zl1td14E");
    assert_eq!(read.exp, 1_700_000_015);
    assert_eq!(read.nbf, 1_700_000_000);
    assert_eq!((read.sub, read.jti, read.ct), (8, 9, ClientType::Game));
}

#[test]
fn an_access_token_is_accepted_until_its_end() {
    let keys = keys();
    let access = AccessToken::new_at(7, 8, ClientType::Web, 9, 1000);
    let text = access.sign(&keys).unwrap();
    assert_eq!(AccessToken::decode_at(&text, &keys, 0), Ok(access));
    assert_eq!(AccessToken::decode_at(&text, &keys, 1059), Ok(access));
    assert_eq!(AccessToken::decode_at(&text, &keys, 1060), Ok(access));
    assert_eq!(AccessToken::decode_at(&text, &keys, 1061), Err(TokenError::Expired));
    assert_eq!(AccessToken::decode_at(&text, &keys, 5000), Err(TokenError::Expired));
}

#[test]
fn a_refresh_token_is_refused_before_its_start() {
    let keys = keys();
    let text = refresh().sign(&keys).unwrap();
    assert_eq!(RefreshToken::decode_at(&text, &keys, 1_699_999_998), Err(TokenError::Immature));
    assert_eq!(RefreshToken::decode_at(&text, &keys, 1_699_999_999), Ok(refresh()));
    assert_eq!(RefreshToken::decode_at(&text, &keys, 1_700_000_000), Ok(refresh()));
    assert_eq!(RefreshToken::decode_at(&text, &keys, 1_700_000_600), Ok(refresh()));
    assert_eq!(RefreshToken::decode_at(&text, &keys, 1_700_000_601), Err(TokenError::Expired));
}

#[test]
fn a_token_under_another_key_is_invalid() {
    let text = refresh().sign(&keys()).unwrap();
    assert_eq!(
        RefreshToken::decode_at(&text, &other_keys(), 1_700_000_000),
        Err(TokenError::Invalid)
    );
}

#[test]
fn a_changed_token_is_invalid() {
    let keys = keys();
    let text = refresh().sign(&keys).unwrap();
    let parts: Vec<&str> = text.split('.').collect();
    let other = RefreshToken { jti: 4, ..refresh() }.sign(&keys).unwrap();
    let other_parts: Vec<&str> = other.split('.').collect();
    let forged = format!("{}.{}.{}", parts[0], other_parts[1], parts[2]);
    assert_eq!(RefreshToken::decode_at(&forged, &keys, 1_700_000_000), Err(TokenError::Invalid));
    assert_eq!(RefreshToken::decode_at("", &keys, 1_700_000_000), Err(TokenError::Invalid));
    assert_eq!(RefreshToken::decode_at("a.b.c", &keys, 1_700_000_000), Err(TokenError::Invalid));
    assert_eq!(
        RefreshToken::decode_at(&text[..text.len() - 2], &keys, 1_700_000_000),
        Err(TokenError::Invalid)
    );
}

#[test]
fn a_token_of_another_kind_is_invalid() {
    let keys = keys();
    let text = refresh().sign(&keys).unwrap();
    assert_eq!(AccessToken::decode_at(&text, &keys, 1_700_000_000), Err(TokenError::Invalid));
    let access = AccessToken::new_at(7, 8, ClientType::Web, 9, 1000).sign(&keys).unwrap();
    assert_eq!(RefreshToken::decode_at(&access, &keys, 1000), Err(TokenError::Invalid));
}

#[test]
fn an_expired_token_that_is_also_forged_is_invalid() {
    let keys = keys();
    let text = refresh().sign(&other_keys()).unwrap();
    assert_eq!(RefreshToken::decode_at(&text, &keys, 1_800_000_000), Err(TokenError::Invalid));
}

#[test]
fn tokens_made_now_are_accepted_now() {
    let keys = keys();
    let access = AccessToken::new(7, 8, ClientType::Game);
    assert_eq!((access.iss, access.sub, access.ct), (7, 8, ClientType::Game));
    assert_eq!(uuid::Uuid::from_u128(access.jti).get_version_num(), 4);
    let now = jsonwebtoken::get_current_timestamp() as i64;
    assert!(access.exp >= now + 59 && access.exp <= now + 61);
    let text = access.sign(&keys).unwrap();
    assert_eq!(AccessToken::decode(&text, &keys), Ok(access));
    let other = AccessToken::new(7, 8, ClientType::Game);
    assert_ne!(other.jti, access.jti);

    let refresh = RefreshToken::new(1, 2, 3, ClientType::Web);
    assert!(refresh.nbf >= now - 1 && refresh.nbf <= now + 1);
    assert_eq!(refresh.exp - refresh.nbf, RefreshToken::LIFETIME);
    assert_eq!(RefreshToken::decode(&refresh.sign(&keys).unwrap(), &keys), Ok(refresh));
    assert!(RefreshToken::new_nbf() >= now);
    assert!(AccessToken::new_exp() >= now + 60);

    let pit = PlayerIdentityToken::new(String::from("eYp1Zl1td14E"), 8, ClientType::Web);
    assert_eq!(pit.exp - pit.nbf, 15);
    assert_eq!(uuid::Uuid::from_u128(pit.jti).get_version_num(), 4);
    let read = PlayerIdentityToken::decode(&pit.sign(&keys).unwrap(), &keys).unwrap();
    assert_eq!((read.aud.as_str(), read.jti), ("eYp1Zl1td14E", pit.jti));
}

#[test]
fn an_old_token_is_expired_now() {
    let keys = keys();
    let text = AccessToken::new_at(7, 8, ClientType::Web, 9, 1000).sign(&keys).unwrap();
    assert_eq!(AccessToken::decode(&text, &keys), Err(TokenError::Expired));
    assert_eq!(
        AccessToken::from_request_parts(Some(&text), &keys),
        Err(StatusCode::Forbidden)
    );
    assert_eq!(AccessToken::from_request_parts(None, &keys), Err(StatusCode::ExpectationFailed));
}

#[test]
fn the_refresh_token_of_a_session() {
    let session =
        Session { uuid: 11, sub: 12, token: 13, exp: 5000, updated_at: 1, created_at: 2 };
    let token = RefreshToken::from_session(&session, ClientType::Mobile, 100);
    assert_eq!(
        token,
        RefreshToken { sess: 11, sub: 12, jti: 13, exp: 5000, nbf: 100, ct: ClientType::Mobile }
    );
    assert_eq!(token.exp(), 5000);
    assert_eq!(token.nbf(), Some(100));
    let access = AccessToken::from_session(&session, ClientType::Mobile);
    assert_eq!((access.iss, access.sub, access.ct), (11, 12, ClientType::Mobile));
    assert_eq!(access.nbf(), None);
}

#[test]
fn the_cookie_of_a_refresh_token() {
    let keys = keys();
    let cookie = refresh().to_cookie(&keys).unwrap();
    assert_eq!(cookie.name, "hub-rt");
    assert_eq!(cookie.value, refresh().sign(&keys).unwrap());
    assert_eq!(cookie.max_age, 15552000);
    assert!(cookie.http_only);
    assert_eq!(
        cookie.to_header(),
        format!("hub-rt={}; HttpOnly; Max-Age=15552000", cookie.value)
    );
}

#[test]
fn bearer_credentials() {
    let keys = keys();
    let access = AccessToken::new_at(7, 8, ClientType::Web, 9, 1000);
    let text = access.sign(&keys).unwrap();
    assert_eq!(AccessToken::from_bearer(Some(&text), &keys, 1000), Ok(access));
    assert_eq!(AccessToken::from_bearer(None, &keys, 1000), Err(StatusCode::ExpectationFailed));
    assert_eq!(AccessToken::from_bearer(Some(&text), &keys, 2000), Err(StatusCode::Forbidden));
    assert_eq!(AccessToken::from_bearer(Some("junk"), &keys, 1000), Err(StatusCode::Forbidden));
    assert_eq!(
        AccessToken::from_bearer(Some(&text), &other_keys(), 1000),
        Err(StatusCode::Forbidden)
    );
}

#[test]
fn a_token_signed_elsewhere_with_the_same_key_decodes() {
    let keys = keys();
    let mut claims = serde_json::Map::new();
    claims.insert(String::from("iss"), serde_json::Value::from("00000000-0000-0000-0000-000000000007"));
    claims.insert(String::from("sub"), serde_json::Value::from("00000000-0000-0000-0000-000000000008"));
    claims.insert(String::from("jti"), serde_json::Value::from("00000000-0000-0000-0000-000000000009"));
    claims.insert(String::from("exp"), serde_json::Value::from(1060));
    claims.insert(String::from("ct"), serde_json::Value::from(0));
    claims.insert(String::from("extra"), serde_json::Value::from(true));
    let key = jsonwebtoken::EncodingKey::from_ed_pem(keys.secret_pem().as_bytes()).unwrap();
    let header = jsonwebtoken::Header::new(jsonwebtoken::Algorithm::EdDSA);
    let text = jsonwebtoken::encode(&header, &claims, &key).unwrap();
    let access = AccessToken::new_at(7, 8, ClientType::Web, 9, 1000);
    assert_eq!(AccessToken::decode_at(&text, &keys, 1000), Ok(access));
    assert_eq!(access.sign(&keys).unwrap().split('.').next(), text.split('.').next());

    claims.insert(String::from("exp"), serde_json::Value::from(1060.5));
    let text = jsonwebtoken::encode(&header, &claims, &key).unwrap();
    assert_eq!(AccessToken::decode_at(&text, &keys, 1000), Err(TokenError::Invalid));

    claims.remove("exp");
    let text = jsonwebtoken::encode(&header, &claims, &key).unwrap();
    assert_eq!(AccessToken::decode_at(&text, &keys, 1000), Err(TokenError::Invalid));
}

#[test]
fn a_token_with_another_algorithm_is_invalid() {
    let keys = keys();
    let mut claims = serde_json::Map::new();
    claims.insert(String::from("exp"), serde_json::Value::from(1060));
    let key = jsonwebtoken::EncodingKey::from_secret(b"secret");
    let text = jsonwebtoken::encode(&jsonwebtoken::Header::default(), &claims, &key).unwrap();
    assert_eq!(AccessToken::decode_at(&text, &keys, 1000), Err(TokenError::Invalid));
}
