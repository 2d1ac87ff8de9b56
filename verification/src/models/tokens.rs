//! The three kinds of signed token: what each claims, how long it lives, and
//! when a token that comes back is accepted.

use vstd::prelude::*;
use vstd::string::*;
use crate::common::user::ClientType;
use crate::error::Error;
use crate::http::{Cookie, CookieView};
use crate::ident::{fresh_id, hyphenated, id_text, is_random_id, parse_id, uuid_parsed};
use crate::jwt::{
    claims_view, find_number, find_text, jwt_decode, jwt_decoded, jwt_encode, jwt_encoded,
    lookup_number, lookup_text, Claim, ClaimValue, Claims,
};
use crate::keys::Keys;
use crate::models::entities::Session;
use crate::utils::{is_moment, now, TIME_MAX};

verus! {

/// Why a token is not accepted.
#[derive(Clone, Copy, Debug, PartialEq, Eq, Structural)]
pub enum TokenError {
    /// The token is malformed, its signature does not hold, or its claims
    /// are not those of the kind of token asked for.
    Invalid,
    /// The token's time is over.
    Expired,
    /// The token's time has not come yet.
    Immature,
}

/// What the times of a token say at a given moment. A token is in force
/// while `now < exp + LEEWAY` and, where it names a start, `nbf <= now +
/// LEEWAY`.
pub open spec fn time_verdict(exp: i64, nbf: Option<i64>, now: i64) -> Option<TokenError> {
    if now >= exp + Keys::LEEWAY {
        Some(TokenError::Expired)
    } else if nbf is Some && nbf->0 > now + Keys::LEEWAY {
        Some(TokenError::Immature)
    } else {
        None
    }
}

/// Judges the times of a token at a given moment.
pub fn check_time(exp: i64, nbf: Option<i64>, now: i64) -> (verdict: Option<TokenError>)
    ensures
        verdict == time_verdict(exp, nbf, now),
{
    if now as i128 >= exp as i128 + Keys::LEEWAY as i128 {
        return Some(TokenError::Expired);
    }
    match nbf {
        Some(start) => {
            if start as i128 > now as i128 + Keys::LEEWAY as i128 {
                Some(TokenError::Immature)
            } else {
                None
            }
        },
        None => None,
    }
}

/// The identifier that the first claim of the given name holds as text.
pub open spec fn lookup_id(claims: Claims, name: Seq<char>) -> Option<u128> {
    match lookup_text(claims, name) {
        Some(text) => uuid_parsed(text),
        None => None,
    }
}

/// The client type that the claim `ct` holds as a number.
pub open spec fn lookup_ct(claims: Claims) -> Option<ClientType> {
    match lookup_number(claims, "ct"@) {
        Some(code) => ClientType::spec_from_code(code as int),
        None => None,
    }
}

/// Finds the identifier that the first claim of the given name holds.
pub fn find_id(claims: &Vec<(String, ClaimValue)>, name: &str) -> (id: Option<u128>)
    ensures
        id == lookup_id(claims_view(claims@), name@),
{
    match find_text(claims, name) {
        Some(text) => parse_id(text),
        None => None,
    }
}

/// Finds the client type that the claim `ct` holds.
pub fn find_ct(claims: &Vec<(String, ClaimValue)>) -> (ct: Option<ClientType>)
    ensures
        ct == lookup_ct(claims_view(claims@)),
{
    match find_number(claims, "ct") {
        Some(code) => ClientType::from_code(code),
        None => None,
    }
}

/// A claim that holds an identifier.
pub open spec fn id_claim(name: Seq<char>, id: u128) -> (Seq<char>, Claim) {
    (name, Claim::Text(hyphenated(id)))
}

/// A claim that holds a number.
pub open spec fn number_claim(name: Seq<char>, number: i64) -> (Seq<char>, Claim) {
    (name, Claim::Number(number))
}

fn make_id_claim(name: &str, id: u128) -> (claim: (String, ClaimValue))
    ensures
        (claim.0@, claim.1@) == id_claim(name@, id),
        uuid_parsed(hyphenated(id)) == Some(id),
{
    (String::from_str(name), ClaimValue::Text(id_text(id)))
}

fn make_number_claim(name: &str, number: i64) -> (claim: (String, ClaimValue))
    ensures
        (claim.0@, claim.1@) == number_claim(name@, number),
{
    (String::from_str(name), ClaimValue::Number(number))
}

/// A kind of signed token.
pub trait SecurityToken: Sized + View {
    /// Seconds that a token of this kind lives.
    const LIFETIME: i64;

    /// The claims that stand for a token.
    spec fn claims_of(token: Self::V) -> Claims;

    /// The token that claims stand for, if they stand for one of this kind.
    spec fn read(claims: Claims) -> Option<Self::V>;

    /// When a token ends.
    spec fn exp_of(token: Self::V) -> i64;

    /// When a token starts, if it names a start.
    spec fn nbf_of(token: Self::V) -> Option<i64>;

    /// Writes the token's claims. Reading them gives the token back.
    fn to_claims(&self) -> (claims: Vec<(String, ClaimValue)>)
        ensures
            claims_view(claims@) == Self::claims_of(self@),
            Self::read(Self::claims_of(self@)) == Some(self@),
    ;

    /// Reads a token from claims.
    fn from_claims(claims: &Vec<(String, ClaimValue)>) -> (token: Option<Self>)
        ensures
            match token {
                Some(t) => Self::read(claims_view(claims@)) == Some(t@),
                None => Self::read(claims_view(claims@)) is None,
            },
    ;

    /// When the token ends.
    fn exp(&self) -> (exp: i64)
        ensures
            exp == Self::exp_of(self@),
    ;

    /// When the token starts, if it names a start.
    fn nbf(&self) -> (nbf: Option<i64>)
        ensures
            nbf == Self::nbf_of(self@),
    ;

    /// The start of a token made now.
    fn new_nbf() -> (nbf: i64)
        ensures
            0 <= nbf <= TIME_MAX,
    {
        now()
    }

    /// The end of a token made now.
    fn new_exp() -> (exp: i64)
        requires
            0 <= Self::LIFETIME <= TIME_MAX,
        ensures
            0 <= exp - Self::LIFETIME <= TIME_MAX,
    {
        now() + Self::LIFETIME
    }

    /// Signs the token. The result is what the `jsonwebtoken` crate makes of
    /// the token's claims and the secret key; where it makes nothing, the
    /// failure is a `JWTError`.
    fn sign(&self, keys: &Keys) -> (res: Result<String, Error>)
        ensures
            match res {
                Ok(token) => jwt_encoded(Self::claims_of(self@), keys@.secret_pem) == Some(token@),
                Err(e) => jwt_encoded(Self::claims_of(self@), keys@.secret_pem) is None
                    && e is JWTError,
            },
            Self::read(Self::claims_of(self@)) == Some(self@),
    {
        let claims = self.to_claims();
        match jwt_encode(&claims, keys.secret_pem()) {
            Some(token) => Ok(token),
            None => Err(Error::JWTError(String::from_str("failed to sign token"))),
        }
    }

    /// Reads claims whose signature was found to hold as a token of this
    /// kind, and judges the token's times at the time `now`.
    fn check(claims: &Vec<(String, ClaimValue)>, now: i64) -> (res: Result<Self, TokenError>)
        ensures
            match res {
                Ok(token) => Self::read(claims_view(claims@)) == Some(token@) && time_verdict(
                    Self::exp_of(token@),
                    Self::nbf_of(token@),
                    now,
                ) is None,
                Err(e) => match Self::read(claims_view(claims@)) {
                    None => e == TokenError::Invalid,
                    Some(token) => time_verdict(Self::exp_of(token), Self::nbf_of(token), now)
                        == Some(e),
                },
            },
    {
        match Self::from_claims(claims) {
            None => Err(TokenError::Invalid),
            Some(token) => match check_time(token.exp(), token.nbf(), now) {
                Some(e) => Err(e),
                None => Ok(token),
            },
        }
    }

    /// Decodes a token at the time `now`: it is accepted exactly if the
    /// signature holds, the claims are those of a token of this kind, and
    /// the token is in force at that time.
    fn decode_at(token: &str, keys: &Keys, now: i64) -> (res: Result<Self, TokenError>)
        ensures
            match res {
                Ok(t) => jwt_decoded(token@, keys@.public_pem) is Some && Self::read(
                    jwt_decoded(token@, keys@.public_pem)->0,
                ) == Some(t@) && time_verdict(Self::exp_of(t@), Self::nbf_of(t@), now) is None,
                Err(e) => match jwt_decoded(token@, keys@.public_pem) {
                    None => e == TokenError::Invalid,
                    Some(claims) => match Self::read(claims) {
                        None => e == TokenError::Invalid,
                        Some(t) => time_verdict(Self::exp_of(t), Self::nbf_of(t), now) == Some(e),
                    },
                },
            },
    {
        match jwt_decode(token, keys.public_pem()) {
            None => Err(TokenError::Invalid),
            Some(claims) => Self::check(&claims, now),
        }
    }

    /// Decodes a token at the present time, whatever that is.
    fn decode(token: &str, keys: &Keys) -> (res: Result<Self, TokenError>)
        ensures
            exists|now: i64|
                #[trigger] is_moment(now) && match res {
                    Ok(t) => jwt_decoded(token@, keys@.public_pem) is Some && Self::read(
                        jwt_decoded(token@, keys@.public_pem)->0,
                    ) == Some(t@) && time_verdict(Self::exp_of(t@), Self::nbf_of(t@), now) is None,
                    Err(e) => match jwt_decoded(token@, keys@.public_pem) {
                        None => e == TokenError::Invalid,
                        Some(claims) => match Self::read(claims) {
                            None => e == TokenError::Invalid,
                            Some(t) => time_verdict(Self::exp_of(t), Self::nbf_of(t), now) == Some(e),
                        },
                    },
                },
    {
        let moment = now();
        let res = Self::decode_at(token, keys, moment);
        assert(is_moment(moment) && match res {
                    Ok(t) => jwt_decoded(token@, keys@.public_pem) is Some && Self::read(
                        jwt_decoded(token@, keys@.public_pem)->0,
                    ) == Some(t@) && time_verdict(Self::exp_of(t@), Self::nbf_of(t@), moment) is None,
                    Err(e) => match jwt_decoded(token@, keys@.public_pem) {
                        None => e == TokenError::Invalid,
                        Some(claims) => match Self::read(claims) {
                            None => e == TokenError::Invalid,
                            Some(t) => time_verdict(Self::exp_of(t), Self::nbf_of(t), moment) == Some(e),
                        },
                    },
                });
        res
    }
}

/// What a set of claims gives when it is read as a token of kind `T` at the
/// time `now`.
pub open spec fn checked<T: SecurityToken>(claims: Claims, now: i64) -> Result<T::V, TokenError> {
    match T::read(claims) {
        None => Err(TokenError::Invalid),
        Some(token) => match time_verdict(T::exp_of(token), T::nbf_of(token), now) {
            Some(e) => Err(e),
            None => Ok(token),
        },
    }
}

/// What a text gives when it is decoded as a token of kind `T` with a public
/// key at the time `now`.
pub open spec fn decoded<T: SecurityToken>(token: Seq<char>, public_pem: Seq<char>, now: i64) -> Result<
    T::V,
    TokenError,
> {
    match jwt_decoded(token, public_pem) {
        None => Err(TokenError::Invalid),
        Some(claims) => checked::<T>(claims, now),
    }
}

/// The claims of a refresh token: it names a session, the user that owns it,
/// and the refresh token that the session has in force.
#[derive(Clone, Copy, Debug, PartialEq, Eq, Structural)]
pub struct RefreshToken {
    /// The session.
    pub sess: u128,
    /// The user.
    pub sub: u128,
    /// The refresh token's own identifier: the session's `token`.
    pub jti: u128,
    /// When the token ends, in seconds since the epoch.
    pub exp: i64,
    /// When the token starts, in seconds since the epoch.
    pub nbf: i64,
    /// The client type.
    pub ct: ClientType,
}

impl View for RefreshToken {
    type V = RefreshToken;

    open spec fn view(&self) -> RefreshToken {
        *self
    }
}

impl RefreshToken {
    /// The name of the cookie that carries a refresh token.
    pub const COOKIE_NAME: &'static str = "hub-rt";

    /// Seconds of life below which a session's refresh token is rotated.
    pub const ROTATION_PERIOD: i64 = 604800;

    /// A refresh token with the given claims.
    pub fn new_raw(sess: u128, sub: u128, jti: u128, exp: i64, nbf: i64, ct: ClientType) -> (token:
        Self)
        ensures
            token == (RefreshToken { sess, sub, jti, exp, nbf, ct }),
    {
        Self { sess, sub, jti, exp, nbf, ct }
    }

    /// A refresh token that starts now and lives its full time.
    pub fn new(sess: u128, sub: u128, jti: u128, ct: ClientType) -> (token: Self)
        ensures
            token.sess == sess,
            token.sub == sub,
            token.jti == jti,
            token.ct == ct,
            is_moment(token.nbf),
            is_moment((token.exp - 15552000) as i64),
    {
        Self::new_raw(sess, sub, jti, Self::new_exp(), Self::new_nbf(), ct)
    }

    /// The refresh token of a session, starting at the time `now`. It ends
    /// when the session ends.
    pub fn from_session(session: &Session, ct: ClientType, now: i64) -> (token: Self)
        ensures
            token == (RefreshToken {
                sess: session.uuid,
                sub: session.sub,
                jti: session.token,
                exp: session.exp,
                nbf: now,
                ct,
            }),
    {
        Self::new_raw(session.uuid, session.sub, session.token, session.exp, now, ct)
    }

    /// The cookie that carries a signed refresh token.
    pub open spec fn cookie_of(value: Seq<char>) -> CookieView {
        CookieView { name: "hub-rt"@, value, max_age: 15552000, http_only: true }
    }

    /// Signs the token and wraps it in the cookie that carries it: kept from
    /// scripts, and kept by the client for a refresh token's lifetime.
    pub fn to_cookie(&self, keys: &Keys) -> (res: Result<Cookie, Error>)
        ensures
            match res {
                Ok(cookie) => jwt_encoded(Self::claims_of(*self), keys@.secret_pem) is Some
                    && cookie@ == Self::cookie_of(
                    jwt_encoded(Self::claims_of(*self), keys@.secret_pem)->0,
                ),
                Err(e) => jwt_encoded(Self::claims_of(*self), keys@.secret_pem) is None
                    && e is JWTError,
            },
    {
        match self.sign(keys) {
            Ok(value) => Ok(
                Cookie {
                    name: String::from_str("hub-rt"),
                    value,
                    max_age: 15552000,
                    http_only: true,
                },
            ),
            Err(e) => Err(e),
        }
    }
}

impl SecurityToken for RefreshToken {
    /// Six months.
    const LIFETIME: i64 = 15552000;

    open spec fn claims_of(token: RefreshToken) -> Claims {
        seq![
            id_claim("sess"@, token.sess),
            id_claim("sub"@, token.sub),
            id_claim("jti"@, token.jti),
            number_claim("exp"@, token.exp),
            number_claim("nbf"@, token.nbf),
            number_claim("ct"@, token.ct.spec_code() as i64),
        ]
    }

    open spec fn read(claims: Claims) -> Option<RefreshToken> {
        match (
            lookup_id(claims, "sess"@),
            lookup_id(claims, "sub"@),
            lookup_id(claims, "jti"@),
            lookup_number(claims, "exp"@),
            lookup_number(claims, "nbf"@),
            lookup_ct(claims),
        ) {
            (Some(sess), Some(sub), Some(jti), Some(exp), Some(nbf), Some(ct)) => Some(
                RefreshToken { sess, sub, jti, exp, nbf, ct },
            ),
            _ => None,
        }
    }

    open spec fn exp_of(token: RefreshToken) -> i64 {
        token.exp
    }

    open spec fn nbf_of(token: RefreshToken) -> Option<i64> {
        Some(token.nbf)
    }

    fn to_claims(&self) -> (claims: Vec<(String, ClaimValue)>) {
        let mut claims: Vec<(String, ClaimValue)> = Vec::new();
        claims.push(make_id_claim("sess", self.sess));
        claims.push(make_id_claim("sub", self.sub));
        claims.push(make_id_claim("jti", self.jti));
        claims.push(make_number_claim("exp", self.exp));
        claims.push(make_number_claim("nbf", self.nbf));
        claims.push(make_number_claim("ct", self.ct.code() as i64));
        proof {
            assert(claims_view(claims@) =~= Self::claims_of(*self));
            lemma_names_differ();
            reveal_with_fuel(crate::jwt::lookup, 8);
            let all = Self::claims_of(*self);
            let r1 = all.drop_first();
            let r2 = r1.drop_first();
            let r3 = r2.drop_first();
            let r4 = r3.drop_first();
            let r5 = r4.drop_first();
            assert(r1[0] == all[1]);
            assert(r2[0] == all[2]);
            assert(r3[0] == all[3]);
            assert(r4[0] == all[4]);
            assert(r5[0] == all[5]);
        }
        claims
    }

    fn from_claims(claims: &Vec<(String, ClaimValue)>) -> (token: Option<Self>) {
        let sess = find_id(claims, "sess");
        let sub = find_id(claims, "sub");
        let jti = find_id(claims, "jti");
        let exp = find_number(claims, "exp");
        let nbf = find_number(claims, "nbf");
        let ct = find_ct(claims);
        match (sess, sub, jti, exp, nbf, ct) {
            (Some(sess), Some(sub), Some(jti), Some(exp), Some(nbf), Some(ct)) => Some(
                RefreshToken { sess, sub, jti, exp, nbf, ct },
            ),
            _ => None,
        }
    }

    fn exp(&self) -> (exp: i64) {
        self.exp
    }

    fn nbf(&self) -> (nbf: Option<i64>) {
        Some(self.nbf)
    }
}

/// The names of the claims are all different.
pub proof fn lemma_names_differ()
    ensures
        "sess"@ != "sub"@,
        "sess"@ != "jti"@,
        "sess"@ != "exp"@,
        "sess"@ != "nbf"@,
        "sess"@ != "ct"@,
        "sess"@ != "iss"@,
        "sess"@ != "aud"@,
        "sub"@ != "jti"@,
        "sub"@ != "exp"@,
        "sub"@ != "nbf"@,
        "sub"@ != "ct"@,
        "sub"@ != "iss"@,
        "sub"@ != "aud"@,
        "jti"@ != "exp"@,
        "jti"@ != "nbf"@,
        "jti"@ != "ct"@,
        "jti"@ != "iss"@,
        "jti"@ != "aud"@,
        "exp"@ != "nbf"@,
        "exp"@ != "ct"@,
        "exp"@ != "iss"@,
        "exp"@ != "aud"@,
        "nbf"@ != "ct"@,
        "nbf"@ != "iss"@,
        "nbf"@ != "aud"@,
        "ct"@ != "iss"@,
        "ct"@ != "aud"@,
        "iss"@ != "aud"@,
{
    reveal_strlit("sess");
    reveal_strlit("sub");
    reveal_strlit("jti");
    reveal_strlit("exp");
    reveal_strlit("nbf");
    reveal_strlit("ct");
    reveal_strlit("iss");
    reveal_strlit("aud");
    assert("sess"@[0] == 's' && "sub"@[1] == 'u' && "sess"@[1] == 'e');
    assert("jti"@[0] == 'j' && "exp"@[0] == 'e' && "nbf"@[0] == 'n' && "ct"@[0] == 'c');
    assert("iss"@[0] == 'i' && "aud"@[0] == 'a' && "sub"@[0] == 's');
}

/// The claims of an access token: it names the session it was made for and
/// the user that owns the session.
#[derive(Clone, Copy, Debug, PartialEq, Eq, Structural)]
pub struct AccessToken {
    /// The session.
    pub iss: u128,
    /// The user.
    pub sub: u128,
    /// The access token's own identifier, new with each token.
    pub jti: u128,
    /// When the token ends, in seconds since the epoch.
    pub exp: i64,
    /// The client type.
    pub ct: ClientType,
}

impl View for AccessToken {
    type V = AccessToken;

    open spec fn view(&self) -> AccessToken {
        *self
    }
}

impl AccessToken {
    /// The access token that is made at the time `now` under the identifier
    /// `jti`. It lives sixty seconds.
    pub open spec fn made(iss: u128, sub: u128, ct: ClientType, jti: u128, now: i64) -> AccessToken {
        AccessToken { iss, sub, jti, exp: (now + 60) as i64, ct }
    }

    /// Makes an access token at the time `now` under the identifier `jti`.
    pub fn new_at(iss: u128, sub: u128, ct: ClientType, jti: u128, now: i64) -> (token: Self)
        requires
            now <= TIME_MAX,
        ensures
            token == Self::made(iss, sub, ct, jti, now),
    {
        Self { iss, sub, jti, exp: now + Self::LIFETIME, ct }
    }

    /// Makes an access token now, under a fresh random identifier.
    pub fn new(iss: u128, sub: u128, ct: ClientType) -> (token: Self)
        ensures
            exists|jti: u128, now: i64|
                is_random_id(jti) && is_moment(now) && token == #[trigger] Self::made(
                    iss,
                    sub,
                    ct,
                    jti,
                    now,
                ),
    {
        let jti = fresh_id();
        let moment = now();
        let token = Self::new_at(iss, sub, ct, jti, moment);
        assert(is_random_id(jti) && is_moment(moment) && token == Self::made(
            iss,
            sub,
            ct,
            jti,
            moment,
        ));
        token
    }

    /// Makes an access token now for a session.
    pub fn from_session(session: &Session, ct: ClientType) -> (token: Self)
        ensures
            exists|jti: u128, now: i64|
                is_random_id(jti) && is_moment(now) && token == #[trigger] Self::made(
                    session.uuid,
                    session.sub,
                    ct,
                    jti,
                    now,
                ),
    {
        Self::new(session.uuid, session.sub, ct)
    }
}

impl SecurityToken for AccessToken {
    /// One minute.
    const LIFETIME: i64 = 60;

    open spec fn claims_of(token: AccessToken) -> Claims {
        seq![
            id_claim("iss"@, token.iss),
            id_claim("sub"@, token.sub),
            id_claim("jti"@, token.jti),
            number_claim("exp"@, token.exp),
            number_claim("ct"@, token.ct.spec_code() as i64),
        ]
    }

    open spec fn read(claims: Claims) -> Option<AccessToken> {
        match (
            lookup_id(claims, "iss"@),
            lookup_id(claims, "sub"@),
            lookup_id(claims, "jti"@),
            lookup_number(claims, "exp"@),
            lookup_ct(claims),
        ) {
            (Some(iss), Some(sub), Some(jti), Some(exp), Some(ct)) => Some(
                AccessToken { iss, sub, jti, exp, ct },
            ),
            _ => None,
        }
    }

    open spec fn exp_of(token: AccessToken) -> i64 {
        token.exp
    }

    open spec fn nbf_of(token: AccessToken) -> Option<i64> {
        None
    }

    fn to_claims(&self) -> (claims: Vec<(String, ClaimValue)>) {
        let mut claims: Vec<(String, ClaimValue)> = Vec::new();
        claims.push(make_id_claim("iss", self.iss));
        claims.push(make_id_claim("sub", self.sub));
        claims.push(make_id_claim("jti", self.jti));
        claims.push(make_number_claim("exp", self.exp));
        claims.push(make_number_claim("ct", self.ct.code() as i64));
        proof {
            assert(claims_view(claims@) =~= Self::claims_of(*self));
            lemma_names_differ();
            reveal_with_fuel(crate::jwt::lookup, 8);
            let all = Self::claims_of(*self);
            let r1 = all.drop_first();
            let r2 = r1.drop_first();
            let r3 = r2.drop_first();
            let r4 = r3.drop_first();
            assert(r1[0] == all[1]);
            assert(r2[0] == all[2]);
            assert(r3[0] == all[3]);
            assert(r4[0] == all[4]);
        }
        claims
    }

    fn from_claims(claims: &Vec<(String, ClaimValue)>) -> (token: Option<Self>) {
        let iss = find_id(claims, "iss");
        let sub = find_id(claims, "sub");
        let jti = find_id(claims, "jti");
        let exp = find_number(claims, "exp");
        let ct = find_ct(claims);
        match (iss, sub, jti, exp, ct) {
            (Some(iss), Some(sub), Some(jti), Some(exp), Some(ct)) => Some(
                AccessToken { iss, sub, jti, exp, ct },
            ),
            _ => None,
        }
    }

    fn exp(&self) -> (exp: i64) {
        self.exp
    }

    fn nbf(&self) -> (nbf: Option<i64>) {
        None
    }
}

/// The claims of a player identity token: it tells one game server who a
/// joining player is.
#[derive(Debug)]
pub struct PlayerIdentityToken {
    /// The server that the token is for.
    pub aud: String,
    /// The user.
    pub sub: u128,
    /// The token's own identifier, new with each token.
    pub jti: u128,
    /// When the token ends, in seconds since the epoch.
    pub exp: i64,
    /// When the token starts, in seconds since the epoch.
    pub nbf: i64,
    /// The client type.
    pub ct: ClientType,
}

/// A player identity token as contracts see it.
pub struct PlayerIdentityTokenView {
    pub aud: Seq<char>,
    pub sub: u128,
    pub jti: u128,
    pub exp: i64,
    pub nbf: i64,
    pub ct: ClientType,
}

impl View for PlayerIdentityToken {
    type V = PlayerIdentityTokenView;

    open spec fn view(&self) -> PlayerIdentityTokenView {
        PlayerIdentityTokenView {
            aud: self.aud@,
            sub: self.sub,
            jti: self.jti,
            exp: self.exp,
            nbf: self.nbf,
            ct: self.ct,
        }
    }
}

impl PlayerIdentityToken {
    /// The player identity token that is made at the time `now` under the
    /// identifier `jti`. It lives fifteen seconds.
    pub open spec fn made(aud: Seq<char>, sub: u128, ct: ClientType, jti: u128, now: i64) -> PlayerIdentityTokenView {
        PlayerIdentityTokenView { aud, sub, jti, exp: (now + 15) as i64, nbf: now, ct }
    }

    /// A player identity token with the given claims.
    pub fn new_raw(aud: String, sub: u128, jti: u128, exp: i64, nbf: i64, ct: ClientType) -> (token:
        Self)
        ensures
            token@ == (PlayerIdentityTokenView { aud: aud@, sub, jti, exp, nbf, ct }),
    {
        Self { aud, sub, jti, exp, nbf, ct }
    }

    /// Makes a player identity token at the time `now` under the identifier
    /// `jti`.
    pub fn new_at(aud: String, sub: u128, ct: ClientType, jti: u128, now: i64) -> (token: Self)
        requires
            now <= TIME_MAX,
        ensures
            token@ == Self::made(aud@, sub, ct, jti, now),
    {
        Self::new_raw(aud, sub, jti, now + Self::LIFETIME, now, ct)
    }

    /// Makes a player identity token now, under a fresh random identifier.
    pub fn new(aud: String, sub: u128, ct: ClientType) -> (token: Self)
        ensures
            exists|jti: u128, now: i64|
                is_random_id(jti) && is_moment(now) && token@ == #[trigger] Self::made(
                    aud@,
                    sub,
                    ct,
                    jti,
                    now,
                ),
    {
        let jti = fresh_id();
        let moment = now();
        let ghost text = aud@;
        let token = Self::new_at(aud, sub, ct, jti, moment);
        assert(is_random_id(jti) && is_moment(moment) && token@ == Self::made(
            text,
            sub,
            ct,
            jti,
            moment,
        ));
        token
    }
}

impl SecurityToken for PlayerIdentityToken {
    /// Fifteen seconds.
    const LIFETIME: i64 = 15;

    open spec fn claims_of(token: PlayerIdentityTokenView) -> Claims {
        seq![
            ("aud"@, Claim::Text(token.aud)),
            id_claim("sub"@, token.sub),
            id_claim("jti"@, token.jti),
            number_claim("exp"@, token.exp),
            number_claim("nbf"@, token.nbf),
            number_claim("ct"@, token.ct.spec_code() as i64),
        ]
    }

    open spec fn read(claims: Claims) -> Option<PlayerIdentityTokenView> {
        match (
            lookup_text(claims, "aud"@),
            lookup_id(claims, "sub"@),
            lookup_id(claims, "jti"@),
            lookup_number(claims, "exp"@),
            lookup_number(claims, "nbf"@),
            lookup_ct(claims),
        ) {
            (Some(aud), Some(sub), Some(jti), Some(exp), Some(nbf), Some(ct)) => Some(
                PlayerIdentityTokenView { aud, sub, jti, exp, nbf, ct },
            ),
            _ => None,
        }
    }

    open spec fn exp_of(token: PlayerIdentityTokenView) -> i64 {
        token.exp
    }

    open spec fn nbf_of(token: PlayerIdentityTokenView) -> Option<i64> {
        Some(token.nbf)
    }

    fn to_claims(&self) -> (claims: Vec<(String, ClaimValue)>) {
        let mut claims: Vec<(String, ClaimValue)> = Vec::new();
        claims.push((String::from_str("aud"), ClaimValue::Text(self.aud.clone())));
        claims.push(make_id_claim("sub", self.sub));
        claims.push(make_id_claim("jti", self.jti));
        claims.push(make_number_claim("exp", self.exp));
        claims.push(make_number_claim("nbf", self.nbf));
        claims.push(make_number_claim("ct", self.ct.code() as i64));
        proof {
            assert(claims_view(claims@) =~= Self::claims_of(self@));
            lemma_names_differ();
            reveal_with_fuel(crate::jwt::lookup, 8);
            let all = Self::claims_of(self@);
            let r1 = all.drop_first();
            let r2 = r1.drop_first();
            let r3 = r2.drop_first();
            let r4 = r3.drop_first();
            let r5 = r4.drop_first();
            assert(r1[0] == all[1]);
            assert(r2[0] == all[2]);
            assert(r3[0] == all[3]);
            assert(r4[0] == all[4]);
            assert(r5[0] == all[5]);
        }
        claims
    }

    fn from_claims(claims: &Vec<(String, ClaimValue)>) -> (token: Option<Self>) {
        let aud = find_text(claims, "aud");
        let sub = find_id(claims, "sub");
        let jti = find_id(claims, "jti");
        let exp = find_number(claims, "exp");
        let nbf = find_number(claims, "nbf");
        let ct = find_ct(claims);
        match (aud, sub, jti, exp, nbf, ct) {
            (Some(aud), Some(sub), Some(jti), Some(exp), Some(nbf), Some(ct)) => Some(
                PlayerIdentityToken { aud: String::from_str(aud), sub, jti, exp, nbf, ct },
            ),
            _ => None,
        }
    }

    fn exp(&self) -> (exp: i64) {
        self.exp
    }

    fn nbf(&self) -> (nbf: Option<i64>) {
        Some(self.nbf)
    }
}

/// The lifetimes of the three kinds of token: six months, one minute and
/// fifteen seconds.
pub proof fn lemma_lifetimes()
    ensures
        RefreshToken::LIFETIME == 15552000,
        AccessToken::LIFETIME == 60,
        PlayerIdentityToken::LIFETIME == 15,
        RefreshToken::ROTATION_PERIOD == 604800,
        Keys::LEEWAY == 1,
{
}

/// A text decodes as a token of kind `T` at the time `now` exactly if its
/// signature holds, its claims are those of a token of that kind, the time
/// is before the token's end plus the leeway and, where the token names a
/// start, the start is not after the time plus the leeway.
pub proof fn lemma_decode_accepts<T: SecurityToken>(token: Seq<char>, public_pem: Seq<char>, now: i64)
    ensures
        decoded::<T>(token, public_pem, now) is Ok <==> {
            &&& jwt_decoded(token, public_pem) matches Some(claims)
            &&& T::read(claims) matches Some(read)
            &&& now < T::exp_of(read) + Keys::LEEWAY
            &&& T::nbf_of(read) matches Some(start) ==> start <= now + Keys::LEEWAY
        },
        decoded::<T>(token, public_pem, now) matches Ok(read) ==> Some(read) == T::read(
            jwt_decoded(token, public_pem)->0,
        ),
{
}

/// An access token decodes at the time `now` exactly if its signature holds,
/// its claims are those of an access token, and `now < exp + 1`.
pub proof fn lemma_access_token_accepted(token: Seq<char>, public_pem: Seq<char>, now: i64)
    ensures
        decoded::<AccessToken>(token, public_pem, now) is Ok <==> {
            &&& jwt_decoded(token, public_pem) matches Some(claims)
            &&& AccessToken::read(claims) matches Some(read)
            &&& now < read.exp + 1
        },
{
}

/// Claims that were found under a valid signature and that are those which
/// a token writes read back as the token itself, while the token is in
/// force.
pub proof fn lemma_claims_read_back<T: SecurityToken>(token: T::V, now: i64)
    requires
        T::read(T::claims_of(token)) == Some(token),
        time_verdict(T::exp_of(token), T::nbf_of(token), now) is None,
    ensures
        checked::<T>(T::claims_of(token), now) == Ok::<T::V, TokenError>(token),
{
}

} // verus!
