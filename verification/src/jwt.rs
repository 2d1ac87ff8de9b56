//! Signed compact tokens: a set of named claims goes in, one line of text
//! comes out, and back. Signing and checking signatures are the work of the
//! `jsonwebtoken` crate with an Ed25519 key; what the claims mean is decided
//! elsewhere.

use vstd::prelude::*;
use vstd::string::*;
use crate::text::same_text;

verus! {

/// The value of one claim.
#[derive(Debug)]
pub enum ClaimValue {
    /// A JSON string.
    Text(String),
    /// A JSON number that is an integer of 64 bits.
    Number(i64),
    /// Any other JSON value.
    Other,
}

/// The value of one claim, as contracts see it.
pub enum Claim {
    Text(Seq<char>),
    Number(i64),
    Other,
}

impl View for ClaimValue {
    type V = Claim;

    open spec fn view(&self) -> Claim {
        match self {
            ClaimValue::Text(text) => Claim::Text(text@),
            ClaimValue::Number(number) => Claim::Number(*number),
            ClaimValue::Other => Claim::Other,
        }
    }
}

/// Named claims, as contracts see them.
pub type Claims = Seq<(Seq<char>, Claim)>;

/// The named claims that a vector holds.
pub open spec fn claims_view(claims: Seq<(String, ClaimValue)>) -> Claims {
    claims.map_values(|pair: (String, ClaimValue)| (pair.0@, pair.1@))
}

/// The first claim of the given name.
pub open spec fn lookup(claims: Claims, name: Seq<char>) -> Option<Claim>
    decreases claims.len(),
{
    if claims.len() == 0 {
        None
    } else if claims[0].0 == name {
        Some(claims[0].1)
    } else {
        lookup(claims.drop_first(), name)
    }
}

/// The text of the first claim of the given name, if that claim is a text.
pub open spec fn lookup_text(claims: Claims, name: Seq<char>) -> Option<Seq<char>> {
    match lookup(claims, name) {
        Some(Claim::Text(text)) => Some(text),
        _ => None,
    }
}

/// The number of the first claim of the given name, if that claim is a number.
pub open spec fn lookup_number(claims: Claims, name: Seq<char>) -> Option<i64> {
    match lookup(claims, name) {
        Some(Claim::Number(number)) => Some(number),
        _ => None,
    }
}

/// Finds the first claim of the given name.
pub fn find_claim<'a>(claims: &'a Vec<(String, ClaimValue)>, name: &str) -> (found: Option<
    &'a ClaimValue,
>)
    ensures
        match found {
            Some(value) => lookup(claims_view(claims@), name@) == Some(value@),
            None => lookup(claims_view(claims@), name@) is None,
        },
{
    let ghost all = claims_view(claims@);
    assert(all.skip(0) =~= all);
    let mut i: usize = 0;
    while i < claims.len()
        invariant
            i <= claims.len(),
            all == claims_view(claims@),
            lookup(all, name@) == lookup(all.skip(i as int), name@),
        decreases claims.len() - i,
    {
        proof {
            let rest = all.skip(i as int);
            assert(rest[0] == all[i as int]);
            assert(rest.drop_first() =~= all.skip(i + 1));
        }
        if same_text(claims[i].0.as_str(), name) {
            return Some(&claims[i].1);
        }
        i = i + 1;
    }
    assert(all.skip(i as int).len() == 0);
    None
}

/// Finds the text of the first claim of the given name.
pub fn find_text<'a>(claims: &'a Vec<(String, ClaimValue)>, name: &str) -> (found: Option<
    &'a str,
>)
    ensures
        match found {
            Some(text) => lookup_text(claims_view(claims@), name@) == Some(text@),
            None => lookup_text(claims_view(claims@), name@) is None,
        },
{
    match find_claim(claims, name) {
        Some(ClaimValue::Text(text)) => Some(text.as_str()),
        _ => None,
    }
}

/// Finds the number of the first claim of the given name.
pub fn find_number(claims: &Vec<(String, ClaimValue)>, name: &str) -> (found: Option<i64>)
    ensures
        found == lookup_number(claims_view(claims@), name@),
{
    match find_claim(claims, name) {
        Some(ClaimValue::Number(number)) => Some(*number),
        _ => None,
    }
}

/// The token that signing the claims with the secret key of a PEM text gives,
/// or `None` where the `jsonwebtoken` crate refuses the key or the claims.
pub uninterp spec fn jwt_encoded(claims: Claims, secret_pem: Seq<char>) -> Option<Seq<char>>;

/// The claims of a token whose signature the public key of a PEM text
/// confirms, in the order of their names, or `None` where the `jsonwebtoken`
/// crate refuses the token, its signature or the key.
pub uninterp spec fn jwt_decoded(token: Seq<char>, public_pem: Seq<char>) -> Option<Claims>;

/// Writes claims as a token signed with EdDSA.
///
/// Trusted: `jsonwebtoken::EncodingKey::from_ed_pem` on the PEM text, then
/// `jsonwebtoken::encode` with the header `{"typ":"JWT","alg":"EdDSA"}` on a
/// JSON object that holds each claim under its name, a later claim replacing
/// an earlier one of the same name. The outcome depends on the claims and the
/// key alone: Ed25519 signatures use no randomness.
#[verifier::external_body]
pub(crate) fn jwt_encode(claims: &Vec<(String, ClaimValue)>, secret_pem: &str) -> (res: Option<
    String,
>)
    ensures
        match res {
            Some(token) => jwt_encoded(claims_view(claims@), secret_pem@) == Some(token@),
            None => jwt_encoded(claims_view(claims@), secret_pem@) is None,
        },
{
    let key = jsonwebtoken::EncodingKey::from_ed_pem(secret_pem.as_bytes()).ok()?;
    let mut object = serde_json::Map::new();
    for (name, value) in claims {
        object.insert(name.clone(), match value {
            ClaimValue::Text(text) => serde_json::Value::from(text.as_str()),
            ClaimValue::Number(number) => serde_json::Value::from(*number),
            ClaimValue::Other => serde_json::Value::Null,
        });
    }
    jsonwebtoken::encode(&jsonwebtoken::Header::new(jsonwebtoken::Algorithm::EdDSA), &object, &key).ok()
}

/// Checks the signature of a token and hands out its claims.
///
/// Trusted: `jsonwebtoken::DecodingKey::from_ed_pem` on the PEM text, then
/// `jsonwebtoken::decode` into a JSON object, with EdDSA as the only
/// algorithm and with the crate's own checks of expiry and of required claims
/// switched off, so that the outcome depends on the token and the key alone.
/// Each member of the object becomes a claim: a string a text, an integer of
/// 64 bits a number, anything else `Other`.
#[verifier::external_body]
pub(crate) fn jwt_decode(token: &str, public_pem: &str) -> (res: Option<
    Vec<(String, ClaimValue)>,
>)
    ensures
        match res {
            Some(claims) => jwt_decoded(token@, public_pem@) == Some(claims_view(claims@)),
            None => jwt_decoded(token@, public_pem@) is None,
        },
{
    let key = jsonwebtoken::DecodingKey::from_ed_pem(public_pem.as_bytes()).ok()?;
    let mut rules = jsonwebtoken::Validation::new(jsonwebtoken::Algorithm::EdDSA);
    rules.validate_exp = false;
    rules.required_spec_claims.clear();
    let object: serde_json::Map<String, serde_json::Value> =
        jsonwebtoken::decode(token, &key, &rules).ok()?.claims;
    Some(object.into_iter().map(|(name, value)| (name, match value {
        serde_json::Value::String(text) => ClaimValue::Text(text),
        serde_json::Value::Number(number) => number.as_i64().map_or(ClaimValue::Other, ClaimValue::Number),
        _ => ClaimValue::Other,
    })).collect())
}

} // verus!
