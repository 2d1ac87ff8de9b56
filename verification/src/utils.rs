//! Passwords and the clock.

use vstd::prelude::*;

verus! {

/// The latest moment, in seconds since the epoch, that the hub reckons with.
/// Later readings of the clock count as this moment, so that lifetimes can
/// always be added to the time.
pub const TIME_MAX: i64 = 0x3fff_ffff_ffff_ffff;

/// A moment that the clock can show.
pub open spec fn is_moment(t: i64) -> bool {
    0 <= t <= TIME_MAX
}

/// Whether a password matches a stored hash: `Some(true)` or `Some(false)`
/// for a hash in the PHC string format, `None` for a text that is no such
/// hash. Argon2 decides, with the parameters and the salt that the hash names.
pub uninterp spec fn password_matches(password: Seq<char>, hash: Seq<char>) -> Option<bool>;

/// Reads the clock.
///
/// Trusted: `jsonwebtoken::get_current_timestamp`, the seconds since the
/// epoch by the system's clock. Nothing is known of the outcome.
#[verifier::external_body]
fn current_timestamp() -> u64 {
    jsonwebtoken::get_current_timestamp()
}

/// Hashes a password for storage, under a fresh random salt. `None` where
/// the password cannot be hashed.
///
/// Trusted: `argon2::password_hash::SaltString::generate` on the system's
/// random source, then `argon2::PasswordHasher::hash_password` of
/// `Argon2::default()`, written out as a PHC string. The crate refuses only
/// a password of more than 0xFFFFFFFF bytes, a salt of under eight bytes or
/// an output of a wrong length; the salt drawn has sixteen bytes and the
/// output the default length, so a password of sixty-four characters at most
/// is always hashed. The salt is random, so all that is known of a hash is
/// what the crate's documentation shows of every hash so made: checked
/// against its password, it matches.
#[verifier::external_body]
pub fn hash_password(password: &str) -> (res: Option<String>)
    ensures
        res matches Some(hash) ==> password_matches(password@, hash@) == Some(true),
        crate::models::parsers::is_password(password@) ==> res is Some,
{
    let salt = argon2::password_hash::SaltString::generate(&mut rand::rngs::OsRng);
    argon2::PasswordHasher::hash_password(&argon2::Argon2::default(), password.as_bytes(), &salt)
        .ok()
        .map(|hash| hash.to_string())
}

/// Checks a password against a stored hash.
///
/// Trusted: `argon2::PasswordHash::new` on the stored text, then
/// `argon2::PasswordVerifier::verify_password` of `Argon2::default()`, which
/// hashes the password again with what the stored hash names and compares.
/// The outcome depends on the two texts alone.
#[verifier::external_body]
fn argon2_verify(password: &str, hash: &str) -> (res: Option<bool>)
    ensures
        res == password_matches(password@, hash@),
{
    let parsed = argon2::PasswordHash::new(hash).ok()?;
    Some(
        argon2::PasswordVerifier::verify_password(
            &argon2::Argon2::default(),
            password.as_bytes(),
            &parsed,
        ).is_ok(),
    )
}

/// The moment that a reading of the clock counts as: the reading itself,
/// and `TIME_MAX` for any later one.
pub open spec fn moment_of(reading: u64) -> i64 {
    if reading > TIME_MAX {
        TIME_MAX
    } else {
        reading as i64
    }
}

/// Turns a reading of the clock into the moment that it counts as.
pub fn moment_from(reading: u64) -> (t: i64)
    ensures
        t == moment_of(reading),
        is_moment(t),
{
    if reading > 0x3fff_ffff_ffff_ffff {
        TIME_MAX
    } else {
        reading as i64
    }
}

/// The time now, in seconds since the epoch, and `TIME_MAX` at most:
/// whatever the clock reads, as `moment_from` turns it into a moment.
pub fn now() -> (t: i64)
    ensures
        is_moment(t),
{
    moment_from(current_timestamp())
}

/// Tells whether a password matches a stored hash; `None` where the stored
/// text is no hash.
pub fn verify_password(password: &str, hash: &str) -> (res: Option<bool>)
    ensures
        res == password_matches(password@, hash@),
{
    argon2_verify(password, hash)
}

} // verus!
