//! The hub's inputs and the rules that they must meet before anything else
//! is done with them.

use vstd::prelude::*;
use vstd::string::*;
use crate::common::user::ClientType;
use crate::text::{alphanumeric, is_alphanumeric, is_word_char};

verus! {

/// A username: three to twenty-four ASCII letters, digits and underscores.
pub open spec fn is_username(text: Seq<char>) -> bool {
    &&& 3 <= text.len() <= 24
    &&& forall|i: int| 0 <= i < text.len() ==> is_word_char(#[trigger] text[i])
}

/// A server identifier: twelve ASCII letters and digits.
pub open spec fn is_server_id(text: Seq<char>) -> bool {
    &&& text.len() == 12
    &&& forall|i: int| 0 <= i < text.len() ==> is_alphanumeric(#[trigger] text[i])
}

/// A password: six to sixty-four characters.
pub open spec fn is_password(text: Seq<char>) -> bool {
    6 <= text.len() <= 64
}

/// Whether a text is an email address. The `validator` crate decides, by the
/// HTML5 rules for addresses.
pub uninterp spec fn email_accepted(text: Seq<char>) -> bool;

/// Tells whether a text is an email address.
///
/// Trusted: `validator::validate_email`, whose answer depends on the text
/// alone.
#[verifier::external_body]
fn validate_email(text: &str) -> (ok: bool)
    ensures
        ok == email_accepted(text@),
{
    validator::validate_email(text)
}

/// Tells whether a text is a username.
pub fn validate_username(text: &str) -> (ok: bool)
    ensures
        ok == is_username(text@),
{
    let n = text.unicode_len();
    if n < 3 || n > 24 {
        return false;
    }
    let mut i: usize = 0;
    while i < n
        invariant
            i <= n,
            n == text@.len(),
            forall|j: int| 0 <= j < i ==> is_word_char(#[trigger] text@[j]),
        decreases n - i,
    {
        let c = text.get_char(i);
        if !(alphanumeric(c) || c == '_') {
            return false;
        }
        i = i + 1;
    }
    true
}

/// Tells whether a text is a server identifier.
pub fn validate_server_id(text: &str) -> (ok: bool)
    ensures
        ok == is_server_id(text@),
{
    let n = text.unicode_len();
    if n != 12 {
        return false;
    }
    let mut i: usize = 0;
    while i < n
        invariant
            i <= n,
            n == text@.len(),
            forall|j: int| 0 <= j < i ==> is_alphanumeric(#[trigger] text@[j]),
        decreases n - i,
    {
        if !alphanumeric(text.get_char(i)) {
            return false;
        }
        i = i + 1;
    }
    true
}

/// Tells whether a text may be a password.
pub fn validate_password(text: &str) -> (ok: bool)
    ensures
        ok == is_password(text@),
{
    let n = text.unicode_len();
    6 <= n && n <= 64
}

/// The form in which the public key is asked for.
#[derive(Clone, Copy, Debug, PartialEq, Eq, Structural)]
pub enum KeyFormat {
    Hex,
    Pem,
}

impl Default for KeyFormat {
    /// Hexadecimal, unless asked otherwise.
    fn default() -> (format: Self)
        ensures
            format == KeyFormat::Hex,
    {
        KeyFormat::Hex
    }
}

/// The question for the public key.
#[derive(Clone, Copy, Debug, PartialEq, Eq, Structural)]
pub struct KeyFormatQuery {
    pub format: KeyFormat,
}

impl Default for KeyFormatQuery {
    /// Hexadecimal, unless asked otherwise.
    fn default() -> (query: Self)
        ensures
            query.format == KeyFormat::Hex,
    {
        KeyFormatQuery { format: KeyFormat::Hex }
    }
}

/// The question for a user's public data, by identifier or by username.
#[derive(Debug)]
pub struct UserInfoQuery {
    pub uuid: Option<u128>,
    pub username: Option<String>,
}

impl UserInfoQuery {
    /// A username, where one is given, must be a username.
    pub open spec fn valid(&self) -> bool {
        self.username matches Some(name) ==> is_username(name@)
    }

    /// Tells whether the question meets its rules.
    pub fn validate(&self) -> (ok: bool)
        ensures
            ok == self.valid(),
    {
        match &self.username {
            Some(name) => validate_username(name.as_str()),
            None => true,
        }
    }
}

/// The question for a player identity token: the server to join.
#[derive(Debug)]
pub struct PITQuery {
    pub sid: String,
}

impl PITQuery {
    /// The server identifier must be one.
    pub open spec fn valid(&self) -> bool {
        is_server_id(self.sid@)
    }

    /// Tells whether the question meets its rules.
    pub fn validate(&self) -> (ok: bool)
        ensures
            ok == self.valid(),
    {
        validate_server_id(self.sid.as_str())
    }
}

/// The body of a registration.
#[derive(Debug)]
pub struct RegisterBody {
    pub username: String,
    pub email: String,
    pub password: String,
}

impl RegisterBody {
    /// Username, email and password must each be one.
    pub open spec fn valid(&self) -> bool {
        &&& is_username(self.username@)
        &&& email_accepted(self.email@)
        &&& is_password(self.password@)
    }

    /// Tells whether the body meets its rules.
    pub fn validate(&self) -> (ok: bool)
        ensures
            ok == self.valid(),
    {
        validate_username(self.username.as_str()) && validate_email(self.email.as_str())
            && validate_password(self.password.as_str())
    }
}

/// The body of a login.
#[derive(Debug)]
pub struct LoginBody {
    pub username: String,
    pub password: String,
    pub ct: ClientType,
}

impl LoginBody {
    /// Username and password must each be one.
    pub open spec fn valid(&self) -> bool {
        &&& is_username(self.username@)
        &&& is_password(self.password@)
    }

    /// Tells whether the body meets its rules.
    pub fn validate(&self) -> (ok: bool)
        ensures
            ok == self.valid(),
    {
        validate_username(self.username.as_str()) && validate_password(self.password.as_str())
    }
}

/// The body of a password change.
#[derive(Debug)]
pub struct PasswordChangeBody {
    pub old_password: String,
    pub new_password: String,
}

impl PasswordChangeBody {
    /// Both passwords must be passwords.
    pub open spec fn valid(&self) -> bool {
        &&& is_password(self.old_password@)
        &&& is_password(self.new_password@)
    }

    /// Tells whether the body meets its rules.
    pub fn validate(&self) -> (ok: bool)
        ensures
            ok == self.valid(),
    {
        validate_password(self.old_password.as_str()) && validate_password(
            self.new_password.as_str(),
        )
    }
}

} // verus!
