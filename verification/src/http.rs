//! The few pieces of HTTP that the hub's rules speak of: status codes and the
//! cookie that carries a refresh token.

use vstd::prelude::*;
use vstd::string::*;
use crate::text::{decimal, push_decimal};

verus! {

/// The status codes that the hub answers with.
#[derive(Clone, Copy, Debug, PartialEq, Eq, Structural)]
pub enum StatusCode {
    /// 200
    Success,
    /// 201
    Created,
    /// 304: the old password given for a password change is wrong.
    NotModified,
    /// 400: the input is malformed.
    BadRequest,
    /// 401: unknown username or wrong password.
    Unauthorized,
    /// 403: a token's signature, expiry or rotation does not hold.
    Forbidden,
    /// 404: the user or session is absent.
    NotFound,
    /// 409: a registration repeats a username or an email.
    Conflict,
    /// 410: the account is banned.
    Gone,
    /// 417: a required cookie or bearer header is absent.
    ExpectationFailed,
    /// 418: the account is inactive.
    ImATeapot,
    /// 500: the store or the cryptography failed.
    InternalServerError,
}

impl StatusCode {
    /// The number of the status code.
    pub open spec fn spec_code(self) -> u16 {
        match self {
            StatusCode::Success => 200,
            StatusCode::Created => 201,
            StatusCode::NotModified => 304,
            StatusCode::BadRequest => 400,
            StatusCode::Unauthorized => 401,
            StatusCode::Forbidden => 403,
            StatusCode::NotFound => 404,
            StatusCode::Conflict => 409,
            StatusCode::Gone => 410,
            StatusCode::ExpectationFailed => 417,
            StatusCode::ImATeapot => 418,
            StatusCode::InternalServerError => 500,
        }
    }

    /// The number of the status code.
    pub fn code(self) -> (n: u16)
        ensures
            n == self.spec_code(),
    {
        match self {
            StatusCode::Success => 200,
            StatusCode::Created => 201,
            StatusCode::NotModified => 304,
            StatusCode::BadRequest => 400,
            StatusCode::Unauthorized => 401,
            StatusCode::Forbidden => 403,
            StatusCode::NotFound => 404,
            StatusCode::Conflict => 409,
            StatusCode::Gone => 410,
            StatusCode::ExpectationFailed => 417,
            StatusCode::ImATeapot => 418,
            StatusCode::InternalServerError => 500,
        }
    }
}

/// A cookie for the hub to set.
#[derive(Debug)]
pub struct Cookie {
    pub name: String,
    pub value: String,
    /// Seconds for the client to keep the cookie.
    pub max_age: u64,
    /// Whether scripts in the client are kept from reading the cookie.
    pub http_only: bool,
}

/// A cookie as contracts see it.
pub struct CookieView {
    pub name: Seq<char>,
    pub value: Seq<char>,
    pub max_age: u64,
    pub http_only: bool,
}

impl View for Cookie {
    type V = CookieView;

    open spec fn view(&self) -> CookieView {
        CookieView {
            name: self.name@,
            value: self.value@,
            max_age: self.max_age,
            http_only: self.http_only,
        }
    }
}

impl CookieView {
    /// The value of the `Set-Cookie` header that sets this cookie.
    pub open spec fn header(self) -> Seq<char> {
        self.name + "="@ + self.value + (if self.http_only {
            "; HttpOnly"@
        } else {
            Seq::empty()
        }) + "; Max-Age="@ + decimal(self.max_age as nat)
    }
}

impl Cookie {
    /// The value of the `Set-Cookie` header that sets this cookie.
    pub fn to_header(&self) -> (line: String)
        ensures
            line@ == self@.header(),
    {
        let mut line = self.name.clone();
        line.append("=");
        line.append(self.value.as_str());
        if self.http_only {
            line.append("; HttpOnly");
        }
        line.append("; Max-Age=");
        push_decimal(&mut line, self.max_age);
        assert(line@ =~= self@.header());
        line
    }
}

} // verus!
