//! What can go wrong while the hub starts or serves, outside the answers that
//! its rules foresee. Each such failure is answered with status 500.

use vstd::prelude::*;
use crate::http::StatusCode;

verus! {

/// A failure, with the message of whatever reported it.
#[derive(Debug)]
pub enum Error {
    ConfigError(String),
    JWTError(String),
    SqlxError(String),
    HyperError(String),
    EnvyError(String),
    DotEnvError(String),
    IOError(String),
    AddrParseError(String),
}

impl Error {
    /// The message that the failure carries.
    pub open spec fn spec_message(self) -> Seq<char> {
        match self {
            Error::ConfigError(text) => text@,
            Error::JWTError(text) => text@,
            Error::SqlxError(text) => text@,
            Error::HyperError(text) => text@,
            Error::EnvyError(text) => text@,
            Error::DotEnvError(text) => text@,
            Error::IOError(text) => text@,
            Error::AddrParseError(text) => text@,
        }
    }

    /// The answer to a request that met this failure: status 500 and the
    /// failure's message as the body.
    pub fn into_response(self) -> (answer: (StatusCode, String))
        ensures
            answer.0 == StatusCode::InternalServerError,
            answer.1@ == self.spec_message(),
    {
        (
            StatusCode::InternalServerError,
            match self {
                Error::ConfigError(text) => text,
                Error::JWTError(text) => text,
                Error::SqlxError(text) => text,
                Error::HyperError(text) => text,
                Error::EnvyError(text) => text,
                Error::DotEnvError(text) => text,
                Error::IOError(text) => text,
                Error::AddrParseError(text) => text,
            },
        )
    }
}

} // verus!
