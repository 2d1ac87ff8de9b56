//! The hub's settings, with their defaults, and what is made from them.

use vstd::prelude::*;
use vstd::string::*;
use crate::common::hub::{HubApiVersion, HubMode, HubStatus};
use crate::error::Error;
use crate::hexadecimal::{hex_bytes, hex_decode_32, is_hex};
use crate::keys::{all_zero, Keys, KeysView};
use crate::text::{decimal, push_decimal};

verus! {

/// The hub's version.
pub const VERSION: &'static str = "0.1.0";

/// The hub's name.
pub const NAME: &'static str = "Official ECG Hub";

/// What the hub says of itself: `Debug` mode in a debug build, `Testing`
/// mode else.
pub fn status(debug: bool) -> (status: HubStatus<'static>)
    ensures
        status.name@ == NAME@,
        status.hub_version@ == VERSION@,
        status.api_version == HubApiVersion::V1,
        status.mode == if debug {
            HubMode::Debug
        } else {
            HubMode::Testing
        },
{
    HubStatus {
        name: NAME,
        hub_version: VERSION,
        api_version: HubApiVersion::V1,
        mode: if debug {
            HubMode::Debug
        } else {
            HubMode::Testing
        },
    }
}

/// How much the hub logs.
#[derive(Clone, Copy, Debug, PartialEq, Eq, Structural)]
pub enum LogLevel {
    Off,
    Error,
    Warn,
    Info,
    Debug,
    Trace,
}

impl LogLevel {
    /// The name of the level, as a log filter reads it.
    pub open spec fn spec_name(self) -> Seq<char> {
        match self {
            LogLevel::Off => "off"@,
            LogLevel::Error => "error"@,
            LogLevel::Warn => "warn"@,
            LogLevel::Info => "info"@,
            LogLevel::Debug => "debug"@,
            LogLevel::Trace => "trace"@,
        }
    }

    /// The name of the level, as a log filter reads it.
    pub fn name(self) -> (text: &'static str)
        ensures
            text@ == self.spec_name(),
    {
        match self {
            LogLevel::Off => "off",
            LogLevel::Error => "error",
            LogLevel::Warn => "warn",
            LogLevel::Info => "info",
            LogLevel::Debug => "debug",
            LogLevel::Trace => "trace",
        }
    }
}

/// The hub's settings.
#[derive(Debug)]
pub struct Config {
    /// The address to listen on.
    pub addr: String,
    /// The port to listen on.
    pub port: u16,
    pub log_level: LogLevel,
    /// Whether to log a new key pair.
    pub log_verbose: bool,
    pub db_addr: String,
    pub db_port: u16,
    pub db_user: String,
    pub db_pass: String,
    pub db_name: String,
    /// The fewest connections to the store to keep.
    pub db_pool_min: u32,
    /// The most connections to the store to keep.
    pub db_pool_max: u32,
    /// Seconds to wait for a connection to the store.
    pub db_timeout: u64,
    /// The seed of the key pair; a random one is drawn where none is set.
    pub private_key: Option<[u8; 32]>,
    /// The certificate to serve HTTPS with.
    pub ssl_cert: Option<String>,
    /// The key to serve HTTPS with. Without both, the hub serves plain HTTP.
    pub ssl_key: Option<String>,
}

/// The address of the store that settings name.
pub open spec fn db_uri_of(
    user: Seq<char>,
    pass: Seq<char>,
    addr: Seq<char>,
    port: u16,
    name: Seq<char>,
) -> Seq<char> {
    "postgres://"@ + user + ":"@ + pass + "@"@ + addr + ":"@ + decimal(port as nat) + "/"@ + name
}

impl Config {
    /// Whether these are the settings of a hub that was told nothing: those
    /// of a debug build listen on port 3030 and log at level `Debug`, the
    /// others listen on port 80 and log at level `Info`.
    pub open spec fn is_untold(&self, debug: bool) -> bool {
        &&& self.addr@ == "0.0.0.0"@
        &&& self.port == if debug {
            3030u16
        } else {
            80u16
        }
        &&& self.log_level == if debug {
            LogLevel::Debug
        } else {
            LogLevel::Info
        }
        &&& !self.log_verbose
        &&& self.db_addr@ == "localhost"@
        &&& self.db_port == 5432
        &&& self.db_user@ == "root"@
        &&& self.db_pass@ == "pass"@
        &&& self.db_name@ == "ecg"@
        &&& self.db_pool_min == 1
        &&& self.db_pool_max == 8
        &&& self.db_timeout == 30
        &&& self.private_key is None
        &&& self.ssl_cert is None
        &&& self.ssl_key is None
    }

    /// The settings of a hub that was told nothing.
    pub fn new(debug: bool) -> (config: Self)
        ensures
            config.is_untold(debug),
    {
        Self {
            addr: String::from_str("0.0.0.0"),
            port: if debug {
                3030
            } else {
                80
            },
            log_level: if debug {
                LogLevel::Debug
            } else {
                LogLevel::Info
            },
            log_verbose: false,
            db_addr: String::from_str("localhost"),
            db_port: 5432,
            db_user: String::from_str("root"),
            db_pass: String::from_str("pass"),
            db_name: String::from_str("ecg"),
            db_pool_min: 1,
            db_pool_max: 8,
            db_timeout: 30,
            private_key: None,
            ssl_cert: None,
            ssl_key: None,
        }
    }

    /// The rules for the log filter: the level set, then the levels of two
    /// chatty libraries.
    pub fn log_directives(&self) -> (rules: Vec<&'static str>)
        ensures
            rules@.len() == 3,
            rules@[0]@ == self.log_level.spec_name(),
            rules@[1]@ == "hyper=info"@,
            rules@[2]@ == "mio=info"@,
    {
        let mut rules: Vec<&'static str> = Vec::new();
        rules.push(self.log_level.name());
        rules.push("hyper=info");
        rules.push("mio=info");
        rules
    }

    /// Reads the seed of the key pair from sixty-four hexadecimal digits.
    /// Any other text is refused.
    pub fn private_key_deserialize(text: &str) -> (res: Result<Option<[u8; 32]>, Error>)
        ensures
            res is Ok <==> text@.len() == 64 && is_hex(text@),
            res matches Ok(key) ==> key is Some && key->0@ == hex_bytes(text@),
            res matches Err(e) ==> e is ConfigError,
    {
        match hex_decode_32(text) {
            Ok(bytes) => Ok(Some(bytes)),
            Err(_) => Err(
                Error::ConfigError(
                    String::from_str("the private key must be 64 hexadecimal digits"),
                ),
            ),
        }
    }

    /// The address of the store.
    pub fn db_uri(&self) -> (uri: String)
        ensures
            uri@ == db_uri_of(
                self.db_user@,
                self.db_pass@,
                self.db_addr@,
                self.db_port,
                self.db_name@,
            ),
    {
        let mut uri = String::from_str("postgres://");
        uri.append(self.db_user.as_str());
        uri.append(":");
        uri.append(self.db_pass.as_str());
        uri.append("@");
        uri.append(self.db_addr.as_str());
        uri.append(":");
        push_decimal(&mut uri, self.db_port as u64);
        uri.append("/");
        uri.append(self.db_name.as_str());
        assert(uri@ =~= db_uri_of(
            self.db_user@,
            self.db_pass@,
            self.db_addr@,
            self.db_port,
            self.db_name@,
        ));
        uri
    }

    /// The key material: that of the seed set, or that of a random seed
    /// where none is set. A seed that is all zeros is refused.
    pub fn keys(&self) -> (res: Result<Keys, Error>)
        ensures
            res matches Ok(keys) ==> keys@.wf(),
            res matches Err(e) ==> e is ConfigError,
            self.private_key matches Some(seed) ==> {
                &&& res is Ok <==> !all_zero(seed@)
                &&& res matches Ok(keys) ==> keys@ == KeysView::of_seed(seed@)
            },
    {
        match self.private_key {
            Some(seed) => Keys::new(seed),
            None => Keys::rand(),
        }
    }
}

impl Default for Config {
    /// The settings of a hub that was told nothing, outside a debug build.
    fn default() -> (config: Self)
        ensures
            config.is_untold(false),
    {
        Config::new(false)
    }
}

} // verus!
