//! What the hub says of itself.

use vstd::prelude::*;

verus! {

/// The hub's static descriptor.
#[derive(Debug)]
pub struct HubStatus<'a> {
    pub name: &'a str,
    pub hub_version: &'a str,
    pub api_version: HubApiVersion,
    pub mode: HubMode,
}

/// The version of the interface that the hub speaks.
#[derive(Clone, Copy, Debug, PartialEq, Eq, Structural)]
pub enum HubApiVersion {
    V1,
}

/// How the hub was built to run.
#[derive(Clone, Copy, Debug, PartialEq, Eq, Structural)]
pub enum HubMode {
    Production,
    Testing,
    Debug,
}

impl HubApiVersion {
    /// The name of the version on the wire.
    pub fn name(self) -> (text: &'static str)
        ensures
            text@ == "v1"@,
    {
        "v1"
    }
}

impl HubMode {
    /// The name of the mode on the wire.
    pub fn name(self) -> (text: &'static str)
        ensures
            text@ == match self {
                HubMode::Production => "production"@,
                HubMode::Testing => "testing"@,
                HubMode::Debug => "debug"@,
            },
    {
        match self {
            HubMode::Production => "production",
            HubMode::Testing => "testing",
            HubMode::Debug => "debug",
        }
    }
}

} // verus!
