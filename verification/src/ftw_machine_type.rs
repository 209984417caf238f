//! The machine flavor a game is run as: an interactive desktop application or
//! a headless server.

use crate::strings::{ascii_lowercase, lower_chars, str_eq};
use crate::traits::ToCliArg;
use vstd::prelude::*;

verus! {

/// The machine flavor a run targets.  The default is `Desktop`.
#[derive(Clone, Copy, Debug, PartialEq, Eq, Structural)]
pub enum FtwMachineType {
    Desktop,
    Server,
}

impl FtwMachineType {
    pub fn is_desktop(&self) -> (r: bool)
        ensures
            r == (self == FtwMachineType::Desktop),
    {
        *self == FtwMachineType::Desktop
    }

    pub fn is_server(&self) -> (r: bool)
        ensures
            r == (self == FtwMachineType::Server),
    {
        !self.is_desktop()
    }

    /// The machine flavor an identifier resolves to: `"server"` in any letter
    /// case names the server, every other identifier resolves to the desktop.
    pub open spec fn parse_spec(s: Seq<char>) -> FtwMachineType {
        if lower_chars(s) == "server"@ {
            FtwMachineType::Server
        } else {
            FtwMachineType::Desktop
        }
    }

    /// Resolves a machine-flavor identifier; never fails.
    pub fn from_str(s: &str) -> (r: FtwMachineType)
        ensures
            r == FtwMachineType::parse_spec(s@),
    {
        let lowered = ascii_lowercase(s);
        if str_eq(lowered.as_str(), "server") {
            FtwMachineType::Server
        } else {
            FtwMachineType::Desktop
        }
    }

    /// The lower-case name of the machine flavor.
    pub open spec fn display_name_spec(&self) -> Seq<char> {
        match self {
            FtwMachineType::Desktop => "desktop"@,
            FtwMachineType::Server => "server"@,
        }
    }

    /// The lower-case name of the machine flavor.
    pub fn display_name(&self) -> (r: String)
        ensures
            r@ == self.display_name_spec(),
    {
        match self {
            FtwMachineType::Desktop => "desktop".to_owned(),
            FtwMachineType::Server => "server".to_owned(),
        }
    }
}

impl ToCliArg for FtwMachineType {
    open spec fn cli_arg_spec(&self) -> Seq<char> {
        match self {
            FtwMachineType::Desktop => "-d"@,
            FtwMachineType::Server => ""@,
        }
    }

    fn to_cli_arg(&self) -> (r: String) {
        match self {
            FtwMachineType::Desktop => "-d".to_owned(),
            FtwMachineType::Server => "".to_owned(),
        }
    }
}

impl Default for FtwMachineType {
    /// The default machine flavor is `Desktop`.
    fn default() -> (r: Self)
        ensures
            r == FtwMachineType::Desktop,
    {
        FtwMachineType::Desktop
    }
}

} // verus!
