//! The build profile: a two-state policy that maps Debug/Release to the
//! compiler flag, the engine export flag, and the lower-case profile name used
//! in artifact paths.

use crate::ftw_error::FtwError;
use crate::strings::{ascii_lowercase, lower_chars, str_eq};
use crate::traits::{ToCliArg, ToExportArg};
use vstd::prelude::*;

verus! {

/// A build profile.  The default profile is `Debug`.
#[derive(Clone, Copy, Debug, PartialEq, Eq, Structural)]
pub enum FtwBuildType {
    Debug,
    Release,
}

impl FtwBuildType {
    pub fn is_debug(self) -> (r: bool)
        ensures
            r == (self == FtwBuildType::Debug),
    {
        self == FtwBuildType::Debug
    }

    pub fn is_release(self) -> (r: bool)
        ensures
            r == (self == FtwBuildType::Release),
    {
        !self.is_debug()
    }

    /// The lower-case profile name, as it appears in artifact paths.
    pub open spec fn display_name_spec(self) -> Seq<char> {
        match self {
            FtwBuildType::Debug => "debug"@,
            FtwBuildType::Release => "release"@,
        }
    }

    /// The lower-case profile name, as it appears in artifact paths.
    pub fn display_name(self) -> (r: String)
        ensures
            r@ == self.display_name_spec(),
    {
        match self {
            FtwBuildType::Debug => "debug".to_owned(),
            FtwBuildType::Release => "release".to_owned(),
        }
    }

    /// The profile an identifier names: `"debug"` and `"release"` (in any
    /// letter case) name the two profiles, every other string is rejected.
    pub open spec fn parse_spec(s: Seq<char>) -> Result<FtwBuildType, FtwError> {
        if lower_chars(s) == "debug"@ {
            Ok(FtwBuildType::Debug)
        } else if lower_chars(s) == "release"@ {
            Ok(FtwBuildType::Release)
        } else {
            Err(FtwError::UnknownBuildType)
        }
    }

    /// Parses a profile identifier; rejects every string that names no
    /// profile, and never falls back silently.
    pub fn from_str(s: &str) -> (r: Result<FtwBuildType, FtwError>)
        ensures
            r == FtwBuildType::parse_spec(s@),
    {
        let lowered = ascii_lowercase(s);
        if str_eq(lowered.as_str(), "debug") {
            Ok(FtwBuildType::Debug)
        } else if str_eq(lowered.as_str(), "release") {
            Ok(FtwBuildType::Release)
        } else {
            Err(FtwError::UnknownBuildType)
        }
    }

    /// The profile an identifier resolves to where a caller asked for the
    /// documented fallback: an unrecognized identifier yields `Debug`.
    pub open spec fn parse_or_default_spec(s: Seq<char>) -> FtwBuildType {
        match FtwBuildType::parse_spec(s) {
            Ok(b) => b,
            Err(_) => FtwBuildType::Debug,
        }
    }

    /// Resolves a profile identifier, falling back to the default profile on
    /// any unrecognized identifier.
    pub fn parse_or_default(s: &str) -> (r: FtwBuildType)
        ensures
            r == FtwBuildType::parse_or_default_spec(s@),
    {
        match FtwBuildType::from_str(s) {
            Ok(b) => b,
            Err(_) => FtwBuildType::Debug,
        }
    }
}

impl ToCliArg for FtwBuildType {
    open spec fn cli_arg_spec(&self) -> Seq<char> {
        match self {
            FtwBuildType::Debug => ""@,
            FtwBuildType::Release => "--release"@,
        }
    }

    fn to_cli_arg(&self) -> (r: String) {
        match self {
            FtwBuildType::Debug => "".to_owned(),
            FtwBuildType::Release => "--release".to_owned(),
        }
    }
}

impl ToExportArg for FtwBuildType {
    open spec fn export_arg_spec(&self) -> Seq<char> {
        match self {
            FtwBuildType::Debug => "--export-debug"@,
            FtwBuildType::Release => "--export"@,
        }
    }

    fn to_export_arg(&self) -> (r: String) {
        match self {
            FtwBuildType::Debug => "--export-debug".to_owned(),
            FtwBuildType::Release => "--export".to_owned(),
        }
    }
}

impl Default for FtwBuildType {
    /// The default profile is `Debug`.
    fn default() -> (r: Self)
        ensures
            r == FtwBuildType::Debug,
    {
        FtwBuildType::Debug
    }
}

/// Parsing a profile's own name yields that profile again.
pub proof fn lemma_build_type_round_trip(b: FtwBuildType)
    ensures
        FtwBuildType::parse_spec(b.display_name_spec()) == Ok::<FtwBuildType, FtwError>(b),
{
    reveal_strlit("debug");
    reveal_strlit("release");
    assert(lower_chars("debug"@) =~= "debug"@);
    assert(lower_chars("release"@) =~= "release"@);
    assert("debug"@.len() != "release"@.len());
}

/// Parsing any identifier that names no profile yields the default profile.
pub proof fn lemma_build_type_parse_default(s: Seq<char>)
    requires
        lower_chars(s) != "debug"@,
        lower_chars(s) != "release"@,
    ensures
        FtwBuildType::parse_or_default_spec(s) == FtwBuildType::Debug,
{
}

} // verus!
