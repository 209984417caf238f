//! The library's error taxonomy.  Every failure an orchestration step can
//! surface is one of these variants; variants that stand for a failure of an
//! outside tool carry the diagnostic text or the program name that the caller
//! collected at the edge.

use crate::traits::ToMessage;
use vstd::prelude::*;

verus! {

/// A typed failure of one operation.  No variant is ever retried
/// automatically; each aborts the operation that raised it.
#[derive(Debug, Clone, PartialEq, Eq)]
pub enum FtwError {
    /// An input/output failure, with a one-line description.
    Error { description: String },
    /// The working directory is not a valid project layout.
    InvalidProject,
    /// A template-rendering failure, with the renderer's message.
    LiquidError { description: String },
    /// A directory-walk failure while scanning source files.
    WalkdirError { description: String },
    /// A textual platform identifier matches no known platform.
    UnsupportedTarget,
    /// A filesystem move or removal failed, with the tool's message.
    FsExtraError { description: String },
    /// A textual profile identifier matches no known build profile.
    UnknownBuildType,
    /// The build manifest could not be parsed.
    TomlError,
    /// The build manifest declares no package name.
    MissingPackageNameError,
    /// A path had no usable file name.
    PathError,
    /// A path was not valid text.
    StringConversionError,
    /// A source-scanning pattern failed, with the engine's message.
    RegexError { description: String },
    /// An external process exited with a non-zero status.
    ProcessFailure { program: String },
    /// An external process could not be started at all.
    SpawnFailure { program: String },
}

impl FtwError {
    /// The one-line description rendered inside the diagnostic message.
    pub open spec fn description_spec(&self) -> Seq<char> {
        match self {
            FtwError::Error { description } => description@,
            FtwError::InvalidProject => "Invalid project"@,
            FtwError::LiquidError { description } => "liquid: "@ + description@,
            FtwError::WalkdirError { description } => description@,
            FtwError::UnsupportedTarget => "Unsupported target"@,
            FtwError::FsExtraError { description } => description@,
            FtwError::UnknownBuildType => "Unknown build type"@,
            FtwError::TomlError => "Toml parse error"@,
            FtwError::MissingPackageNameError => "Missing package name error"@,
            FtwError::PathError => "Path error"@,
            FtwError::StringConversionError => "String conversion error"@,
            FtwError::RegexError { description } => description@,
            FtwError::ProcessFailure { program } => "Process failure: "@ + program@,
            FtwError::SpawnFailure { program } => "Spawn failure: "@ + program@,
        }
    }

    fn description(&self) -> (r: String)
        ensures
            r@ == self.description_spec(),
    {
        match self {
            FtwError::Error { description } => description.clone(),
            FtwError::InvalidProject => "Invalid project".to_owned(),
            FtwError::LiquidError { description } => "liquid: ".to_owned().concat(
                description.as_str(),
            ),
            FtwError::WalkdirError { description } => description.clone(),
            FtwError::UnsupportedTarget => "Unsupported target".to_owned(),
            FtwError::FsExtraError { description } => description.clone(),
            FtwError::UnknownBuildType => "Unknown build type".to_owned(),
            FtwError::TomlError => "Toml parse error".to_owned(),
            FtwError::MissingPackageNameError => "Missing package name error".to_owned(),
            FtwError::PathError => "Path error".to_owned(),
            FtwError::StringConversionError => "String conversion error".to_owned(),
            FtwError::RegexError { description } => description.clone(),
            FtwError::ProcessFailure { program } => "Process failure: ".to_owned().concat(
                program.as_str(),
            ),
            FtwError::SpawnFailure { program } => "Spawn failure: ".to_owned().concat(
                program.as_str(),
            ),
        }
    }
}

impl ToMessage for FtwError {
    open spec fn message_spec(&self) -> Seq<char> {
        "\u{f165} ERROR: "@ + self.description_spec()
    }

    fn to_message(&self) -> (r: String)
        ensures
            r@ == self.message_spec(),
    {
        "\u{f165} ERROR: ".to_owned().concat(self.description().as_str())
    }
}

} // verus!
