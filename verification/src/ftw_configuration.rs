//! The resolved tool configuration: which engine executables to invoke and
//! whether cross-compilation is enabled.  The values come from a single
//! key/value configuration section that the caller reads at the edge; missing
//! keys fall back to fixed default executable names, and cross-compilation
//! defaults to off.

use crate::ftw_build_type::FtwBuildType;
use crate::ftw_compiler::FtwCompiler;
use crate::ftw_target::FtwTarget;
use crate::strings::{normalize_separators, replace_backslashes, str_eq};
use vstd::prelude::*;

verus! {

/// The resolved configuration values.
#[derive(Debug, PartialEq, Eq)]
pub struct FtwConfiguration {
    pub godot_executable: String,
    pub godot_headless_executable: String,
    pub godot_server_executable: String,
    pub enable_cross_compilation: bool,
}

/// The executable or flag value a configured entry resolves to: a configured
/// value with its path separators normalized, or the given default where the
/// key is missing.
pub open spec fn resolved_value_spec(v: Option<String>, default: Seq<char>) -> Seq<char> {
    match v {
        Some(s) => normalize_separators(s@),
        None => default,
    }
}

impl FtwConfiguration {
    /// Resolves the configuration from the values of the four recognized
    /// keys, in this order: the interactive engine executable, the headless
    /// engine executable, the server engine executable, and the
    /// cross-compilation switch, which is on exactly when its configured
    /// value is `"true"`.
    pub fn from_values(
        godot_exe: Option<String>,
        godot_headless_exe: Option<String>,
        godot_server_exe: Option<String>,
        cross_compilation: Option<String>,
    ) -> (r: FtwConfiguration)
        ensures
            r.godot_executable@ == resolved_value_spec(godot_exe, "godot"@),
            r.godot_headless_executable@ == resolved_value_spec(
                godot_headless_exe,
                "godot-headless"@,
            ),
            r.godot_server_executable@ == resolved_value_spec(godot_server_exe, "godot-server"@),
            r.enable_cross_compilation == (resolved_value_spec(cross_compilation, "false"@)
                == "true"@),
    {
        let godot_executable = match godot_exe {
            Some(s) => replace_backslashes(s.as_str()),
            None => "godot".to_owned(),
        };
        let godot_headless_executable = match godot_headless_exe {
            Some(s) => replace_backslashes(s.as_str()),
            None => "godot-headless".to_owned(),
        };
        let godot_server_executable = match godot_server_exe {
            Some(s) => replace_backslashes(s.as_str()),
            None => "godot-server".to_owned(),
        };
        let cross_value = match cross_compilation {
            Some(s) => replace_backslashes(s.as_str()),
            None => "false".to_owned(),
        };
        let enable_cross_compilation = str_eq(cross_value.as_str(), "true");
        proof {
            reveal_strlit("false");
            reveal_strlit("true");
        }
        FtwConfiguration {
            godot_executable,
            godot_headless_executable,
            godot_server_executable,
            enable_cross_compilation,
        }
    }

    /// The execution strategy the configuration selects for one orchestration
    /// call: cross-compilation in the containerized toolchain when the switch
    /// is on, direct local invocation otherwise.
    pub fn get_compiler(&self, target: FtwTarget, build_type: FtwBuildType) -> (r: FtwCompiler)
        ensures
            self.enable_cross_compilation ==> r == (FtwCompiler::Cross { target, build_type }),
            !self.enable_cross_compilation ==> r == (FtwCompiler::Local { target, build_type }),
    {
        if self.enable_cross_compilation {
            FtwCompiler::Cross { target, build_type }
        } else {
            FtwCompiler::Local { target, build_type }
        }
    }
}

impl Default for FtwConfiguration {
    /// The default configuration: the stock executable names, with
    /// cross-compilation off.
    fn default() -> (r: Self)
        ensures
            r.godot_executable@ == "godot"@,
            r.godot_headless_executable@ == "godot-headless"@,
            r.godot_server_executable@ == "godot-server"@,
            !r.enable_cross_compilation,
    {
        FtwConfiguration {
            godot_executable: "godot".to_owned(),
            godot_headless_executable: "godot-headless".to_owned(),
            godot_server_executable: "godot-server".to_owned(),
            enable_cross_compilation: false,
        }
    }
}

} // verus!
