//! Shared helpers: splitting a qualified class name into its directories and
//! class, selecting the engine executable for a task, and reading the package
//! name out of a build manifest.

use crate::ftw_configuration::FtwConfiguration;
use crate::ftw_error::FtwError;
use crate::ftw_machine_type::FtwMachineType;
use crate::ftw_target::FtwTarget;
use crate::strings::{join_spec, split_on};
use vstd::prelude::*;

verus! {

/// Splits a possibly directory-qualified class name (`"foo/bar/MyClass"`)
/// into the class name proper and the directories before it: the parts are
/// slash-free, and joined back with slashes they give the input.
pub fn get_class_name_and_directories(class_name: &str) -> (r: (String, Vec<String>))
    ensures
        join_spec(r.1.deep_view().push(r.0@), '/') == class_name@,
        !r.0@.contains('/'),
        forall|i: int| 0 <= i < r.1@.len() ==> !(#[trigger] r.1.deep_view()[i]).contains('/'),
{
    let mut parts = split_on(class_name, '/');
    let ghost whole = parts.deep_view();
    let ghost pre = parts@;
    let class = parts.pop().unwrap();
    proof {
        assert(whole[whole.len() - 1] == pre.last()@);
        assert(!whole[whole.len() - 1].contains('/'));
        assert forall|i: int| 0 <= i < parts@.len() implies !(
        #[trigger] parts.deep_view()[i]).contains('/') by {
            assert(parts.deep_view()[i] == whole[i]);
            assert(!whole[i].contains('/'));
        }
        assert(parts.deep_view().push(class@) =~= whole);
    }
    (class, parts)
}

/// The engine executable used for exporting: platforms of the headless-capable
/// family (desktop Linux) export with the headless executable, all others with
/// the interactive one.
pub fn get_godot_exe_for_exporting(current_platform: FtwTarget, cfg: &FtwConfiguration) -> (r:
    String)
    ensures
        (current_platform == FtwTarget::LinuxX86 || current_platform == FtwTarget::LinuxX86_64)
            ==> r@ == cfg.godot_headless_executable@,
        !(current_platform == FtwTarget::LinuxX86 || current_platform == FtwTarget::LinuxX86_64)
            ==> r@ == cfg.godot_executable@,
{
    match current_platform {
        FtwTarget::LinuxX86 | FtwTarget::LinuxX86_64 => cfg.godot_headless_executable.clone(),
        _ => cfg.godot_executable.clone(),
    }
}

/// The engine executable used for running the game: the interactive one on a
/// desktop machine, the server one on a server machine.
pub fn get_godot_exe_for_running(machine_type: &FtwMachineType, cfg: &FtwConfiguration) -> (r:
    String)
    ensures
        machine_type == FtwMachineType::Desktop ==> r@ == cfg.godot_executable@,
        machine_type == FtwMachineType::Server ==> r@ == cfg.godot_server_executable@,
{
    match machine_type {
        FtwMachineType::Desktop => cfg.godot_executable.clone(),
        FtwMachineType::Server => cfg.godot_server_executable.clone(),
    }
}

/// The `package.name` entry a build manifest declares: `None` where the text
/// is not a well-formed manifest, `Some(None)` where it is but declares no
/// package name, and `Some(Some(name))` otherwise.
pub uninterp spec fn toml_package_name(manifest: Seq<char>) -> Option<Option<Seq<char>>>;

/// The shape of an optional optional string, seen through the views.
pub open spec fn package_name_view(r: Option<Option<String>>) -> Option<Option<Seq<char>>> {
    match r {
        None => None,
        Some(None) => Some(None),
        Some(Some(s)) => Some(Some(s@)),
    }
}

/// Relies on `toml::from_str` (through `str::parse::<toml::Table>`) and on
/// `toml::Value::get` / `toml::Value::as_str`: parses the manifest and looks
/// up the `package.name` string.  The parse and the lookup depend on the
/// manifest text alone.
#[verifier::external_body]
fn parse_package_name(manifest: &str) -> (r: Option<Option<String>>)
    ensures
        package_name_view(r) == toml_package_name(manifest@),
{
    match manifest.parse::<toml::Table>() {
        Ok(table) => Some(
            table.get("package").and_then(|p| p.get("name")).and_then(|n| n.as_str()).map(
                |n| n.to_string(),
            ),
        ),
        Err(_) => None,
    }
}

/// The package name the build manifest declares.  A manifest that cannot be
/// parsed is a `TomlError`; a well-formed manifest without a declared package
/// name is the distinct `MissingPackageNameError`, raised before any process
/// is spawned.
pub fn get_crate_name_from_toml(manifest: &str) -> (r: Result<String, FtwError>)
    ensures
        toml_package_name(manifest@) is None ==> r == Err::<String, FtwError>(FtwError::TomlError),
        toml_package_name(manifest@) matches Some(inner) ==> {
            &&& inner is None ==> r == Err::<String, FtwError>(FtwError::MissingPackageNameError)
            &&& inner matches Some(n) ==> (r matches Ok(s) && s@ == n)
        },
{
    match parse_package_name(manifest) {
        None => Err(FtwError::TomlError),
        Some(None) => Err(FtwError::MissingPackageNameError),
        Some(Some(name)) => Ok(name),
    }
}

/// Whether source-file contents declare a class that derives the engine's
/// native-class machinery.  What counts as such a declaration is decided by
/// the fixed scanning pattern and depends on the contents alone.
pub uninterp spec fn derives_native_class(contents: Seq<char>) -> bool;

/// Relies on `regex::Regex::new` and `regex::Regex::find`: whether the fixed
/// native-class derive pattern occurs in the contents.  `None` only where the
/// pattern engine rejects the fixed pattern.
#[verifier::external_body]
fn native_class_pattern_find(contents: &str) -> (r: Option<bool>)
    ensures
        r matches Some(b) ==> b == derives_native_class(contents@),
{
    match regex::Regex::new(r"#\[derive\([a-zA-Z, ]*NativeClass[a-zA-Z, ]*\)\]+") {
        Ok(re) => Some(re.find(contents).is_some()),
        Err(_) => None,
    }
}

/// Whether source-file contents declare a native class.
pub fn is_derving_native_class(contents: &str) -> (r: Result<bool, FtwError>)
    ensures
        r matches Ok(b) ==> b == derives_native_class(contents@),
        r matches Err(e) ==> e matches FtwError::RegexError { .. },
{
    match native_class_pattern_find(contents) {
        Some(b) => Ok(b),
        None => Err(FtwError::RegexError { description: "Invalid scanning pattern".to_owned() }),
    }
}

} // verus!
