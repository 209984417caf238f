//! Canonical artifact paths: pure functions of platform, profile and package
//! name.  Two calls with identical inputs always produce identical paths,
//! which is what makes artifact relocation idempotent and keeps the build and
//! export steps consistent with each other.

use crate::ftw_build_type::FtwBuildType;
use crate::ftw_target::FtwTarget;
use crate::traits::{ToAppExt, ToCliArg, ToExportName, ToLibExt, ToLibPrefix};
use vstd::prelude::*;

verus! {

/// The native compiler's output path for a library build:
/// `./target/{triple}/{profile}/{libPrefix}{package}.{libExt}`.
pub open spec fn native_output_path_spec(
    target: FtwTarget,
    build_type: FtwBuildType,
    package_name: Seq<char>,
) -> Seq<char> {
    "./target/"@ + target.cli_arg_spec() + "/"@ + build_type.display_name_spec() + "/"@
        + target.lib_prefix_spec() + package_name + "."@ + target.lib_ext_spec()
}

/// The native compiler's output path for a library build.
pub fn native_output_path(target: FtwTarget, build_type: FtwBuildType, package_name: &str) -> (r:
    String)
    ensures
        r@ == native_output_path_spec(target, build_type, package_name@),
{
    let mut p = "./target/".to_owned();
    p.append(target.to_cli_arg().as_str());
    p.append("/");
    p.append(build_type.display_name().as_str());
    p.append("/");
    p.append(target.to_lib_prefix().as_str());
    p.append(package_name);
    p.append(".");
    p.append(target.to_lib_ext().as_str());
    p
}

/// The canonical per-platform library directory: `./lib/{triple}`.
pub open spec fn staged_library_dir_spec(target: FtwTarget) -> Seq<char> {
    "./lib/"@ + target.cli_arg_spec()
}

/// The canonical per-platform library directory.
pub fn staged_library_dir(target: FtwTarget) -> (r: String)
    ensures
        r@ == staged_library_dir_spec(target),
{
    let mut p = "./lib/".to_owned();
    p.append(target.to_cli_arg().as_str());
    p
}

/// The canonical staged library path:
/// `./lib/{triple}/{libPrefix}{package}.{libExt}`.
pub open spec fn staged_library_path_spec(target: FtwTarget, package_name: Seq<char>) -> Seq<
    char,
> {
    staged_library_dir_spec(target) + "/"@ + target.lib_prefix_spec() + package_name + "."@
        + target.lib_ext_spec()
}

/// The canonical staged library path.
pub fn staged_library_path(target: FtwTarget, package_name: &str) -> (r: String)
    ensures
        r@ == staged_library_path_spec(target, package_name@),
{
    let mut p = staged_library_dir(target);
    p.append("/");
    p.append(target.to_lib_prefix().as_str());
    p.append(package_name);
    p.append(".");
    p.append(target.to_lib_ext().as_str());
    p
}

/// Distinct platforms stage their libraries in disjoint directories: the
/// canonical paths are keyed on the compiler triple, and no two platforms
/// share a triple.  Multi-target builds therefore never write to the same
/// per-platform directory.
pub proof fn lemma_staged_dirs_disjoint(a: FtwTarget, b: FtwTarget)
    requires
        a != b,
    ensures
        staged_library_dir_spec(a) != staged_library_dir_spec(b),
{
    if staged_library_dir_spec(a) == staged_library_dir_spec(b) {
        let p = "./lib/"@;
        assert(a.cli_arg_spec() =~= (p + a.cli_arg_spec()).subrange(
            p.len() as int,
            (p + a.cli_arg_spec()).len() as int,
        ));
        assert(b.cli_arg_spec() =~= (p + b.cli_arg_spec()).subrange(
            p.len() as int,
            (p + b.cli_arg_spec()).len() as int,
        ));
        crate::ftw_target::lemma_cli_arg_injective(a, b);
    }
}

/// The export-preset name the engine is asked for:
/// `{exportFamilyName}.{triple}.{profile}`.
pub open spec fn export_preset_spec(target: FtwTarget, build_type: FtwBuildType) -> Seq<char> {
    target.export_name_spec() + "."@ + target.cli_arg_spec() + "."@
        + build_type.display_name_spec()
}

/// The export-preset name the engine is asked for.
pub fn export_preset(target: FtwTarget, build_type: FtwBuildType) -> (r: String)
    ensures
        r@ == export_preset_spec(target, build_type),
{
    let mut p = target.to_export_name();
    p.append(".");
    p.append(target.to_cli_arg().as_str());
    p.append(".");
    p.append(build_type.display_name().as_str());
    p
}

/// The exported binary's path, relative to the engine-asset subdirectory the
/// exporter runs in: `../bin/{triple}/{package}.{profile}.{triple}{appExt}`.
pub open spec fn export_output_path_spec(
    target: FtwTarget,
    build_type: FtwBuildType,
    package_name: Seq<char>,
) -> Seq<char> {
    "../bin/"@ + target.cli_arg_spec() + "/"@ + package_name + "."@
        + build_type.display_name_spec() + "."@ + target.cli_arg_spec() + target.app_ext_spec()
}

/// The exported binary's path, relative to the engine-asset subdirectory.
pub fn export_output_path(
    target: FtwTarget,
    build_type: FtwBuildType,
    package_name: &str,
) -> (r: String)
    ensures
        r@ == export_output_path_spec(target, build_type, package_name@),
{
    let mut p = "../bin/".to_owned();
    p.append(target.to_cli_arg().as_str());
    p.append("/");
    p.append(package_name);
    p.append(".");
    p.append(build_type.display_name().as_str());
    p.append(".");
    p.append(target.to_cli_arg().as_str());
    p.append(target.to_app_ext().as_str());
    p
}

} // verus!
