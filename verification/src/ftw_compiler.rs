//! The build/export orchestrator.  A strategy (local invocation or
//! containerized cross-compilation) plus a platform and a profile determine
//! three operations — clean, build, export — and this module computes, for
//! each, the exact external invocation to perform: program, arguments,
//! working directory, container environment variables, and the artifact
//! relocation that follows a successful local build.

use crate::command_spec::CommandSpec;
use crate::ftw_build_type::FtwBuildType;
use crate::ftw_target::FtwTarget;
use crate::paths::{
    export_output_path, export_output_path_spec, export_preset, export_preset_spec,
    native_output_path, native_output_path_spec, staged_library_dir, staged_library_dir_spec,
    staged_library_path, staged_library_path_spec,
};
use crate::relocation::Relocation;
use crate::strings::{trim_spec, trim_whitespace};
use crate::traits::{ToCliArg, ToExportArg, ToLibExt};
use vstd::prelude::*;

verus! {

/// The execution strategy of one orchestration call: direct local invocation,
/// or cross-compilation inside the containerized toolchain.  The strategy is
/// selected once, from the configuration's cross-compilation switch, and held
/// for the whole call.
#[derive(Clone, Copy, Debug, PartialEq, Eq, Structural)]
pub enum FtwCompiler {
    Local { target: FtwTarget, build_type: FtwBuildType },
    Cross { target: FtwTarget, build_type: FtwBuildType },
}

/// The raw output of the toolchain container's version probes, as collected
/// by the caller: `None` where a probe was not run, could not be spawned, or
/// printed bytes that were not text.  The orchestrator substitutes the
/// documented minimum versions for unusable output; a probe failure never
/// aborts a build.
#[derive(Clone, Debug, PartialEq, Eq)]
pub struct SdkProbes {
    pub macos_sdk_version: Option<String>,
    pub osxcross_target_version: Option<String>,
    pub ios_sdk_version: Option<String>,
}

/// The result of one build planning call: the invocation to run, and the
/// artifact relocation to perform after it succeeds (for a local build; a
/// cross build relocates inside the container).
#[derive(Clone, Debug, PartialEq, Eq)]
pub struct BuildPlan {
    pub command: CommandSpec,
    pub relocation: Option<Relocation>,
}

/// The toolchain container image every cross operation runs in.
pub open spec fn docker_image_spec() -> Seq<char> {
    "macalimlim/godot-rust-cross-compiler:0.8.0"@
}

/// The shell that interprets composed commands inside the container.
pub open spec fn shell_spec() -> Seq<char> {
    "/bin/bash"@
}

/// The bind mount handed to the container: the caller's working directory,
/// mounted at the fixed in-container build path.
pub open spec fn volume_mount_spec(current_dir: Seq<char>) -> Seq<char> {
    current_dir + ":/build"@
}

/// Whether a probe's output is unusable, so that a documented minimum
/// version must be substituted: the probe was not run, printed bytes that
/// were not text, or printed only whitespace.
pub open spec fn probe_unusable_spec(raw: Option<String>) -> bool {
    match raw {
        None => true,
        Some(s) => trim_spec(s@).len() == 0,
    }
}

/// The version a probe resolves to: the probe's output with surrounding
/// whitespace removed, or the given minimum version where the probe was
/// unusable.
pub open spec fn probe_value_spec(raw: Option<String>, fallback: Seq<char>) -> Seq<char> {
    match raw {
        None => fallback,
        Some(s) => {
            if probe_unusable_spec(Some(s)) {
                fallback
            } else {
                trim_spec(s@)
            }
        },
    }
}

/// Whether a probe's output was unusable and a minimum version had to stand
/// in for it — a degraded condition the caller should report, never a reason
/// to abort a build.
pub fn probe_fell_back(raw: &Option<String>) -> (r: bool)
    ensures
        r == probe_unusable_spec(*raw),
{
    match raw {
        Option::None => true,
        Option::Some(s) => trim_whitespace(s.as_str()).as_str().is_empty(),
    }
}

/// Resolves one probe output against its documented minimum version.
pub fn resolve_probe(raw: &Option<String>, fallback: &str) -> (r: String)
    ensures
        r@ == probe_value_spec(*raw, fallback@),
{
    match raw {
        Option::None => fallback.to_owned(),
        Option::Some(s) => {
            let t = trim_whitespace(s.as_str());
            if t.as_str().is_empty() {
                fallback.to_owned()
            } else {
                t
            }
        },
    }
}

/// The probe for the container's installed macOS SDK version.
pub fn macos_sdk_probe_command() -> (r: CommandSpec)
    ensures
        r.program@ == "docker"@,
        r.args_view() =~= seq![
            "run"@,
            docker_image_spec(),
            shell_spec(),
            "-c"@,
            "echo $MACOSX_SDK_VERSION"@,
        ],
        r.current_dir is None,
{
    let mut args: Vec<String> = Vec::new();
    args.push("run".to_owned());
    args.push("macalimlim/godot-rust-cross-compiler:0.8.0".to_owned());
    args.push("/bin/bash".to_owned());
    args.push("-c".to_owned());
    args.push("echo $MACOSX_SDK_VERSION".to_owned());
    CommandSpec { program: "docker".to_owned(), args, current_dir: None }
}

/// The probe for the container's installed cross-compiler target-version
/// suffix.
pub fn osxcross_target_probe_command() -> (r: CommandSpec)
    ensures
        r.program@ == "docker"@,
        r.args_view() =~= seq![
            "run"@,
            docker_image_spec(),
            shell_spec(),
            "-c"@,
            "/opt/macosx-build-tools/cross-compiler/bin/osxcross-conf | grep OSXCROSS_TARGET= | sed 's/export OSXCROSS_TARGET=darwin//g'"@,
        ],
        r.current_dir is None,
{
    let mut args: Vec<String> = Vec::new();
    args.push("run".to_owned());
    args.push("macalimlim/godot-rust-cross-compiler:0.8.0".to_owned());
    args.push("/bin/bash".to_owned());
    args.push("-c".to_owned());
    args.push(
        "/opt/macosx-build-tools/cross-compiler/bin/osxcross-conf | grep OSXCROSS_TARGET= | sed 's/export OSXCROSS_TARGET=darwin//g'".to_owned(),
    );
    CommandSpec { program: "docker".to_owned(), args, current_dir: None }
}

/// The probe for the container's installed iOS SDK version.
pub fn ios_sdk_probe_command() -> (r: CommandSpec)
    ensures
        r.program@ == "docker"@,
        r.args_view() =~= seq![
            "run"@,
            docker_image_spec(),
            shell_spec(),
            "-c"@,
            "echo $IOS_SDK_VERSION"@,
        ],
        r.current_dir is None,
{
    let mut args: Vec<String> = Vec::new();
    args.push("run".to_owned());
    args.push("macalimlim/godot-rust-cross-compiler:0.8.0".to_owned());
    args.push("/bin/bash".to_owned());
    args.push("-c".to_owned());
    args.push("echo $IOS_SDK_VERSION".to_owned());
    CommandSpec { program: "docker".to_owned(), args, current_dir: None }
}

/// The `CC` environment entry a macOS cross build injects: the cross C
/// compiler named by the triple and the probed target-version suffix.
pub open spec fn macos_cc_env_spec(target: FtwTarget, osxcross_version: Seq<char>) -> Seq<char> {
    "CC=/opt/macosx-build-tools/cross-compiler/bin/"@ + target.cli_arg_spec() + osxcross_version
        + "-cc"@
}

/// The `C_INCLUDE_PATH` entry a macOS cross build injects, derived from the
/// probed SDK version.
pub open spec fn macos_include_env_spec(sdk_version: Seq<char>) -> Seq<char> {
    "C_INCLUDE_PATH=/opt/macosx-build-tools/cross-compiler/SDK/MacOSX"@ + sdk_version
        + ".sdk/usr/include"@
}

/// The `C_INCLUDE_PATH` entry an iOS cross build injects, derived from the
/// probed SDK version.
pub open spec fn ios_include_env_spec(sdk_version: Seq<char>) -> Seq<char> {
    "C_INCLUDE_PATH=/opt/ios-build-tools/cross-compiler/SDK/iPhoneOS"@ + sdk_version
        + ".sdk/usr/include"@
}

/// The extra `-e` arguments a cross build hands the container, by platform
/// family: a fixed C-header include path for 64-bit Windows, the probed
/// compiler and include paths for macOS, the probed include path and the
/// fixed library search path for iOS, and nothing for every other platform.
pub open spec fn cross_env_args_spec(target: FtwTarget, probes: SdkProbes) -> Seq<Seq<char>> {
    if target == FtwTarget::WindowsX86_64Gnu || target == FtwTarget::WindowsX86_64Msvc {
        seq!["-e"@, "C_INCLUDE_PATH=/usr/x86_64-w64-mingw32/include"@]
    } else if target.is_macos_spec() {
        seq![
            "-e"@,
            macos_cc_env_spec(
                target,
                probe_value_spec(probes.osxcross_target_version, "20.4"@),
            ),
            "-e"@,
            macos_include_env_spec(probe_value_spec(probes.macos_sdk_version, "11.3"@)),
        ]
    } else if target == FtwTarget::IosAarch64 {
        seq![
            "-e"@,
            ios_include_env_spec(probe_value_spec(probes.ios_sdk_version, "14.5"@)),
            "-e"@,
            "LD_LIBRARY_PATH=/opt/ios-build-tools/cross-compiler/lib"@,
        ]
    } else {
        Seq::empty()
    }
}

/// The composed shell command a cross build runs inside the container: the
/// native build for the triple (with the release flag exactly when the
/// profile is Release), then a move-with-backup of every produced library
/// into the canonical per-platform library directory.
pub open spec fn cross_build_command_spec(target: FtwTarget, build_type: FtwBuildType) -> Seq<
    char,
> {
    "cargo build --target "@ + target.cli_arg_spec() + (if build_type == FtwBuildType::Release {
        " --release"@
    } else {
        ""@
    }) + " ; mv -b ./target/"@ + target.cli_arg_spec() + "/"@ + build_type.display_name_spec()
        + "/*."@ + target.lib_ext_spec() + " ./lib/"@ + target.cli_arg_spec()
}

/// The composed shell command a cross export runs inside the container:
/// change to the engine-asset subdirectory and invoke the headless engine
/// binary assumed present in the image.
pub open spec fn cross_export_command_spec(
    target: FtwTarget,
    build_type: FtwBuildType,
    package_name: Seq<char>,
) -> Seq<char> {
    "cd godot/ ; godot_headless --export '"@ + export_preset_spec(target, build_type) + "' "@
        + export_output_path_spec(target, build_type, package_name)
}

/// The argument list of a local build: the native build subcommand for the
/// resolved triple, with the release flag appended only when the profile is
/// Release — no empty flag token is ever passed.
pub open spec fn local_build_args_spec(target: FtwTarget, build_type: FtwBuildType) -> Seq<
    Seq<char>,
> {
    if build_type == FtwBuildType::Release {
        seq!["build"@, "--target"@, target.cli_arg_spec(), "--release"@]
    } else {
        seq!["build"@, "--target"@, target.cli_arg_spec()]
    }
}

/// The argument list of a cross build: the container invocation with the
/// bind mount, the per-platform environment entries, the image, and the
/// composed build command.
pub open spec fn cross_build_args_spec(
    target: FtwTarget,
    build_type: FtwBuildType,
    current_dir: Seq<char>,
    probes: SdkProbes,
) -> Seq<Seq<char>> {
    seq!["run"@, "-v"@, volume_mount_spec(current_dir)] + cross_env_args_spec(target, probes)
        + seq![
        docker_image_spec(),
        shell_spec(),
        "-c"@,
        cross_build_command_spec(target, build_type),
    ]
}

impl FtwCompiler {
    /// The platform this strategy builds for.
    pub open spec fn target_spec(self) -> FtwTarget {
        match self {
            FtwCompiler::Local { target, .. } => target,
            FtwCompiler::Cross { target, .. } => target,
        }
    }

    /// The profile this strategy builds with.
    pub open spec fn build_type_spec(self) -> FtwBuildType {
        match self {
            FtwCompiler::Local { build_type, .. } => build_type,
            FtwCompiler::Cross { build_type, .. } => build_type,
        }
    }

    /// Whether this strategy runs inside the cross-compilation container.
    pub open spec fn is_cross_spec(self) -> bool {
        self is Cross
    }

    pub fn is_cross(self) -> (r: bool)
        ensures
            r == self.is_cross_spec(),
    {
        matches!(self, FtwCompiler::Cross { .. })
    }

    fn target(self) -> (r: FtwTarget)
        ensures
            r == self.target_spec(),
    {
        match self {
            FtwCompiler::Local { target, .. } => target,
            FtwCompiler::Cross { target, .. } => target,
        }
    }

    fn build_type(self) -> (r: FtwBuildType)
        ensures
            r == self.build_type_spec(),
    {
        match self {
            FtwCompiler::Local { build_type, .. } => build_type,
            FtwCompiler::Cross { build_type, .. } => build_type,
        }
    }

    /// The invocation that cleans the project's build artifacts.  Locally it
    /// is the native build tool's clean subcommand in the working directory;
    /// in the container it also removes the engine-side import cache.  Clean
    /// is side-effect-only and safe to run when there is nothing to clean.
    pub fn clean_plan(&self, current_dir: &str) -> (r: CommandSpec)
        ensures
            !self.is_cross_spec() ==> (r.program@ == "cargo"@ && r.args_view() =~= seq!["clean"@]
                && r.current_dir is None),
            self.is_cross_spec() ==> (r.program@ == "docker"@ && r.args_view() =~= seq![
                "run"@,
                "-v"@,
                volume_mount_spec(current_dir@),
                docker_image_spec(),
                shell_spec(),
                "-c"@,
                "cargo clean ; rm -rf godot/.import"@,
            ] && r.current_dir is None),
    {
        if !self.is_cross() {
            let mut args: Vec<String> = Vec::new();
            args.push("clean".to_owned());
            CommandSpec { program: "cargo".to_owned(), args, current_dir: None }
        } else {
            let mut mount = current_dir.to_owned();
            mount.append(":/build");
            let mut args: Vec<String> = Vec::new();
            args.push("run".to_owned());
            args.push("-v".to_owned());
            args.push(mount);
            args.push("macalimlim/godot-rust-cross-compiler:0.8.0".to_owned());
            args.push("/bin/bash".to_owned());
            args.push("-c".to_owned());
            args.push("cargo clean ; rm -rf godot/.import".to_owned());
            CommandSpec { program: "docker".to_owned(), args, current_dir: None }
        }
    }

    /// The invocation that builds the library for this strategy's platform
    /// and profile, and the relocation that stages the artifact afterwards.
    ///
    /// Locally, the native compiler is invoked for the triple (release flag
    /// only for Release), and the plan carries the relocation of the
    /// compiler's deterministic output path into the canonical per-platform
    /// library directory.  In the container, one composed shell command both
    /// builds and moves, and the per-platform environment entries — probed
    /// versions with documented minimum fallbacks — are injected.
    pub fn build_plan(&self, package_name: &str, current_dir: &str, probes: &SdkProbes) -> (r:
        BuildPlan)
        ensures
            !self.is_cross_spec() ==> (r.command.program@ == "cargo"@ && r.command.args_view()
                =~= local_build_args_spec(self.target_spec(), self.build_type_spec())
                && r.command.current_dir is None && (r.relocation matches Some(rel)
                && rel.source_path@ == native_output_path_spec(
                self.target_spec(),
                self.build_type_spec(),
                package_name@,
            ) && rel.destination_dir@ == staged_library_dir_spec(self.target_spec())
                && rel.destination_path@ == staged_library_path_spec(
                self.target_spec(),
                package_name@,
            ))),
            self.is_cross_spec() ==> (r.command.program@ == "docker"@ && r.command.args_view()
                =~= cross_build_args_spec(
                self.target_spec(),
                self.build_type_spec(),
                current_dir@,
                *probes,
            ) && r.command.current_dir is None && r.relocation is None),
    {
        let target = self.target();
        let build_type = self.build_type();
        if !self.is_cross() {
            let mut args: Vec<String> = Vec::new();
            args.push("build".to_owned());
            args.push("--target".to_owned());
            args.push(target.to_cli_arg());
            if build_type.is_release() {
                args.push("--release".to_owned());
            }
            let relocation = Relocation {
                source_path: native_output_path(target, build_type, package_name),
                destination_dir: staged_library_dir(target),
                destination_path: staged_library_path(target, package_name),
            };
            BuildPlan {
                command: CommandSpec { program: "cargo".to_owned(), args, current_dir: None },
                relocation: Some(relocation),
            }
        } else {
            let mut mount = current_dir.to_owned();
            mount.append(":/build");
            let mut args: Vec<String> = Vec::new();
            args.push("run".to_owned());
            args.push("-v".to_owned());
            args.push(mount);
            if target.is(FtwTarget::WindowsX86_64Gnu) || target.is(FtwTarget::WindowsX86_64Msvc) {
                args.push("-e".to_owned());
                args.push("C_INCLUDE_PATH=/usr/x86_64-w64-mingw32/include".to_owned());
            } else if target.is_macos() {
                let osxcross_version = resolve_probe(&probes.osxcross_target_version, "20.4");
                let mut cc = "CC=/opt/macosx-build-tools/cross-compiler/bin/".to_owned();
                cc.append(target.to_cli_arg().as_str());
                cc.append(osxcross_version.as_str());
                cc.append("-cc");
                let sdk_version = resolve_probe(&probes.macos_sdk_version, "11.3");
                let mut include_path = "C_INCLUDE_PATH=/opt/macosx-build-tools/cross-compiler/SDK/MacOSX".to_owned();
                include_path.append(sdk_version.as_str());
                include_path.append(".sdk/usr/include");
                args.push("-e".to_owned());
                args.push(cc);
                args.push("-e".to_owned());
                args.push(include_path);
            } else if target.is_ios() {
                let sdk_version = resolve_probe(&probes.ios_sdk_version, "14.5");
                let mut include_path = "C_INCLUDE_PATH=/opt/ios-build-tools/cross-compiler/SDK/iPhoneOS".to_owned();
                include_path.append(sdk_version.as_str());
                include_path.append(".sdk/usr/include");
                args.push("-e".to_owned());
                args.push(include_path);
                args.push("-e".to_owned());
                args.push("LD_LIBRARY_PATH=/opt/ios-build-tools/cross-compiler/lib".to_owned());
            }
            args.push("macalimlim/godot-rust-cross-compiler:0.8.0".to_owned());
            args.push("/bin/bash".to_owned());
            args.push("-c".to_owned());
            let mut cmd = "cargo build --target ".to_owned();
            cmd.append(target.to_cli_arg().as_str());
            cmd.append(if build_type.is_release() {
                " --release"
            } else {
                ""
            });
            cmd.append(" ; mv -b ./target/");
            cmd.append(target.to_cli_arg().as_str());
            cmd.append("/");
            cmd.append(build_type.display_name().as_str());
            cmd.append("/*.");
            cmd.append(target.to_lib_ext().as_str());
            cmd.append(" ./lib/");
            cmd.append(target.to_cli_arg().as_str());
            args.push(cmd);
            BuildPlan {
                command: CommandSpec { program: "docker".to_owned(), args, current_dir: None },
                relocation: None,
            }
        }
    }

    /// The invocation that exports the packaged game for this strategy's
    /// platform and profile.  Locally, the given engine executable runs in
    /// the engine-asset subdirectory with the profile's export flag, the
    /// derived preset name and the derived output path; in the container, one
    /// composed shell command does the same with the image's headless engine
    /// binary.
    pub fn export_plan(&self, package_name: &str, current_dir: &str, godot_executable: &str) -> (r:
        CommandSpec)
        ensures
            !self.is_cross_spec() ==> (r.program@ == godot_executable@ && r.args_view() =~= seq![
                self.build_type_spec().export_arg_spec(),
                export_preset_spec(self.target_spec(), self.build_type_spec()),
                export_output_path_spec(self.target_spec(), self.build_type_spec(), package_name@),
            ] && (r.current_dir matches Some(d) && d@ == "./godot"@)),
            self.is_cross_spec() ==> (r.program@ == "docker"@ && r.args_view() =~= seq![
                "run"@,
                "-v"@,
                volume_mount_spec(current_dir@),
                docker_image_spec(),
                shell_spec(),
                "-c"@,
                cross_export_command_spec(
                    self.target_spec(),
                    self.build_type_spec(),
                    package_name@,
                ),
            ] && r.current_dir is None),
    {
        let target = self.target();
        let build_type = self.build_type();
        if !self.is_cross() {
            let mut args: Vec<String> = Vec::new();
            args.push(build_type.to_export_arg());
            args.push(export_preset(target, build_type));
            args.push(export_output_path(target, build_type, package_name));
            CommandSpec {
                program: godot_executable.to_owned(),
                args,
                current_dir: Some("./godot".to_owned()),
            }
        } else {
            let mut mount = current_dir.to_owned();
            mount.append(":/build");
            let mut cmd = "cd godot/ ; godot_headless --export '".to_owned();
            cmd.append(export_preset(target, build_type).as_str());
            cmd.append("' ");
            cmd.append(export_output_path(target, build_type, package_name).as_str());
            let mut args: Vec<String> = Vec::new();
            args.push("run".to_owned());
            args.push("-v".to_owned());
            args.push(mount);
            args.push("macalimlim/godot-rust-cross-compiler:0.8.0".to_owned());
            args.push("/bin/bash".to_owned());
            args.push("-c".to_owned());
            args.push(cmd);
            CommandSpec { program: "docker".to_owned(), args, current_dir: None }
        }
    }
}

} // verus!
