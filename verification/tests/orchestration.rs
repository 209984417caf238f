//! End-to-end behavior of the orchestration engine: target-list
//! normalization, strategy selection, build/export/clean plans, probe
//! fallbacks, artifact relocation, and the manifest and message helpers.

use ftw::command_spec::CommandSpec;
use ftw::ftw_build_type::FtwBuildType;
use ftw::ftw_command::{gitignore_entries, required_project_files, FtwCommand, FtwStep};
use ftw::ftw_compiler::{
    ios_sdk_probe_command, macos_sdk_probe_command, osxcross_target_probe_command, probe_fell_back,
    FtwCompiler, SdkProbes,
};
use ftw::ftw_configuration::FtwConfiguration;
use ftw::ftw_error::FtwError;
use ftw::ftw_success::FtwSuccess;
use ftw::ftw_target::FtwTarget;
use ftw::node_type::NodeType;
use ftw::paths::{export_output_path, export_preset, native_output_path, staged_library_path};
use ftw::relocation::{FsOp, Relocation};
use ftw::traits::ToMessage;
use ftw::util::{get_crate_name_from_toml, is_derving_native_class};

fn no_probes() -> SdkProbes {
    SdkProbes { macos_sdk_version: None, osxcross_target_version: None, ios_sdk_version: None }
}

fn cross_config() -> FtwConfiguration {
    FtwConfiguration {
        godot_executable: "godot".to_string(),
        godot_headless_executable: "godot-headless".to_string(),
        godot_server_executable: "godot-server".to_string(),
        enable_cross_compilation: true,
    }
}

#[test]
fn test_parse_targets_dedups_sorts_and_defaults_blanks() {
    let items = vec![
        "linux-x86_64".to_string(),
        "".to_string(),
        "windows-x86_64".to_string(),
        "linux-x86_64".to_string(),
    ];
    let targets = ftw::ftw_target::parse_targets(&items);
    assert_eq!(targets, vec![FtwTarget::LinuxX86_64, FtwTarget::WindowsX86_64Msvc]);
}

#[test]
fn test_parse_targets_multi() {
    let items: Vec<String> = "linux-x86_64,windows-x86_64,macos-x86_64,android-x86_64"
        .split(',')
        .map(str::to_string)
        .collect();
    let targets = ftw::ftw_target::parse_targets(&items);
    assert_eq!(
        targets,
        vec![
            FtwTarget::AndroidLinuxX86_64,
            FtwTarget::LinuxX86_64,
            FtwTarget::MacOsX86_64,
            FtwTarget::WindowsX86_64Msvc,
        ]
    );
}

#[test]
fn test_parse_targets_empty_and_blank_lists() {
    let no_items: Vec<String> = vec![];
    assert_eq!(ftw::ftw_target::parse_targets(&no_items), vec![]);
    let one_blank = vec!["".to_string()];
    assert_eq!(
        ftw::ftw_target::parse_targets(&one_blank),
        vec![FtwTarget::WindowsX86_64Msvc]
    );
}

#[test]
fn test_parse_targets_is_sorted_canonically() {
    let items = vec![
        "windows-x86_64-msvc".to_string(),
        "macos-aarch64".to_string(),
        "android-aarch64".to_string(),
        "ios-aarch64".to_string(),
    ];
    let targets = ftw::ftw_target::parse_targets(&items);
    assert_eq!(
        targets,
        vec![
            FtwTarget::AndroidLinuxAarch64,
            FtwTarget::IosAarch64,
            FtwTarget::MacOsAarch64,
            FtwTarget::WindowsX86_64Msvc,
        ]
    );
}

#[test]
fn test_resolve_unknown_identifiers_rejected() {
    for bad in ["", "linux", "windows x86_64", "linux-x86_65", "amiga-68k", "LINUXx86_64"] {
        assert!(matches!(
            FtwTarget::from_str(bad).unwrap_err(),
            FtwError::UnsupportedTarget
        ));
    }
}

#[test]
fn test_resolve_is_case_insensitive() {
    assert_eq!(FtwTarget::LinuxX86_64, FtwTarget::from_str("Linux-X86_64").unwrap());
    assert_eq!(FtwTarget::WindowsX86_64Gnu, FtwTarget::from_str("WINDOWS-X86_64-GNU").unwrap());
}

#[test]
fn test_registry_reference_row() {
    let target = FtwTarget::from_str("windows-x86_64-gnu").unwrap();
    assert_eq!("x86_64-pc-windows-gnu", ftw::traits::ToCliArg::to_cli_arg(&target));
    assert_eq!("", ftw::traits::ToLibPrefix::to_lib_prefix(&target));
    assert_eq!("dll", ftw::traits::ToLibExt::to_lib_ext(&target));
}

#[test]
fn test_build_type_parse_defaults_to_debug() {
    assert_eq!(FtwBuildType::Debug, FtwBuildType::parse_or_default("banana"));
    assert_eq!(FtwBuildType::Debug, FtwBuildType::parse_or_default(""));
    assert_eq!(FtwBuildType::Release, FtwBuildType::parse_or_default("RELEASE"));
    assert!(matches!(
        FtwBuildType::from_str("banana").unwrap_err(),
        FtwError::UnknownBuildType
    ));
}

#[test]
fn test_strategy_selection() {
    let local = FtwConfiguration::default()
        .get_compiler(FtwTarget::LinuxX86_64, FtwBuildType::Debug);
    assert_eq!(
        local,
        FtwCompiler::Local { target: FtwTarget::LinuxX86_64, build_type: FtwBuildType::Debug }
    );
    let cross = cross_config().get_compiler(FtwTarget::MacOsAarch64, FtwBuildType::Release);
    assert_eq!(
        cross,
        FtwCompiler::Cross { target: FtwTarget::MacOsAarch64, build_type: FtwBuildType::Release }
    );
}

#[test]
fn test_local_debug_build_plan_linux() {
    let compiler = FtwConfiguration::default()
        .get_compiler(FtwTarget::LinuxX86_64, FtwBuildType::Debug);
    let plan = compiler.build_plan("game", "/work", &no_probes());
    assert_eq!("cargo", plan.command.program);
    assert_eq!(
        vec!["build".to_string(), "--target".to_string(), "x86_64-unknown-linux-gnu".to_string()],
        plan.command.args
    );
    assert_eq!(None, plan.command.current_dir);
    let relocation = plan.relocation.unwrap();
    assert_eq!("./target/x86_64-unknown-linux-gnu/debug/libgame.so", relocation.source_path);
    assert_eq!("./lib/x86_64-unknown-linux-gnu", relocation.destination_dir);
    assert_eq!("./lib/x86_64-unknown-linux-gnu/libgame.so", relocation.destination_path);
}

#[test]
fn test_local_release_build_plan_appends_release_flag() {
    let compiler = FtwConfiguration::default()
        .get_compiler(FtwTarget::WindowsX86_64Msvc, FtwBuildType::Release);
    let plan = compiler.build_plan("game", "/work", &no_probes());
    assert_eq!(
        vec![
            "build".to_string(),
            "--target".to_string(),
            "x86_64-pc-windows-msvc".to_string(),
            "--release".to_string(),
        ],
        plan.command.args
    );
    assert_eq!(
        "./target/x86_64-pc-windows-msvc/release/game.dll",
        plan.relocation.unwrap().source_path
    );
}

#[test]
fn test_cross_build_plan_macos_release_env() {
    let compiler = cross_config().get_compiler(FtwTarget::MacOsAarch64, FtwBuildType::Release);
    let probes = SdkProbes {
        macos_sdk_version: Some("12.0\n".to_string()),
        osxcross_target_version: Some("21.1\n".to_string()),
        ios_sdk_version: None,
    };
    let plan = compiler.build_plan("game", "/work", &probes);
    assert_eq!("docker", plan.command.program);
    assert!(plan.relocation.is_none());
    let args = &plan.command.args;
    assert_eq!("run", args[0]);
    assert_eq!("-v", args[1]);
    assert_eq!("/work:/build", args[2]);
    assert!(args.contains(
        &"CC=/opt/macosx-build-tools/cross-compiler/bin/aarch64-apple-darwin21.1-cc".to_string()
    ));
    assert!(args.contains(
        &"C_INCLUDE_PATH=/opt/macosx-build-tools/cross-compiler/SDK/MacOSX12.0.sdk/usr/include"
            .to_string()
    ));
    let shell_command = args.last().unwrap();
    assert!(shell_command.contains("cargo build --target aarch64-apple-darwin --release"));
    assert!(shell_command.contains(
        "mv -b ./target/aarch64-apple-darwin/release/*.dylib ./lib/aarch64-apple-darwin"
    ));
}

#[test]
fn test_cross_build_plan_macos_probe_fallback() {
    let compiler = cross_config().get_compiler(FtwTarget::MacOsX86_64, FtwBuildType::Debug);
    let blank_probes = SdkProbes {
        macos_sdk_version: Some("  \n".to_string()),
        osxcross_target_version: None,
        ios_sdk_version: None,
    };
    let plan = compiler.build_plan("game", "/work", &blank_probes);
    let args = &plan.command.args;
    assert!(args.contains(
        &"CC=/opt/macosx-build-tools/cross-compiler/bin/x86_64-apple-darwin20.4-cc".to_string()
    ));
    assert!(args.contains(
        &"C_INCLUDE_PATH=/opt/macosx-build-tools/cross-compiler/SDK/MacOSX11.3.sdk/usr/include"
            .to_string()
    ));
}

#[test]
fn test_cross_build_plan_windows_env() {
    let compiler = cross_config().get_compiler(FtwTarget::WindowsX86_64Gnu, FtwBuildType::Debug);
    let plan = compiler.build_plan("game", "/work", &no_probes());
    let args = &plan.command.args;
    assert!(args.contains(&"-e".to_string()));
    assert!(args.contains(&"C_INCLUDE_PATH=/usr/x86_64-w64-mingw32/include".to_string()));
}

#[test]
fn test_cross_build_plan_ios_env() {
    let compiler = cross_config().get_compiler(FtwTarget::IosAarch64, FtwBuildType::Debug);
    let probes = SdkProbes {
        macos_sdk_version: None,
        osxcross_target_version: None,
        ios_sdk_version: Some("15.0".to_string()),
    };
    let plan = compiler.build_plan("game", "/work", &probes);
    let args = &plan.command.args;
    assert!(args.contains(
        &"C_INCLUDE_PATH=/opt/ios-build-tools/cross-compiler/SDK/iPhoneOS15.0.sdk/usr/include"
            .to_string()
    ));
    assert!(args.contains(&"LD_LIBRARY_PATH=/opt/ios-build-tools/cross-compiler/lib".to_string()));
}

#[test]
fn test_cross_build_plan_android_has_no_env() {
    let compiler = cross_config().get_compiler(FtwTarget::AndroidLinuxAarch64, FtwBuildType::Debug);
    let plan = compiler.build_plan("game", "/work", &no_probes());
    assert!(!plan.command.args.contains(&"-e".to_string()));
}

#[test]
fn test_export_plan_windows_gnu_debug() {
    let compiler = FtwConfiguration::default()
        .get_compiler(FtwTarget::WindowsX86_64Gnu, FtwBuildType::Debug);
    let plan = compiler.export_plan("game", "/work", "godot");
    assert_eq!("godot", plan.program);
    assert_eq!(
        vec![
            "--export-debug".to_string(),
            "Windows Desktop.x86_64-pc-windows-gnu.debug".to_string(),
            "../bin/x86_64-pc-windows-gnu/game.debug.x86_64-pc-windows-gnu.exe".to_string(),
        ],
        plan.args
    );
    assert_eq!(Some("./godot".to_string()), plan.current_dir);
    assert!(plan.args[2].ends_with(".debug.x86_64-pc-windows-gnu.exe"));
}

#[test]
fn test_cross_export_plan() {
    let compiler = cross_config().get_compiler(FtwTarget::LinuxX86_64, FtwBuildType::Debug);
    let plan = compiler.export_plan("game", "/work", "godot");
    assert_eq!("docker", plan.program);
    let shell_command = plan.args.last().unwrap();
    assert_eq!(
        "cd godot/ ; godot_headless --export 'Linux/X11.x86_64-unknown-linux-gnu.debug' \
         ../bin/x86_64-unknown-linux-gnu/game.debug.x86_64-unknown-linux-gnu.x86_64",
        shell_command
    );
}

#[test]
fn test_clean_plans() {
    let local = FtwConfiguration::default()
        .get_compiler(FtwTarget::default(), FtwBuildType::default());
    let plan = local.clean_plan("/work");
    assert_eq!("cargo", plan.program);
    assert_eq!(vec!["clean".to_string()], plan.args);
    let cross = cross_config().get_compiler(FtwTarget::default(), FtwBuildType::default());
    let plan = cross.clean_plan("/work");
    assert_eq!("docker", plan.program);
    assert_eq!(
        vec![
            "run".to_string(),
            "-v".to_string(),
            "/work:/build".to_string(),
            "macalimlim/godot-rust-cross-compiler:0.8.0".to_string(),
            "/bin/bash".to_string(),
            "-c".to_string(),
            "cargo clean ; rm -rf godot/.import".to_string(),
        ],
        plan.args
    );
}

#[test]
fn test_probe_commands() {
    let probes: Vec<CommandSpec> = vec![
        macos_sdk_probe_command(),
        osxcross_target_probe_command(),
        ios_sdk_probe_command(),
    ];
    for p in &probes {
        assert_eq!("docker", p.program);
        assert_eq!("run", p.args[0]);
        assert_eq!("macalimlim/godot-rust-cross-compiler:0.8.0", p.args[1]);
    }
    assert_eq!("echo $MACOSX_SDK_VERSION", probes[0].args.last().unwrap());
    assert_eq!("echo $IOS_SDK_VERSION", probes[2].args.last().unwrap());
}

#[test]
fn test_probe_fallback_detection() {
    assert!(probe_fell_back(&None));
    assert!(probe_fell_back(&Some("  \n".to_string())));
    assert!(!probe_fell_back(&Some("11.3\n".to_string())));
}

#[test]
fn test_relocation_operations() {
    let relocation = Relocation {
        source_path: "./target/t/debug/libgame.so".to_string(),
        destination_dir: "./lib/t".to_string(),
        destination_path: "./lib/t/libgame.so".to_string(),
    };
    let with_stale = relocation.operations(true);
    assert_eq!(
        vec![
            FsOp::RemoveFile { path: "./lib/t/libgame.so".to_string() },
            FsOp::MoveFile {
                from: "./target/t/debug/libgame.so".to_string(),
                to: "./lib/t/libgame.so".to_string(),
            },
        ],
        with_stale
    );
    let fresh = relocation.operations(false);
    assert_eq!(
        vec![FsOp::MoveFile {
            from: "./target/t/debug/libgame.so".to_string(),
            to: "./lib/t/libgame.so".to_string(),
        }],
        fresh
    );
}

#[test]
fn test_artifact_paths() {
    assert_eq!(
        "./target/aarch64-apple-ios/release/libgame.a",
        native_output_path(FtwTarget::IosAarch64, FtwBuildType::Release, "game")
    );
    assert_eq!(
        "./lib/aarch64-linux-android/libgame.so",
        staged_library_path(FtwTarget::AndroidLinuxAarch64, "game")
    );
    assert_eq!(
        "Mac OSX.x86_64-apple-darwin.release",
        export_preset(FtwTarget::MacOsX86_64, FtwBuildType::Release)
    );
    assert_eq!(
        "../bin/x86_64-linux-android/game.debug.x86_64-linux-android.apk",
        export_output_path(FtwTarget::AndroidLinuxX86_64, FtwBuildType::Debug, "game")
    );
}

#[test]
fn test_required_project_files() {
    let files = required_project_files();
    assert_eq!(8 + 2 * 13, files.len());
    assert_eq!("Cargo.toml", files[0]);
    assert!(files.contains(&"godot/project.godot".to_string()));
    assert!(files.contains(&"bin/x86_64-unknown-linux-gnu/.gitkeep".to_string()));
    assert!(files.contains(&"lib/x86_64-pc-windows-msvc/.gitkeep".to_string()));
}

#[test]
fn test_gitignore_entries() {
    assert_eq!(
        vec![
            ".ftw".to_string(),
            "bin/*".to_string(),
            "godot/export_presets.cfg".to_string(),
            "lib/*".to_string(),
        ],
        gitignore_entries()
    );
}

#[test]
fn test_configuration_from_values() {
    let cfg = FtwConfiguration::from_values(
        Some("C:\\godot\\godot.exe".to_string()),
        None,
        None,
        Some("true".to_string()),
    );
    assert_eq!("C:/godot/godot.exe", cfg.godot_executable);
    assert_eq!("godot-headless", cfg.godot_headless_executable);
    assert_eq!("godot-server", cfg.godot_server_executable);
    assert!(cfg.enable_cross_compilation);
    let cfg = FtwConfiguration::from_values(None, None, None, Some("TRUE".to_string()));
    assert!(!cfg.enable_cross_compilation);
}

#[test]
fn test_crate_name_from_manifest() {
    let manifest = "[package]\nname = \"game\"\nversion = \"0.1.0\"\n";
    assert_eq!("game", get_crate_name_from_toml(manifest).unwrap());
    assert!(matches!(
        get_crate_name_from_toml("[package]\nversion = \"0.1.0\"\n").unwrap_err(),
        FtwError::MissingPackageNameError
    ));
    assert!(matches!(
        get_crate_name_from_toml("not = = toml").unwrap_err(),
        FtwError::TomlError
    ));
}

#[test]
fn test_native_class_scan() {
    let with_class = "#[derive(NativeClass)]\npub struct MyPlayer {}\n";
    assert!(is_derving_native_class(with_class).unwrap());
    let with_more_derives = "#[derive(Debug, NativeClass, Clone)]\nstruct A;";
    assert!(is_derving_native_class(with_more_derives).unwrap());
    let without = "pub struct MyPlayer {}\n";
    assert!(!is_derving_native_class(without).unwrap());
}

#[test]
fn test_node_type_parsing() {
    assert_eq!(NodeType::Area2D, NodeType::from_str("area2d"));
    assert_eq!(NodeType::Area2D, NodeType::from_str("Area2D"));
    assert_eq!(NodeType::Node, NodeType::from_str("NoSuchNode"));
    assert_eq!("Area2D", NodeType::Area2D.display_name());
    assert_eq!(NodeType::default(), NodeType::Node);
}

#[test]
fn ftw_success_test_to_message() {
    let new_game = "my-awesome-game".to_string();
    let ftw_success_new_default_message = FtwSuccess::New {
        project_name: new_game.clone(),
        template: ftw::ftw_template::FtwTemplate::default(),
        tag: ftw::ftw_tag::FtwTag::default(),
    }
    .to_message();
    assert_eq!(
        "\u{f164} SUCCESS: A new project has been created my-awesome-game using the default \
         (https://github.com/macalimlim/godot-rust-template v1.3.0) template",
        ftw_success_new_default_message
    );
    //
    let class_name = "IronMan".to_string();
    let ftw_success_class_message = FtwSuccess::Class {
        class_name: class_name.clone(),
        node_type: NodeType::Area2D,
    }
    .to_message();
    assert_eq!(
        "\u{f164} SUCCESS: A new class has been created IronMan using the Area2D node type",
        ftw_success_class_message
    );
    //
    let ftw_success_singleton_message =
        FtwSuccess::Singleton { class_name: class_name.clone() }.to_message();
    assert_eq!(
        "\u{f164} SUCCESS: A new singleton class has been created IronMan",
        ftw_success_singleton_message
    );
    //
    let ftw_success_run_message =
        FtwSuccess::Run { machine_type: ftw::ftw_machine_type::FtwMachineType::Desktop }
            .to_message();
    assert_eq!(
        "\u{f164} SUCCESS: The game was run as a desktop application",
        ftw_success_run_message
    );
    let ftw_success_run_message =
        FtwSuccess::Run { machine_type: ftw::ftw_machine_type::FtwMachineType::Server }
            .to_message();
    assert_eq!(
        "\u{f164} SUCCESS: The game was run as a server application",
        ftw_success_run_message
    );
    //
    let targets = vec![FtwTarget::LinuxX86_64];
    let ftw_success_build_debug_message = FtwSuccess::Build {
        targets: targets.clone(),
        build_type: FtwBuildType::Debug,
    }
    .to_message();
    assert_eq!(
        "\u{f164} SUCCESS: A library was created at lib/x86_64-unknown-linux-gnu with a debug \
         profile",
        ftw_success_build_debug_message
    );
    //
    let ftw_success_build_release_message = FtwSuccess::Build {
        targets: targets.clone(),
        build_type: FtwBuildType::Release,
    }
    .to_message();
    assert_eq!(
        "\u{f164} SUCCESS: A library was created at lib/x86_64-unknown-linux-gnu with a release \
         profile",
        ftw_success_build_release_message
    );
    //
    let ftw_success_export_debug_message = FtwSuccess::Export {
        targets: targets.clone(),
        build_type: FtwBuildType::Debug,
    }
    .to_message();
    assert_eq!(
        "\u{f164} SUCCESS: A game was created at bin/x86_64-unknown-linux-gnu with a debug \
         profile",
        ftw_success_export_debug_message
    );
    //
    let ftw_success_export_release_message = FtwSuccess::Export {
        targets,
        build_type: FtwBuildType::Release,
    }
    .to_message();
    assert_eq!(
        "\u{f164} SUCCESS: A game was created at bin/x86_64-unknown-linux-gnu with a release \
         profile",
        ftw_success_export_release_message
    );
    //
    let ftw_success_clean_message = FtwSuccess::Clean.to_message();
    assert_eq!(
        "\u{f164} SUCCESS: The project is now clean from excess artifacts",
        ftw_success_clean_message
    );
    //
    let multi_target_message = FtwSuccess::Build {
        targets: vec![FtwTarget::LinuxX86_64, FtwTarget::WindowsX86_64Msvc],
        build_type: FtwBuildType::Debug,
    }
    .to_message();
    assert_eq!(
        "\u{f164} SUCCESS: A library was created at \
         lib/x86_64-unknown-linux-gnu,lib/x86_64-pc-windows-msvc with a debug profile",
        multi_target_message
    );
}

#[test]
fn test_new_custom_template_to_message() {
    let ftw_success_new_custom_message = FtwSuccess::New {
        project_name: "my-awesome-game".to_string(),
        template: ftw::ftw_template::FtwTemplate::Custom {
            git_url: "/path/to/custom/template".to_string(),
        },
        tag: ftw::ftw_tag::FtwTag::default(),
    }
    .to_message();
    assert_eq!(
        "\u{f164} SUCCESS: A new project has been created my-awesome-game using the custom \
         (/path/to/custom/template v1.3.0) template",
        ftw_success_new_custom_message
    );
}

#[test]
fn test_error_messages() {
    assert_eq!(
        "\u{f165} ERROR: Unsupported target",
        FtwError::UnsupportedTarget.to_message()
    );
    assert_eq!(
        "\u{f165} ERROR: Process failure: docker",
        FtwError::ProcessFailure { program: "docker".to_string() }.to_message()
    );
}

#[test]
fn ftw_error_test_to_message() {
    let io_error_message = FtwError::Error { description: "IO error".to_string() }.to_message();
    assert_eq!("\u{f165} ERROR: IO error", io_error_message);
    //
    let invalid_project_error_message = FtwError::InvalidProject.to_message();
    assert_eq!("\u{f165} ERROR: Invalid project", invalid_project_error_message);
    //
    let liquid_error_message =
        FtwError::LiquidError { description: "Liquid error".to_string() }.to_message();
    assert_eq!("\u{f165} ERROR: liquid: Liquid error", liquid_error_message);
    //
    let unsupported_target_error = FtwError::UnsupportedTarget;
    assert_eq!("\u{f165} ERROR: Unsupported target", unsupported_target_error.to_message());
    //
    let fs_extra_error_message =
        FtwError::FsExtraError { description: "Fs extra error".to_string() }.to_message();
    assert_eq!("\u{f165} ERROR: Fs extra error", fs_extra_error_message);
    //
    let unknown_build_type_error_message = FtwError::UnknownBuildType.to_message();
    assert_eq!("\u{f165} ERROR: Unknown build type", unknown_build_type_error_message);
    //
    let path_error_message = FtwError::PathError.to_message();
    assert_eq!("\u{f165} ERROR: Path error", path_error_message);
    //
    let string_conversion_error_message = FtwError::StringConversionError.to_message();
    assert_eq!("\u{f165} ERROR: String conversion error", string_conversion_error_message);
    //
    let regex_error_message =
        FtwError::RegexError { description: "Syntax error".to_string() }.to_message();
    assert_eq!("\u{f165} ERROR: Syntax error", regex_error_message);
}

#[test]
fn test_command_steps() {
    let here = FtwTarget::LinuxX86_64;
    let build = FtwCommand::Build {
        targets: vec![FtwTarget::LinuxX86_64, FtwTarget::WindowsX86_64Gnu],
        build_type: FtwBuildType::Debug,
    };
    assert_eq!(
        vec![
            FtwStep::EnsureValidProject,
            FtwStep::Clean,
            FtwStep::BuildLib { target: FtwTarget::LinuxX86_64, build_type: FtwBuildType::Debug },
            FtwStep::BuildLib {
                target: FtwTarget::WindowsX86_64Gnu,
                build_type: FtwBuildType::Debug,
            },
        ],
        build.steps(here)
    );
    let export = FtwCommand::Export {
        targets: vec![FtwTarget::MacOsAarch64],
        build_type: FtwBuildType::Release,
    };
    assert_eq!(
        vec![
            FtwStep::EnsureValidProject,
            FtwStep::Clean,
            FtwStep::BuildLib {
                target: FtwTarget::MacOsAarch64,
                build_type: FtwBuildType::Release,
            },
            FtwStep::ExportGame {
                target: FtwTarget::MacOsAarch64,
                build_type: FtwBuildType::Release,
            },
        ],
        export.steps(here)
    );
    let run_server = FtwCommand::Run { machine_type: ftw::ftw_machine_type::FtwMachineType::Server };
    assert_eq!(
        vec![
            FtwStep::EnsureValidProject,
            FtwStep::EnsureLinuxServer { target: here },
            FtwStep::BuildLib { target: here, build_type: FtwBuildType::Debug },
            FtwStep::RunWithGodot,
        ],
        run_server.steps(here)
    );
    assert_eq!(vec![FtwStep::Clean], FtwCommand::Clean.steps(here));
}

#[test]
fn test_command_success_values() {
    let command = FtwCommand::Build {
        targets: vec![FtwTarget::LinuxX86_64],
        build_type: FtwBuildType::Debug,
    };
    assert_eq!(
        FtwSuccess::Build { targets: vec![FtwTarget::LinuxX86_64], build_type: FtwBuildType::Debug },
        command.success()
    );
    assert_eq!(FtwSuccess::Clean, FtwCommand::Clean.success());
}
