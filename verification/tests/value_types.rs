//! The behavior of the value types: profiles, machine flavors, tags,
//! templates, platforms, configuration, and the shared helpers.

use ftw::ftw_build_type::FtwBuildType;
use ftw::ftw_configuration::FtwConfiguration;
use ftw::ftw_error::FtwError;
use ftw::ftw_machine_type::FtwMachineType;
use ftw::ftw_tag::FtwTag;
use ftw::ftw_target::FtwTarget;
use ftw::ftw_template::FtwTemplate;
use ftw::traits::{ToAppExt, ToCliArg, ToExportArg, ToExportName, ToGitTag, ToGitUrl, ToLibExt,
    ToLibPrefix};
use ftw::util::{get_class_name_and_directories, get_godot_exe_for_exporting,
    get_godot_exe_for_running};

const CUSTOM_TEMPLATE: &str = "/path/to/custom/template";
const DEFAULT_TEMPLATE_URL: &str = "https://github.com/macalimlim/godot-rust-template";

#[test]
fn test_is_debug() {
    assert!(FtwBuildType::Debug.is_debug());
    assert!(!FtwBuildType::Release.is_debug());
}

#[test]
fn test_is_release() {
    assert!(FtwBuildType::Release.is_release());
    assert!(!FtwBuildType::Debug.is_release());
}

#[test]
fn ftw_build_type_test_to_cli_arg() {
    assert_eq!("", FtwBuildType::Debug.to_cli_arg());
    assert_eq!("--release", FtwBuildType::Release.to_cli_arg());
}

#[test]
fn test_to_export_arg() {
    assert_eq!("--export-debug", FtwBuildType::Debug.to_export_arg());
    assert_eq!("--export", FtwBuildType::Release.to_export_arg());
}

#[test]
fn ftw_build_type_test_fmt() {
    let debug = FtwBuildType::Debug;
    let release = FtwBuildType::Release;
    assert_eq!("debug", debug.display_name());
    assert_eq!("release", release.display_name());
}

#[test]
fn ftw_build_type_test_from_str() {
    assert_eq!(FtwBuildType::Debug, FtwBuildType::from_str("debug").unwrap());
    assert_eq!(FtwBuildType::Release, FtwBuildType::from_str("release").unwrap());
}

#[test]
fn ftw_build_type_test_default() {
    assert_eq!(FtwBuildType::Debug, FtwBuildType::default());
}

#[test]
fn ftw_configuration_test_default() {
    let cfg = FtwConfiguration {
        godot_executable: "godot".to_string(),
        godot_headless_executable: "godot-headless".to_string(),
        godot_server_executable: "godot-server".to_string(),
        enable_cross_compilation: false,
    };
    assert_eq!(FtwConfiguration::default(), cfg);
}

#[test]
fn test_is_desktop() {
    assert!(FtwMachineType::Desktop.is_desktop());
    assert!(!FtwMachineType::Server.is_desktop());
}

#[test]
fn test_is_server() {
    assert!(!FtwMachineType::Desktop.is_server());
    assert!(FtwMachineType::Server.is_server());
}

#[test]
fn ftw_machine_type_test_from_str() {
    assert_eq!(FtwMachineType::Desktop, FtwMachineType::from_str("desktop"));
    assert_eq!(FtwMachineType::Server, FtwMachineType::from_str("server"));
}

#[test]
fn ftw_machine_type_test_fmt() {
    assert_eq!("desktop", FtwMachineType::Desktop.display_name());
    assert_eq!("server", FtwMachineType::Server.display_name());
}

#[test]
fn ftw_machine_type_test_to_cli_arg() {
    assert_eq!("-d", FtwMachineType::Desktop.to_cli_arg());
    assert_eq!("", FtwMachineType::Server.to_cli_arg());
}

#[test]
fn ftw_machine_type_test_default() {
    assert_eq!(FtwMachineType::default(), FtwMachineType::Desktop);
}

#[test]
fn ftw_tag_test_from_str() {
    assert_eq!(FtwTag::Latest, FtwTag::from_str("latest"));
    assert_eq!(
        FtwTag::Tagged { git_tag: String::from("v1.1.0") },
        FtwTag::from_str("v1.1.0")
    );
}

#[test]
fn test_to_git_tag() {
    assert_eq!(FtwTag::Latest.to_git_tag(), "v1.3.0");
    assert_eq!(
        FtwTag::Tagged { git_tag: String::from("v1.1.0") }.to_git_tag(),
        "v1.1.0"
    );
}

#[test]
fn ftw_tag_test_fmt() {
    let latest = FtwTag::Latest;
    let git_tag = String::from("v1.1.0");
    let tagged = FtwTag::Tagged { git_tag };
    assert_eq!(latest.display_name(), "v1.3.0");
    assert_eq!(tagged.display_name(), "v1.1.0");
}

#[test]
fn ftw_tag_test_default() {
    assert_eq!(FtwTag::default(), FtwTag::Latest);
}

#[test]
fn ftw_target_test_to_cli_arg() {
    let cli_arg_targets = [
        ("aarch64-linux-android", FtwTarget::AndroidLinuxAarch64),
        ("armv7-linux-androideabi", FtwTarget::AndroidLinuxArmV7),
        ("i686-linux-android", FtwTarget::AndroidLinuxX86),
        ("x86_64-linux-android", FtwTarget::AndroidLinuxX86_64),
        ("aarch64-apple-ios", FtwTarget::IosAarch64),
        ("i686-unknown-linux-gnu", FtwTarget::LinuxX86),
        ("x86_64-unknown-linux-gnu", FtwTarget::LinuxX86_64),
        ("x86_64-apple-darwin", FtwTarget::MacOsX86_64),
        ("aarch64-apple-darwin", FtwTarget::MacOsAarch64),
        ("i686-pc-windows-gnu", FtwTarget::WindowsX86Gnu),
        ("i686-pc-windows-msvc", FtwTarget::WindowsX86Msvc),
        ("x86_64-pc-windows-gnu", FtwTarget::WindowsX86_64Gnu),
        ("x86_64-pc-windows-msvc", FtwTarget::WindowsX86_64Msvc),
    ];
    for (cli_arg, target) in cli_arg_targets {
        assert_eq!(cli_arg, target.to_cli_arg());
    }
}

#[test]
fn test_to_export_name() {
    let export_name_targets = [
        ("Android", FtwTarget::AndroidLinuxAarch64),
        ("Android", FtwTarget::AndroidLinuxArmV7),
        ("Android", FtwTarget::AndroidLinuxX86),
        ("Android", FtwTarget::AndroidLinuxX86_64),
        ("iOS", FtwTarget::IosAarch64),
        ("Linux/X11", FtwTarget::LinuxX86),
        ("Linux/X11", FtwTarget::LinuxX86_64),
        ("Mac OSX", FtwTarget::MacOsX86_64),
        ("Mac OSX", FtwTarget::MacOsAarch64),
        ("Windows Desktop", FtwTarget::WindowsX86Gnu),
        ("Windows Desktop", FtwTarget::WindowsX86Msvc),
        ("Windows Desktop", FtwTarget::WindowsX86_64Gnu),
        ("Windows Desktop", FtwTarget::WindowsX86_64Msvc),
    ];
    for (export_name, target) in export_name_targets {
        assert_eq!(export_name, target.to_export_name());
    }
}

#[test]
fn test_to_app_ext() {
    let app_ext_targets = [
        (".apk", FtwTarget::AndroidLinuxAarch64),
        (".apk", FtwTarget::AndroidLinuxArmV7),
        (".apk", FtwTarget::AndroidLinuxX86),
        (".apk", FtwTarget::AndroidLinuxX86_64),
        (".zip", FtwTarget::IosAarch64),
        ("", FtwTarget::LinuxX86),
        (".x86_64", FtwTarget::LinuxX86_64),
        (".zip", FtwTarget::MacOsX86_64),
        (".zip", FtwTarget::MacOsAarch64),
        (".exe", FtwTarget::WindowsX86Gnu),
        (".exe", FtwTarget::WindowsX86Msvc),
        (".exe", FtwTarget::WindowsX86_64Gnu),
        (".exe", FtwTarget::WindowsX86_64Msvc),
    ];
    for (app_ext, target) in app_ext_targets {
        assert_eq!(app_ext, target.to_app_ext());
    }
}

#[test]
fn test_to_lib_ext() {
    let lib_ext_targets = [
        ("so", FtwTarget::AndroidLinuxAarch64),
        ("so", FtwTarget::AndroidLinuxArmV7),
        ("so", FtwTarget::AndroidLinuxX86),
        ("so", FtwTarget::AndroidLinuxX86_64),
        ("a", FtwTarget::IosAarch64),
        ("so", FtwTarget::LinuxX86),
        ("so", FtwTarget::LinuxX86_64),
        ("dylib", FtwTarget::MacOsX86_64),
        ("dylib", FtwTarget::MacOsAarch64),
        ("dll", FtwTarget::WindowsX86Gnu),
        ("dll", FtwTarget::WindowsX86Msvc),
        ("dll", FtwTarget::WindowsX86_64Gnu),
        ("dll", FtwTarget::WindowsX86_64Msvc),
    ];
    for (lib_ext, target) in lib_ext_targets {
        assert_eq!(lib_ext, target.to_lib_ext());
    }
}

#[test]
fn test_to_lib_prefix() {
    let lib_prefix_targets = [
        ("lib", FtwTarget::AndroidLinuxAarch64),
        ("lib", FtwTarget::AndroidLinuxArmV7),
        ("lib", FtwTarget::AndroidLinuxX86),
        ("lib", FtwTarget::AndroidLinuxX86_64),
        ("lib", FtwTarget::IosAarch64),
        ("lib", FtwTarget::LinuxX86),
        ("lib", FtwTarget::LinuxX86_64),
        ("lib", FtwTarget::MacOsX86_64),
        ("lib", FtwTarget::MacOsAarch64),
        ("", FtwTarget::WindowsX86Gnu),
        ("", FtwTarget::WindowsX86Msvc),
        ("", FtwTarget::WindowsX86_64Gnu),
        ("", FtwTarget::WindowsX86_64Msvc),
    ];
    for (lib_prefix, target) in lib_prefix_targets {
        assert_eq!(lib_prefix, target.to_lib_prefix());
    }
}

#[test]
fn ftw_target_test_from_str() {
    let from_str_targets = [
        ("android-aarch64", FtwTarget::AndroidLinuxAarch64),
        ("android-arm", FtwTarget::AndroidLinuxArmV7),
        ("android-x86", FtwTarget::AndroidLinuxX86),
        ("android-x86_64", FtwTarget::AndroidLinuxX86_64),
        ("ios-aarch64", FtwTarget::IosAarch64),
        ("linux-x86", FtwTarget::LinuxX86),
        ("linux-x86_64", FtwTarget::LinuxX86_64),
        ("macos-x86_64", FtwTarget::MacOsX86_64),
        ("macos-aarch64", FtwTarget::MacOsAarch64),
        ("windows-x86-gnu", FtwTarget::WindowsX86Gnu),
        ("windows-x86", FtwTarget::WindowsX86Msvc),
        ("windows-x86-msvc", FtwTarget::WindowsX86Msvc),
        ("windows-x86_64-gnu", FtwTarget::WindowsX86_64Gnu),
        ("windows-x86_64", FtwTarget::WindowsX86_64Msvc),
        ("windows-x86_64-msvc", FtwTarget::WindowsX86_64Msvc),
    ];
    for (from_str, target) in from_str_targets {
        assert_eq!(target, FtwTarget::from_str(from_str).unwrap());
    }
}

#[test]
fn ftw_target_test_fmt() {
    let cli_arg_targets = [
        ("aarch64-linux-android", FtwTarget::AndroidLinuxAarch64),
        ("armv7-linux-androideabi", FtwTarget::AndroidLinuxArmV7),
        ("i686-linux-android", FtwTarget::AndroidLinuxX86),
        ("x86_64-linux-android", FtwTarget::AndroidLinuxX86_64),
        ("aarch64-apple-ios", FtwTarget::IosAarch64),
        ("i686-unknown-linux-gnu", FtwTarget::LinuxX86),
        ("x86_64-unknown-linux-gnu", FtwTarget::LinuxX86_64),
        ("x86_64-apple-darwin", FtwTarget::MacOsX86_64),
        ("aarch64-apple-darwin", FtwTarget::MacOsAarch64),
        ("i686-pc-windows-gnu", FtwTarget::WindowsX86Gnu),
        ("i686-pc-windows-msvc", FtwTarget::WindowsX86Msvc),
        ("x86_64-pc-windows-gnu", FtwTarget::WindowsX86_64Gnu),
        ("x86_64-pc-windows-msvc", FtwTarget::WindowsX86_64Msvc),
    ];
    for (cli_arg, target) in cli_arg_targets {
        assert_eq!(cli_arg, target.display_name());
    }
}

#[test]
fn ftw_target_test_default() {
    assert_eq!(FtwTarget::default(), FtwTarget::WindowsX86_64Msvc);
}

#[test]
fn ftw_template_test_from_str() {
    let custom_template = CUSTOM_TEMPLATE.to_string();
    assert_eq!(FtwTemplate::default(), FtwTemplate::from_str("default"));
    assert_eq!(
        FtwTemplate::Custom { git_url: custom_template.clone() },
        FtwTemplate::from_str(&custom_template)
    );
}

#[test]
fn test_to_git_url() {
    if let FtwTemplate::Default { git_url } = FtwTemplate::default() {
        assert_eq!(git_url, DEFAULT_TEMPLATE_URL);
    }
    let custom_template = CUSTOM_TEMPLATE.to_string();
    let tpl = FtwTemplate::Custom { git_url: custom_template.clone() };
    if let FtwTemplate::Custom { git_url } = tpl {
        assert_eq!(git_url, custom_template);
    }
    assert_eq!(
        FtwTemplate::Custom { git_url: custom_template.clone() }.to_git_url(),
        custom_template
    );
}

#[test]
fn ftw_template_test_fmt() {
    assert_eq!("default", FtwTemplate::default().display_name());
    let custom_template = CUSTOM_TEMPLATE.to_string();
    assert_eq!(
        "custom",
        FtwTemplate::Custom { git_url: custom_template }.display_name()
    );
}

#[test]
fn ftw_template_test_default() {
    assert_eq!(
        FtwTemplate::default(),
        FtwTemplate::Default { git_url: DEFAULT_TEMPLATE_URL.to_string() }
    );
}

#[test]
fn test_get_godot_exe_for_exporting() {
    let cfg = FtwConfiguration::default();
    let linux_desktop_platforms = vec![FtwTarget::LinuxX86, FtwTarget::LinuxX86_64];
    for p in linux_desktop_platforms {
        let godot_exe = get_godot_exe_for_exporting(p, &cfg);
        assert_eq!("godot-headless".to_string(), godot_exe);
    }
    let other_desktop_platforms = vec![
        FtwTarget::MacOsX86_64,
        FtwTarget::WindowsX86Gnu,
        FtwTarget::WindowsX86Msvc,
        FtwTarget::WindowsX86_64Gnu,
        FtwTarget::WindowsX86_64Msvc,
    ];
    for p in other_desktop_platforms {
        let godot_exe = get_godot_exe_for_exporting(p, &cfg);
        assert_eq!("godot".to_string(), godot_exe);
    }
}

#[test]
fn test_get_godot_exe_for_running() {
    let cfg = FtwConfiguration::default();
    let machine_type = FtwMachineType::Desktop;
    let godot_exe = get_godot_exe_for_running(&machine_type, &cfg);
    assert_eq!("godot".to_string(), godot_exe);
    let machine_type = FtwMachineType::Server;
    let godot_exe = get_godot_exe_for_running(&machine_type, &cfg);
    assert_eq!("godot-server".to_string(), godot_exe);
}

#[test]
fn test_get_class_name_and_directories() {
    let class_name = "IronMan";
    let v = get_class_name_and_directories(class_name);
    assert_eq!(("IronMan".to_string(), vec![]), v);
}

#[test]
fn test_get_class_name_and_directories_with_slashes() {
    let class_name = "marvel/avengers/IronMan";
    let v = get_class_name_and_directories(class_name);
    assert_eq!(
        (
            "IronMan".to_string(),
            vec!["marvel".to_string(), "avengers".to_string()]
        ),
        v
    );
}

#[test]
fn test_is_linux_x86_64() {
    for target in FtwTarget::all() {
        if target == FtwTarget::LinuxX86_64 {
            assert!(target.is_linux_server().unwrap());
        } else {
            assert!(matches!(
                target.is_linux_server().unwrap_err(),
                FtwError::UnsupportedTarget
            ));
        }
    }
}
