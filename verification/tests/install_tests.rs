use jit_shipper::install::{
    brew_command, get_package_manager, is_supported_distribution, linux_command,
    linux_dependencies, macos_dependencies, unix_build_steps, windows_setup, BuildStep,
};
use jit_shipper::text::to_ascii_lowercase;

#[test]
fn package_managers_of_distributions() {
    assert_eq!(get_package_manager("debian"), "apt");
    assert_eq!(get_package_manager("ubuntu\n"), "apt");
    assert_eq!(get_package_manager("  centos "), "yum");
    assert_eq!(get_package_manager("fedora"), "yum");
    assert_eq!(get_package_manager("arch"), "pacman");
}

#[test]
fn unsupported_distributions() {
    assert!(is_supported_distribution("arch\n"));
    assert!(!is_supported_distribution("gentoo"));
    assert!(!is_supported_distribution("Ubuntu"));
    assert!(!is_supported_distribution("Arch"));
}

#[test]
fn distribution_name_case_ignored_after_lowercasing() {
    let d = to_ascii_lowercase("Ubuntu\n");
    assert!(is_supported_distribution(&d));
    assert_eq!(get_package_manager(&d), "apt");
    assert_eq!(get_package_manager(&to_ascii_lowercase("ARCH")), "pacman");
    assert!(!is_supported_distribution(&to_ascii_lowercase("Slackware")));
}

#[test]
fn linux_dependency_list() {
    let deps = linux_dependencies();
    assert_eq!(deps.len(), 25);
    assert_eq!(deps[0], "git");
    assert_eq!(deps[17], "libusb-1.0-0-dev");
    assert_eq!(deps[24], "openssl");
}

#[test]
fn install_command_texts() {
    assert_eq!(brew_command("openssl"), "\"$(brew install openssl)\"");
    assert_eq!(linux_command("apt", "git"), "\"$(sudo apt install git)\"");
}

#[test]
fn macos_and_windows_setup() {
    assert_eq!(
        macos_dependencies(),
        vec!["openssl".to_string(), "pkg-config".to_string()]
    );
    let w = windows_setup("C:\\Users\\me");
    assert_eq!(w.len(), 4);
    for run in &w {
        assert_eq!(run.dir, "C:\\Users\\me");
    }
    assert_eq!(w[0].args, vec!["cd".to_string(), "~".to_string()]);
    assert_eq!(w[1].args[0], "curl");
    assert_eq!(w[1].args[3], "libimobiledevice.zip");
    assert_eq!(w[2].args, vec!["unzip".to_string(), "libimobiledevice.zip".to_string()]);
    assert_eq!(w[3].args, vec!["cd".to_string(), "libimobiledevice".to_string()]);
}

#[test]
fn unix_build_plan_steps() {
    let steps = unix_build_steps("/home/me");
    assert_eq!(steps.len(), 20);
    match &steps[0] {
        BuildStep::Shell { command, failure } => {
            assert_eq!(command, "\"$(mkdir -p $HOME/libimobiledevice)\"");
            assert_eq!(failure, "Failed to create libimobiledevice folder, aborting");
        }
        _ => panic!("expected a shell step"),
    }
    match &steps[3] {
        BuildStep::ChangeDir(d) => assert_eq!(d, "/home/me/libimobiledevice/libplist"),
        _ => panic!("expected a directory change"),
    }
    match &steps[17] {
        BuildStep::Shell { command, failure } => {
            assert_eq!(command, "\"$(make)\"");
            assert_eq!(failure, "Failed to build libimobiledevice, aborting");
        }
        _ => panic!("expected a shell step"),
    }
    match &steps[19] {
        BuildStep::ChangeDir(d) => assert_eq!(d, "/home/me/libimobiledevice"),
        _ => panic!("expected a directory change"),
    }
    let changes = steps
        .iter()
        .filter(|s| matches!(s, BuildStep::ChangeDir(_)))
        .count();
    assert_eq!(changes, 7);
}
