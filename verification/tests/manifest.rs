use cargo_crapapp::bundlers::{LinuxBundlerKind, WindowsBundlerKind, WindowsInstallerKind};
use cargo_crapapp::manifest_file::{EulaFile, WindowsTarget};
use cargo_crapapp::platform_manifests::{LinuxPlatformManifest, MacosPkgConfig, WindowsPlatformManifest};

fn windows(installer: Vec<WindowsInstallerKind>) -> WindowsPlatformManifest {
    WindowsPlatformManifest {
        platform: String::new(),
        targets: vec![WindowsTarget::X86_64PcWindowsGnu],
        bundle: Vec::new(),
        installer,
        install_path: None,
        bin_dir: None,
        files: Vec::new(),
        associated_files: Vec::new(),
        eulas: Vec::new(),
        shortcuts: Vec::new(),
        path_entries: Vec::new(),
        display_icon: None,
        display_icon_source: None,
        variables: Vec::new(),
    }
}

#[test]
fn windows_installer_defaults_to_cli() {
    let windows = windows(Vec::new());
    assert_eq!(windows.installers(), vec![WindowsInstallerKind::Cli]);
}

#[test]
fn windows_installer_accepts_single_value() {
    let windows = windows(vec![WindowsInstallerKind::Gui]);
    assert_eq!(windows.installers(), vec![WindowsInstallerKind::Gui]);
}

#[test]
fn windows_installer_accepts_list() {
    let windows = windows(vec![WindowsInstallerKind::Cli, WindowsInstallerKind::Gui]);
    assert_eq!(
        windows.installers(),
        vec![WindowsInstallerKind::Cli, WindowsInstallerKind::Gui]
    );
}

#[test]
fn windows_installer_deduplicates_list_without_reordering() {
    let windows = windows(vec![
        WindowsInstallerKind::Gui,
        WindowsInstallerKind::Cli,
        WindowsInstallerKind::Gui,
    ]);
    assert_eq!(
        windows.installers(),
        vec![WindowsInstallerKind::Gui, WindowsInstallerKind::Cli]
    );
}

#[test]
fn eula_required_false_parses() {
    let mut windows = windows(Vec::new());
    windows.eulas = vec![EulaFile::Options { path: "EULA.txt".to_owned(), required: false }];
    assert!(!windows.eulas[0].required());
}

#[test]
fn bare_eula_path_is_required() {
    let eula = EulaFile::Path("EULA.txt".to_owned());
    assert!(eula.required());
    assert_eq!(eula.path(), "EULA.txt");
}

#[test]
fn windows_bundles_default_and_deduplicate() {
    let mut m = windows(Vec::new());
    assert_eq!(m.bundles(), vec![WindowsBundlerKind::Cli]);
    m.bundle = vec![WindowsBundlerKind::Msi, WindowsBundlerKind::Msi, WindowsBundlerKind::Cli];
    assert_eq!(m.bundles(), vec![WindowsBundlerKind::Msi, WindowsBundlerKind::Cli]);
    assert_eq!(WindowsBundlerKind::Msi.to_string(), "msi");
}

#[test]
fn windows_bin_dir_defaults_to_empty_and_sources_list_install_path() {
    let mut m = windows(Vec::new());
    assert_eq!(m.bin_dir(), "");
    assert!(m.variable_sources().is_empty());
    m.install_path = Some("$INSTALLPATH".to_owned());
    m.bin_dir = Some("bin".to_owned());
    assert_eq!(m.bin_dir(), "bin");
    assert_eq!(m.variable_sources(), vec!["$INSTALLPATH"]);
    assert_eq!(WindowsTarget::Aarch64PcWindowsMsvc.target(), "aarch64-pc-windows-msvc");
}

#[test]
fn linux_defaults_to_deb_in_usr_bin() {
    let m: LinuxPlatformManifest = LinuxPlatformManifest {
        platform: String::new(),
        targets: Vec::new(),
        bundle: vec![LinuxBundlerKind::Rpm, LinuxBundlerKind::Deb, LinuxBundlerKind::Rpm],
        install_path: None,
        bin_dir: None,
        files: Vec::new(),
        associated_files: Vec::new(),
        eulas: Vec::new(),
        shortcuts: Vec::new(),
        display_icon: None,
    };
    assert_eq!(m.bundles(), vec![LinuxBundlerKind::Rpm, LinuxBundlerKind::Deb]);
    assert_eq!(m.bin_dir(), "/usr/bin");
    let pkg = MacosPkgConfig::default();
    assert!(pkg.link_bins);
    assert_eq!(pkg.bin_dir(), "/usr/local/bin");
}
