use cargo_crapapp::package_metadata::{artifact_file_stem, description, display_name, package_name, publisher};
use cargo_crapapp::services::build_manifest::BuildManifest;
use cargo_crapapp::services::build_variable::BuildVariable;
use cargo_crapapp::services::cargo_package::CargoPackage;
use cargo_crapapp::services::icons::IconMapping;
use cargo_crapapp::services::manifest_file::{
    BuildConfig, CrapManifest, FileMapping, LinuxPlatform, LinuxTarget, WindowsPlatform, WindowsTarget,
};
use cargo_crapapp::services::payload_file::PayloadSource;
use cargo_crapapp::windows_installer::msi::MsiSpec;

fn package() -> CargoPackage {
    CargoPackage { name: "demo".to_owned(), version: "0.3.0".to_owned(), binaries: vec!["demo".to_owned()] }
}

fn crap_manifest(icon_binary: &str) -> CrapManifest {
    CrapManifest {
        build: Some(BuildConfig { publisher: Some("ACME".to_owned()), packages: vec![], features: vec![] }),
        windows: Some(WindowsPlatform {
            targets: vec![WindowsTarget::X86_64PcWindowsMsvc],
            install_path: Some("$INSTALLPATH".to_owned()),
            bin_dir: None,
            files: vec![FileMapping { source: "README.md".to_owned(), destination: "README.md".to_owned() }],
            icons: vec![IconMapping { binary: icon_binary.to_owned(), source: "icon.png".to_owned() }],
        }),
        macos: None,
        linux: Some(LinuxPlatform { targets: vec![LinuxTarget::X86_64UnknownLinuxGnu], files: vec![] }),
    }
}

#[test]
fn build_manifest_from_parts_builds_each_platform() {
    let m = BuildManifest::from_parts(&crap_manifest("demo"), &package(), &vec![vec![PayloadSource::File], vec![]], &vec![vec![None], vec![]])
        .unwrap();
    assert_eq!(m.app_name, "demo");
    assert_eq!(m.version, "0.3.0");
    assert_eq!(m.build.publisher.as_deref(), Some("ACME"));
    assert_eq!(m.platforms.len(), 2);
    assert_eq!(m.platforms[0].platform, "windows");
    assert_eq!(m.platforms[0].variables, vec![BuildVariable::InstallPath]);
    assert_eq!(m.platforms[0].icons[0].source, "icon.png");
    let target = &m.platforms[0].targets[0];
    assert_eq!(target.target, "x86_64-pc-windows-msvc");
    assert_eq!(target.files.len(), 2);
    assert_eq!(target.files[0].source, "target/x86_64-pc-windows-msvc/release/demo.exe");
    assert!(target.files[0].executable);
    assert_eq!(target.files[1].source, "README.md");
    assert!(target.shortcuts.is_empty());
    assert_eq!(m.platforms[1].platform, "linux");
    assert_eq!(m.platforms[1].targets[0].files[0].source, "target/x86_64-unknown-linux-gnu/release/demo");
}

#[test]
fn build_manifest_from_parts_reports_missing_sources() {
    let e = BuildManifest::from_parts(&crap_manifest("demo"), &package(), &vec![vec![PayloadSource::Missing], vec![]], &vec![vec![Some("unused".to_owned())], vec![]])
        .unwrap_err();
    assert_eq!(e.to_string(), "payload source README.md does not exist");
}

#[test]
fn build_manifest_from_parts_reports_unknown_icon_binaries() {
    let e = BuildManifest::from_parts(&crap_manifest("other"), &package(), &vec![vec![PayloadSource::File], vec![]], &vec![vec![None], vec![]])
        .unwrap_err();
    assert_eq!(e.to_string(), "windows icon references unknown binary other. Known binaries: demo");
}

#[test]
fn build_manifest_from_parts_reports_icon_file_faults_in_turn() {
    let fault = Some("windows icon source icon.png does not exist".to_owned());
    let e = BuildManifest::from_parts(&crap_manifest("demo"), &package(), &vec![vec![PayloadSource::File], vec![]], &vec![vec![fault.clone()], vec![]])
        .unwrap_err();
    assert_eq!(e.to_string(), "windows icon source icon.png does not exist");
    let e = BuildManifest::from_parts(&crap_manifest("other"), &package(), &vec![vec![PayloadSource::File], vec![]], &vec![vec![fault], vec![]])
        .unwrap_err();
    assert_eq!(e.to_string(), "windows icon references unknown binary other. Known binaries: demo");
}

#[test]
fn package_names_fall_back_sensibly() {
    assert_eq!(display_name(Some("  Demo App "), "demo"), "Demo App");
    assert_eq!(display_name(Some("   "), "demo"), "demo");
    assert_eq!(publisher(None), "unknown");
    assert_eq!(publisher(Some(" ACME ")), "ACME");
    assert_eq!(description(Some(" Tool "), None, "demo"), "Tool");
    assert_eq!(description(None, Some("Demo"), "demo"), "Demo");
    assert_eq!(artifact_file_stem(Some("a/b\\c:d"), "demo"), "a-b-c-d");
}

#[test]
fn msi_spec_codes_are_name_based() {
    let spec = MsiSpec {
        package: "demo".to_owned(),
        display_name: "Demo".to_owned(),
        version: "1.0".to_owned(),
        manufacturer: "ACME".to_owned(),
        files: vec![],
        associated_files: vec![],
        shortcuts: vec![],
        display_icon: None,
        display_icon_source: None,
    };
    assert!(spec.validate().is_err());
    let expected = uuid::Uuid::new_v5(&uuid::Uuid::NAMESPACE_URL, b"cargo-crapapp:msi:package:demo:1.0");
    assert_eq!(&spec.package_code(), expected.as_bytes());
    let upgrade = uuid::Uuid::new_v5(&uuid::Uuid::NAMESPACE_URL, b"cargo-crapapp:msi:upgrade:demo");
    assert_eq!(&spec.upgrade_code(), upgrade.as_bytes());
    assert_ne!(spec.product_code(), spec.package_code());
    assert_ne!(spec.component_code("f1"), spec.directory_component_code("f1"));
}

#[test]
fn package_names_are_lower_case_and_dashed() {
    assert_eq!(package_name("My App!"), "my-app");
    assert_eq!(package_name("..Tool.."), "tool");
    assert_eq!(package_name("!!!"), "app");
    assert_eq!(package_name("C++ Lib"), "c++-lib");
}

#[test]
fn package_names_are_their_own_package_names() {
    for name in ["My App!", "..Tool..", "!!!", "C++ Lib", "  Über Tool 2.0  "] {
        let once = package_name(name);
        assert!(!once.is_empty());
        assert!(!once.starts_with(['-', '.']) && !once.ends_with(['-', '.']));
        assert!(once.chars().all(|c| c.is_ascii_alphanumeric() || matches!(c, '+' | '-' | '.')));
        assert_eq!(package_name(&once), once);
    }
}
