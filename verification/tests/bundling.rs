use cargo_crapapp::bundlers::WindowsBundlerKind;
use cargo_crapapp::windows_installer::windows_msi_bundler::{artifact_file_stem, msi_output_path};
use cargo_crapapp::services::build_config_manifest::BuildConfigManifest;
use cargo_crapapp::services::build_manifest::{BuildManifest, PlatformManifest};
use cargo_crapapp::services::build_variable::BuildVariable;
use cargo_crapapp::services::builder::{cargo_build_args, has_windows_platform};
use cargo_crapapp::services::icons::IconMapping;
use cargo_crapapp::services::payload_file::PayloadFile;
use cargo_crapapp::services::target_manifest::TargetManifest;
use cargo_crapapp::services::windows_bundler::{
    binary_build_args, bundle_paths, check_payload, copy_destination, find_target, release_exe_path,
    setup_cargo_toml, windows_platform, BundleError, SetupInstallerConfig,
};
use cargo_crapapp::windows_installer::msi::schema::{schema, ColumnKind};

fn windows_platform_manifest() -> PlatformManifest {
    PlatformManifest {
        platform: "windows".to_owned(),
        variables: vec![BuildVariable::InstallPath, BuildVariable::HomePath],
        icons: vec![IconMapping { binary: "app".to_owned(), source: "icon.png".to_owned() }],
        targets: vec![TargetManifest {
            target: "x86_64-pc-windows-msvc".to_owned(),
            files: vec![
                PayloadFile { source: "a.exe".to_owned(), destination: "bin/a.exe".to_owned(), executable: true },
                PayloadFile { source: "README".to_owned(), destination: "README".to_owned(), executable: false },
            ],
            shortcuts: vec![],
        }],
    }
}

fn manifest() -> BuildManifest {
    BuildManifest {
        app_name: "demo".to_owned(),
        version: "1.0.0".to_owned(),
        build: BuildConfigManifest {
            publisher: Some("ACME".to_owned()),
            packages: vec!["a".to_owned(), "b".to_owned()],
            features: vec![],
        },
        platforms: vec![
            PlatformManifest { platform: "linux".to_owned(), variables: vec![], icons: vec![], targets: vec![] },
            windows_platform_manifest(),
        ],
    }
}

#[test]
fn build_manifest_text_lists_everything() {
    let text = manifest().display_text();
    assert_eq!(
        text,
        "app: demo\nversion: 1.0.0\npublisher: ACME\npackages: a, b\nplatforms:\n  linux\n  windows\n    variables: INSTALLPATH, HOMEPATH\n    icon: app -> icon.png\n    x86_64-pc-windows-msvc\n      [x] a.exe -> bin/a.exe\n      [-] README -> README\n"
    );
}

#[test]
fn build_manifest_text_without_optional_lines() {
    let m = BuildManifest {
        app_name: "demo".to_owned(),
        version: "2".to_owned(),
        build: BuildConfigManifest { publisher: None, packages: vec![], features: vec!["x".to_owned(), "y".to_owned()] },
        platforms: vec![],
    };
    assert_eq!(m.display_text(), "app: demo\nversion: 2\nfeatures: x, y\nplatforms:\n");
}

#[test]
fn platform_manifest_collects_variables() {
    let files = vec![PayloadFile {
        source: "a".to_owned(),
        destination: "$HOMEPATH/a".to_owned(),
        executable: false,
    }];
    let p = PlatformManifest::new("windows", &["$INSTALLPATH/x"], &files, vec![], vec![]).unwrap();
    assert_eq!(p.platform, "windows");
    assert_eq!(p.variables, vec![BuildVariable::InstallPath]);
    let bad = vec![PayloadFile { source: "$NOPE".to_owned(), destination: "a".to_owned(), executable: false }];
    assert_eq!(PlatformManifest::new("windows", &[], &bad, vec![], vec![]).unwrap_err().to_string(), "Variable NOPE is not supported");
}

#[test]
fn cargo_build_args_name_packages_and_features() {
    let args = cargo_build_args("t", &vec!["a".to_owned(), "b".to_owned()], &vec!["f".to_owned(), "g".to_owned()]);
    assert_eq!(args, vec!["build", "--release", "--target", "t", "--package", "a", "--package", "b", "--features", "f g"]);
    let plain = cargo_build_args("t", &vec![], &vec![]);
    assert_eq!(plain, vec!["build", "--release", "--target", "t"]);
}

#[test]
fn windows_platform_is_found_by_name() {
    let m = manifest();
    assert!(has_windows_platform(&m.platforms));
    assert_eq!(windows_platform(&m), Ok(1));
    let none = BuildManifest { platforms: vec![], ..manifest() };
    assert!(!has_windows_platform(&none.platforms));
    assert_eq!(windows_platform(&none), Err(BundleError::WindowsNotConfigured));
    assert_eq!(BundleError::WindowsNotConfigured.to_string(), "windows platform is not configured");
}

#[test]
fn bundle_paths_nest_under_platform_and_target() {
    let (output, source, setup) = bundle_paths(".crapapp_build", "windows", "t");
    assert_eq!(output, ".crapapp_build/windows/t");
    assert_eq!(source, ".crapapp_build/windows/t/setup-src");
    assert_eq!(setup, ".crapapp_build/windows/t/setup.exe");
}

#[test]
fn setup_binaries_are_built_and_found() {
    assert_eq!(binary_build_args("t", "setup"), vec!["build", "--release", "--target", "t", "--bin", "setup"]);
    assert_eq!(release_exe_path("t", "src", "uninstall"), "src/target/t/release/uninstall.exe");
    assert_eq!(copy_destination("out/setup.exe", true, "setup"), "out/setup.exe");
    assert_eq!(copy_destination("out", false, "setup"), "out/setup.exe");
}

#[test]
fn setup_cargo_toml_fills_the_template() {
    let template = "[package]\n# crapapp_template_generated_workspace!()\nwindows-installer-core = { path = \"../windows-installer-core\" }\n";
    assert_eq!(
        setup_cargo_toml(template),
        "[package]\n[workspace]\nwindows-installer-core = { path = \"windows-installer-core\" }\n"
    );
}

#[test]
fn setup_config_embeds_canonical_sources() {
    let p = windows_platform_manifest();
    let files = &p.targets[0].files;
    let canonical = vec!["/abs/a.exe".to_owned(), "/abs/README".to_owned()];
    let c = SetupInstallerConfig::new("demo", "1.0", Some("ACME"), &p.icons, &p.variables, None, files, &canonical);
    assert_eq!(c.app_name, "demo");
    assert_eq!(c.publisher.as_deref(), Some("ACME"));
    assert_eq!(c.variables, vec!["INSTALLPATH", "HOMEPATH"]);
    assert_eq!(c.uninstaller_source, "");
    assert_eq!(c.payload[0].source, "/abs/a.exe");
    assert_eq!(c.payload[1].destination, "README");
    assert!(c.payload[0].executable);
    assert_eq!(c.icons[0].source, "icon.png");
}

#[test]
fn bundle_targets_and_payload_are_checked() {
    let p = windows_platform_manifest();
    assert_eq!(find_target(&p, "x86_64-pc-windows-msvc"), Ok(0));
    assert_eq!(find_target(&p, "other"), Err(BundleError::UnknownTarget));
    assert_eq!(check_payload(&vec![]), Err(BundleError::NoFiles));
    assert_eq!(BundleError::NoFiles.to_string(), "windows bundle has no files to package");
    assert_eq!(check_payload(&p.targets[0].files), Ok(()));
}

#[test]
fn schema_declares_every_table() {
    let tables = schema();
    assert_eq!(tables.len(), 28);
    assert_eq!(tables[0].name, "Property");
    assert_eq!(tables[0].columns[0].name, "Property");
    assert!(tables[0].columns[0].primary_key);
    assert_eq!(tables[0].columns[0].kind, ColumnKind::IdString(72));
    assert!(tables[0].columns[1].nullable);
    assert_eq!(tables[0].columns[1].kind, ColumnKind::Formatted(0));
    let control = tables.iter().find(|t| t.name == "Control").unwrap();
    assert_eq!(control.columns.len(), 12);
    let icon = tables.iter().find(|t| t.name == "Icon").unwrap();
    assert_eq!(icon.columns[1].kind, ColumnKind::Binary);
    assert_eq!(tables[27].name, "ControlCondition");
}

#[test]
fn msi_lands_where_the_readme_says() {
    let kind = WindowsBundlerKind::Msi.to_string();
    let named = artifact_file_stem(Some("Demo App"), "demo");
    assert_eq!(
        msi_output_path(".crapapp_build", "windows", "x86_64-pc-windows-msvc", &kind, &named),
        ".crapapp_build/windows/x86_64-pc-windows-msvc/msi/Demo App.msi"
    );
    let unnamed = artifact_file_stem(None, "demo");
    assert_eq!(
        msi_output_path(".crapapp_build", "windows", "x86_64-pc-windows-msvc", &kind, &unnamed),
        ".crapapp_build/windows/x86_64-pc-windows-msvc/msi/demo.msi"
    );
}

#[test]
fn schema_tables_list_their_keys_first() {
    for table in schema() {
        assert!(table.columns[0].primary_key, "{}", table.name);
        let mut seen_plain = false;
        for column in &table.columns {
            if !column.primary_key {
                seen_plain = true;
            }
            assert!(!(seen_plain && column.primary_key), "{}", table.name);
        }
    }
}
