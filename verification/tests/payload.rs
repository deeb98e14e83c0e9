use cargo_crapapp::manifest_file::ShortcutMapping;
use cargo_crapapp::services::build_variable::{
    get_platform_variables, variables_from_files, variables_from_value, BuildVariable,
};
use cargo_crapapp::services::manifest_file::FileMapping;
use cargo_crapapp::services::payload_file::{
    join_payload_path, payload_files, resolve_destination, DirectoryFile, PayloadFile, PayloadSource,
};
use cargo_crapapp::target_manifest::TargetManifest;

#[test]
fn variables_are_found_in_values() {
    assert_eq!(
        variables_from_value("$INSTALLPATH/bin/$HOMEPATH$$x $9a $_y1-z"),
        vec!["INSTALLPATH", "HOMEPATH", "x", "_y1"]
    );
    assert!(variables_from_value("no variables").is_empty());
    assert!(variables_from_value("trailing $").is_empty());
}

#[test]
fn runtime_variables_are_left_out() {
    let files = vec![PayloadFile::data("$HOMEPATH/a".to_owned(), "$INSTALLPATH/a".to_owned())];
    assert_eq!(variables_from_files(&files).unwrap(), vec![BuildVariable::InstallPath]);
    let home = vec![PayloadFile::data("a".to_owned(), "$HOMEPATH/a".to_owned())];
    assert!(variables_from_files(&home).unwrap().is_empty());
    let bad = vec![PayloadFile::data("$NOPE".to_owned(), "a".to_owned())];
    assert_eq!(
        variables_from_files(&bad).unwrap_err().to_string(),
        "Variable NOPE is not supported"
    );
    assert_eq!(
        get_platform_variables(&["$INSTALLPATH"], &[]).unwrap(),
        vec![BuildVariable::InstallPath]
    );
}

#[test]
fn destinations_are_placed_below_the_install_path() {
    assert_eq!(join_payload_path("", "a"), "a");
    assert_eq!(join_payload_path("root//", "a"), "root/a");
    assert_eq!(resolve_destination(Some("$INSTALLPATH"), "bin/a"), "$INSTALLPATH/bin/a");
    assert_eq!(resolve_destination(Some("$INSTALLPATH"), "$INSTALLPATH/a"), "$INSTALLPATH/a");
    assert_eq!(resolve_destination(None, "a"), "a");
    let once = resolve_destination(Some("root/"), "x");
    assert_eq!(resolve_destination(Some("root/"), &once), once);
}

#[test]
fn directory_payloads_are_sorted_by_source() {
    let mappings = vec![
        FileMapping { source: "one.txt".to_owned(), destination: "docs/one.txt".to_owned() },
        FileMapping { source: "assets".to_owned(), destination: "assets".to_owned() },
    ];
    let sources = vec![
        PayloadSource::File,
        PayloadSource::Directory(vec![
            DirectoryFile { path: "assets/z.png".to_owned(), relative: "z.png".to_owned() },
            DirectoryFile { path: "assets/a/b.png".to_owned(), relative: "a/b.png".to_owned() },
        ]),
    ];
    let files = payload_files(&mappings, &sources, Some("$INSTALLPATH")).unwrap();
    let pairs: Vec<(String, String)> =
        files.iter().map(|f| (f.source.clone(), f.destination.clone())).collect();
    assert_eq!(
        pairs,
        vec![
            ("one.txt".to_owned(), "$INSTALLPATH/docs/one.txt".to_owned()),
            ("assets/a/b.png".to_owned(), "$INSTALLPATH/assets/a/b.png".to_owned()),
            ("assets/z.png".to_owned(), "$INSTALLPATH/assets/z.png".to_owned()),
        ]
    );
    let missing = payload_files(&mappings, &[PayloadSource::File, PayloadSource::Missing], None);
    assert_eq!(missing.unwrap_err().to_string(), "payload source assets does not exist");
}

#[test]
fn shortcut_icon_is_added_to_payload_and_shortcut() {
    let icon_path = "/tmp/cargo-crapapp-shortcut-icon-1.ico".to_owned();
    let manifest = TargetManifest::new(
        "x86_64-pc-windows-gnu",
        &[String::from("example")],
        Some("$INSTALLPATH"),
        "bin",
        &[],
        &[ShortcutMapping {
            binary: "example".to_owned(),
            name: "Example".to_owned(),
            directory: Some("Example App".to_owned()),
            icon: Some(icon_path.clone()),
        }],
        &[true],
    )
    .expect("target manifest should build");
    let expected_icon = "$INSTALLPATH/bin/cargo-crapapp-shortcut-icon-1.ico";

    assert!(manifest
        .files
        .iter()
        .any(|file| file.source == icon_path && file.destination == expected_icon));
    assert_eq!(manifest.shortcuts[0].icon.as_deref(), Some(expected_icon));
    assert_eq!(manifest.files[0].source, "target/x86_64-pc-windows-gnu/release/example.exe");
    assert_eq!(manifest.files[0].destination, "$INSTALLPATH/bin/example.exe");
    assert_eq!(manifest.shortcuts[0].target, "$INSTALLPATH/bin/example.exe");
}

#[test]
fn duplicate_shortcut_icons_only_add_one_payload() {
    let icon_path = "/tmp/cargo-crapapp-shortcut-icon-shared-1.ico".to_owned();
    let manifest = TargetManifest::new(
        "x86_64-pc-windows-gnu",
        &[String::from("example")],
        Some("$INSTALLPATH"),
        "bin",
        &[],
        &[
            ShortcutMapping {
                binary: "example".to_owned(),
                name: "Example 1".to_owned(),
                directory: None,
                icon: Some(icon_path.clone()),
            },
            ShortcutMapping {
                binary: "example".to_owned(),
                name: "Example 2".to_owned(),
                directory: None,
                icon: Some(icon_path.clone()),
            },
        ],
        &[true, true],
    )
    .expect("target manifest should build");

    let payload_count = manifest.files.iter().filter(|file| file.source == icon_path).count();
    assert_eq!(payload_count, 1);
}

#[test]
fn target_manifest_reports_conflicts_and_unknown_binaries() {
    let extra = vec![PayloadFile::data("other".to_owned(), "$INSTALLPATH/bin/example.exe".to_owned())];
    let conflict = TargetManifest::new("x86_64-pc-windows-gnu", &["example".to_owned()], Some("$INSTALLPATH"), "bin", &extra, &[], &[]);
    assert_eq!(
        conflict.unwrap_err().to_string(),
        "payload destination $INSTALLPATH/bin/example.exe is produced by both target/x86_64-pc-windows-gnu/release/example.exe and other"
    );
    let unknown = TargetManifest::new(
        "x86_64-unknown-linux-gnu",
        &["example".to_owned()],
        None,
        "bin",
        &[],
        &[ShortcutMapping { binary: "nope".to_owned(), name: "N".to_owned(), directory: None, icon: None }],
        &[false],
    );
    assert_eq!(unknown.unwrap_err().to_string(), "shortcut references unknown binary nope");
    let missing_icon = TargetManifest::new(
        "x86_64-pc-windows-gnu",
        &["example".to_owned()],
        None,
        "bin",
        &[],
        &[ShortcutMapping { binary: "example".to_owned(), name: "N".to_owned(), directory: None, icon: Some("icon.ico".to_owned()) }],
        &[false],
    );
    assert_eq!(missing_icon.unwrap_err().to_string(), "shortcut icon source icon.ico does not exist");
}
