use cargo_crapapp::manifest_file::{AssociatedFile, AssociatedFileKind, EulaFile};
use cargo_crapapp::services::build_variable::BuildVariable;
use cargo_crapapp::services::payload_file::PayloadFile;
use cargo_crapapp::services::platform_manifest::{BasicPlatformManifest, PlatformBuildManifest, WindowsPlatformManifest};
use cargo_crapapp::services::platform_manifests::windows_platform_manifest::WindowsPlatformManifest as ReportingWindowsManifest;
use cargo_crapapp::services::target_manifest::{Shortcut, TargetManifest};

fn target() -> TargetManifest {
    TargetManifest {
        target: "x86_64-pc-windows-msvc".to_owned(),
        files: vec![PayloadFile { source: "a.exe".to_owned(), destination: "bin/a.exe".to_owned(), executable: true }],
        shortcuts: vec![
            Shortcut { target: "bin/a.exe".to_owned(), name: "A".to_owned(), directory: Some("Tools".to_owned()) },
            Shortcut { target: "bin/a.exe".to_owned(), name: "B".to_owned(), directory: None },
        ],
    }
}

fn associated() -> Vec<AssociatedFile> {
    vec![AssociatedFile { path: "$HOMEPATH/.a".to_owned(), kind: AssociatedFileKind::Directory, eula_report: true }]
}

#[test]
fn basic_platform_report_lists_targets_and_files() {
    let p = PlatformBuildManifest::Linux(BasicPlatformManifest::new(
        "linux",
        vec![TargetManifest {
            target: "x86_64-unknown-linux-gnu".to_owned(),
            files: vec![PayloadFile { source: "a".to_owned(), destination: "bin/a".to_owned(), executable: false }],
            shortcuts: vec![],
        }],
    ));
    let mut out = String::new();
    p.write_text(&mut out);
    assert_eq!(out, "  linux\n    x86_64-unknown-linux-gnu\n      [-] a -> bin/a\n");
}

#[test]
fn windows_platform_report_lists_everything() {
    let p = WindowsPlatformManifest {
        platform: "windows".to_owned(),
        installer: None,
        display_icon: Some("icon.ico".to_owned()),
        display_icon_source: None,
        associated_files: associated(),
        eulas: vec![EulaFile::Path("LICENSE".to_owned())],
        variables: vec![BuildVariable::InstallPath],
        targets: vec![target()],
    };
    let mut out = String::new();
    p.write_text(&mut out);
    assert_eq!(
        out,
        "  windows\n    variables: INSTALLPATH\n    display icon: icon.ico\n    associated files:\n      Directory: $HOMEPATH/.a\n    eulas:\n      LICENSE (required)\n    x86_64-pc-windows-msvc\n      [x] a.exe -> bin/a.exe\n      shortcuts:\n        A -> bin/a.exe (Tools)\n        B -> bin/a.exe\n"
    );
}

#[test]
fn reporting_windows_manifest_marks_eula_report_files() {
    let p = ReportingWindowsManifest::new("windows", None, None, None, &associated(), &[], &[], &[], vec![]).unwrap();
    let mut out = String::new();
    p.write_text(&mut out);
    assert_eq!(out, "  windows\n    associated files:\n      Directory: $HOMEPATH/.a (EULA report)\n");
}
