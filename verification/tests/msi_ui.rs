use cargo_crapapp::windows_installer::msi::filename::{display_name_from_msi_filename, msi_filename};
use cargo_crapapp::windows_installer::config::{
    AssociatedFile, Eula, InstallerConfig, PayloadEntry, Shortcut,
};
use cargo_crapapp::windows_installer::msi::rows::Value;
use cargo_crapapp::windows_installer::msi::ui::{
    control_condition_rows, control_event_rows, control_rows, eula_rtf,
};

fn test_plan(
    payload: Vec<PayloadEntry>,
    associated_files: Vec<AssociatedFile>,
    shortcuts: Vec<Shortcut>,
    eulas: Vec<Eula>,
    display_icon: Option<String>,
    _display_icon_source: Option<String>,
) -> InstallerConfig {
    InstallerConfig {
        app_name: "example".to_owned(),
        app_version: "1.2.3".to_owned(),
        display_name: Some("Example App".to_owned()),
        publisher: Some("ufnkam".to_owned()),
        bundle_target: "x86_64-pc-windows-gnu".to_owned(),
        required_variables: vec!["INSTALLPATH".to_owned()],
        payload,
        associated_files,
        shortcuts,
        eulas,
        display_icon,
        ..Default::default()
    }
}

fn has_event(events: &[Vec<Value>], dialog: &str, control: &str, event: &str, argument: &str) -> bool {
    events.iter().any(|row| {
        row[0].as_str() == Some(dialog)
            && row[1].as_str() == Some(control)
            && row[2].as_str() == Some(event)
            && row[3].as_str() == Some(argument)
    })
}

#[test]
fn msi_skips_directory_selection_without_installpath_variable() {
    let mut plan = test_plan(Vec::new(), Vec::new(), Vec::new(), Vec::new(), None, None);
    plan.required_variables.clear();

    let events = control_event_rows(&plan, &[]);
    assert!(events.iter().any(|row| {
        row[0].as_str() == Some("WelcomeDlg")
            && row[1].as_str() == Some("Next")
            && row[2].as_str() == Some("NewDialog")
            && row[3].as_str() == Some("VerifyReadyDlg")
    }));
    assert!(events.iter().any(|row| {
        row[0].as_str() == Some("VerifyReadyDlg")
            && row[1].as_str() == Some("Back")
            && row[2].as_str() == Some("NewDialog")
            && row[3].as_str() == Some("WelcomeDlg")
    }));
}

#[test]
fn install_folder_dialog_follows_welcome_when_path_is_selectable() {
    let plan = test_plan(Vec::new(), Vec::new(), Vec::new(), Vec::new(), None, None);
    let events = control_event_rows(&plan, &[]);
    assert!(has_event(&events, "WelcomeDlg", "Next", "NewDialog", "InstallDirDlg"));
    assert!(has_event(&events, "VerifyReadyDlg", "Back", "NewDialog", "InstallDirDlg"));
    assert!(has_event(&events, "InstallDirDlg", "Back", "NewDialog", "WelcomeDlg"));
    assert_eq!(events.len(), 14);
}

#[test]
fn licenses_chain_between_welcome_and_settings() {
    let eulas = vec![
        Eula { name: "EULA.txt".to_owned(), text: "License terms".to_owned(), required: true },
        Eula { name: "NOTICE.txt".to_owned(), text: "Optional notice".to_owned(), required: false },
    ];
    let plan = test_plan(Vec::new(), Vec::new(), Vec::new(), eulas.clone(), None, None);
    let events = control_event_rows(&plan, &eulas);
    assert!(has_event(&events, "WelcomeDlg", "Next", "NewDialog", "LicenseDlg1"));
    assert!(has_event(&events, "LicenseDlg1", "Next", "NewDialog", "LicenseDlg2"));
    assert!(has_event(&events, "LicenseDlg2", "Back", "NewDialog", "LicenseDlg1"));
    assert!(has_event(&events, "LicenseDlg2", "Next", "NewDialog", "InstallDirDlg"));
    assert!(has_event(&events, "InstallDirDlg", "Back", "NewDialog", "LicenseDlg2"));
    let required_next = events
        .iter()
        .find(|row| row[0].as_str() == Some("LicenseDlg1") && row[1].as_str() == Some("Next"))
        .expect("license next event");
    assert_eq!(required_next[4].as_str(), Some("EULA_ACCEPTED_1=\"1\""));
    let optional_next = events
        .iter()
        .find(|row| row[0].as_str() == Some("LicenseDlg2") && row[1].as_str() == Some("Next"))
        .expect("license next event");
    assert_eq!(optional_next[4].as_str(), Some("1"));

    let conditions = control_condition_rows(&eulas);
    assert_eq!(conditions.len(), 2);
    assert_eq!(conditions[0][2].as_str(), Some("Disable"));
    assert_eq!(conditions[0][3].as_str(), Some("EULA_ACCEPTED_1<>\"1\""));
    assert_eq!(conditions[1][3].as_str(), Some("EULA_ACCEPTED_1=\"1\""));
}

#[test]
fn control_rows_enable_path_checkbox_only_with_path_entries() {
    let plan = test_plan(Vec::new(), Vec::new(), Vec::new(), Vec::new(), None, None);
    let without = control_rows(&plan, &[], &[]);
    let with = control_rows(&plan, &[], &["INSTALLFOLDER".to_owned()]);
    let checkbox = |rows: &Vec<Vec<Value>>| {
        rows.iter()
            .find(|row| row[1].as_str() == Some("AddToPath"))
            .map(|row| row[7].as_int())
            .expect("checkbox row")
    };
    assert_eq!(checkbox(&without), Some(1));
    assert_eq!(checkbox(&with), Some(3));
    assert_eq!(without.len(), 31);
    assert_eq!(
        without[0][9].as_str(),
        Some("{\\TitleFont}Welcome to the Example App Setup Wizard")
    );
}

#[test]
fn eula_text_is_escaped_as_rtf() {
    assert_eq!(
        eula_rtf("a{b}\\\n\tc\r"),
        "{\\rtf1\\ansi\\deff0{\\fonttbl{\\f0 Segoe UI;}}\\viewkind4\\uc1\\pard\\f0\\fs18 a\\{b\\}\\\\\\par\n\\tab c}"
    );
    assert_eq!(eula_rtf("  {\\rtf1 already}"), "  {\\rtf1 already}");
    assert!(eula_rtf("é").contains("\\u233?"));
    assert!(eula_rtf("😀").contains("\\u-10179?\\u-8704?"));
}

#[test]
fn msi_file_names_give_their_long_names_back() {
    let long = msi_filename("Example App");
    assert_eq!(long, "EXAMPL~1|Example App");
    assert_eq!(display_name_from_msi_filename(&long), "Example App");
    let reserved = msi_filename("A/B: C|D");
    assert_eq!(display_name_from_msi_filename(&reserved), "A-B- C-D");
    assert_eq!(msi_filename("APP.EXE"), "APP~1.EXE|APP.EXE");
    assert_eq!(msi_filename("README"), "README");
    assert_eq!(display_name_from_msi_filename("README"), "README");
}
