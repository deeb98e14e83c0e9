use cargo_crapapp::windows_installer::config::{Eula, InstallerConfig};
use cargo_crapapp::path_model::parent;
use cargo_crapapp::windows_installer::gui::flow::{header_title, process_available, Flow, Process, Screen};
use cargo_crapapp::windows_installer::gui::settings_screen::Settings;

#[test]
fn processes_depend_on_an_existing_installation() {
    assert!(process_available(Process::Installation, false));
    assert!(!process_available(Process::Uninstallation, false));
    assert!(process_available(Process::Reinstallation, true));
    assert!(process_available(Process::Uninstallation, true));
    assert!(!process_available(Process::Installation, true));
}

#[test]
fn installation_walks_through_each_license() {
    let mut flow = Flow::new(false, 2);
    assert_eq!(flow.process, Process::Installation);
    assert_eq!(flow.next_screen(Screen::Action, String::new()), None);
    assert!(matches!(flow.screen, Screen::Eula(0)));
    flow.next_screen(Screen::Eula(0), String::new());
    assert!(matches!(flow.screen, Screen::Eula(1)));
    flow.next_screen(Screen::Eula(1), String::new());
    assert!(matches!(flow.screen, Screen::Settings));
    assert_eq!(flow.next_screen(Screen::Settings, String::new()), Some(Process::Installation));
    assert!(matches!(flow.screen, Screen::Process(Process::Installation)));
    flow.next_screen(Screen::Process(Process::Installation), "done".to_owned());
    assert!(matches!(&flow.screen, Screen::Exit(m) if m == "done"));
    assert_eq!(flow.stack.len(), 5);
}

#[test]
fn uninstallation_skips_the_licenses() {
    let mut flow = Flow::new(true, 1);
    assert_eq!(flow.process, Process::Reinstallation);
    flow.select_process(Process::Uninstallation);
    assert_eq!(flow.process, Process::Uninstallation);
    flow.select_process(Process::Installation);
    assert_eq!(flow.process, Process::Uninstallation);
    flow.next_screen(Screen::Action, String::new());
    assert!(matches!(flow.screen, Screen::UninstallSettings));
    assert_eq!(flow.next_screen(Screen::UninstallSettings, String::new()), Some(Process::Uninstallation));
}

#[test]
fn going_back_and_cancelling() {
    let mut flow = Flow::new(false, 0);
    flow.next_screen(Screen::Action, String::new());
    assert!(matches!(flow.screen, Screen::Settings));
    flow.prev_screen();
    assert!(matches!(flow.screen, Screen::Action));
    assert!(flow.stack.is_empty());
    flow.cancel();
    assert!(matches!(&flow.screen, Screen::Exit(m) if m == "Installation has been canceled."));
}

#[test]
fn license_count_comes_from_the_configuration() {
    let config = InstallerConfig {
        eulas: vec![Eula { name: "L".to_owned(), text: "t".to_owned(), required: true }],
        ..Default::default()
    };
    assert_eq!(Flow::eula_count_of(Some(&config)), 1);
    assert_eq!(Flow::eula_count_of(None), 0);
    assert!(Flow::new(false, 1).has_eulas());
}

#[test]
fn header_title_names_the_product_and_version() {
    let config = InstallerConfig {
        app_name: "demo".to_owned(),
        app_version: " 1.2 ".to_owned(),
        display_name: Some(" Demo App ".to_owned()),
        ..Default::default()
    };
    assert_eq!(header_title("Install", Some(&config)), "Install Demo App 1.2");
    let unversioned = InstallerConfig { app_version: "  ".to_owned(), ..config };
    assert_eq!(header_title("Install", Some(&unversioned)), "Install Demo App");
    assert_eq!(header_title("Install", None), "Install windows-installer");
}

#[test]
fn going_back_after_going_on_returns_to_the_left_screen() {
    let mut flow = Flow::new(false, 1);
    flow.next_screen(Screen::Action, String::new());
    let depth = flow.stack.len();
    flow.next_screen(Screen::Eula(0), String::new());
    flow.prev_screen();
    assert!(matches!(flow.screen, Screen::Eula(0)));
    assert_eq!(flow.stack.len(), depth);
}

fn settings_at(path: &str) -> Settings {
    let mut settings = Settings::from_config(None, None, false);
    settings.install_path = path.to_owned();
    settings
}

fn configured(publisher: Option<&str>) -> InstallerConfig {
    InstallerConfig {
        app_name: "App".to_owned(),
        publisher: publisher.map(str::to_owned),
        ..Default::default()
    }
}

#[test]
fn browsing_then_choosing_the_offered_folder_restores_the_install_path() {
    let config = configured(Some("Pub"));
    let settings = settings_at("/opt//tools/Pub/App");
    let offered = settings.browse_directory(Some(&config)).unwrap();
    assert_eq!(offered, "/opt//tools");
    assert_eq!(settings.selected_install_path(&offered, Some(&config)), "/opt//tools/Pub/App");

    let without = configured(None);
    let settings = settings_at("./apps/App");
    let offered = settings.browse_directory(Some(&without)).unwrap();
    assert_eq!(offered, "./apps");
    assert_eq!(settings.selected_install_path(&offered, Some(&without)), "./apps/App");
}

#[test]
fn the_chosen_install_path_ends_in_the_publisher_and_application_folders() {
    let config = configured(Some("Pub"));
    let settings = settings_at("");
    let once = settings.selected_install_path("/opt", Some(&config));
    assert_eq!(once, "/opt/Pub/App");
    assert_eq!(settings.selected_install_path(&once, Some(&config)), once);
    assert_eq!(settings.selected_install_path("/opt/Pub", Some(&config)), "/opt/Pub/App");
    assert_eq!(settings.selected_install_path("/opt/Pub/App/", Some(&config)), "/opt/Pub/App/");
    assert_eq!(settings.selected_install_path("/opt", None), "/opt/windows-installer");
}

#[test]
fn the_parent_keeps_the_text_before_the_last_component() {
    assert_eq!(parent("/opt//tools/./Pub"), Some("/opt//tools".to_owned()));
    assert_eq!(parent("a"), Some(String::new()));
    assert_eq!(parent("/a"), Some("/".to_owned()));
    assert_eq!(parent("./a"), Some(".".to_owned()));
    assert_eq!(parent("a//b//"), Some("a".to_owned()));
    assert_eq!(parent("/"), None);
    assert_eq!(parent(""), None);
    assert_eq!(parent("."), Some(String::new()));
}

#[test]
fn browsing_past_a_trailing_dot_segment_offers_the_folder_before_it() {
    let config = configured(Some("Pub"));
    let settings = settings_at("x/./Pub/App");
    let offered = settings.browse_directory(Some(&config)).unwrap();
    assert_eq!(offered, "x");
    assert_eq!(settings.selected_install_path(&offered, Some(&config)), "x/Pub/App");
}
