use cargo_crapapp::services::icons::{svg_attribute, validate_icon, validate_icons, IconMapping};

#[test]
fn windows_icon_rejects_unknown_binary() {
    let icon = IconMapping {
        binary: "missing".to_owned(),
        source: "assets/icon.svg".to_owned(),
    };

    let error =
        validate_icon(&icon, &["example".to_owned()]).expect_err("unknown binary should fail");

    assert!(error.to_string().contains("unknown binary missing"));
}

#[test]
fn unknown_binary_message_lists_known_binaries() {
    let icon = IconMapping { binary: "b".to_owned(), source: "i.ico".to_owned() };
    let error = validate_icon(&icon, &["x".to_owned(), "y".to_owned()]).expect_err("unknown");
    assert_eq!(
        error.to_string(),
        "windows icon references unknown binary b. Known binaries: x, y"
    );
}

#[test]
fn icons_are_refused_outside_windows() {
    let icon = IconMapping { binary: "x".to_owned(), source: "i.ico".to_owned() };
    let error = validate_icons("linux", &[icon.clone()], &["x".to_owned()]).expect_err("linux icons");
    assert_eq!(error.to_string(), "linux icons are not supported");
    assert!(validate_icons("linux", &[], &["x".to_owned()]).is_ok());
    assert!(validate_icons("windows", &[icon], &["x".to_owned()]).is_ok());
}

#[test]
fn svg_attributes_are_read_between_quotes() {
    let svg = "<svg width=\"32\" height='48' viewBox=\"0 0 32 48\">";
    assert_eq!(svg_attribute(svg, "height"), Some("48".to_owned()));
    assert_eq!(svg_attribute(svg, "viewBox"), Some("0 0 32 48".to_owned()));
    assert_eq!(svg_attribute(svg, "depth"), None);
    assert_eq!(svg_attribute("<svg width=32>", "width"), None);
    assert_eq!(svg_attribute("<svg width=\"32>", "width"), None);
}
