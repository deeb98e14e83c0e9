//! The installer's user interface: the rows of the `Control`,
//! `ControlEvent`, `ControlCondition` and `Dialog` tables, and the license
//! text as RTF.
use vstd::prelude::*;

use crate::text::{concat2, concat3, decimal, first_non_ws, has_prefix, int_decimal,
    int_decimal_string, is_ascii_char, is_ascii_control_char, is_whitespace, is_whitespace_char,
    numbered, owned, push_char, push_str, starts_with};
use crate::windows_installer::config::{requires_variable, Eula, InstallerConfig};
use crate::windows_installer::msi::identity::{display_name, display_name_spec};
use crate::windows_installer::msi::rows::{append_rows, opt_cell, opt_text, push_row, row_view,
    rows_view, text, Value, ValueView};

verus! {

pub const ADD_TO_PATH_PROPERTY: &'static str = "ADD_TO_PATH";

pub const DIALOG_WIDTH: i32 = 520;

pub const DIALOG_HEIGHT: i32 = 360;

pub const FOOTER_LINE_Y: i32 = 316;

pub const FOOTER_BUTTON_Y: i32 = 328;

pub const BUTTON_WIDTH: i32 = 70;

pub const BUTTON_HEIGHT: i32 = 22;

pub const BACK_BUTTON_X: i32 = 270;

pub const CANCEL_BUTTON_X: i32 = 348;

pub const NEXT_BUTTON_X: i32 = 426;

/// A `Control` row: dialog, control, type, position, size, attributes,
/// property, text, and no next control or help.
pub open spec fn control_row_spec(
    dialog: Seq<char>,
    control: Seq<char>,
    control_type: Seq<char>,
    x: int,
    y: int,
    width: int,
    height: int,
    attributes: int,
    property: Option<Seq<char>>,
    text: Option<Seq<char>>,
) -> Seq<ValueView> {
    seq![
        ValueView::Str(dialog),
        ValueView::Str(control),
        ValueView::Str(control_type),
        ValueView::Int(x),
        ValueView::Int(y),
        ValueView::Int(width),
        ValueView::Int(height),
        ValueView::Int(attributes),
        opt_cell(property),
        opt_cell(text),
        ValueView::Null,
        ValueView::Null,
    ]
}

pub open spec fn text_spec(d: Seq<char>, c: Seq<char>, x: int, y: int, w: int, h: int, t: Seq<char>) -> Seq<ValueView> {
    control_row_spec(d, c, "Text"@, x, y, w, h, 1, None, Some(t))
}

pub open spec fn title_spec(d: Seq<char>, c: Seq<char>, x: int, y: int, w: int, h: int, t: Seq<char>) -> Seq<ValueView> {
    text_spec(d, c, x, y, w, h, "{\\TitleFont}"@ + t)
}

pub open spec fn heading_spec(d: Seq<char>, c: Seq<char>, x: int, y: int, w: int, h: int, t: Seq<char>) -> Seq<ValueView> {
    text_spec(d, c, x, y, w, h, "{\\HeadingFont}"@ + t)
}

pub open spec fn line_spec(d: Seq<char>) -> Seq<ValueView> {
    control_row_spec(d, "BottomLine"@, "Line"@, 0, 316, 520, 0, 1, None, None)
}

pub open spec fn button_spec(d: Seq<char>, c: Seq<char>, x: int, y: int, w: int, h: int, t: Seq<char>) -> Seq<ValueView> {
    control_row_spec(d, c, "PushButton"@, x, y, w, h, 3, None, Some(t))
}

pub open spec fn footer_spec(d: Seq<char>, c: Seq<char>, x: int, t: Seq<char>) -> Seq<ValueView> {
    button_spec(d, c, x, 328, 70, 22, t)
}

pub open spec fn checkbox_spec(d: Seq<char>, c: Seq<char>, x: int, y: int, w: int, h: int, p: Seq<char>, t: Seq<char>, enabled: bool) -> Seq<ValueView> {
    control_row_spec(d, c, "CheckBox"@, x, y, w, h, if enabled { 3 } else { 1 }, Some(p), Some(t))
}

pub open spec fn edit_spec(d: Seq<char>, c: Seq<char>, x: int, y: int, w: int, h: int, p: Seq<char>) -> Seq<ValueView> {
    control_row_spec(d, c, "Edit"@, x, y, w, h, 3, Some(p), None)
}

/// A `Control` row.
pub fn control_row(
    dialog: &str,
    control: &str,
    control_type: &str,
    x: i32,
    y: i32,
    width: i32,
    height: i32,
    attributes: i32,
    property: Option<&str>,
    text_value: Option<&str>,
) -> (r: Vec<Value>)
    ensures
        row_view(r) == control_row_spec(dialog@, control@, control_type@, x as int, y as int, width as int,
            height as int, attributes as int, match property {
            Some(p) => Some(p@),
            None => None,
        }, match text_value {
            Some(t) => Some(t@),
            None => None,
        }),
{
    let r = vec![
        text(dialog),
        text(control),
        text(control_type),
        Value::Int(x),
        Value::Int(y),
        Value::Int(width),
        Value::Int(height),
        Value::Int(attributes),
        opt_text(property),
        opt_text(text_value),
        Value::Null,
        Value::Null,
    ];
    assert(row_view(r) =~= control_row_spec(dialog@, control@, control_type@, x as int, y as int, width as int,
        height as int, attributes as int, match property {
        Some(p) => Some(p@),
        None => None,
    }, match text_value {
        Some(t) => Some(t@),
        None => None,
    }));
    r
}

/// A static text control.
pub fn text_control(dialog: &str, control: &str, x: i32, y: i32, width: i32, height: i32, t: &str) -> (r: Vec<Value>)
    ensures
        row_view(r) == text_spec(dialog@, control@, x as int, y as int, width as int, height as int, t@),
{
    control_row(dialog, control, "Text", x, y, width, height, 1, None, Some(t))
}

/// A text control in the title font.
pub fn title_control(dialog: &str, control: &str, x: i32, y: i32, width: i32, height: i32, t: &str) -> (r: Vec<Value>)
    ensures
        row_view(r) == title_spec(dialog@, control@, x as int, y as int, width as int, height as int, t@),
{
    let styled = concat2("{\\TitleFont}", t);
    text_control(dialog, control, x, y, width, height, styled.as_str())
}

/// A text control in the heading font.
pub fn heading_control(dialog: &str, control: &str, x: i32, y: i32, width: i32, height: i32, t: &str) -> (r: Vec<Value>)
    ensures
        row_view(r) == heading_spec(dialog@, control@, x as int, y as int, width as int, height as int, t@),
{
    let styled = concat2("{\\HeadingFont}", t);
    text_control(dialog, control, x, y, width, height, styled.as_str())
}

/// The line above a dialog's footer buttons.
pub fn line_control(dialog: &str) -> (r: Vec<Value>)
    ensures
        row_view(r) == line_spec(dialog@),
{
    control_row(dialog, "BottomLine", "Line", 0, FOOTER_LINE_Y, DIALOG_WIDTH, 0, 1, None, None)
}

/// A push button.
pub fn button_control(dialog: &str, control: &str, x: i32, y: i32, width: i32, height: i32, t: &str) -> (r: Vec<Value>)
    ensures
        row_view(r) == button_spec(dialog@, control@, x as int, y as int, width as int, height as int, t@),
{
    control_row(dialog, control, "PushButton", x, y, width, height, 3, None, Some(t))
}

/// A push button in a dialog's footer.
pub fn footer_button(dialog: &str, control: &str, x: i32, t: &str) -> (r: Vec<Value>)
    ensures
        row_view(r) == footer_spec(dialog@, control@, x as int, t@),
{
    button_control(dialog, control, x, FOOTER_BUTTON_Y, BUTTON_WIDTH, BUTTON_HEIGHT, t)
}

/// A check box bound to a property; disabled unless `enabled`.
pub fn checkbox_control(dialog: &str, control: &str, x: i32, y: i32, width: i32, height: i32, property: &str, t: &str, enabled: bool) -> (r: Vec<Value>)
    ensures
        row_view(r) == checkbox_spec(dialog@, control@, x as int, y as int, width as int, height as int, property@, t@, enabled),
{
    control_row(dialog, control, "CheckBox", x, y, width, height, if enabled { 3 } else { 1 }, Some(property), Some(t))
}

/// An edit box bound to a property.
pub fn edit_control(dialog: &str, control: &str, x: i32, y: i32, width: i32, height: i32, property: &str) -> (r: Vec<Value>)
    ensures
        row_view(r) == edit_spec(dialog@, control@, x as int, y as int, width as int, height as int, property@),
{
    control_row(dialog, control, "Edit", x, y, width, height, 3, Some(property), None)
}

/// The identifier of the license dialog at `index`: `LicenseDlg1` for the first.
pub open spec fn license_dialog_spec(index: nat) -> Seq<char> {
    "LicenseDlg"@ + decimal(index + 1)
}

/// The property that records acceptance of the license at `index`.
pub open spec fn eula_property_spec(index: nat) -> Seq<char> {
    "EULA_ACCEPTED_"@ + decimal(index + 1)
}

pub fn license_dialog_id(index: usize) -> (r: String)
    requires
        index < usize::MAX,
    ensures
        r@ == license_dialog_spec(index as nat),
{
    numbered("LicenseDlg", index + 1)
}

pub fn eula_property(index: usize) -> (r: String)
    requires
        index < usize::MAX,
    ensures
        r@ == eula_property_spec(index as nat),
{
    numbered("EULA_ACCEPTED_", index + 1)
}

/// The RTF preamble of a license converted from plain text.
pub const RTF_HEADER: &'static str = "{\\rtf1\\ansi\\deff0{\\fonttbl{\\f0 Segoe UI;}}\\viewkind4\\uc1\\pard\\f0\\fs18 ";

/// The UTF-16 code units of a character.
pub open spec fn utf16_units(c: char) -> Seq<int> {
    let u = c as u32 as int;
    if u < 0x10000 {
        seq![u]
    } else {
        seq![0xD800 + (u - 0x10000) / 1024, 0xDC00 + (u - 0x10000) % 1024]
    }
}

/// An RTF `\uN?` escape of one UTF-16 unit, `N` being the unit read as a
/// signed 16-bit number.
pub open spec fn unit_escape(unit: int) -> Seq<char> {
    "\\u"@ + int_decimal(if unit >= 32768 { unit - 65536 } else { unit }) + "?"@
}

/// How one character of plain license text is written in RTF.
pub open spec fn rtf_char(c: char) -> Seq<char> {
    if c == '\\' {
        "\\\\"@
    } else if c == '{' {
        "\\{"@
    } else if c == '}' {
        "\\}"@
    } else if c == '\r' {
        Seq::empty()
    } else if c == '\n' {
        "\\par\n"@
    } else if c == '\t' {
        "\\tab "@
    } else if is_ascii_control_char(c) {
        Seq::empty()
    } else if is_ascii_char(c) {
        seq![c]
    } else if utf16_units(c).len() == 1 {
        unit_escape(utf16_units(c)[0])
    } else {
        unit_escape(utf16_units(c)[0]) + unit_escape(utf16_units(c)[1])
    }
}

pub open spec fn rtf_body(s: Seq<char>) -> Seq<char>
    decreases s.len(),
{
    if s.len() == 0 {
        Seq::empty()
    } else {
        rtf_body(s.drop_last()) + rtf_char(s.last())
    }
}

/// A license text as RTF: text that already is RTF (after leading white
/// space) is kept; plain text gets the preamble, escapes, and a closing brace.
pub open spec fn eula_rtf_spec(t: Seq<char>) -> Seq<char> {
    if starts_with(t.skip(first_non_ws(t) as int), "{\\rtf"@) {
        t
    } else {
        RTF_HEADER@ + rtf_body(t) + "}"@
    }
}

fn push_unit_escape(out: &mut String, unit: u32)
    requires
        unit < 65536,
    ensures
        final(out)@ == old(out)@ + unit_escape(unit as int),
{
    let signed: i32 = if unit >= 32768 { unit as i32 - 65536 } else { unit as i32 };
    push_str(out, "\\u");
    let digits = int_decimal_string(signed);
    push_str(out, digits.as_str());
    push_str(out, "?");
}

fn push_rtf_char(out: &mut String, c: char)
    ensures
        final(out)@ == old(out)@ + rtf_char(c),
{
    if c == '\\' {
        push_str(out, "\\\\");
    } else if c == '{' {
        push_str(out, "\\{");
    } else if c == '}' {
        push_str(out, "\\}");
    } else if c == '\r' {
        assert(old(out)@ + Seq::<char>::empty() == old(out)@);
    } else if c == '\n' {
        push_str(out, "\\par\n");
    } else if c == '\t' {
        push_str(out, "\\tab ");
    } else if (c as u32) < 32 || (c as u32) == 127 {
        assert(old(out)@ + Seq::<char>::empty() == old(out)@);
    } else if (c as u32) < 128 {
        push_char(out, c);
    } else {
        let u = c as u32;
        if u < 0x10000 {
            push_unit_escape(out, u);
        } else {
            let v = u - 0x10000;
            push_unit_escape(out, 0xD800 + v / 1024);
            push_unit_escape(out, 0xDC00 + v % 1024);
        }
    }
}

/// A license text as RTF, for the license dialog's scrollable text.
pub fn eula_rtf(t: &str) -> (r: String)
    ensures
        r@ == eula_rtf_spec(t@),
{
    let v = crate::text::chars_of(t);
    let n = v.len();
    let mut i: usize = 0;
    assert(t@.skip(0) == t@);
    while i < n && is_whitespace(v[i])
        invariant
            v@ == t@,
            n == v@.len(),
            i <= n,
            first_non_ws(t@) == i + first_non_ws(t@.skip(i as int)),
        decreases n - i,
    {
        assert(t@.skip(i as int).drop_first() == t@.skip(i + 1));
        i = i + 1;
    }
    assert(i < n ==> t@.skip(i as int)[0] == v@[i as int]);
    assert(first_non_ws(t@.skip(i as int)) == 0);
    let rest = crate::text::string_from_range(&v, i, n);
    assert(rest@ == t@.skip(i as int));
    if has_prefix(rest.as_str(), "{\\rtf") {
        return owned(t);
    }
    let mut out = owned(RTF_HEADER);
    let mut k: usize = 0;
    assert(t@.take(0) == Seq::<char>::empty());
    while k < n
        invariant
            v@ == t@,
            n == v@.len(),
            k <= n,
            out@ == RTF_HEADER@ + rtf_body(t@.take(k as int)),
        decreases n - k,
    {
        push_rtf_char(&mut out, v[k]);
        assert(t@.take(k + 1).drop_last() == t@.take(k as int));
        k = k + 1;
    }
    assert(t@.take(n as int) == t@);
    push_str(&mut out, "}");
    out
}

pub open spec fn welcome_rows_spec(d: Seq<char>, version: Seq<char>) -> Seq<Seq<ValueView>> {
    seq![
        title_spec("WelcomeDlg"@, "Title"@, 24, 24, 472, 40, "Welcome to the "@ + d + " Setup Wizard"@),
        text_spec("WelcomeDlg"@, "Body"@, 24, 82, 472, 80, "\nThis wizard will install "@ + d + " "@ + version + " on your computer."@),
        line_spec("WelcomeDlg"@),
        footer_spec("WelcomeDlg"@, "Cancel"@, 348, "Cancel"@),
        footer_spec("WelcomeDlg"@, "Next"@, 426, "Next"@),
    ]
}

pub open spec fn install_dir_rows_spec(d: Seq<char>, add_to_path: bool) -> Seq<Seq<ValueView>> {
    seq![
        title_spec("InstallDirDlg"@, "Title"@, 24, 24, 472, 40, "Choose where to install "@ + d),
        text_spec("InstallDirDlg"@, "Body"@, 24, 72, 472, 32, "Choose the directory to where application will be installed."@),
        heading_spec("InstallDirDlg"@, "PathLabel"@, 44, 122, 432, 18, "Installation folder"@),
        edit_spec("InstallDirDlg"@, "PathEdit"@, 44, 150, 344, 18, "INSTALLFOLDER"@),
        button_spec("InstallDirDlg"@, "Browse"@, 396, 148, 80, 22, "Browse..."@),
        checkbox_spec("InstallDirDlg"@, "AddToPath"@, 44, 198, 432, 20, "ADD_TO_PATH"@, "Add to PATH"@, add_to_path),
        line_spec("InstallDirDlg"@),
        footer_spec("InstallDirDlg"@, "Back"@, 270, "Back"@),
        footer_spec("InstallDirDlg"@, "Cancel"@, 348, "Cancel"@),
        footer_spec("InstallDirDlg"@, "Next"@, 426, "Next"@),
    ]
}

pub open spec fn ready_rows_spec(d: Seq<char>) -> Seq<Seq<ValueView>> {
    seq![
        title_spec("VerifyReadyDlg"@, "Title"@, 24, 24, 472, 40, "Ready to install "@ + d),
        text_spec("VerifyReadyDlg"@, "Body"@, 24, 82, 472, 60, "Click Install to begin installation."@),
        line_spec("VerifyReadyDlg"@),
        footer_spec("VerifyReadyDlg"@, "Back"@, 270, "Back"@),
        footer_spec("VerifyReadyDlg"@, "Cancel"@, 348, "Cancel"@),
        footer_spec("VerifyReadyDlg"@, "Install"@, 426, "Install"@),
    ]
}

pub open spec fn progress_rows_spec(d: Seq<char>, version: Seq<char>) -> Seq<Seq<ValueView>> {
    seq![
        title_spec("ProgressDlg"@, "Title"@, 24, 24, 472, 40, "Installing "@ + d),
        text_spec("ProgressDlg"@, "Version"@, 24, 78, 472, 22, "Version "@ + version),
        text_spec("ProgressDlg"@, "ActionText"@, 24, 122, 472, 24, "Preparing installation..."@),
        control_row_spec("ProgressDlg"@, "Progress"@, "ProgressBar"@, 24, 158, 472, 18, 1, None, None),
        line_spec("ProgressDlg"@),
        footer_spec("ProgressDlg"@, "Cancel"@, 426, "Cancel"@),
    ]
}

pub open spec fn exit_rows_spec(d: Seq<char>) -> Seq<Seq<ValueView>> {
    seq![
        title_spec("ExitDlg"@, "Title"@, 24, 24, 472, 40, "Completed the Setup Wizard for "@ + d),
        text_spec("ExitDlg"@, "Body"@, 24, 82, 472, 60, "Installation completed successfully."@),
        line_spec("ExitDlg"@),
        footer_spec("ExitDlg"@, "Finish"@, 426, "Finish"@),
    ]
}

/// The controls of the license dialog at `index` of `count` licenses.
pub open spec fn license_rows_spec(index: nat, count: nat, eula: Eula) -> Seq<Seq<ValueView>> {
    let dlg = license_dialog_spec(index);
    seq![
        title_spec(dlg, "Title"@, 24, 20, 472, 34, "License agreement "@ + decimal(index + 1) + " of "@ + decimal(count)),
        heading_spec(dlg, "Name"@, 24, 58, 472, 20, eula.name@),
        control_row_spec(dlg, "LicenseText"@, "ScrollableText"@, 24, 86, 472, 174, 7, None, Some(eula_rtf_spec(eula.text@))),
        line_spec(dlg),
        footer_spec(dlg, "Back"@, 270, "Back"@),
        footer_spec(dlg, "Cancel"@, 348, "Cancel"@),
        footer_spec(dlg, "Next"@, 426, "Next"@),
        checkbox_spec(dlg, "Accept"@, 24, 272, 472, 22, eula_property_spec(index), "I accept "@ + eula.name@, true),
    ]
}

/// The license dialogs' controls for the first `k` of `eulas`.
pub open spec fn licenses_rows_spec(eulas: Seq<Eula>, k: nat) -> Seq<Seq<ValueView>>
    decreases k,
{
    if k == 0 {
        Seq::empty()
    } else {
        licenses_rows_spec(eulas, (k - 1) as nat) + license_rows_spec((k - 1) as nat, eulas.len(), eulas[k - 1])
    }
}

/// Every row of the `Control` table: the welcome, install-folder, ready,
/// progress and completion dialogs, then one dialog per license.
pub open spec fn control_rows_spec(config: InstallerConfig, eulas: Seq<Eula>, add_to_path: bool) -> Seq<Seq<ValueView>> {
    let d = display_name_spec(config);
    welcome_rows_spec(d, config.app_version@) + install_dir_rows_spec(d, add_to_path) + ready_rows_spec(d)
        + progress_rows_spec(d, config.app_version@) + exit_rows_spec(d) + licenses_rows_spec(eulas, eulas.len())
}

fn welcome_rows(d: &str, version: &str) -> (r: Vec<Vec<Value>>)
    ensures
        rows_view(r@) == welcome_rows_spec(d@, version@),
{
    let mut rows: Vec<Vec<Value>> = Vec::new();
    let title = concat3("Welcome to the ", d, " Setup Wizard");
    let mut body = concat3("\nThis wizard will install ", d, " ");
    push_str(&mut body, version);
    push_str(&mut body, " on your computer.");
    push_row(&mut rows, title_control("WelcomeDlg", "Title", 24, 24, 472, 40, title.as_str()));
    push_row(&mut rows, text_control("WelcomeDlg", "Body", 24, 82, 472, 80, body.as_str()));
    push_row(&mut rows, line_control("WelcomeDlg"));
    push_row(&mut rows, footer_button("WelcomeDlg", "Cancel", CANCEL_BUTTON_X, "Cancel"));
    push_row(&mut rows, footer_button("WelcomeDlg", "Next", NEXT_BUTTON_X, "Next"));
    assert(rows_view(rows@) =~= welcome_rows_spec(d@, version@));
    rows
}

fn install_dir_rows(d: &str, add_to_path: bool) -> (r: Vec<Vec<Value>>)
    ensures
        rows_view(r@) == install_dir_rows_spec(d@, add_to_path),
{
    let mut rows: Vec<Vec<Value>> = Vec::new();
    let title = concat2("Choose where to install ", d);
    push_row(&mut rows, title_control("InstallDirDlg", "Title", 24, 24, 472, 40, title.as_str()));
    push_row(&mut rows, text_control("InstallDirDlg", "Body", 24, 72, 472, 32, "Choose the directory to where application will be installed."));
    push_row(&mut rows, heading_control("InstallDirDlg", "PathLabel", 44, 122, 432, 18, "Installation folder"));
    push_row(&mut rows, edit_control("InstallDirDlg", "PathEdit", 44, 150, 344, 18, "INSTALLFOLDER"));
    push_row(&mut rows, button_control("InstallDirDlg", "Browse", 396, 148, 80, 22, "Browse..."));
    push_row(&mut rows, checkbox_control("InstallDirDlg", "AddToPath", 44, 198, 432, 20, ADD_TO_PATH_PROPERTY, "Add to PATH", add_to_path));
    push_row(&mut rows, line_control("InstallDirDlg"));
    push_row(&mut rows, footer_button("InstallDirDlg", "Back", BACK_BUTTON_X, "Back"));
    push_row(&mut rows, footer_button("InstallDirDlg", "Cancel", CANCEL_BUTTON_X, "Cancel"));
    push_row(&mut rows, footer_button("InstallDirDlg", "Next", NEXT_BUTTON_X, "Next"));
    assert(rows_view(rows@) =~= install_dir_rows_spec(d@, add_to_path));
    rows
}

fn ready_rows(d: &str) -> (r: Vec<Vec<Value>>)
    ensures
        rows_view(r@) == ready_rows_spec(d@),
{
    let mut rows: Vec<Vec<Value>> = Vec::new();
    let title = concat2("Ready to install ", d);
    push_row(&mut rows, title_control("VerifyReadyDlg", "Title", 24, 24, 472, 40, title.as_str()));
    push_row(&mut rows, text_control("VerifyReadyDlg", "Body", 24, 82, 472, 60, "Click Install to begin installation."));
    push_row(&mut rows, line_control("VerifyReadyDlg"));
    push_row(&mut rows, footer_button("VerifyReadyDlg", "Back", BACK_BUTTON_X, "Back"));
    push_row(&mut rows, footer_button("VerifyReadyDlg", "Cancel", CANCEL_BUTTON_X, "Cancel"));
    push_row(&mut rows, footer_button("VerifyReadyDlg", "Install", NEXT_BUTTON_X, "Install"));
    assert(rows_view(rows@) =~= ready_rows_spec(d@));
    rows
}

fn progress_rows(d: &str, version: &str) -> (r: Vec<Vec<Value>>)
    ensures
        rows_view(r@) == progress_rows_spec(d@, version@),
{
    let mut rows: Vec<Vec<Value>> = Vec::new();
    let title = concat2("Installing ", d);
    let version_text = concat2("Version ", version);
    push_row(&mut rows, title_control("ProgressDlg", "Title", 24, 24, 472, 40, title.as_str()));
    push_row(&mut rows, text_control("ProgressDlg", "Version", 24, 78, 472, 22, version_text.as_str()));
    push_row(&mut rows, text_control("ProgressDlg", "ActionText", 24, 122, 472, 24, "Preparing installation..."));
    push_row(&mut rows, control_row("ProgressDlg", "Progress", "ProgressBar", 24, 158, 472, 18, 1, None, None));
    push_row(&mut rows, line_control("ProgressDlg"));
    push_row(&mut rows, footer_button("ProgressDlg", "Cancel", NEXT_BUTTON_X, "Cancel"));
    assert(rows_view(rows@) =~= progress_rows_spec(d@, version@));
    rows
}

fn exit_rows(d: &str) -> (r: Vec<Vec<Value>>)
    ensures
        rows_view(r@) == exit_rows_spec(d@),
{
    let mut rows: Vec<Vec<Value>> = Vec::new();
    let title = concat2("Completed the Setup Wizard for ", d);
    push_row(&mut rows, title_control("ExitDlg", "Title", 24, 24, 472, 40, title.as_str()));
    push_row(&mut rows, text_control("ExitDlg", "Body", 24, 82, 472, 60, "Installation completed successfully."));
    push_row(&mut rows, line_control("ExitDlg"));
    push_row(&mut rows, footer_button("ExitDlg", "Finish", NEXT_BUTTON_X, "Finish"));
    assert(rows_view(rows@) =~= exit_rows_spec(d@));
    rows
}

fn license_rows(index: usize, count: usize, eula: &Eula) -> (r: Vec<Vec<Value>>)
    requires
        index < count,
    ensures
        rows_view(r@) == license_rows_spec(index as nat, count as nat, *eula),
{
    let dialog = license_dialog_id(index);
    let dlg = dialog.as_str();
    let mut position = numbered("License agreement ", index + 1);
    let total = numbered(" of ", count);
    push_str(&mut position, total.as_str());
    assert(position@ =~= "License agreement "@ + decimal(index as nat + 1) + " of "@ + decimal(count as nat));
    let rtf = eula_rtf(eula.text.as_str());
    let property = eula_property(index);
    let accept = concat2("I accept ", eula.name.as_str());
    let mut rows: Vec<Vec<Value>> = Vec::new();
    push_row(&mut rows, title_control(dlg, "Title", 24, 20, 472, 34, position.as_str()));
    push_row(&mut rows, heading_control(dlg, "Name", 24, 58, 472, 20, eula.name.as_str()));
    push_row(&mut rows, control_row(dlg, "LicenseText", "ScrollableText", 24, 86, 472, 174, 7, None, Some(rtf.as_str())));
    push_row(&mut rows, line_control(dlg));
    push_row(&mut rows, footer_button(dlg, "Back", BACK_BUTTON_X, "Back"));
    push_row(&mut rows, footer_button(dlg, "Cancel", CANCEL_BUTTON_X, "Cancel"));
    push_row(&mut rows, footer_button(dlg, "Next", NEXT_BUTTON_X, "Next"));
    push_row(&mut rows, checkbox_control(dlg, "Accept", 24, 272, 472, 22, property.as_str(), accept.as_str(), true));
    assert(rows_view(rows@) =~= license_rows_spec(index as nat, count as nat, *eula));
    rows
}

/// Every row of the `Control` table; the add-to-PATH check box is enabled
/// only when there are PATH entries to add.
pub fn control_rows(plan: &InstallerConfig, eulas: &[Eula], path_updates: &[String]) -> (r: Vec<Vec<Value>>)
    ensures
        rows_view(r@) == control_rows_spec(*plan, eulas@, path_updates@.len() > 0),
{
    let d = display_name(plan);
    let mut rows = welcome_rows(d, plan.app_version.as_str());
    append_rows(&mut rows, install_dir_rows(d, path_updates.len() > 0));
    append_rows(&mut rows, ready_rows(d));
    append_rows(&mut rows, progress_rows(d, plan.app_version.as_str()));
    append_rows(&mut rows, exit_rows(d));
    let ghost fixed = rows_view(rows@);
    let mut i: usize = 0;
    while i < eulas.len()
        invariant
            i <= eulas@.len(),
            rows_view(rows@) == fixed + licenses_rows_spec(eulas@, i as nat),
        decreases eulas@.len() - i,
    {
        append_rows(&mut rows, license_rows(i, eulas.len(), &eulas[i]));
        assert(fixed + licenses_rows_spec(eulas@, i as nat) + license_rows_spec(i as nat, eulas@.len(), eulas@[i as int])
            =~= fixed + licenses_rows_spec(eulas@, (i + 1) as nat));
        i = i + 1;
    }
    rows
}

/// A `ControlEvent` row.
pub open spec fn event_spec(dialog: Seq<char>, control: Seq<char>, event: Seq<char>, argument: Seq<char>, condition: Seq<char>, ordering: int) -> Seq<ValueView> {
    seq![
        ValueView::Str(dialog),
        ValueView::Str(control),
        ValueView::Str(event),
        ValueView::Str(argument),
        ValueView::Str(condition),
        ValueView::Int(ordering),
    ]
}

/// A `ControlEvent` row.
pub fn event_row(dialog: &str, control: &str, event: &str, argument: &str, condition: &str, ordering: i32) -> (r: Vec<Value>)
    ensures
        row_view(r) == event_spec(dialog@, control@, event@, argument@, condition@, ordering as int),
{
    let r = vec![text(dialog), text(control), text(event), text(argument), text(condition), Value::Int(ordering)];
    assert(row_view(r) =~= event_spec(dialog@, control@, event@, argument@, condition@, ordering as int));
    r
}

/// The first dialog after the licenses: the install folder when the path
/// can be chosen, else the ready dialog.
pub open spec fn first_non_license_spec(allows: bool) -> Seq<char> {
    if allows { "InstallDirDlg"@ } else { "VerifyReadyDlg"@ }
}

/// The navigation of the license dialog at `index` of `count`: back to the
/// previous license or the welcome dialog, next to the following license or
/// the first dialog after the licenses (only once a required license is
/// accepted), and cancel.
pub open spec fn license_events_spec(index: nat, count: nat, eula: Eula, allows: bool) -> Seq<Seq<ValueView>> {
    let dlg = license_dialog_spec(index);
    let previous = if index == 0 { "WelcomeDlg"@ } else { license_dialog_spec((index - 1) as nat) };
    let next = if index + 1 < count { license_dialog_spec(index + 1) } else { first_non_license_spec(allows) };
    let condition = if eula.required { eula_property_spec(index) + "=\"1\""@ } else { "1"@ };
    seq![
        event_spec(dlg, "Back"@, "NewDialog"@, previous, "1"@, 1),
        event_spec(dlg, "Next"@, "NewDialog"@, next, condition, 1),
        event_spec(dlg, "Cancel"@, "EndDialog"@, "Exit"@, "1"@, 1),
    ]
}

pub open spec fn licenses_events_spec(eulas: Seq<Eula>, k: nat, allows: bool) -> Seq<Seq<ValueView>>
    decreases k,
{
    if k == 0 {
        Seq::empty()
    } else {
        licenses_events_spec(eulas, (k - 1) as nat, allows) + license_events_spec((k - 1) as nat, eulas.len(), eulas[k - 1], allows)
    }
}

/// The navigation after the licenses; `back` is where the install-folder
/// dialog's Back goes (the last license, else the welcome dialog).
pub open spec fn settings_events_spec(back: Seq<char>, allows: bool) -> Seq<Seq<ValueView>> {
    seq![
        event_spec("InstallDirDlg"@, "Back"@, "NewDialog"@, back, "1"@, 1),
        event_spec("InstallDirDlg"@, "Browse"@, "DoAction"@, "PickInstallFolder"@, "1"@, 1),
        event_spec("InstallDirDlg"@, "Browse"@, "SetTargetPath"@, "INSTALLFOLDER"@, "1"@, 2),
        event_spec("InstallDirDlg"@, "Browse"@, "[INSTALLFOLDER]"@, "[INSTALLFOLDER]"@, "1"@, 3),
        event_spec("InstallDirDlg"@, "Next"@, "SetTargetPath"@, "INSTALLFOLDER"@, "1"@, 1),
        event_spec("InstallDirDlg"@, "Next"@, "NewDialog"@, "VerifyReadyDlg"@, "1"@, 2),
        event_spec("InstallDirDlg"@, "Cancel"@, "EndDialog"@, "Exit"@, "1"@, 1),
        event_spec("VerifyReadyDlg"@, "Back"@, "NewDialog"@, if allows { "InstallDirDlg"@ } else { back }, "1"@, 1),
        event_spec("VerifyReadyDlg"@, "Install"@, "EndDialog"@, "Return"@, "1"@, 1),
        event_spec("VerifyReadyDlg"@, "Cancel"@, "EndDialog"@, "Exit"@, "1"@, 1),
        event_spec("ProgressDlg"@, "Cancel"@, "EndDialog"@, "Exit"@, "1"@, 1),
        event_spec("ExitDlg"@, "Finish"@, "EndDialog"@, "Return"@, "1"@, 1),
    ]
}

/// Every row of the `ControlEvent` table: the welcome dialog leads to the
/// first license, else to the install folder when the path can be chosen,
/// else to the ready dialog; the licenses chain in order; then the rest.
pub open spec fn control_events_spec(allows: bool, eulas: Seq<Eula>) -> Seq<Seq<ValueView>> {
    let first = if eulas.len() > 0 { license_dialog_spec(0) } else { first_non_license_spec(allows) };
    let back = if eulas.len() > 0 { license_dialog_spec((eulas.len() - 1) as nat) } else { "WelcomeDlg"@ };
    seq![
        event_spec("WelcomeDlg"@, "Next"@, "NewDialog"@, first, "1"@, 1),
        event_spec("WelcomeDlg"@, "Cancel"@, "EndDialog"@, "Exit"@, "1"@, 1),
    ] + licenses_events_spec(eulas, eulas.len(), allows) + settings_events_spec(back, allows)
}

fn license_events(index: usize, count: usize, eula: &Eula, allows: bool) -> (r: Vec<Vec<Value>>)
    requires
        index < count,
    ensures
        rows_view(r@) == license_events_spec(index as nat, count as nat, *eula, allows),
{
    let dialog = license_dialog_id(index);
    let previous = if index == 0 { owned("WelcomeDlg") } else { license_dialog_id(index - 1) };
    let next = if index + 1 < count {
        license_dialog_id(index + 1)
    } else if allows {
        owned("InstallDirDlg")
    } else {
        owned("VerifyReadyDlg")
    };
    let condition = if eula.required {
        let p = eula_property(index);
        concat2(p.as_str(), "=\"1\"")
    } else {
        owned("1")
    };
    let mut rows: Vec<Vec<Value>> = Vec::new();
    push_row(&mut rows, event_row(dialog.as_str(), "Back", "NewDialog", previous.as_str(), "1", 1));
    push_row(&mut rows, event_row(dialog.as_str(), "Next", "NewDialog", next.as_str(), condition.as_str(), 1));
    push_row(&mut rows, event_row(dialog.as_str(), "Cancel", "EndDialog", "Exit", "1", 1));
    assert(rows_view(rows@) =~= license_events_spec(index as nat, count as nat, *eula, allows));
    rows
}

fn settings_events(back: &str, allows: bool) -> (r: Vec<Vec<Value>>)
    ensures
        rows_view(r@) == settings_events_spec(back@, allows),
{
    let mut rows: Vec<Vec<Value>> = Vec::new();
    push_row(&mut rows, event_row("InstallDirDlg", "Back", "NewDialog", back, "1", 1));
    push_row(&mut rows, event_row("InstallDirDlg", "Browse", "DoAction", "PickInstallFolder", "1", 1));
    push_row(&mut rows, event_row("InstallDirDlg", "Browse", "SetTargetPath", "INSTALLFOLDER", "1", 2));
    push_row(&mut rows, event_row("InstallDirDlg", "Browse", "[INSTALLFOLDER]", "[INSTALLFOLDER]", "1", 3));
    push_row(&mut rows, event_row("InstallDirDlg", "Next", "SetTargetPath", "INSTALLFOLDER", "1", 1));
    push_row(&mut rows, event_row("InstallDirDlg", "Next", "NewDialog", "VerifyReadyDlg", "1", 2));
    push_row(&mut rows, event_row("InstallDirDlg", "Cancel", "EndDialog", "Exit", "1", 1));
    let ready_back = if allows { "InstallDirDlg" } else { back };
    push_row(&mut rows, event_row("VerifyReadyDlg", "Back", "NewDialog", ready_back, "1", 1));
    push_row(&mut rows, event_row("VerifyReadyDlg", "Install", "EndDialog", "Return", "1", 1));
    push_row(&mut rows, event_row("VerifyReadyDlg", "Cancel", "EndDialog", "Exit", "1", 1));
    push_row(&mut rows, event_row("ProgressDlg", "Cancel", "EndDialog", "Exit", "1", 1));
    push_row(&mut rows, event_row("ExitDlg", "Finish", "EndDialog", "Return", "1", 1));
    assert(rows_view(rows@) =~= settings_events_spec(back@, allows));
    rows
}

/// Every row of the `ControlEvent` table.
pub fn control_event_rows(plan: &InstallerConfig, eulas: &[Eula]) -> (r: Vec<Vec<Value>>)
    ensures
        rows_view(r@) == control_events_spec(requires_variable(plan.required_variables@, "INSTALLPATH"@), eulas@),
{
    let allows = plan.allows_install_path_selection();
    let first = if eulas.len() > 0 {
        license_dialog_id(0)
    } else if allows {
        owned("InstallDirDlg")
    } else {
        owned("VerifyReadyDlg")
    };
    let mut rows: Vec<Vec<Value>> = Vec::new();
    push_row(&mut rows, event_row("WelcomeDlg", "Next", "NewDialog", first.as_str(), "1", 1));
    push_row(&mut rows, event_row("WelcomeDlg", "Cancel", "EndDialog", "Exit", "1", 1));
    let ghost head = rows_view(rows@);
    let mut i: usize = 0;
    while i < eulas.len()
        invariant
            i <= eulas@.len(),
            rows_view(rows@) == head + licenses_events_spec(eulas@, i as nat, allows),
        decreases eulas@.len() - i,
    {
        append_rows(&mut rows, license_events(i, eulas.len(), &eulas[i], allows));
        assert(head + licenses_events_spec(eulas@, i as nat, allows) + license_events_spec(i as nat, eulas@.len(), eulas@[i as int], allows)
            =~= head + licenses_events_spec(eulas@, (i + 1) as nat, allows));
        i = i + 1;
    }
    let back = if eulas.len() > 0 { license_dialog_id(eulas.len() - 1) } else { owned("WelcomeDlg") };
    append_rows(&mut rows, settings_events(back.as_str(), allows));
    assert(rows_view(rows@) =~= control_events_spec(allows, eulas@));
    rows
}

/// A `ControlCondition` row.
pub open spec fn condition_spec(dialog: Seq<char>, control: Seq<char>, action: Seq<char>, condition: Seq<char>) -> Seq<ValueView> {
    seq![ValueView::Str(dialog), ValueView::Str(control), ValueView::Str(action), ValueView::Str(condition)]
}

/// The conditions of the first `k` licenses: a required license's Next
/// button is disabled until it is accepted.
pub open spec fn conditions_spec(eulas: Seq<Eula>, k: nat) -> Seq<Seq<ValueView>>
    decreases k,
{
    if k == 0 {
        Seq::empty()
    } else if eulas[k - 1].required {
        let i = (k - 1) as nat;
        conditions_spec(eulas, i) + seq![
            condition_spec(license_dialog_spec(i), "Next"@, "Disable"@, eula_property_spec(i) + "<>\"1\""@),
            condition_spec(license_dialog_spec(i), "Next"@, "Enable"@, eula_property_spec(i) + "=\"1\""@),
        ]
    } else {
        conditions_spec(eulas, (k - 1) as nat)
    }
}

fn condition_row(dialog: &str, control: &str, action: &str, condition: &str) -> (r: Vec<Value>)
    ensures
        row_view(r) == condition_spec(dialog@, control@, action@, condition@),
{
    let r = vec![text(dialog), text(control), text(action), text(condition)];
    assert(row_view(r) =~= condition_spec(dialog@, control@, action@, condition@));
    r
}

/// Every row of the `ControlCondition` table.
pub fn control_condition_rows(eulas: &[Eula]) -> (r: Vec<Vec<Value>>)
    ensures
        rows_view(r@) == conditions_spec(eulas@, eulas@.len()),
{
    let mut rows: Vec<Vec<Value>> = Vec::new();
    let mut i: usize = 0;
    while i < eulas.len()
        invariant
            i <= eulas@.len(),
            rows_view(rows@) == conditions_spec(eulas@, i as nat),
        decreases eulas@.len() - i,
    {
        if eulas[i].required {
            let property = eula_property(i);
            let dialog = license_dialog_id(i);
            let off = concat2(property.as_str(), "<>\"1\"");
            let on = concat2(property.as_str(), "=\"1\"");
            push_row(&mut rows, condition_row(dialog.as_str(), "Next", "Disable", off.as_str()));
            push_row(&mut rows, condition_row(dialog.as_str(), "Next", "Enable", on.as_str()));
            assert(rows_view(rows@) =~= conditions_spec(eulas@, (i + 1) as nat));
        }
        i = i + 1;
    }
    rows
}

} // verus!
