//! The fixed tables of the package: the install sequences, the progress
//! texts of standard actions, and the text styles.
use vstd::prelude::*;

use crate::windows_installer::msi::rows::{push_row, row_view, rows_view, text, Value, ValueView};

verus! {

/// An `InstallExecuteSequence` row: action, no condition, sequence number.
pub open spec fn execute_spec(action: Seq<char>, sequence: int) -> Seq<ValueView> {
    seq![ValueView::Str(action), ValueView::Null, ValueView::Int(sequence)]
}

fn execute_row(action: &str, sequence: i32) -> (r: Vec<Value>)
    ensures
        row_view(r) == execute_spec(action@, sequence as int),
{
    let r = vec![text(action), Value::Null, Value::Int(sequence)];
    assert(row_view(r) =~= execute_spec(action@, sequence as int));
    r
}

/// The standard actions of the installation, in sequence.
pub open spec fn install_execute_sequence_spec() -> Seq<Seq<ValueView>> {
    seq![
        execute_spec("AppSearch"@, 50),
        execute_spec("CostInitialize"@, 800),
        execute_spec("FileCost"@, 900),
        execute_spec("CostFinalize"@, 1000),
        execute_spec("InstallValidate"@, 1400),
        execute_spec("InstallInitialize"@, 1500),
        execute_spec("ProcessComponents"@, 1600),
        execute_spec("UnpublishFeatures"@, 1800),
        execute_spec("RemoveRegistryValues"@, 2600),
        execute_spec("RemoveShortcuts"@, 3200),
        execute_spec("RemoveFiles"@, 3500),
        execute_spec("CreateFolders"@, 3700),
        execute_spec("InstallFiles"@, 4000),
        execute_spec("CreateShortcuts"@, 4500),
        execute_spec("WriteRegistryValues"@, 5000),
        execute_spec("WriteEnvironmentStrings"@, 5200),
        execute_spec("RegisterUser"@, 6000),
        execute_spec("RegisterProduct"@, 6100),
        execute_spec("PublishFeatures"@, 6300),
        execute_spec("PublishProduct"@, 6400),
        execute_spec("InstallFinalize"@, 6600),
    ]
}

/// The rows of the `InstallExecuteSequence` table.
pub fn install_execute_sequence_rows() -> (r: Vec<Vec<Value>>)
    ensures
        rows_view(r@) == install_execute_sequence_spec(),
{
    let mut rows: Vec<Vec<Value>> = Vec::new();
    push_row(&mut rows, execute_row("AppSearch", 50));
    push_row(&mut rows, execute_row("CostInitialize", 800));
    push_row(&mut rows, execute_row("FileCost", 900));
    push_row(&mut rows, execute_row("CostFinalize", 1000));
    push_row(&mut rows, execute_row("InstallValidate", 1400));
    push_row(&mut rows, execute_row("InstallInitialize", 1500));
    push_row(&mut rows, execute_row("ProcessComponents", 1600));
    push_row(&mut rows, execute_row("UnpublishFeatures", 1800));
    push_row(&mut rows, execute_row("RemoveRegistryValues", 2600));
    push_row(&mut rows, execute_row("RemoveShortcuts", 3200));
    push_row(&mut rows, execute_row("RemoveFiles", 3500));
    push_row(&mut rows, execute_row("CreateFolders", 3700));
    push_row(&mut rows, execute_row("InstallFiles", 4000));
    push_row(&mut rows, execute_row("CreateShortcuts", 4500));
    push_row(&mut rows, execute_row("WriteRegistryValues", 5000));
    push_row(&mut rows, execute_row("WriteEnvironmentStrings", 5200));
    push_row(&mut rows, execute_row("RegisterUser", 6000));
    push_row(&mut rows, execute_row("RegisterProduct", 6100));
    push_row(&mut rows, execute_row("PublishFeatures", 6300));
    push_row(&mut rows, execute_row("PublishProduct", 6400));
    push_row(&mut rows, execute_row("InstallFinalize", 6600));
    assert(rows_view(rows@) =~= install_execute_sequence_spec());
    rows
}

pub open spec fn ui_spec(action: Seq<char>, condition: Option<Seq<char>>, sequence: int) -> Seq<ValueView> {
    seq![ValueView::Str(action), match condition {
        Some(c) => ValueView::Str(c),
        None => ValueView::Null,
    }, ValueView::Int(sequence)]
}

fn ui_row(action: &str, condition: Option<&str>, sequence: i32) -> (r: Vec<Value>)
    ensures
        row_view(r) == ui_spec(action@, match condition {
            Some(c) => Some(c@),
            None => None,
        }, sequence as int),
{
    let c = match condition {
        Some(c) => text(c),
        None => Value::Null,
    };
    let r = vec![text(action), c, Value::Int(sequence)];
    assert(row_view(r) =~= ui_spec(action@, match condition {
        Some(c) => Some(c@),
        None => None,
    }, sequence as int));
    r
}

/// The user-interface sequence: costing, then the welcome and progress
/// dialogs on first install, the execution, and the completion dialog.
pub open spec fn install_ui_sequence_spec() -> Seq<Seq<ValueView>> {
    seq![
        ui_spec("AppSearch"@, None, 50),
        ui_spec("CostInitialize"@, None, 800),
        ui_spec("FileCost"@, None, 900),
        ui_spec("CostFinalize"@, None, 1000),
        ui_spec("WelcomeDlg"@, Some("NOT Installed"@), 1290),
        ui_spec("ProgressDlg"@, Some("NOT Installed"@), 1295),
        ui_spec("ExecuteAction"@, None, 1300),
        ui_spec("ExitDlg"@, Some("NOT Installed"@), 6600),
    ]
}

/// The rows of the `InstallUISequence` table.
pub fn install_ui_sequence_rows() -> (r: Vec<Vec<Value>>)
    ensures
        rows_view(r@) == install_ui_sequence_spec(),
{
    let mut rows: Vec<Vec<Value>> = Vec::new();
    push_row(&mut rows, ui_row("AppSearch", None, 50));
    push_row(&mut rows, ui_row("CostInitialize", None, 800));
    push_row(&mut rows, ui_row("FileCost", None, 900));
    push_row(&mut rows, ui_row("CostFinalize", None, 1000));
    push_row(&mut rows, ui_row("WelcomeDlg", Some("NOT Installed"), 1290));
    push_row(&mut rows, ui_row("ProgressDlg", Some("NOT Installed"), 1295));
    push_row(&mut rows, ui_row("ExecuteAction", None, 1300));
    push_row(&mut rows, ui_row("ExitDlg", Some("NOT Installed"), 6600));
    assert(rows_view(rows@) =~= install_ui_sequence_spec());
    rows
}

pub open spec fn action_text_spec(action: Seq<char>, description: Seq<char>) -> Seq<ValueView> {
    seq![ValueView::Str(action), ValueView::Str(description), ValueView::Null]
}

fn action_text_row(action: &str, description: &str) -> (r: Vec<Value>)
    ensures
        row_view(r) == action_text_spec(action@, description@),
{
    let r = vec![text(action), text(description), Value::Null];
    assert(row_view(r) =~= action_text_spec(action@, description@));
    r
}

/// What the progress dialog says during each standard action.
pub open spec fn action_texts_spec() -> Seq<Seq<ValueView>> {
    seq![
        action_text_spec("InstallFiles"@, "Installing application files"@),
        action_text_spec("CreateShortcuts"@, "Creating shortcuts"@),
        action_text_spec("WriteRegistryValues"@, "Writing application settings"@),
        action_text_spec("WriteEnvironmentStrings"@, "Updating environment variables"@),
        action_text_spec("RegisterProduct"@, "Registering application"@),
        action_text_spec("PublishProduct"@, "Finishing installation"@),
        action_text_spec("RemoveFiles"@, "Removing application files"@),
        action_text_spec("RemoveRegistryValues"@, "Removing application settings"@),
    ]
}

/// The rows of the `ActionText` table.
pub fn action_text_rows() -> (r: Vec<Vec<Value>>)
    ensures
        rows_view(r@) == action_texts_spec(),
{
    let mut rows: Vec<Vec<Value>> = Vec::new();
    push_row(&mut rows, action_text_row("InstallFiles", "Installing application files"));
    push_row(&mut rows, action_text_row("CreateShortcuts", "Creating shortcuts"));
    push_row(&mut rows, action_text_row("WriteRegistryValues", "Writing application settings"));
    push_row(&mut rows, action_text_row("WriteEnvironmentStrings", "Updating environment variables"));
    push_row(&mut rows, action_text_row("RegisterProduct", "Registering application"));
    push_row(&mut rows, action_text_row("PublishProduct", "Finishing installation"));
    push_row(&mut rows, action_text_row("RemoveFiles", "Removing application files"));
    push_row(&mut rows, action_text_row("RemoveRegistryValues", "Removing application settings"));
    assert(rows_view(rows@) =~= action_texts_spec());
    rows
}

pub open spec fn style_spec(style: Seq<char>, size: int, bold: bool) -> Seq<ValueView> {
    seq![ValueView::Str(style), ValueView::Str("Segoe UI"@), ValueView::Int(size), ValueView::Int(0), if bold {
        ValueView::Int(1)
    } else {
        ValueView::Null
    }]
}

fn style_row(style: &str, size: i32, bold: bool) -> (r: Vec<Value>)
    ensures
        row_view(r) == style_spec(style@, size as int, bold),
{
    let bits = if bold { Value::Int(1) } else { Value::Null };
    let r = vec![text(style), text("Segoe UI"), Value::Int(size), Value::Int(0), bits];
    assert(row_view(r) =~= style_spec(style@, size as int, bold));
    r
}

/// The fonts: the default, the title and the heading font.
pub open spec fn text_styles_spec() -> Seq<Seq<ValueView>> {
    seq![style_spec("DefaultFont"@, 10, false), style_spec("TitleFont"@, 16, true), style_spec("HeadingFont"@, 11, true)]
}

/// The rows of the `TextStyle` table.
pub fn text_style_rows() -> (r: Vec<Vec<Value>>)
    ensures
        rows_view(r@) == text_styles_spec(),
{
    let mut rows: Vec<Vec<Value>> = Vec::new();
    push_row(&mut rows, style_row("DefaultFont", 10, false));
    push_row(&mut rows, style_row("TitleFont", 16, true));
    push_row(&mut rows, style_row("HeadingFont", 11, true));
    assert(rows_view(rows@) =~= text_styles_spec());
    rows
}

} // verus!
