//! The installer's windows: one `Dialog` table row per screen.
use vstd::prelude::*;

use crate::text::{concat2, owned};
use crate::windows_installer::config::{Eula, InstallerConfig};
use crate::windows_installer::msi::identity::{display_name, display_name_spec};
use crate::windows_installer::msi::rows::{push_row, row_view, rows_view, text, Value, ValueView};
use crate::windows_installer::msi::ui::{license_dialog_id, license_dialog_spec};

verus! {

/// One installer window: its identifier, the controls that get focus,
/// react to Enter and to Escape, its title, and whether it is modeless.
#[derive(Debug)]
pub struct DialogSpec {
    pub id: String,
    pub first_control: String,
    pub default_control: String,
    pub cancel_control: String,
    pub title: String,
    pub modeless: bool,
}

/// A screen as plain values.
pub open spec fn dialog_view(d: DialogSpec) -> (Seq<char>, Seq<char>, Seq<char>, Seq<char>, Seq<char>, bool) {
    (d.id@, d.first_control@, d.default_control@, d.cancel_control@, d.title@, d.modeless)
}

pub open spec fn license_screen_spec(index: nat, eula: Eula) -> (Seq<char>, Seq<char>, Seq<char>, Seq<char>, Seq<char>, bool) {
    (license_dialog_spec(index), "LicenseText"@, "Next"@, "Cancel"@, "License Agreement - "@ + eula.name@, false)
}

pub open spec fn license_screens_spec(eulas: Seq<Eula>, k: nat) -> Seq<(Seq<char>, Seq<char>, Seq<char>, Seq<char>, Seq<char>, bool)>
    decreases k,
{
    if k == 0 {
        Seq::empty()
    } else {
        license_screens_spec(eulas, (k - 1) as nat).push(license_screen_spec((k - 1) as nat, eulas[k - 1]))
    }
}

/// The screens in order: welcome, install folder, ready, progress,
/// completion, then one per license.
pub open spec fn dialogs_spec(config: InstallerConfig, eulas: Seq<Eula>) -> Seq<(Seq<char>, Seq<char>, Seq<char>, Seq<char>, Seq<char>, bool)> {
    let d = display_name_spec(config);
    seq![
        ("WelcomeDlg"@, "Next"@, "Next"@, "Cancel"@, d + " Setup"@, false),
        ("InstallDirDlg"@, "PathEdit"@, "Next"@, "Cancel"@, "Choose Install Location for "@ + d, false),
        ("VerifyReadyDlg"@, "Install"@, "Install"@, "Cancel"@, "Ready to Install "@ + d, false),
        ("ProgressDlg"@, "Progress"@, "Cancel"@, "Cancel"@, "Installing "@ + d, true),
        ("ExitDlg"@, "Finish"@, "Finish"@, "Finish"@, d + " Setup Complete"@, false),
    ] + license_screens_spec(eulas, eulas.len())
}

fn screen(id: &str, first: &str, default: &str, cancel: &str, title: String, modeless: bool) -> (r: DialogSpec)
    ensures
        dialog_view(r) == (id@, first@, default@, cancel@, title@, modeless),
{
    DialogSpec {
        id: owned(id),
        first_control: owned(first),
        default_control: owned(default),
        cancel_control: owned(cancel),
        title,
        modeless,
    }
}

/// The installer's screens.
pub fn dialogs(config: &InstallerConfig, eulas: &[Eula]) -> (r: Vec<DialogSpec>)
    requires
        eulas@.len() < usize::MAX,
    ensures
        r@.map_values(|d: DialogSpec| dialog_view(d)) == dialogs_spec(*config, eulas@),
{
    let d = display_name(config);
    let mut out: Vec<DialogSpec> = Vec::new();
    out.push(screen("WelcomeDlg", "Next", "Next", "Cancel", concat2(d, " Setup"), false));
    out.push(screen("InstallDirDlg", "PathEdit", "Next", "Cancel", concat2("Choose Install Location for ", d), false));
    out.push(screen("VerifyReadyDlg", "Install", "Install", "Cancel", concat2("Ready to Install ", d), false));
    out.push(screen("ProgressDlg", "Progress", "Cancel", "Cancel", concat2("Installing ", d), true));
    out.push(screen("ExitDlg", "Finish", "Finish", "Finish", concat2(d, " Setup Complete"), false));
    let ghost head = out@.map_values(|x: DialogSpec| dialog_view(x));
    let mut i: usize = 0;
    while i < eulas.len()
        invariant
            i <= eulas@.len(),
            eulas@.len() < usize::MAX,
            out@.map_values(|x: DialogSpec| dialog_view(x)) == head + license_screens_spec(eulas@, i as nat),
        decreases eulas@.len() - i,
    {
        let id = license_dialog_id(i);
        let title = concat2("License Agreement - ", eulas[i].name.as_str());
        let ghost before = out@;
        out.push(DialogSpec {
            id,
            first_control: owned("LicenseText"),
            default_control: owned("Next"),
            cancel_control: owned("Cancel"),
            title,
            modeless: false,
        });
        assert(out@.map_values(|x: DialogSpec| dialog_view(x)) =~= before.map_values(|x: DialogSpec| dialog_view(x)).push(
            license_screen_spec(i as nat, eulas@[i as int]),
        ));
        assert(head + license_screens_spec(eulas@, (i + 1) as nat) =~= (head + license_screens_spec(eulas@, i as nat)).push(
            license_screen_spec(i as nat, eulas@[i as int]),
        ));
        i = i + 1;
    }
    assert(out@.map_values(|x: DialogSpec| dialog_view(x)) =~= dialogs_spec(*config, eulas@));
    out
}

/// The `Dialog` row of a screen: centred, 520 by 360, modal unless modeless.
pub open spec fn dialog_row_spec(d: (Seq<char>, Seq<char>, Seq<char>, Seq<char>, Seq<char>, bool)) -> Seq<ValueView> {
    seq![
        ValueView::Str(d.0),
        ValueView::Int(50),
        ValueView::Int(50),
        ValueView::Int(520),
        ValueView::Int(360),
        ValueView::Int(if d.5 { 1 } else { 3 }),
        ValueView::Str(d.4),
        ValueView::Str(d.1),
        ValueView::Str(d.2),
        ValueView::Str(d.3),
    ]
}

/// Every row of the `Dialog` table, one per screen in order.
pub fn dialog_rows(config: &InstallerConfig, eulas: &[Eula]) -> (r: Vec<Vec<Value>>)
    requires
        eulas@.len() < usize::MAX,
    ensures
        rows_view(r@) == dialogs_spec(*config, eulas@).map_values(|d: (Seq<char>, Seq<char>, Seq<char>, Seq<char>, Seq<char>, bool)| dialog_row_spec(d)),
{
    let screens = dialogs(config, eulas);
    let ghost views = screens@.map_values(|d: DialogSpec| dialog_view(d));
    let mut rows: Vec<Vec<Value>> = Vec::new();
    let mut i: usize = 0;
    while i < screens.len()
        invariant
            i <= screens@.len(),
            views == screens@.map_values(|d: DialogSpec| dialog_view(d)),
            rows_view(rows@) == views.take(i as int).map_values(|d: (Seq<char>, Seq<char>, Seq<char>, Seq<char>, Seq<char>, bool)| dialog_row_spec(d)),
        decreases screens@.len() - i,
    {
        let s = &screens[i];
        let row = vec![
            text(s.id.as_str()),
            Value::Int(50),
            Value::Int(50),
            Value::Int(520),
            Value::Int(360),
            Value::Int(if s.modeless { 1 } else { 3 }),
            text(s.title.as_str()),
            text(s.first_control.as_str()),
            text(s.default_control.as_str()),
            text(s.cancel_control.as_str()),
        ];
        assert(row_view(row) =~= dialog_row_spec(views[i as int]));
        push_row(&mut rows, row);
        assert(views.take(i + 1).map_values(|d: (Seq<char>, Seq<char>, Seq<char>, Seq<char>, Seq<char>, bool)| dialog_row_spec(d)) =~= views.take(
            i as int,
        ).map_values(|d: (Seq<char>, Seq<char>, Seq<char>, Seq<char>, Seq<char>, bool)| dialog_row_spec(d)).push(dialog_row_spec(views[i as int])));
        i = i + 1;
    }
    assert(views.take(i as int) == views);
    rows
}

} // verus!
