//! The rows of every table of the package, in the order they are written.
use vstd::prelude::*;

use crate::text::{concat2, decimal, owned, string_views};
use crate::windows_installer::config::{Eula, InstallerConfig};
use crate::windows_installer::msi::builder::{app_key, associated_directory_component, associated_dirs_prefix,
    cleanup_component_spec, directory_rows, directory_rows_spec, environment_rows, environment_rows_spec,
    icon_view, icons_view, package_files_view, path_update_component, path_update_id, registry_rows,
    registry_rows_spec, remove_registry_rows, remove_registry_spec, shortcut_components_view, FileView,
    IconStream, PackageFile, PlanError, ShortcutComponent, ShortcutView, error_matches, HKCU};
use crate::windows_installer::msi::filename::{display_name_from_msi_filename, long_name_spec};
use crate::windows_installer::msi::identity::{braced_guid, component_attributes, component_attributes_spec,
    display_name, display_name_spec, guid, manufacturer, manufacturer_spec, msi_version, msi_version_spec,
    part_code, part_code_name, product_code, product_code_name, upgrade_code, upgrade_code_name, uuid_v5_url,
    COMPONENT_REGISTRY_KEYPATH};
use crate::windows_installer::msi::paths::{DirectoryIds, MsiError};
use crate::windows_installer::msi::rows::{push_row, row_view, rows_view, text, Value, ValueView};
use crate::windows_installer::msi::builder::associated_directory_ids;
use crate::windows_installer::msi::screens::{dialog_row_spec, dialog_rows, dialogs_spec};
use crate::windows_installer::msi::tables::{action_text_rows, action_texts_spec, install_execute_sequence_rows,
    install_execute_sequence_spec, install_ui_sequence_rows, install_ui_sequence_spec, text_style_rows, text_styles_spec};
use crate::windows_installer::msi::ui::{conditions_spec, control_condition_rows, control_event_rows, control_events_spec,
    control_rows, control_rows_spec};
use crate::windows_installer::config::requires_variable;
use crate::windows_installer::msi::ui::{eula_property, eula_property_spec, ADD_TO_PATH_PROPERTY};

verus! {

/// The rows of one table.
#[derive(Debug)]
pub struct TableRows {
    pub name: String,
    pub rows: Vec<Vec<Value>>,
}

pub open spec fn table_view(t: TableRows) -> (Seq<char>, Seq<Seq<ValueView>>) {
    (t.name@, rows_view(t.rows@))
}

pub open spec fn tables_view(s: Seq<TableRows>) -> Seq<(Seq<char>, Seq<Seq<ValueView>>)> {
    s.map_values(|t: TableRows| table_view(t))
}

/// A two-column text row.
pub open spec fn pair_spec(a: Seq<char>, b: Seq<char>) -> Seq<ValueView> {
    seq![ValueView::Str(a), ValueView::Str(b)]
}

pub fn pair(a: &str, b: &str) -> (r: Vec<Value>)
    ensures
        row_view(r) == pair_spec(a@, b@),
{
    let r = vec![text(a), text(b)];
    assert(row_view(r) =~= pair_spec(a@, b@));
    r
}

/// The `Property` table: product identity, per-user installation, the UI
/// font and secure properties; `ADD_TO_PATH` when there are PATH entries;
/// the Add/Remove Programs icon when there is a product icon.
pub open spec fn property_rows_spec(plan: InstallerConfig, has_paths: bool, product_icon: Option<Seq<char>>) -> Seq<Seq<ValueView>> {
    seq![
        pair_spec("ProductCode"@, braced_guid(uuid_v5_url(product_code_name(plan)))),
        pair_spec("ProductName"@, display_name_spec(plan)),
        pair_spec("ProductVersion"@, msi_version_spec(plan.app_version@)),
        pair_spec("ProductLanguage"@, "1033"@),
        pair_spec("Manufacturer"@, manufacturer_spec(plan)),
        pair_spec("UpgradeCode"@, braced_guid(uuid_v5_url(upgrade_code_name(plan)))),
        pair_spec("ALLUSERS"@, "2"@),
        pair_spec("MSIINSTALLPERUSER"@, "1"@),
        pair_spec("ARPNOREPAIR"@, "1"@),
        pair_spec("ARPNOMODIFY"@, "1"@),
        pair_spec("DefaultUIFont"@, "DefaultFont"@),
        pair_spec("SecureCustomProperties"@, "USERPROFILEDIR;INSTALLFOLDER;ADD_TO_PATH"@),
    ] + (if has_paths { seq![pair_spec("ADD_TO_PATH"@, "1"@)] } else { Seq::empty() }) + match product_icon {
        Some(id) => seq![pair_spec("ARPPRODUCTICON"@, id)],
        None => Seq::empty(),
    }
}

/// The rows of the `Property` table.
pub fn property_rows(plan: &InstallerConfig, has_paths: bool, icons: &Vec<IconStream>) -> (r: Vec<Vec<Value>>)
    ensures
        rows_view(r@) == property_rows_spec(*plan, has_paths, if icons@.len() > 0 { Some(icons@[0].0@) } else { None }),
{
    let mut rows: Vec<Vec<Value>> = Vec::new();
    let product = guid(&product_code(plan));
    let upgrade = guid(&upgrade_code(plan));
    let version = msi_version(plan.app_version.as_str());
    push_row(&mut rows, pair("ProductCode", product.as_str()));
    push_row(&mut rows, pair("ProductName", display_name(plan)));
    push_row(&mut rows, pair("ProductVersion", version.as_str()));
    push_row(&mut rows, pair("ProductLanguage", "1033"));
    push_row(&mut rows, pair("Manufacturer", manufacturer(plan)));
    push_row(&mut rows, pair("UpgradeCode", upgrade.as_str()));
    push_row(&mut rows, pair("ALLUSERS", "2"));
    push_row(&mut rows, pair("MSIINSTALLPERUSER", "1"));
    push_row(&mut rows, pair("ARPNOREPAIR", "1"));
    push_row(&mut rows, pair("ARPNOMODIFY", "1"));
    push_row(&mut rows, pair("DefaultUIFont", "DefaultFont"));
    push_row(&mut rows, pair("SecureCustomProperties", "USERPROFILEDIR;INSTALLFOLDER;ADD_TO_PATH"));
    if has_paths {
        push_row(&mut rows, pair(ADD_TO_PATH_PROPERTY, "1"));
    }
    if icons.len() > 0 {
        push_row(&mut rows, pair("ARPPRODUCTICON", icons[0].0.as_str()));
    }
    assert(rows_view(rows@) =~= property_rows_spec(*plan, has_paths, if icons@.len() > 0 { Some(icons@[0].0@) } else { None }));
    rows
}

/// A `Component` row.
pub open spec fn component_spec(id: Seq<char>, code: Seq<char>, directory: Seq<char>, attributes: int, condition: Option<Seq<char>>, key_path: Seq<char>) -> Seq<ValueView> {
    seq![
        ValueView::Str(id),
        ValueView::Str(code),
        ValueView::Str(directory),
        ValueView::Int(attributes),
        match condition {
            Some(c) => ValueView::Str(c),
            None => ValueView::Null,
        },
        ValueView::Str(key_path),
    ]
}

fn component_row(id: &str, code: &str, directory: &str, attributes: i32, condition: Option<&str>, key_path: &str) -> (r: Vec<Value>)
    ensures
        row_view(r) == component_spec(id@, code@, directory@, attributes as int, match condition {
            Some(c) => Some(c@),
            None => None,
        }, key_path@),
{
    let c = match condition {
        Some(c) => text(c),
        None => Value::Null,
    };
    let r = vec![text(id), text(code), text(directory), Value::Int(attributes), c, text(key_path)];
    assert(row_view(r) =~= component_spec(id@, code@, directory@, attributes as int, match condition {
        Some(c) => Some(c@),
        None => None,
    }, key_path@));
    r
}

/// The code of a component: a GUID named after the package and the part.
pub open spec fn component_code_spec(plan: InstallerConfig, kind: Seq<char>, part: Seq<char>) -> Seq<char> {
    braced_guid(uuid_v5_url(part_code_name(plan, kind, part)))
}

/// The `Component` table: a component per file (keyed by the file), per
/// associated directory, per shortcut and per PATH entry (keyed by their
/// registry values; a PATH entry only when `ADD_TO_PATH` is set).
pub open spec fn component_rows_spec(plan: InstallerConfig, files: Seq<FileView>, dirs: Seq<Seq<char>>, shortcuts: Seq<ShortcutView>, paths: Seq<Seq<char>>) -> Seq<Seq<ValueView>> {
    let attrs = component_attributes_spec(plan.bundle_target@);
    let reg = attrs | 4;
    Seq::new(files.len(), |i: int| component_spec(files[i].1, component_code_spec(plan, "component"@, files[i].0), files[i].4, attrs as int, None, files[i].0))
        + Seq::new(dirs.len(), |i: int| component_spec(
            "AssociatedDirectory"@ + decimal((i + 1) as nat),
            component_code_spec(plan, "directory-component"@, dirs[i]),
            dirs[i], reg as int, None, "RegistryAssociatedDirectory"@ + decimal((i + 1) as nat)))
        + Seq::new(shortcuts.len(), |i: int| component_spec(shortcuts[i].4, component_code_spec(plan, "shortcut-component"@, shortcuts[i].0), shortcuts[i].1, reg as int, None, shortcuts[i].5))
        + Seq::new(paths.len(), |i: int| component_spec(
            "PathEntry"@ + decimal((i + 1) as nat),
            component_code_spec(plan, "path-component"@, "PathEntry"@ + decimal((i + 1) as nat)),
            paths[i], reg as int, Some("ADD_TO_PATH=\"1\""@), "PathRegistry"@ + decimal((i + 1) as nat)))
}

/// The rows of the `Component` table.
pub fn component_rows(plan: &InstallerConfig, files: &[PackageFile], dirs: &Vec<String>, shortcuts: &[ShortcutComponent], paths: &[String]) -> (r: Vec<Vec<Value>>)
    requires
        dirs@.len() < usize::MAX,
        paths@.len() < usize::MAX,
    ensures
        rows_view(r@) == component_rows_spec(*plan, package_files_view(files@), string_views(dirs@), shortcut_components_view(shortcuts@), string_views(paths@)),
{
    let attrs = component_attributes(plan.bundle_target.as_str());
    let reg = attrs | COMPONENT_REGISTRY_KEYPATH;
    let ghost fv = package_files_view(files@);
    let ghost dv = string_views(dirs@);
    let ghost sv = shortcut_components_view(shortcuts@);
    let ghost pv = string_views(paths@);
    let ghost p1 = Seq::new(fv.len(), |i: int| component_spec(fv[i].1, component_code_spec(*plan, "component"@, fv[i].0), fv[i].4, attrs as int, None, fv[i].0));
    let ghost p2 = Seq::new(dv.len(), |i: int| component_spec(
            "AssociatedDirectory"@ + decimal((i + 1) as nat),
            component_code_spec(*plan, "directory-component"@, dv[i]),
            dv[i], reg as int, None, "RegistryAssociatedDirectory"@ + decimal((i + 1) as nat)));
    let ghost p3 = Seq::new(sv.len(), |i: int| component_spec(sv[i].4, component_code_spec(*plan, "shortcut-component"@, sv[i].0), sv[i].1, reg as int, None, sv[i].5));
    let ghost p4 = Seq::new(pv.len(), |i: int| component_spec(
            "PathEntry"@ + decimal((i + 1) as nat),
            component_code_spec(*plan, "path-component"@, "PathEntry"@ + decimal((i + 1) as nat)),
            pv[i], reg as int, Some("ADD_TO_PATH=\"1\""@), "PathRegistry"@ + decimal((i + 1) as nat)));
    let mut rows: Vec<Vec<Value>> = Vec::new();
    let mut i: usize = 0;
    while i < files.len()
        invariant
            fv == package_files_view(files@),
            attrs == component_attributes_spec(plan.bundle_target@),
            p1 == Seq::new(fv.len(), |i: int| component_spec(fv[i].1, component_code_spec(*plan, "component"@, fv[i].0), fv[i].4, attrs as int, None, fv[i].0)),
            i <= files@.len(),
            rows_view(rows@) == p1.take(i as int),
        decreases files@.len() - i,
    {
        let f = &files[i];
        let code = guid(&part_code(plan, "component", f.id.as_str()));
        push_row(&mut rows, component_row(f.component.as_str(), code.as_str(), f.directory.as_str(), attrs, None, f.id.as_str()));
        assert(p1.take(i + 1) =~= p1.take(i as int).push(p1[i as int]));
        i = i + 1;
    }
    assert(p1.take(i as int) == p1);
    let mut j: usize = 0;
    while j < dirs.len()
        invariant
            dv == string_views(dirs@),
            dirs@.len() < usize::MAX,
            reg == component_attributes_spec(plan.bundle_target@) | 4,
            p2 == Seq::new(dv.len(), |i: int| component_spec(
                "AssociatedDirectory"@ + decimal((i + 1) as nat),
                component_code_spec(*plan, "directory-component"@, dv[i]),
                dv[i], reg as int, None, "RegistryAssociatedDirectory"@ + decimal((i + 1) as nat))),
            j <= dirs@.len(),
            rows_view(rows@) == p1 + p2.take(j as int),
        decreases dirs@.len() - j,
    {
        let id = associated_directory_component(j);
        let key = crate::windows_installer::msi::builder::associated_directory_registry(j);
        let code = guid(&part_code(plan, "directory-component", dirs[j].as_str()));
        push_row(&mut rows, component_row(id.as_str(), code.as_str(), dirs[j].as_str(), reg, None, key.as_str()));
        assert(p1 + p2.take(j + 1) =~= (p1 + p2.take(j as int)).push(p2[j as int]));
        j = j + 1;
    }
    assert(p2.take(j as int) == p2);
    let mut k: usize = 0;
    while k < shortcuts.len()
        invariant
            sv == shortcut_components_view(shortcuts@),
            reg == component_attributes_spec(plan.bundle_target@) | 4,
            p3 == Seq::new(sv.len(), |i: int| component_spec(sv[i].4, component_code_spec(*plan, "shortcut-component"@, sv[i].0), sv[i].1, reg as int, None, sv[i].5)),
            k <= shortcuts@.len(),
            rows_view(rows@) == p1 + p2 + p3.take(k as int),
        decreases shortcuts@.len() - k,
    {
        let s = &shortcuts[k];
        assert(sv[k as int] == crate::windows_installer::msi::builder::shortcut_component_view(shortcuts@[k as int]));
        let code = guid(&part_code(plan, "shortcut-component", s.id.as_str()));
        push_row(&mut rows, component_row(s.component.as_str(), code.as_str(), s.directory.as_str(), reg, None, s.registry.as_str()));
        assert(p1 + p2 + p3.take(k + 1) =~= (p1 + p2 + p3.take(k as int)).push(p3[k as int]));
        k = k + 1;
    }
    assert(p3.take(k as int) == p3);
    let mut t: usize = 0;
    while t < paths.len()
        invariant
            pv == string_views(paths@),
            paths@.len() < usize::MAX,
            reg == component_attributes_spec(plan.bundle_target@) | 4,
            p4 == Seq::new(pv.len(), |i: int| component_spec(
                "PathEntry"@ + decimal((i + 1) as nat),
                component_code_spec(*plan, "path-component"@, "PathEntry"@ + decimal((i + 1) as nat)),
                pv[i], reg as int, Some("ADD_TO_PATH=\"1\""@), "PathRegistry"@ + decimal((i + 1) as nat))),
            t <= paths@.len(),
            rows_view(rows@) == p1 + p2 + p3 + p4.take(t as int),
        decreases paths@.len() - t,
    {
        let id = path_update_component(t);
        let entry = path_update_id(t);
        let key = crate::windows_installer::msi::builder::path_update_registry(t);
        let code = guid(&part_code(plan, "path-component", entry.as_str()));
        push_row(&mut rows, component_row(id.as_str(), code.as_str(), paths[t].as_str(), reg, Some("ADD_TO_PATH=\"1\""), key.as_str()));
        assert(p1 + p2 + p3 + p4.take(t + 1) =~= (p1 + p2 + p3 + p4.take(t as int)).push(p4[t as int]));
        t = t + 1;
    }
    assert(p4.take(t as int) == p4);
    rows
}

/// The `FeatureComponents` table: every component in the one feature.
pub open spec fn feature_component_rows_spec(files: Seq<FileView>, dirs: nat, shortcuts: Seq<ShortcutView>, paths: nat) -> Seq<Seq<ValueView>> {
    Seq::new(files.len(), |i: int| pair_spec("DefaultFeature"@, files[i].1))
        + Seq::new(dirs, |i: int| pair_spec("DefaultFeature"@, "AssociatedDirectory"@ + decimal((i + 1) as nat)))
        + Seq::new(shortcuts.len(), |i: int| pair_spec("DefaultFeature"@, shortcuts[i].4))
        + Seq::new(paths, |i: int| pair_spec("DefaultFeature"@, "PathEntry"@ + decimal((i + 1) as nat)))
}

/// The rows of the `FeatureComponents` table.
pub fn feature_component_rows(files: &[PackageFile], dirs: usize, shortcuts: &[ShortcutComponent], paths: usize) -> (r: Vec<Vec<Value>>)
    requires
        dirs < usize::MAX,
        paths < usize::MAX,
    ensures
        rows_view(r@) == feature_component_rows_spec(package_files_view(files@), dirs as nat, shortcut_components_view(shortcuts@), paths as nat),
{
    let ghost fv = package_files_view(files@);
    let ghost sv = shortcut_components_view(shortcuts@);
    let ghost p1 = Seq::new(fv.len(), |i: int| pair_spec("DefaultFeature"@, fv[i].1));
    let ghost p2 = Seq::new(dirs as nat, |i: int| pair_spec("DefaultFeature"@, "AssociatedDirectory"@ + decimal((i + 1) as nat)));
    let ghost p3 = Seq::new(sv.len(), |i: int| pair_spec("DefaultFeature"@, sv[i].4));
    let ghost p4 = Seq::new(paths as nat, |i: int| pair_spec("DefaultFeature"@, "PathEntry"@ + decimal((i + 1) as nat)));
    let mut rows: Vec<Vec<Value>> = Vec::new();
    let mut i: usize = 0;
    while i < files.len()
        invariant
            fv == package_files_view(files@),
            p1 == Seq::new(fv.len(), |i: int| pair_spec("DefaultFeature"@, fv[i].1)),
            i <= files@.len(),
            rows_view(rows@) == p1.take(i as int),
        decreases files@.len() - i,
    {
        push_row(&mut rows, pair("DefaultFeature", files[i].component.as_str()));
        assert(p1.take(i + 1) =~= p1.take(i as int).push(p1[i as int]));
        i = i + 1;
    }
    assert(p1.take(i as int) == p1);
    let mut j: usize = 0;
    while j < dirs
        invariant
            dirs < usize::MAX,
            p2 == Seq::new(dirs as nat, |i: int| pair_spec("DefaultFeature"@, "AssociatedDirectory"@ + decimal((i + 1) as nat))),
            j <= dirs,
            rows_view(rows@) == p1 + p2.take(j as int),
        decreases dirs - j,
    {
        let id = associated_directory_component(j);
        push_row(&mut rows, pair("DefaultFeature", id.as_str()));
        assert(p1 + p2.take(j + 1) =~= (p1 + p2.take(j as int)).push(p2[j as int]));
        j = j + 1;
    }
    assert(p2.take(j as int) == p2);
    let mut k: usize = 0;
    while k < shortcuts.len()
        invariant
            sv == shortcut_components_view(shortcuts@),
            p3 == Seq::new(sv.len(), |i: int| pair_spec("DefaultFeature"@, sv[i].4)),
            k <= shortcuts@.len(),
            rows_view(rows@) == p1 + p2 + p3.take(k as int),
        decreases shortcuts@.len() - k,
    {
        assert(sv[k as int] == crate::windows_installer::msi::builder::shortcut_component_view(shortcuts@[k as int]));
        push_row(&mut rows, pair("DefaultFeature", shortcuts[k].component.as_str()));
        assert(p1 + p2 + p3.take(k + 1) =~= (p1 + p2 + p3.take(k as int)).push(p3[k as int]));
        k = k + 1;
    }
    assert(p3.take(k as int) == p3);
    let mut t: usize = 0;
    while t < paths
        invariant
            paths < usize::MAX,
            p4 == Seq::new(paths as nat, |i: int| pair_spec("DefaultFeature"@, "PathEntry"@ + decimal((i + 1) as nat))),
            t <= paths,
            rows_view(rows@) == p1 + p2 + p3 + p4.take(t as int),
        decreases paths - t,
    {
        let id = path_update_component(t);
        push_row(&mut rows, pair("DefaultFeature", id.as_str()));
        assert(p1 + p2 + p3 + p4.take(t + 1) =~= (p1 + p2 + p3 + p4.take(t as int)).push(p4[t as int]));
        t = t + 1;
    }
    assert(p4.take(t as int) == p4);
    rows
}

/// A `File` row: the file, its component, name and size, installed in
/// sequence `sequence`.
pub open spec fn file_row_spec(f: FileView, sequence: int) -> Seq<ValueView> {
    seq![
        ValueView::Str(f.0),
        ValueView::Str(f.1),
        ValueView::Str(f.7),
        ValueView::Int(f.8),
        ValueView::Null,
        ValueView::Null,
        ValueView::Null,
        ValueView::Int(sequence),
    ]
}

/// The rows of the `File` table, numbered in payload order from 1.
pub fn file_rows(files: &[PackageFile]) -> (r: Vec<Vec<Value>>)
    requires
        files@.len() < i32::MAX,
    ensures
        rows_view(r@) == Seq::new(files@.len(), |i: int| file_row_spec(package_files_view(files@)[i], i + 1)),
{
    let ghost fv = package_files_view(files@);
    let ghost all = Seq::new(files@.len(), |i: int| file_row_spec(fv[i], i + 1));
    let mut rows: Vec<Vec<Value>> = Vec::new();
    let mut i: usize = 0;
    while i < files.len()
        invariant
            files@.len() < i32::MAX,
            fv == package_files_view(files@),
            all == Seq::new(files@.len(), |i: int| file_row_spec(fv[i], i + 1)),
            i <= files@.len(),
            rows_view(rows@) == all.take(i as int),
        decreases files@.len() - i,
    {
        let f = &files[i];
        let row = vec![
            text(f.id.as_str()),
            text(f.component.as_str()),
            text(f.file_name.as_str()),
            Value::Int(f.size),
            Value::Null,
            Value::Null,
            Value::Null,
            Value::Int(i as i32 + 1),
        ];
        assert(row_view(row) =~= file_row_spec(fv[i as int], i + 1));
        push_row(&mut rows, row);
        assert(all.take(i + 1) =~= all.take(i as int).push(all[i as int]));
        i = i + 1;
    }
    assert(all.take(i as int) == all);
    rows
}

/// The rows of the `CreateFolder` table: each associated directory is
/// created by its component.
pub fn create_folder_rows(dirs: &Vec<String>) -> (r: Vec<Vec<Value>>)
    requires
        dirs@.len() < usize::MAX,
    ensures
        rows_view(r@) == Seq::new(dirs@.len(), |i: int| pair_spec(string_views(dirs@)[i], "AssociatedDirectory"@ + decimal((i + 1) as nat))),
{
    let ghost all = Seq::new(dirs@.len(), |i: int| pair_spec(string_views(dirs@)[i], "AssociatedDirectory"@ + decimal((i + 1) as nat)));
    let mut rows: Vec<Vec<Value>> = Vec::new();
    let mut i: usize = 0;
    while i < dirs.len()
        invariant
            dirs@.len() < usize::MAX,
            all == Seq::new(dirs@.len(), |i: int| pair_spec(string_views(dirs@)[i], "AssociatedDirectory"@ + decimal((i + 1) as nat))),
            i <= dirs@.len(),
            rows_view(rows@) == all.take(i as int),
        decreases dirs@.len() - i,
    {
        let id = associated_directory_component(i);
        assert(string_views(dirs@)[i as int] == dirs@[i as int]@);
        push_row(&mut rows, pair(dirs[i].as_str(), id.as_str()));
        assert(all.take(i + 1) =~= all.take(i as int).push(all[i as int]));
        i = i + 1;
    }
    assert(all.take(i as int) == all);
    rows
}

/// A `Shortcut` row: the shortcut in its directory, named by its MSI file
/// name, advertised by its component, targeting its file, described by its
/// long name, with its icon.
pub open spec fn shortcut_row_spec(s: ShortcutView) -> Seq<ValueView> {
    seq![
        ValueView::Str(s.0),
        ValueView::Str(s.1),
        ValueView::Str(s.3),
        ValueView::Str(s.4),
        ValueView::Str("[#"@ + s.6 + "]"@),
        ValueView::Null,
        ValueView::Str(long_name_spec(s.3)),
        ValueView::Null,
        match s.7 {
            Some(i) => ValueView::Str(i),
            None => ValueView::Null,
        },
        ValueView::Int(0),
        ValueView::Null,
        ValueView::Null,
    ]
}

/// The rows of the `Shortcut` table.
pub fn shortcut_rows(shortcuts: &[ShortcutComponent]) -> (r: Vec<Vec<Value>>)
    ensures
        rows_view(r@) == shortcut_components_view(shortcuts@).map_values(|s: ShortcutView| shortcut_row_spec(s)),
{
    let ghost sv = shortcut_components_view(shortcuts@);
    let mut rows: Vec<Vec<Value>> = Vec::new();
    let mut i: usize = 0;
    while i < shortcuts.len()
        invariant
            sv == shortcut_components_view(shortcuts@),
            i <= shortcuts@.len(),
            rows_view(rows@) == sv.take(i as int).map_values(|s: ShortcutView| shortcut_row_spec(s)),
        decreases shortcuts@.len() - i,
    {
        let s = &shortcuts[i];
        assert(sv[i as int] == crate::windows_installer::msi::builder::shortcut_component_view(shortcuts@[i as int]));
        let target = crate::text::concat3("[#", s.target_file.as_str(), "]");
        let description = display_name_from_msi_filename(s.name.as_str());
        let icon = match &s.icon {
            Some(id) => text(id.as_str()),
            None => Value::Null,
        };
        let row = vec![
            text(s.id.as_str()),
            text(s.directory.as_str()),
            text(s.name.as_str()),
            text(s.component.as_str()),
            text(target.as_str()),
            Value::Null,
            text(description.as_str()),
            Value::Null,
            icon,
            Value::Int(0),
            Value::Null,
            Value::Null,
        ];
        assert(row_view(row) =~= shortcut_row_spec(sv[i as int]));
        push_row(&mut rows, row);
        assert(sv.take(i + 1).map_values(|s: ShortcutView| shortcut_row_spec(s)) =~= sv.take(i as int).map_values(|s: ShortcutView| shortcut_row_spec(s)).push(shortcut_row_spec(sv[i as int])));
        i = i + 1;
    }
    assert(sv.take(i as int) == sv);
    rows
}

/// The rows of the `Icon` table: each icon, its data in a stream.
pub fn icon_rows(icons: &Vec<IconStream>) -> (r: Vec<Vec<Value>>)
    ensures
        rows_view(r@) == icons_view(icons@).map_values(|i: (Seq<char>, Seq<char>)| seq![ValueView::Str(i.0), ValueView::Binary]),
{
    let ghost iv = icons_view(icons@);
    let mut rows: Vec<Vec<Value>> = Vec::new();
    let mut i: usize = 0;
    while i < icons.len()
        invariant
            iv == icons_view(icons@),
            i <= icons@.len(),
            rows_view(rows@) == iv.take(i as int).map_values(|i: (Seq<char>, Seq<char>)| seq![ValueView::Str(i.0), ValueView::Binary]),
        decreases icons@.len() - i,
    {
        let row = vec![text(icons[i].0.as_str()), Value::Binary];
        assert(row_view(row) =~= seq![ValueView::Str(iv[i as int].0), ValueView::Binary]);
        push_row(&mut rows, row);
        assert(iv.take(i + 1).map_values(|i: (Seq<char>, Seq<char>)| seq![ValueView::Str(i.0), ValueView::Binary]) =~= iv.take(i as int).map_values(
            |i: (Seq<char>, Seq<char>)| seq![ValueView::Str(i.0), ValueView::Binary],
        ).push(seq![ValueView::Str(iv[i as int].0), ValueView::Binary]));
        i = i + 1;
    }
    assert(iv.take(i as int) == iv);
    rows
}

/// The `CheckBox` table: each license acceptance and the PATH choice start checked.
pub open spec fn checkbox_rows_spec(eulas: nat, has_paths: bool) -> Seq<Seq<ValueView>> {
    Seq::new(eulas, |i: int| pair_spec(eula_property_spec(i as nat), "1"@)) + if has_paths {
        seq![pair_spec("ADD_TO_PATH"@, "1"@)]
    } else {
        Seq::empty()
    }
}

/// The rows of the `CheckBox` table.
pub fn checkbox_rows(eulas: &[Eula], has_paths: bool) -> (r: Vec<Vec<Value>>)
    requires
        eulas@.len() < usize::MAX,
    ensures
        rows_view(r@) == checkbox_rows_spec(eulas@.len(), has_paths),
{
    let ghost all = Seq::new(eulas@.len(), |i: int| pair_spec(eula_property_spec(i as nat), "1"@));
    let mut rows: Vec<Vec<Value>> = Vec::new();
    let mut i: usize = 0;
    while i < eulas.len()
        invariant
            eulas@.len() < usize::MAX,
            all == Seq::new(eulas@.len(), |i: int| pair_spec(eula_property_spec(i as nat), "1"@)),
            i <= eulas@.len(),
            rows_view(rows@) == all.take(i as int),
        decreases eulas@.len() - i,
    {
        let p = eula_property(i);
        push_row(&mut rows, pair(p.as_str(), "1"));
        assert(all.take(i + 1) =~= all.take(i as int).push(all[i as int]));
        i = i + 1;
    }
    assert(all.take(i as int) == all);
    if has_paths {
        push_row(&mut rows, pair(ADD_TO_PATH_PROPERTY, "1"));
    }
    assert(rows_view(rows@) =~= checkbox_rows_spec(eulas@.len(), has_paths));
    rows
}

/// The fixed rows: the user-profile search, the feature, the folder-picker
/// action, the progress events, and the media.
pub open spec fn app_search_spec() -> Seq<Seq<ValueView>> {
    seq![pair_spec("USERPROFILEDIR"@, "UserProfileRegistry"@)]
}

pub open spec fn reg_locator_spec() -> Seq<Seq<ValueView>> {
    seq![seq![ValueView::Str("UserProfileRegistry"@), ValueView::Int(1), ValueView::Str("Volatile Environment"@), ValueView::Str("USERPROFILE"@), ValueView::Int(2)]]
}

pub open spec fn feature_spec(d: Seq<char>) -> Seq<Seq<ValueView>> {
    seq![seq![
        ValueView::Str("DefaultFeature"@),
        ValueView::Null,
        ValueView::Str(d),
        ValueView::Str(d),
        ValueView::Int(1),
        ValueView::Int(1),
        ValueView::Str("INSTALLFOLDER"@),
        ValueView::Int(0),
    ]]
}

pub open spec fn binary_spec() -> Seq<Seq<ValueView>> {
    seq![seq![ValueView::Str("PickInstallFolderAction"@), ValueView::Binary]]
}

pub open spec fn custom_action_spec() -> Seq<Seq<ValueView>> {
    seq![seq![ValueView::Str("PickInstallFolder"@), ValueView::Int(1), ValueView::Str("PickInstallFolderAction"@), ValueView::Str("PickInstallFolder"@)]]
}

pub open spec fn event_mapping_spec() -> Seq<Seq<ValueView>> {
    seq![
        seq![ValueView::Str("ProgressDlg"@), ValueView::Str("Progress"@), ValueView::Str("SetProgress"@), ValueView::Str("Progress"@)],
        seq![ValueView::Str("ProgressDlg"@), ValueView::Str("ActionText"@), ValueView::Str("ActionText"@), ValueView::Str("Text"@)],
    ]
}

pub open spec fn media_spec(files: int, cabinet: Seq<char>) -> Seq<Seq<ValueView>> {
    seq![seq![ValueView::Int(1), ValueView::Int(files), ValueView::Null, ValueView::Str("#"@ + cabinet), ValueView::Null, ValueView::Null]]
}

pub open spec fn when(cond: bool, t: (Seq<char>, Seq<Seq<ValueView>>)) -> Seq<(Seq<char>, Seq<Seq<ValueView>>)> {
    if cond { seq![t] } else { Seq::empty() }
}

/// The tables written first: properties, searches, directories, the
/// feature, components and files.
pub open spec fn head_tables_spec(
    plan: InstallerConfig,
    files: Seq<FileView>,
    entries: crate::windows_installer::msi::builder::Entries,
    shortcuts: Seq<ShortcutView>,
    icons: Seq<(Seq<char>, Seq<char>)>,
    paths: Seq<Seq<char>>,
    dirs: Seq<Seq<char>>,
) -> Seq<(Seq<char>, Seq<Seq<ValueView>>)> {
    seq![
        ("Property"@, property_rows_spec(plan, paths.len() > 0, if icons.len() > 0 { Some(icons[0].0) } else { None })),
        ("AppSearch"@, app_search_spec()),
        ("RegLocator"@, reg_locator_spec()),
        ("Directory"@, crate::windows_installer::msi::builder::directory_rows_spec(plan, entries, shortcuts)),
        ("Feature"@, feature_spec(display_name_spec(plan))),
        ("Component"@, component_rows_spec(plan, files, dirs, shortcuts, paths)),
        ("FeatureComponents"@, feature_component_rows_spec(files, dirs.len(), shortcuts, paths.len())),
        ("File"@, Seq::new(files.len(), |i: int| file_row_spec(files[i], i + 1))),
    ]
}

/// The tables written only when they have rows: folders to create,
/// shortcuts, icons, registry values and their removal, environment
/// changes, and check boxes.
pub open spec fn optional_tables_spec(
    plan: InstallerConfig,
    files: Seq<FileView>,
    shortcuts: Seq<ShortcutView>,
    icons: Seq<(Seq<char>, Seq<char>)>,
    eulas: nat,
    paths: Seq<Seq<char>>,
    dirs: Seq<Seq<char>>,
) -> Seq<(Seq<char>, Seq<Seq<ValueView>>)> {
    let registry = registry_rows_spec(plan, dirs, shortcuts, paths);
    let checkboxes = checkbox_rows_spec(eulas, paths.len() > 0);
    when(dirs.len() > 0, ("CreateFolder"@, Seq::new(dirs.len(), |i: int| pair_spec(dirs[i], "AssociatedDirectory"@ + decimal((i + 1) as nat)))))
      + when(shortcuts.len() > 0, ("Shortcut"@, shortcuts.map_values(|s: ShortcutView| shortcut_row_spec(s))))
      + when(icons.len() > 0, ("Icon"@, icons.map_values(|i: (Seq<char>, Seq<char>)| seq![ValueView::Str(i.0), ValueView::Binary])))
      + (if registry.len() > 0 {
            seq![("Registry"@, registry), ("RemoveRegistry"@, remove_registry_spec(plan,
                cleanup_component_spec(files, dirs.len(), shortcuts, paths.len())->0, shortcuts.len() > 0, paths.len() > 0))]
        } else {
            Seq::empty()
        })
      + when(paths.len() > 0, ("Environment"@, environment_rows_spec(paths)))
      + when(checkboxes.len() > 0, ("CheckBox"@, checkboxes))
}

/// The tables written last: the folder picker, progress, media, sequences,
/// styles and the user interface.
pub open spec fn tail_tables_spec(plan: InstallerConfig, cabinet: Seq<char>, files: nat, eulas: Seq<Eula>, has_paths: bool) -> Seq<(Seq<char>, Seq<Seq<ValueView>>)> {
    let conditions = conditions_spec(eulas, eulas.len());
    seq![
        ("Binary"@, binary_spec()),
        ("CustomAction"@, custom_action_spec()),
        ("EventMapping"@, event_mapping_spec()),
        ("ActionText"@, action_texts_spec()),
        ("Media"@, media_spec(files as int, cabinet)),
        ("InstallExecuteSequence"@, install_execute_sequence_spec()),
        ("InstallUISequence"@, install_ui_sequence_spec()),
        ("TextStyle"@, text_styles_spec()),
        ("Dialog"@, dialogs_spec(plan, eulas).map_values(|d: (Seq<char>, Seq<char>, Seq<char>, Seq<char>, Seq<char>, bool)| dialog_row_spec(d))),
        ("Control"@, control_rows_spec(plan, eulas, has_paths)),
        ("ControlEvent"@, control_events_spec(requires_variable(plan.required_variables@, "INSTALLPATH"@), eulas)),
    ] + when(conditions.len() > 0, ("ControlCondition"@, conditions))
}

/// Every table of the package with its rows, in the order they are
/// written; tables that would be empty are left out where optional.
pub open spec fn package_tables_spec(
    plan: InstallerConfig,
    cabinet: Seq<char>,
    files: Seq<FileView>,
    entries: crate::windows_installer::msi::builder::Entries,
    shortcuts: Seq<ShortcutView>,
    icons: Seq<(Seq<char>, Seq<char>)>,
    eulas: Seq<Eula>,
    paths: Seq<Seq<char>>,
    dirs: Seq<Seq<char>>,
) -> Seq<(Seq<char>, Seq<Seq<ValueView>>)> {
    head_tables_spec(plan, files, entries, shortcuts, icons, paths, dirs)
        + optional_tables_spec(plan, files, shortcuts, icons, eulas.len(), paths, dirs)
        + tail_tables_spec(plan, cabinet, files.len(), eulas, paths.len() > 0)
}

fn push_table(tables: &mut Vec<TableRows>, name: &str, rows: Vec<Vec<Value>>)
    ensures
        tables_view(final(tables)@) == tables_view(old(tables)@).push((name@, rows_view(rows@))),
{
    let ghost before = tables@;
    tables.push(TableRows { name: owned(name), rows });
    assert(tables_view(tables@) =~= tables_view(before).push((name@, rows_view(rows@))));
}

fn single_row(row: Vec<Value>) -> (r: Vec<Vec<Value>>)
    ensures
        rows_view(r@) == seq![row_view(row)],
{
    let mut rows: Vec<Vec<Value>> = Vec::new();
    push_row(&mut rows, row);
    assert(rows_view(rows@) =~= seq![row_view(row)]);
    rows
}

fn append_tables(tables: &mut Vec<TableRows>, more: Vec<TableRows>)
    ensures
        tables_view(final(tables)@) == tables_view(old(tables)@) + tables_view(more@),
{
    let mut more = more;
    let ghost (a, b) = (tables@, more@);
    tables.append(&mut more);
    assert(tables_view(tables@) =~= tables_view(a) + tables_view(b));
}

fn head_tables(plan: &InstallerConfig, files: &[PackageFile], directory_ids: &DirectoryIds, shortcuts: &[ShortcutComponent], icons: &Vec<IconStream>, path_updates: &[String], dirs: &Vec<String>) -> (r: Vec<TableRows>)
    requires
        files@.len() < i32::MAX,
        path_updates@.len() < usize::MAX,
        dirs@.len() < usize::MAX,
    ensures
        tables_view(r@) == head_tables_spec(*plan, package_files_view(files@), directory_ids.view_entries(),
            shortcut_components_view(shortcuts@), icons_view(icons@), string_views(path_updates@), string_views(dirs@)),
{
    let d = display_name(plan);
    let mut tables: Vec<TableRows> = Vec::new();
    push_table(&mut tables, "Property", property_rows(plan, path_updates.len() > 0, icons));
    let search = pair("USERPROFILEDIR", "UserProfileRegistry");
    assert(seq![row_view(search)] =~= app_search_spec());
    push_table(&mut tables, "AppSearch", single_row(search));
    let locator = vec![text("UserProfileRegistry"), Value::Int(HKCU), text("Volatile Environment"), text("USERPROFILE"), Value::Int(2)];
    assert(row_view(locator) =~= reg_locator_spec()[0]);
    assert(seq![row_view(locator)] =~= reg_locator_spec());
    push_table(&mut tables, "RegLocator", single_row(locator));
    push_table(&mut tables, "Directory", directory_rows(plan, directory_ids, shortcuts));
    let feature = vec![text("DefaultFeature"), Value::Null, text(d), text(d), Value::Int(1), Value::Int(1), text("INSTALLFOLDER"), Value::Int(0)];
    assert(row_view(feature) =~= feature_spec(d@)[0]);
    assert(seq![row_view(feature)] =~= feature_spec(d@));
    push_table(&mut tables, "Feature", single_row(feature));
    push_table(&mut tables, "Component", component_rows(plan, files, dirs, shortcuts, path_updates));
    push_table(&mut tables, "FeatureComponents", feature_component_rows(files, dirs.len(), shortcuts, path_updates.len()));
    push_table(&mut tables, "File", file_rows(files));
    assert(tables_view(tables@) =~= head_tables_spec(*plan, package_files_view(files@), directory_ids.view_entries(),
        shortcut_components_view(shortcuts@), icons_view(icons@), string_views(path_updates@), string_views(dirs@)));
    tables
}

fn optional_tables(plan: &InstallerConfig, files: &[PackageFile], shortcuts: &[ShortcutComponent], icons: &Vec<IconStream>, eulas: &[Eula], path_updates: &[String], dirs: &Vec<String>) -> (r: Vec<TableRows>)
    requires
        eulas@.len() < usize::MAX,
        path_updates@.len() < usize::MAX,
        dirs@.len() < usize::MAX,
    ensures
        tables_view(r@) == optional_tables_spec(*plan, package_files_view(files@), shortcut_components_view(shortcuts@),
            icons_view(icons@), eulas@.len(), string_views(path_updates@), string_views(dirs@)),
{
    let has_paths = path_updates.len() > 0;
    let ghost dv = string_views(dirs@);
    let ghost sv = shortcut_components_view(shortcuts@);
    let ghost iv = icons_view(icons@);
    let ghost pv = string_views(path_updates@);
    let ghost fv = package_files_view(files@);
    let ghost registry_spec = registry_rows_spec(*plan, dv, sv, pv);
    let ghost part1 = when(dv.len() > 0, ("CreateFolder"@, Seq::new(dv.len(), |i: int| pair_spec(dv[i], "AssociatedDirectory"@ + decimal((i + 1) as nat)))));
    let ghost part2 = when(sv.len() > 0, ("Shortcut"@, sv.map_values(|s: ShortcutView| shortcut_row_spec(s))));
    let ghost part3 = when(iv.len() > 0, ("Icon"@, iv.map_values(|i: (Seq<char>, Seq<char>)| seq![ValueView::Str(i.0), ValueView::Binary])));
    let ghost part4 = if registry_spec.len() > 0 {
        seq![("Registry"@, registry_spec), ("RemoveRegistry"@, remove_registry_spec(*plan,
            cleanup_component_spec(fv, dv.len(), sv, pv.len())->0, sv.len() > 0, pv.len() > 0))]
    } else {
        Seq::empty()
    };
    let ghost part5 = when(pv.len() > 0, ("Environment"@, environment_rows_spec(pv)));
    let ghost checks = checkbox_rows_spec(eulas@.len(), pv.len() > 0);
    let ghost part6 = when(checks.len() > 0, ("CheckBox"@, checks));
    let mut tables: Vec<TableRows> = Vec::new();
    if dirs.len() > 0 {
        push_table(&mut tables, "CreateFolder", create_folder_rows(dirs));
    }
    assert(dv.len() == dirs@.len());
    assert(tables_view(tables@) =~= part1);
    if shortcuts.len() > 0 {
        push_table(&mut tables, "Shortcut", shortcut_rows(shortcuts));
    }
    assert(tables_view(tables@) =~= part1 + part2);
    if icons.len() > 0 {
        push_table(&mut tables, "Icon", icon_rows(icons));
    }
    assert(tables_view(tables@) =~= part1 + part2 + part3);
    let registry = registry_rows(plan, dirs, shortcuts, path_updates);
    if registry.len() > 0 {
        match remove_registry_rows(plan, files, dirs.len(), shortcuts, path_updates) {
            Ok(remove) => {
                push_table(&mut tables, "Registry", registry);
                push_table(&mut tables, "RemoveRegistry", remove);
            },
            Err(_) => {
                assert(false);
            },
        }
    }
    assert(tables_view(tables@) =~= part1 + part2 + part3 + part4);
    if has_paths {
        push_table(&mut tables, "Environment", environment_rows(path_updates));
    }
    assert(tables_view(tables@) =~= part1 + part2 + part3 + part4 + part5);
    let checkboxes = checkbox_rows(eulas, has_paths);
    if checkboxes.len() > 0 {
        push_table(&mut tables, "CheckBox", checkboxes);
    }
    assert(tables_view(tables@) =~= part1 + part2 + part3 + part4 + part5 + part6);
    tables
}

fn tail_tables(plan: &InstallerConfig, cabinet_stream: &str, files: usize, eulas: &[Eula], path_updates: &[String]) -> (r: Vec<TableRows>)
    requires
        files < i32::MAX,
        eulas@.len() < usize::MAX,
    ensures
        tables_view(r@) == tail_tables_spec(*plan, cabinet_stream@, files as nat, eulas@, path_updates@.len() > 0),
{
    let mut tables: Vec<TableRows> = Vec::new();
    let binary = vec![text("PickInstallFolderAction"), Value::Binary];
    assert(row_view(binary) =~= binary_spec()[0]);
    assert(seq![row_view(binary)] =~= binary_spec());
    push_table(&mut tables, "Binary", single_row(binary));
    let action = vec![text("PickInstallFolder"), Value::Int(1), text("PickInstallFolderAction"), text("PickInstallFolder")];
    assert(row_view(action) =~= custom_action_spec()[0]);
    assert(seq![row_view(action)] =~= custom_action_spec());
    push_table(&mut tables, "CustomAction", single_row(action));
    let mut mapping: Vec<Vec<Value>> = Vec::new();
    let m1 = vec![text("ProgressDlg"), text("Progress"), text("SetProgress"), text("Progress")];
    let m2 = vec![text("ProgressDlg"), text("ActionText"), text("ActionText"), text("Text")];
    assert(row_view(m1) =~= event_mapping_spec()[0]);
    assert(row_view(m2) =~= event_mapping_spec()[1]);
    push_row(&mut mapping, m1);
    push_row(&mut mapping, m2);
    assert(rows_view(mapping@) =~= event_mapping_spec());
    push_table(&mut tables, "EventMapping", mapping);
    push_table(&mut tables, "ActionText", action_text_rows());
    let cabinet = concat2("#", cabinet_stream);
    let media = vec![Value::Int(1), Value::Int(files as i32), Value::Null, text(cabinet.as_str()), Value::Null, Value::Null];
    assert(row_view(media) =~= media_spec(files as int, cabinet_stream@)[0]);
    assert(seq![row_view(media)] =~= media_spec(files as int, cabinet_stream@));
    push_table(&mut tables, "Media", single_row(media));
    push_table(&mut tables, "InstallExecuteSequence", install_execute_sequence_rows());
    push_table(&mut tables, "InstallUISequence", install_ui_sequence_rows());
    push_table(&mut tables, "TextStyle", text_style_rows());
    push_table(&mut tables, "Dialog", dialog_rows(plan, eulas));
    push_table(&mut tables, "Control", control_rows(plan, eulas, path_updates));
    push_table(&mut tables, "ControlEvent", control_event_rows(plan, eulas));
    let conditions = control_condition_rows(eulas);
    if conditions.len() > 0 {
        push_table(&mut tables, "ControlCondition", conditions);
    }
    assert(tables_view(tables@) =~= tail_tables_spec(*plan, cabinet_stream@, files as nat, eulas@, path_updates@.len() > 0));
    tables
}

/// Every table of the package with its rows, in the order they are
/// written; an error when an associated directory cannot be resolved.
pub fn package_tables(
    plan: &InstallerConfig,
    cabinet_stream: &str,
    files: &[PackageFile],
    directory_ids: &DirectoryIds,
    shortcuts: &[ShortcutComponent],
    icons: &Vec<IconStream>,
    eulas: &[Eula],
    path_updates: &[String],
) -> (r: Result<Vec<TableRows>, MsiError>)
    requires
        files@.len() < i32::MAX,
        eulas@.len() < usize::MAX,
        path_updates@.len() < usize::MAX,
        plan.associated_files@.len() < usize::MAX,
    ensures
        match associated_dirs_prefix(plan.associated_files@, plan.associated_files@.len(), directory_ids.view_entries()) {
            Err(e) => r matches Err(err) && error_matches(err, e),
            Ok(dirs) => r matches Ok(tables) && tables_view(tables@) == package_tables_spec(*plan, cabinet_stream@,
                package_files_view(files@), directory_ids.view_entries(), shortcut_components_view(shortcuts@), icons_view(icons@),
                eulas@, string_views(path_updates@), dirs),
        },
{
    let dirs = match associated_directory_ids(plan, directory_ids) {
        Ok(d) => d,
        Err(e) => return Err(e),
    };
    proof {
        crate::windows_installer::msi::builder::lemma_associated_dirs_len(plan.associated_files@, plan.associated_files@.len(), directory_ids.view_entries());
    }
    let mut tables = head_tables(plan, files, directory_ids, shortcuts, icons, path_updates, &dirs);
    append_tables(&mut tables, optional_tables(plan, files, shortcuts, icons, eulas, path_updates, &dirs));
    append_tables(&mut tables, tail_tables(plan, cabinet_stream, files.len(), eulas, path_updates));
    Ok(tables)
}

} // verus!
