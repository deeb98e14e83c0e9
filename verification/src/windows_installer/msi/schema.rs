//! The tables of the MSI database and their columns: names, key columns,
//! nullability and the kind and length of their values.
use vstd::prelude::*;

use crate::text::owned;

verus! {

/// The kind of a column's values, with the longest string it holds (`0`
/// for no limit).
#[derive(Debug, Clone, Copy, PartialEq, Eq, Structural)]
pub enum ColumnKind {
    IdString(usize),
    Str(usize),
    Formatted(usize),
    Text(usize),
    Int16,
    Int32,
    Binary,
}

/// A column: its name, whether it belongs to the key, whether it may be
/// empty, and the kind of its values.
#[derive(Debug)]
pub struct ColumnSpec {
    pub name: String,
    pub primary_key: bool,
    pub nullable: bool,
    pub kind: ColumnKind,
}

/// A table: its name and its columns in order.
#[derive(Debug)]
pub struct TableSpec {
    pub name: String,
    pub columns: Vec<ColumnSpec>,
}

/// A column as values.
pub open spec fn column_view(c: ColumnSpec) -> (Seq<char>, bool, bool, ColumnKind) {
    (c.name@, c.primary_key, c.nullable, c.kind)
}

/// A table as values.
pub open spec fn table_view(t: TableSpec) -> (Seq<char>, Seq<(Seq<char>, bool, bool, ColumnKind)>) {
    (t.name@, t.columns@.map_values(|c: ColumnSpec| column_view(c)))
}

fn column(name: &str, primary_key: bool, nullable: bool, kind: ColumnKind) -> (r: ColumnSpec)
    ensures
        column_view(r) == (name@, primary_key, nullable, kind),
{
    ColumnSpec { name: owned(name), primary_key, nullable, kind }
}

/// The columns of `Property`.
pub open spec fn property_columns() -> Seq<(Seq<char>, bool, bool, ColumnKind)> {
    seq![
            ("Property"@, true, false, ColumnKind::IdString(72)),
            ("Value"@, false, true, ColumnKind::Formatted(0)),
    ]
}

fn property_table() -> (r: TableSpec)
    ensures
        table_view(r) == ("Property"@, property_columns()),
{
    let mut columns: Vec<ColumnSpec> = Vec::new();
    columns.push(column("Property", true, false, ColumnKind::IdString(72)));
    columns.push(column("Value", false, true, ColumnKind::Formatted(0)));
    let r = TableSpec { name: owned("Property"), columns };
    assert(table_view(r).1 =~= property_columns());
    r
}

/// The columns of `Directory`.
pub open spec fn directory_columns() -> Seq<(Seq<char>, bool, bool, ColumnKind)> {
    seq![
            ("Directory"@, true, false, ColumnKind::IdString(72)),
            ("Directory_Parent"@, false, true, ColumnKind::IdString(72)),
            ("DefaultDir"@, false, false, ColumnKind::Str(255)),
    ]
}

fn directory_table() -> (r: TableSpec)
    ensures
        table_view(r) == ("Directory"@, directory_columns()),
{
    let mut columns: Vec<ColumnSpec> = Vec::new();
    columns.push(column("Directory", true, false, ColumnKind::IdString(72)));
    columns.push(column("Directory_Parent", false, true, ColumnKind::IdString(72)));
    columns.push(column("DefaultDir", false, false, ColumnKind::Str(255)));
    let r = TableSpec { name: owned("Directory"), columns };
    assert(table_view(r).1 =~= directory_columns());
    r
}

/// The columns of `AppSearch`.
pub open spec fn app_search_columns() -> Seq<(Seq<char>, bool, bool, ColumnKind)> {
    seq![
            ("Property"@, true, false, ColumnKind::IdString(72)),
            ("Signature_"@, true, false, ColumnKind::IdString(72)),
    ]
}

fn app_search_table() -> (r: TableSpec)
    ensures
        table_view(r) == ("AppSearch"@, app_search_columns()),
{
    let mut columns: Vec<ColumnSpec> = Vec::new();
    columns.push(column("Property", true, false, ColumnKind::IdString(72)));
    columns.push(column("Signature_", true, false, ColumnKind::IdString(72)));
    let r = TableSpec { name: owned("AppSearch"), columns };
    assert(table_view(r).1 =~= app_search_columns());
    r
}

/// The columns of `RegLocator`.
pub open spec fn reg_locator_columns() -> Seq<(Seq<char>, bool, bool, ColumnKind)> {
    seq![
            ("Signature_"@, true, false, ColumnKind::IdString(72)),
            ("Root"@, false, false, ColumnKind::Int16),
            ("Key"@, false, false, ColumnKind::Formatted(255)),
            ("Name"@, false, true, ColumnKind::Formatted(255)),
            ("Type"@, false, true, ColumnKind::Int16),
    ]
}

fn reg_locator_table() -> (r: TableSpec)
    ensures
        table_view(r) == ("RegLocator"@, reg_locator_columns()),
{
    let mut columns: Vec<ColumnSpec> = Vec::new();
    columns.push(column("Signature_", true, false, ColumnKind::IdString(72)));
    columns.push(column("Root", false, false, ColumnKind::Int16));
    columns.push(column("Key", false, false, ColumnKind::Formatted(255)));
    columns.push(column("Name", false, true, ColumnKind::Formatted(255)));
    columns.push(column("Type", false, true, ColumnKind::Int16));
    let r = TableSpec { name: owned("RegLocator"), columns };
    assert(table_view(r).1 =~= reg_locator_columns());
    r
}

/// The columns of `Signature`.
pub open spec fn signature_columns() -> Seq<(Seq<char>, bool, bool, ColumnKind)> {
    seq![
            ("Signature"@, true, false, ColumnKind::IdString(72)),
            ("FileName"@, false, false, ColumnKind::Text(255)),
            ("MinVersion"@, false, true, ColumnKind::Text(20)),
            ("MaxVersion"@, false, true, ColumnKind::Text(20)),
            ("MinSize"@, false, true, ColumnKind::Int32),
            ("MaxSize"@, false, true, ColumnKind::Int32),
            ("MinDate"@, false, true, ColumnKind::Int32),
            ("MaxDate"@, false, true, ColumnKind::Int32),
            ("Languages"@, false, true, ColumnKind::Text(255)),
    ]
}

fn signature_table() -> (r: TableSpec)
    ensures
        table_view(r) == ("Signature"@, signature_columns()),
{
    let mut columns: Vec<ColumnSpec> = Vec::new();
    columns.push(column("Signature", true, false, ColumnKind::IdString(72)));
    columns.push(column("FileName", false, false, ColumnKind::Text(255)));
    columns.push(column("MinVersion", false, true, ColumnKind::Text(20)));
    columns.push(column("MaxVersion", false, true, ColumnKind::Text(20)));
    columns.push(column("MinSize", false, true, ColumnKind::Int32));
    columns.push(column("MaxSize", false, true, ColumnKind::Int32));
    columns.push(column("MinDate", false, true, ColumnKind::Int32));
    columns.push(column("MaxDate", false, true, ColumnKind::Int32));
    columns.push(column("Languages", false, true, ColumnKind::Text(255)));
    let r = TableSpec { name: owned("Signature"), columns };
    assert(table_view(r).1 =~= signature_columns());
    r
}

/// The columns of `Feature`.
pub open spec fn feature_columns() -> Seq<(Seq<char>, bool, bool, ColumnKind)> {
    seq![
            ("Feature"@, true, false, ColumnKind::IdString(38)),
            ("Feature_Parent"@, false, true, ColumnKind::IdString(38)),
            ("Title"@, false, true, ColumnKind::Text(64)),
            ("Description"@, false, true, ColumnKind::Text(255)),
            ("Display"@, false, true, ColumnKind::Int16),
            ("Level"@, false, false, ColumnKind::Int16),
            ("Directory_"@, false, true, ColumnKind::IdString(72)),
            ("Attributes"@, false, false, ColumnKind::Int16),
    ]
}

fn feature_table() -> (r: TableSpec)
    ensures
        table_view(r) == ("Feature"@, feature_columns()),
{
    let mut columns: Vec<ColumnSpec> = Vec::new();
    columns.push(column("Feature", true, false, ColumnKind::IdString(38)));
    columns.push(column("Feature_Parent", false, true, ColumnKind::IdString(38)));
    columns.push(column("Title", false, true, ColumnKind::Text(64)));
    columns.push(column("Description", false, true, ColumnKind::Text(255)));
    columns.push(column("Display", false, true, ColumnKind::Int16));
    columns.push(column("Level", false, false, ColumnKind::Int16));
    columns.push(column("Directory_", false, true, ColumnKind::IdString(72)));
    columns.push(column("Attributes", false, false, ColumnKind::Int16));
    let r = TableSpec { name: owned("Feature"), columns };
    assert(table_view(r).1 =~= feature_columns());
    r
}

/// The columns of `Component`.
pub open spec fn component_columns() -> Seq<(Seq<char>, bool, bool, ColumnKind)> {
    seq![
            ("Component"@, true, false, ColumnKind::IdString(72)),
            ("ComponentId"@, false, true, ColumnKind::Str(38)),
            ("Directory_"@, false, false, ColumnKind::IdString(72)),
            ("Attributes"@, false, false, ColumnKind::Int16),
            ("Condition"@, false, true, ColumnKind::Formatted(255)),
            ("KeyPath"@, false, true, ColumnKind::IdString(72)),
    ]
}

fn component_table() -> (r: TableSpec)
    ensures
        table_view(r) == ("Component"@, component_columns()),
{
    let mut columns: Vec<ColumnSpec> = Vec::new();
    columns.push(column("Component", true, false, ColumnKind::IdString(72)));
    columns.push(column("ComponentId", false, true, ColumnKind::Str(38)));
    columns.push(column("Directory_", false, false, ColumnKind::IdString(72)));
    columns.push(column("Attributes", false, false, ColumnKind::Int16));
    columns.push(column("Condition", false, true, ColumnKind::Formatted(255)));
    columns.push(column("KeyPath", false, true, ColumnKind::IdString(72)));
    let r = TableSpec { name: owned("Component"), columns };
    assert(table_view(r).1 =~= component_columns());
    r
}

/// The columns of `FeatureComponents`.
pub open spec fn feature_components_columns() -> Seq<(Seq<char>, bool, bool, ColumnKind)> {
    seq![
            ("Feature_"@, true, false, ColumnKind::IdString(38)),
            ("Component_"@, true, false, ColumnKind::IdString(72)),
    ]
}

fn feature_components_table() -> (r: TableSpec)
    ensures
        table_view(r) == ("FeatureComponents"@, feature_components_columns()),
{
    let mut columns: Vec<ColumnSpec> = Vec::new();
    columns.push(column("Feature_", true, false, ColumnKind::IdString(38)));
    columns.push(column("Component_", true, false, ColumnKind::IdString(72)));
    let r = TableSpec { name: owned("FeatureComponents"), columns };
    assert(table_view(r).1 =~= feature_components_columns());
    r
}

/// The columns of `File`.
pub open spec fn file_columns() -> Seq<(Seq<char>, bool, bool, ColumnKind)> {
    seq![
            ("File"@, true, false, ColumnKind::IdString(72)),
            ("Component_"@, false, false, ColumnKind::IdString(72)),
            ("FileName"@, false, false, ColumnKind::Str(255)),
            ("FileSize"@, false, false, ColumnKind::Int32),
            ("Version"@, false, true, ColumnKind::Str(72)),
            ("Language"@, false, true, ColumnKind::Str(20)),
            ("Attributes"@, false, true, ColumnKind::Int16),
            ("Sequence"@, false, false, ColumnKind::Int16),
    ]
}

fn file_table() -> (r: TableSpec)
    ensures
        table_view(r) == ("File"@, file_columns()),
{
    let mut columns: Vec<ColumnSpec> = Vec::new();
    columns.push(column("File", true, false, ColumnKind::IdString(72)));
    columns.push(column("Component_", false, false, ColumnKind::IdString(72)));
    columns.push(column("FileName", false, false, ColumnKind::Str(255)));
    columns.push(column("FileSize", false, false, ColumnKind::Int32));
    columns.push(column("Version", false, true, ColumnKind::Str(72)));
    columns.push(column("Language", false, true, ColumnKind::Str(20)));
    columns.push(column("Attributes", false, true, ColumnKind::Int16));
    columns.push(column("Sequence", false, false, ColumnKind::Int16));
    let r = TableSpec { name: owned("File"), columns };
    assert(table_view(r).1 =~= file_columns());
    r
}

/// The columns of `Media`.
pub open spec fn media_columns() -> Seq<(Seq<char>, bool, bool, ColumnKind)> {
    seq![
            ("DiskId"@, true, false, ColumnKind::Int16),
            ("LastSequence"@, false, false, ColumnKind::Int16),
            ("DiskPrompt"@, false, true, ColumnKind::Str(64)),
            ("Cabinet"@, false, true, ColumnKind::Str(255)),
            ("VolumeLabel"@, false, true, ColumnKind::Str(32)),
            ("Source"@, false, true, ColumnKind::Str(72)),
    ]
}

fn media_table() -> (r: TableSpec)
    ensures
        table_view(r) == ("Media"@, media_columns()),
{
    let mut columns: Vec<ColumnSpec> = Vec::new();
    columns.push(column("DiskId", true, false, ColumnKind::Int16));
    columns.push(column("LastSequence", false, false, ColumnKind::Int16));
    columns.push(column("DiskPrompt", false, true, ColumnKind::Str(64)));
    columns.push(column("Cabinet", false, true, ColumnKind::Str(255)));
    columns.push(column("VolumeLabel", false, true, ColumnKind::Str(32)));
    columns.push(column("Source", false, true, ColumnKind::Str(72)));
    let r = TableSpec { name: owned("Media"), columns };
    assert(table_view(r).1 =~= media_columns());
    r
}

/// The columns of `CreateFolder`.
pub open spec fn create_folder_columns() -> Seq<(Seq<char>, bool, bool, ColumnKind)> {
    seq![
            ("Directory_"@, true, false, ColumnKind::IdString(72)),
            ("Component_"@, true, false, ColumnKind::IdString(72)),
    ]
}

fn create_folder_table() -> (r: TableSpec)
    ensures
        table_view(r) == ("CreateFolder"@, create_folder_columns()),
{
    let mut columns: Vec<ColumnSpec> = Vec::new();
    columns.push(column("Directory_", true, false, ColumnKind::IdString(72)));
    columns.push(column("Component_", true, false, ColumnKind::IdString(72)));
    let r = TableSpec { name: owned("CreateFolder"), columns };
    assert(table_view(r).1 =~= create_folder_columns());
    r
}

/// The columns of `Shortcut`.
pub open spec fn shortcut_columns() -> Seq<(Seq<char>, bool, bool, ColumnKind)> {
    seq![
            ("Shortcut"@, true, false, ColumnKind::IdString(72)),
            ("Directory_"@, false, false, ColumnKind::IdString(72)),
            ("Name"@, false, false, ColumnKind::Str(128)),
            ("Component_"@, false, false, ColumnKind::IdString(72)),
            ("Target"@, false, true, ColumnKind::Formatted(255)),
            ("Arguments"@, false, true, ColumnKind::Formatted(255)),
            ("Description"@, false, true, ColumnKind::Text(255)),
            ("Hotkey"@, false, true, ColumnKind::Int16),
            ("Icon_"@, false, true, ColumnKind::IdString(72)),
            ("IconIndex"@, false, true, ColumnKind::Int16),
            ("ShowCmd"@, false, true, ColumnKind::Int16),
            ("WkDir"@, false, true, ColumnKind::IdString(72)),
    ]
}

fn shortcut_table() -> (r: TableSpec)
    ensures
        table_view(r) == ("Shortcut"@, shortcut_columns()),
{
    let mut columns: Vec<ColumnSpec> = Vec::new();
    columns.push(column("Shortcut", true, false, ColumnKind::IdString(72)));
    columns.push(column("Directory_", false, false, ColumnKind::IdString(72)));
    columns.push(column("Name", false, false, ColumnKind::Str(128)));
    columns.push(column("Component_", false, false, ColumnKind::IdString(72)));
    columns.push(column("Target", false, true, ColumnKind::Formatted(255)));
    columns.push(column("Arguments", false, true, ColumnKind::Formatted(255)));
    columns.push(column("Description", false, true, ColumnKind::Text(255)));
    columns.push(column("Hotkey", false, true, ColumnKind::Int16));
    columns.push(column("Icon_", false, true, ColumnKind::IdString(72)));
    columns.push(column("IconIndex", false, true, ColumnKind::Int16));
    columns.push(column("ShowCmd", false, true, ColumnKind::Int16));
    columns.push(column("WkDir", false, true, ColumnKind::IdString(72)));
    let r = TableSpec { name: owned("Shortcut"), columns };
    assert(table_view(r).1 =~= shortcut_columns());
    r
}

/// The columns of `Icon`.
pub open spec fn icon_columns() -> Seq<(Seq<char>, bool, bool, ColumnKind)> {
    seq![
            ("Name"@, true, false, ColumnKind::IdString(72)),
            ("Data"@, false, false, ColumnKind::Binary),
    ]
}

fn icon_table() -> (r: TableSpec)
    ensures
        table_view(r) == ("Icon"@, icon_columns()),
{
    let mut columns: Vec<ColumnSpec> = Vec::new();
    columns.push(column("Name", true, false, ColumnKind::IdString(72)));
    columns.push(column("Data", false, false, ColumnKind::Binary));
    let r = TableSpec { name: owned("Icon"), columns };
    assert(table_view(r).1 =~= icon_columns());
    r
}

/// The columns of `Registry`.
pub open spec fn registry_columns() -> Seq<(Seq<char>, bool, bool, ColumnKind)> {
    seq![
            ("Registry"@, true, false, ColumnKind::IdString(72)),
            ("Root"@, false, false, ColumnKind::Int16),
            ("Key"@, false, false, ColumnKind::Formatted(255)),
            ("Name"@, false, true, ColumnKind::Formatted(255)),
            ("Value"@, false, true, ColumnKind::Formatted(0)),
            ("Component_"@, false, false, ColumnKind::IdString(72)),
    ]
}

fn registry_table() -> (r: TableSpec)
    ensures
        table_view(r) == ("Registry"@, registry_columns()),
{
    let mut columns: Vec<ColumnSpec> = Vec::new();
    columns.push(column("Registry", true, false, ColumnKind::IdString(72)));
    columns.push(column("Root", false, false, ColumnKind::Int16));
    columns.push(column("Key", false, false, ColumnKind::Formatted(255)));
    columns.push(column("Name", false, true, ColumnKind::Formatted(255)));
    columns.push(column("Value", false, true, ColumnKind::Formatted(0)));
    columns.push(column("Component_", false, false, ColumnKind::IdString(72)));
    let r = TableSpec { name: owned("Registry"), columns };
    assert(table_view(r).1 =~= registry_columns());
    r
}

/// The columns of `RemoveRegistry`.
pub open spec fn remove_registry_columns() -> Seq<(Seq<char>, bool, bool, ColumnKind)> {
    seq![
            ("RemoveRegistry"@, true, false, ColumnKind::IdString(72)),
            ("Root"@, false, false, ColumnKind::Int16),
            ("Key"@, false, false, ColumnKind::Formatted(255)),
            ("Name"@, false, true, ColumnKind::Formatted(255)),
            ("Component_"@, false, false, ColumnKind::IdString(72)),
    ]
}

fn remove_registry_table() -> (r: TableSpec)
    ensures
        table_view(r) == ("RemoveRegistry"@, remove_registry_columns()),
{
    let mut columns: Vec<ColumnSpec> = Vec::new();
    columns.push(column("RemoveRegistry", true, false, ColumnKind::IdString(72)));
    columns.push(column("Root", false, false, ColumnKind::Int16));
    columns.push(column("Key", false, false, ColumnKind::Formatted(255)));
    columns.push(column("Name", false, true, ColumnKind::Formatted(255)));
    columns.push(column("Component_", false, false, ColumnKind::IdString(72)));
    let r = TableSpec { name: owned("RemoveRegistry"), columns };
    assert(table_view(r).1 =~= remove_registry_columns());
    r
}

/// The columns of `Environment`.
pub open spec fn environment_columns() -> Seq<(Seq<char>, bool, bool, ColumnKind)> {
    seq![
            ("Environment"@, true, false, ColumnKind::IdString(72)),
            ("Name"@, false, false, ColumnKind::Formatted(255)),
            ("Value"@, false, true, ColumnKind::Formatted(255)),
            ("Component_"@, false, false, ColumnKind::IdString(72)),
    ]
}

fn environment_table() -> (r: TableSpec)
    ensures
        table_view(r) == ("Environment"@, environment_columns()),
{
    let mut columns: Vec<ColumnSpec> = Vec::new();
    columns.push(column("Environment", true, false, ColumnKind::IdString(72)));
    columns.push(column("Name", false, false, ColumnKind::Formatted(255)));
    columns.push(column("Value", false, true, ColumnKind::Formatted(255)));
    columns.push(column("Component_", false, false, ColumnKind::IdString(72)));
    let r = TableSpec { name: owned("Environment"), columns };
    assert(table_view(r).1 =~= environment_columns());
    r
}

/// The columns of `InstallExecuteSequence`.
pub open spec fn install_execute_sequence_columns() -> Seq<(Seq<char>, bool, bool, ColumnKind)> {
    seq![
            ("Action"@, true, false, ColumnKind::IdString(72)),
            ("Condition"@, false, true, ColumnKind::Formatted(255)),
            ("Sequence"@, false, true, ColumnKind::Int16),
    ]
}

fn install_execute_sequence_table() -> (r: TableSpec)
    ensures
        table_view(r) == ("InstallExecuteSequence"@, install_execute_sequence_columns()),
{
    let mut columns: Vec<ColumnSpec> = Vec::new();
    columns.push(column("Action", true, false, ColumnKind::IdString(72)));
    columns.push(column("Condition", false, true, ColumnKind::Formatted(255)));
    columns.push(column("Sequence", false, true, ColumnKind::Int16));
    let r = TableSpec { name: owned("InstallExecuteSequence"), columns };
    assert(table_view(r).1 =~= install_execute_sequence_columns());
    r
}

/// The columns of `InstallUISequence`.
pub open spec fn install_ui_sequence_columns() -> Seq<(Seq<char>, bool, bool, ColumnKind)> {
    seq![
            ("Action"@, true, false, ColumnKind::IdString(72)),
            ("Condition"@, false, true, ColumnKind::Formatted(255)),
            ("Sequence"@, false, true, ColumnKind::Int16),
    ]
}

fn install_ui_sequence_table() -> (r: TableSpec)
    ensures
        table_view(r) == ("InstallUISequence"@, install_ui_sequence_columns()),
{
    let mut columns: Vec<ColumnSpec> = Vec::new();
    columns.push(column("Action", true, false, ColumnKind::IdString(72)));
    columns.push(column("Condition", false, true, ColumnKind::Formatted(255)));
    columns.push(column("Sequence", false, true, ColumnKind::Int16));
    let r = TableSpec { name: owned("InstallUISequence"), columns };
    assert(table_view(r).1 =~= install_ui_sequence_columns());
    r
}

/// The columns of `TextStyle`.
pub open spec fn text_style_columns() -> Seq<(Seq<char>, bool, bool, ColumnKind)> {
    seq![
            ("TextStyle"@, true, false, ColumnKind::IdString(72)),
            ("FaceName"@, false, false, ColumnKind::Str(32)),
            ("Size"@, false, false, ColumnKind::Int16),
            ("Color"@, false, true, ColumnKind::Int32),
            ("StyleBits"@, false, true, ColumnKind::Int16),
    ]
}

fn text_style_table() -> (r: TableSpec)
    ensures
        table_view(r) == ("TextStyle"@, text_style_columns()),
{
    let mut columns: Vec<ColumnSpec> = Vec::new();
    columns.push(column("TextStyle", true, false, ColumnKind::IdString(72)));
    columns.push(column("FaceName", false, false, ColumnKind::Str(32)));
    columns.push(column("Size", false, false, ColumnKind::Int16));
    columns.push(column("Color", false, true, ColumnKind::Int32));
    columns.push(column("StyleBits", false, true, ColumnKind::Int16));
    let r = TableSpec { name: owned("TextStyle"), columns };
    assert(table_view(r).1 =~= text_style_columns());
    r
}

/// The columns of `Dialog`.
pub open spec fn dialog_columns() -> Seq<(Seq<char>, bool, bool, ColumnKind)> {
    seq![
            ("Dialog"@, true, false, ColumnKind::IdString(72)),
            ("HCentering"@, false, false, ColumnKind::Int16),
            ("VCentering"@, false, false, ColumnKind::Int16),
            ("Width"@, false, false, ColumnKind::Int16),
            ("Height"@, false, false, ColumnKind::Int16),
            ("Attributes"@, false, false, ColumnKind::Int32),
            ("Title"@, false, true, ColumnKind::Formatted(128)),
            ("Control_First"@, false, true, ColumnKind::IdString(50)),
            ("Control_Default"@, false, true, ColumnKind::IdString(50)),
            ("Control_Cancel"@, false, true, ColumnKind::IdString(50)),
    ]
}

fn dialog_table() -> (r: TableSpec)
    ensures
        table_view(r) == ("Dialog"@, dialog_columns()),
{
    let mut columns: Vec<ColumnSpec> = Vec::new();
    columns.push(column("Dialog", true, false, ColumnKind::IdString(72)));
    columns.push(column("HCentering", false, false, ColumnKind::Int16));
    columns.push(column("VCentering", false, false, ColumnKind::Int16));
    columns.push(column("Width", false, false, ColumnKind::Int16));
    columns.push(column("Height", false, false, ColumnKind::Int16));
    columns.push(column("Attributes", false, false, ColumnKind::Int32));
    columns.push(column("Title", false, true, ColumnKind::Formatted(128)));
    columns.push(column("Control_First", false, true, ColumnKind::IdString(50)));
    columns.push(column("Control_Default", false, true, ColumnKind::IdString(50)));
    columns.push(column("Control_Cancel", false, true, ColumnKind::IdString(50)));
    let r = TableSpec { name: owned("Dialog"), columns };
    assert(table_view(r).1 =~= dialog_columns());
    r
}

/// The columns of `Control`.
pub open spec fn control_columns() -> Seq<(Seq<char>, bool, bool, ColumnKind)> {
    seq![
            ("Dialog_"@, true, false, ColumnKind::IdString(72)),
            ("Control"@, true, false, ColumnKind::IdString(50)),
            ("Type"@, false, false, ColumnKind::IdString(20)),
            ("X"@, false, false, ColumnKind::Int16),
            ("Y"@, false, false, ColumnKind::Int16),
            ("Width"@, false, false, ColumnKind::Int16),
            ("Height"@, false, false, ColumnKind::Int16),
            ("Attributes"@, false, true, ColumnKind::Int32),
            ("Property"@, false, true, ColumnKind::IdString(50)),
            ("Text"@, false, true, ColumnKind::Formatted(0)),
            ("Control_Next"@, false, true, ColumnKind::IdString(50)),
            ("Help"@, false, true, ColumnKind::Formatted(50)),
    ]
}

fn control_table() -> (r: TableSpec)
    ensures
        table_view(r) == ("Control"@, control_columns()),
{
    let mut columns: Vec<ColumnSpec> = Vec::new();
    columns.push(column("Dialog_", true, false, ColumnKind::IdString(72)));
    columns.push(column("Control", true, false, ColumnKind::IdString(50)));
    columns.push(column("Type", false, false, ColumnKind::IdString(20)));
    columns.push(column("X", false, false, ColumnKind::Int16));
    columns.push(column("Y", false, false, ColumnKind::Int16));
    columns.push(column("Width", false, false, ColumnKind::Int16));
    columns.push(column("Height", false, false, ColumnKind::Int16));
    columns.push(column("Attributes", false, true, ColumnKind::Int32));
    columns.push(column("Property", false, true, ColumnKind::IdString(50)));
    columns.push(column("Text", false, true, ColumnKind::Formatted(0)));
    columns.push(column("Control_Next", false, true, ColumnKind::IdString(50)));
    columns.push(column("Help", false, true, ColumnKind::Formatted(50)));
    let r = TableSpec { name: owned("Control"), columns };
    assert(table_view(r).1 =~= control_columns());
    r
}

/// The columns of `CheckBox`.
pub open spec fn check_box_columns() -> Seq<(Seq<char>, bool, bool, ColumnKind)> {
    seq![
            ("Property"@, true, false, ColumnKind::IdString(72)),
            ("Value"@, false, false, ColumnKind::Formatted(64)),
    ]
}

fn check_box_table() -> (r: TableSpec)
    ensures
        table_view(r) == ("CheckBox"@, check_box_columns()),
{
    let mut columns: Vec<ColumnSpec> = Vec::new();
    columns.push(column("Property", true, false, ColumnKind::IdString(72)));
    columns.push(column("Value", false, false, ColumnKind::Formatted(64)));
    let r = TableSpec { name: owned("CheckBox"), columns };
    assert(table_view(r).1 =~= check_box_columns());
    r
}

/// The columns of `CustomAction`.
pub open spec fn custom_action_columns() -> Seq<(Seq<char>, bool, bool, ColumnKind)> {
    seq![
            ("Action"@, true, false, ColumnKind::IdString(72)),
            ("Type"@, false, false, ColumnKind::Int16),
            ("Source"@, false, true, ColumnKind::IdString(72)),
            ("Target"@, false, true, ColumnKind::Formatted(0)),
    ]
}

fn custom_action_table() -> (r: TableSpec)
    ensures
        table_view(r) == ("CustomAction"@, custom_action_columns()),
{
    let mut columns: Vec<ColumnSpec> = Vec::new();
    columns.push(column("Action", true, false, ColumnKind::IdString(72)));
    columns.push(column("Type", false, false, ColumnKind::Int16));
    columns.push(column("Source", false, true, ColumnKind::IdString(72)));
    columns.push(column("Target", false, true, ColumnKind::Formatted(0)));
    let r = TableSpec { name: owned("CustomAction"), columns };
    assert(table_view(r).1 =~= custom_action_columns());
    r
}

/// The columns of `Binary`.
pub open spec fn binary_columns() -> Seq<(Seq<char>, bool, bool, ColumnKind)> {
    seq![
            ("Name"@, true, false, ColumnKind::IdString(72)),
            ("Data"@, false, false, ColumnKind::Binary),
    ]
}

fn binary_table() -> (r: TableSpec)
    ensures
        table_view(r) == ("Binary"@, binary_columns()),
{
    let mut columns: Vec<ColumnSpec> = Vec::new();
    columns.push(column("Name", true, false, ColumnKind::IdString(72)));
    columns.push(column("Data", false, false, ColumnKind::Binary));
    let r = TableSpec { name: owned("Binary"), columns };
    assert(table_view(r).1 =~= binary_columns());
    r
}

/// The columns of `EventMapping`.
pub open spec fn event_mapping_columns() -> Seq<(Seq<char>, bool, bool, ColumnKind)> {
    seq![
            ("Dialog_"@, true, false, ColumnKind::IdString(72)),
            ("Control_"@, true, false, ColumnKind::IdString(50)),
            ("Event"@, true, false, ColumnKind::IdString(50)),
            ("Attribute"@, true, false, ColumnKind::IdString(50)),
    ]
}

fn event_mapping_table() -> (r: TableSpec)
    ensures
        table_view(r) == ("EventMapping"@, event_mapping_columns()),
{
    let mut columns: Vec<ColumnSpec> = Vec::new();
    columns.push(column("Dialog_", true, false, ColumnKind::IdString(72)));
    columns.push(column("Control_", true, false, ColumnKind::IdString(50)));
    columns.push(column("Event", true, false, ColumnKind::IdString(50)));
    columns.push(column("Attribute", true, false, ColumnKind::IdString(50)));
    let r = TableSpec { name: owned("EventMapping"), columns };
    assert(table_view(r).1 =~= event_mapping_columns());
    r
}

/// The columns of `ActionText`.
pub open spec fn action_text_columns() -> Seq<(Seq<char>, bool, bool, ColumnKind)> {
    seq![
            ("Action"@, true, false, ColumnKind::IdString(72)),
            ("Description"@, false, true, ColumnKind::Text(64)),
            ("Template"@, false, true, ColumnKind::Text(128)),
    ]
}

fn action_text_table() -> (r: TableSpec)
    ensures
        table_view(r) == ("ActionText"@, action_text_columns()),
{
    let mut columns: Vec<ColumnSpec> = Vec::new();
    columns.push(column("Action", true, false, ColumnKind::IdString(72)));
    columns.push(column("Description", false, true, ColumnKind::Text(64)));
    columns.push(column("Template", false, true, ColumnKind::Text(128)));
    let r = TableSpec { name: owned("ActionText"), columns };
    assert(table_view(r).1 =~= action_text_columns());
    r
}

/// The columns of `ControlEvent`.
pub open spec fn control_event_columns() -> Seq<(Seq<char>, bool, bool, ColumnKind)> {
    seq![
            ("Dialog_"@, true, false, ColumnKind::IdString(72)),
            ("Control_"@, true, false, ColumnKind::IdString(50)),
            ("Event"@, true, false, ColumnKind::Formatted(50)),
            ("Argument"@, true, false, ColumnKind::Formatted(255)),
            ("Condition"@, false, true, ColumnKind::Formatted(255)),
            ("Ordering"@, false, true, ColumnKind::Int16),
    ]
}

fn control_event_table() -> (r: TableSpec)
    ensures
        table_view(r) == ("ControlEvent"@, control_event_columns()),
{
    let mut columns: Vec<ColumnSpec> = Vec::new();
    columns.push(column("Dialog_", true, false, ColumnKind::IdString(72)));
    columns.push(column("Control_", true, false, ColumnKind::IdString(50)));
    columns.push(column("Event", true, false, ColumnKind::Formatted(50)));
    columns.push(column("Argument", true, false, ColumnKind::Formatted(255)));
    columns.push(column("Condition", false, true, ColumnKind::Formatted(255)));
    columns.push(column("Ordering", false, true, ColumnKind::Int16));
    let r = TableSpec { name: owned("ControlEvent"), columns };
    assert(table_view(r).1 =~= control_event_columns());
    r
}

/// The columns of `ControlCondition`.
pub open spec fn control_condition_columns() -> Seq<(Seq<char>, bool, bool, ColumnKind)> {
    seq![
            ("Dialog_"@, true, false, ColumnKind::IdString(72)),
            ("Control_"@, true, false, ColumnKind::IdString(50)),
            ("Action"@, true, false, ColumnKind::IdString(50)),
            ("Condition"@, true, false, ColumnKind::Formatted(255)),
    ]
}

fn control_condition_table() -> (r: TableSpec)
    ensures
        table_view(r) == ("ControlCondition"@, control_condition_columns()),
{
    let mut columns: Vec<ColumnSpec> = Vec::new();
    columns.push(column("Dialog_", true, false, ColumnKind::IdString(72)));
    columns.push(column("Control_", true, false, ColumnKind::IdString(50)));
    columns.push(column("Action", true, false, ColumnKind::IdString(50)));
    columns.push(column("Condition", true, false, ColumnKind::Formatted(255)));
    let r = TableSpec { name: owned("ControlCondition"), columns };
    assert(table_view(r).1 =~= control_condition_columns());
    r
}

/// Every table of the database, in the order they are created.
pub open spec fn schema_spec() -> Seq<(Seq<char>, Seq<(Seq<char>, bool, bool, ColumnKind)>)> {
    seq![
        ("Property"@, property_columns()),
        ("Directory"@, directory_columns()),
        ("AppSearch"@, app_search_columns()),
        ("RegLocator"@, reg_locator_columns()),
        ("Signature"@, signature_columns()),
        ("Feature"@, feature_columns()),
        ("Component"@, component_columns()),
        ("FeatureComponents"@, feature_components_columns()),
        ("File"@, file_columns()),
        ("Media"@, media_columns()),
        ("CreateFolder"@, create_folder_columns()),
        ("Shortcut"@, shortcut_columns()),
        ("Icon"@, icon_columns()),
        ("Registry"@, registry_columns()),
        ("RemoveRegistry"@, remove_registry_columns()),
        ("Environment"@, environment_columns()),
        ("InstallExecuteSequence"@, install_execute_sequence_columns()),
        ("InstallUISequence"@, install_ui_sequence_columns()),
        ("TextStyle"@, text_style_columns()),
        ("Dialog"@, dialog_columns()),
        ("Control"@, control_columns()),
        ("CheckBox"@, check_box_columns()),
        ("CustomAction"@, custom_action_columns()),
        ("Binary"@, binary_columns()),
        ("EventMapping"@, event_mapping_columns()),
        ("ActionText"@, action_text_columns()),
        ("ControlEvent"@, control_event_columns()),
        ("ControlCondition"@, control_condition_columns()),
    ]
}

/// Every table of the database with its columns, in the order they are
/// created.
pub fn schema() -> (r: Vec<TableSpec>)
    ensures
        r@.map_values(|t: TableSpec| table_view(t)) == schema_spec(),
{
    let mut tables: Vec<TableSpec> = Vec::new();
    tables.push(property_table());
    tables.push(directory_table());
    tables.push(app_search_table());
    tables.push(reg_locator_table());
    tables.push(signature_table());
    tables.push(feature_table());
    tables.push(component_table());
    tables.push(feature_components_table());
    tables.push(file_table());
    tables.push(media_table());
    tables.push(create_folder_table());
    tables.push(shortcut_table());
    tables.push(icon_table());
    tables.push(registry_table());
    tables.push(remove_registry_table());
    tables.push(environment_table());
    tables.push(install_execute_sequence_table());
    tables.push(install_ui_sequence_table());
    tables.push(text_style_table());
    tables.push(dialog_table());
    tables.push(control_table());
    tables.push(check_box_table());
    tables.push(custom_action_table());
    tables.push(binary_table());
    tables.push(event_mapping_table());
    tables.push(action_text_table());
    tables.push(control_event_table());
    tables.push(control_condition_table());
    assert(tables@.map_values(|t: TableSpec| table_view(t)) =~= schema_spec());
    tables
}

/// Every table of the database has a key, and its key columns come before
/// the others.
pub proof fn lemma_schema_keys_first()
    ensures
        forall|t: int| 0 <= t < schema_spec().len() ==> (#[trigger] schema_spec()[t]).1.len() > 0 && schema_spec()[t].1[0].1,
        forall|t: int, i: int, j: int|
            0 <= t < schema_spec().len() && 0 <= i < j < schema_spec()[t].1.len() && (#[trigger] schema_spec()[t].1[j]).1
                ==> (#[trigger] schema_spec()[t].1[i]).1,
{
}

} // verus!
