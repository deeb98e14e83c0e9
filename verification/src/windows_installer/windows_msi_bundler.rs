//! Turning a built Windows platform into the configuration of its MSI
//! installer.
use vstd::prelude::*;

use crate::manifest_file::{AssociatedFile as ManifestAssociatedFile, AssociatedFileKind as ManifestAssociatedFileKind,
    EulaFile, eula_path_spec, eula_required_spec};
use crate::services::build_variable::{variable_name_spec, BuildVariable};
use crate::target_manifest::{Shortcut as TargetShortcut};
use crate::text::{concat2, file_name, file_name_spec, has_string, opt_string_view, owned, path_join, path_join_spec, push_char, string_views};
use crate::windows_installer::config::{AssociatedFile, AssociatedFileKind, Eula, PayloadEntry, Shortcut};

verus! {

/// The MSI bundler of Windows platforms.
#[derive(Debug)]
pub struct WindowsMsiBundler {}

/// A character of an artifact file name: characters Windows refuses in file
/// names become `-`.
pub open spec fn stem_char(c: char) -> char {
    if c == '/' || c == '\\' || c == ':' || c == '*' || c == '?' || c == '"' || c == '<' || c == '>' || c == '|' {
        '-'
    } else {
        c
    }
}

/// Where a bundle of a target goes: `build_dir/platform/target/bundle`.
pub open spec fn bundle_dir_spec(build_dir: Seq<char>, platform: Seq<char>, target: Seq<char>, bundle: Seq<char>) -> Seq<char> {
    path_join_spec(path_join_spec(path_join_spec(build_dir, platform), target), bundle)
}

/// Where the MSI installer of a target goes: `<stem>.msi` in the target's
/// bundle directory.
pub fn msi_output_path(build_dir: &str, platform: &str, target: &str, bundle: &str, stem: &str) -> (r: String)
    ensures
        r@ == path_join_spec(bundle_dir_spec(build_dir@, platform@, target@, bundle@), stem@ + ".msi"@),
{
    let a = path_join(build_dir, platform);
    let b = path_join(a.as_str(), target);
    let dir = path_join(b.as_str(), bundle);
    let file = concat2(stem, ".msi");
    path_join(dir.as_str(), file.as_str())
}

/// The file stem of the installer: the display name, else the application
/// name, with refused characters replaced.
pub open spec fn artifact_file_stem_spec(display_name: Option<Seq<char>>, app_name: Seq<char>) -> Seq<char> {
    (match display_name {
        Some(d) => d,
        None => app_name,
    }).map_values(|c: char| stem_char(c))
}

/// The file stem of the installer.
pub fn artifact_file_stem(display_name: Option<&str>, app_name: &str) -> (r: String)
    ensures
        r@ == artifact_file_stem_spec(match display_name {
            Some(d) => Some(d@),
            None => None,
        }, app_name@),
{
    let name = match display_name {
        Some(d) => d,
        None => app_name,
    };
    let n = name.unicode_len();
    let mut out = String::new();
    let mut i: usize = 0;
    while i < n
        invariant
            n == name@.len(),
            i <= n,
            out@ == name@.take(i as int).map_values(|c: char| stem_char(c)),
        decreases n - i,
    {
        let c = name.get_char(i);
        let m = if c == '/' || c == '\\' || c == ':' || c == '*' || c == '?' || c == '"' || c == '<' || c == '>' || c == '|' {
            '-'
        } else {
            c
        };
        push_char(&mut out, m);
        assert(name@.take(i + 1).map_values(|c: char| stem_char(c)) =~= name@.take(i as int).map_values(|c: char| stem_char(c)).push(stem_char(c)));
        i = i + 1;
    }
    assert(name@.take(n as int) == name@);
    out
}

/// The variables the installer must provide: the platform's, then
/// `INSTALLPATH` when missing, since PATH entries are based on the chosen
/// folder.
pub open spec fn required_variables_spec(vars: Seq<BuildVariable>) -> Seq<Seq<char>> {
    let names = vars.map_values(|v: BuildVariable| variable_name_spec(v));
    if names.contains("INSTALLPATH"@) { names } else { names.push("INSTALLPATH"@) }
}

/// The variables the installer must provide.
pub fn required_variables(variables: &Vec<BuildVariable>) -> (r: Vec<String>)
    ensures
        string_views(r@) == required_variables_spec(variables@),
{
    let ghost names = variables@.map_values(|v: BuildVariable| variable_name_spec(v));
    let mut out: Vec<String> = Vec::new();
    let mut found = false;
    let mut i: usize = 0;
    while i < variables.len()
        invariant
            i <= variables@.len(),
            names == variables@.map_values(|v: BuildVariable| variable_name_spec(v)),
            string_views(out@) == names.take(i as int),
            found == names.take(i as int).contains("INSTALLPATH"@),
        decreases variables@.len() - i,
    {
        let v = variables[i];
        let ghost before = out@;
        out.push(owned(v.name()));
        proof {
            reveal_strlit("INSTALLPATH");
            reveal_strlit("HOMEPATH");
            assert(string_views(out@) =~= string_views(before).push(names[i as int]));
            assert(names.take(i + 1) =~= names.take(i as int).push(names[i as int]));
            if names.take(i as int).contains("INSTALLPATH"@) {
                let t = names.take(i as int);
                let k = choose|k: int| 0 <= k < t.len() && #[trigger] t[k] == "INSTALLPATH"@;
                assert(names.take(i + 1)[k] == "INSTALLPATH"@);
            }
            if names.take(i + 1).contains("INSTALLPATH"@) && names[i as int] != "INSTALLPATH"@ {
                let t = names.take(i + 1);
                let k = choose|k: int| 0 <= k < t.len() && #[trigger] t[k] == "INSTALLPATH"@;
                assert(names.take(i as int)[k] == "INSTALLPATH"@);
            }
            if names[i as int] == "INSTALLPATH"@ {
                assert(names.take(i + 1)[i as int] == "INSTALLPATH"@);
            }
        }
        if v == BuildVariable::InstallPath {
            found = true;
        }
        i = i + 1;
    }
    assert(names.take(i as int) == names);
    if !found {
        let ghost before = out@;
        out.push(owned("INSTALLPATH"));
        assert(string_views(out@) =~= string_views(before).push("INSTALLPATH"@));
    }
    out
}

/// A payload file as an installer payload entry, its source resolved to
/// `canonical_source`.
pub fn payload_entry(file: &crate::services::payload_file::PayloadFile, canonical_source: String) -> (r: PayloadEntry)
    ensures
        r.source == Some(canonical_source),
        r.destination@ == file.destination@,
        r.executable == file.executable,
        r.offset == 0,
        r.len == 0,
        r.bytes@.len() == 0,
{
    PayloadEntry::new(canonical_source, file.destination.clone(), file.executable)
}

/// An associated file of the manifest as the installer knows it.
pub fn associated_file(file: &ManifestAssociatedFile) -> (r: AssociatedFile)
    ensures
        r.path@ == file.path@,
        r.kind == match file.kind {
            ManifestAssociatedFileKind::File => AssociatedFileKind::File,
            ManifestAssociatedFileKind::Directory => AssociatedFileKind::Directory,
        },
        r.eula_report == file.eula_report,
{
    AssociatedFile {
        path: file.path.clone(),
        kind: match file.kind {
            ManifestAssociatedFileKind::File => AssociatedFileKind::File,
            ManifestAssociatedFileKind::Directory => AssociatedFileKind::Directory,
        },
        eula_report: file.eula_report,
    }
}

/// A built shortcut as the installer knows it.
pub fn shortcut(built: &TargetShortcut) -> (r: Shortcut)
    ensures
        r.target@ == built.target@,
        r.name@ == built.name@,
        opt_string_view(r.directory) == opt_string_view(built.directory),
        opt_string_view(r.icon) == opt_string_view(built.icon),
{
    Shortcut {
        target: built.target.clone(),
        name: built.name.clone(),
        directory: match &built.directory {
            Some(d) => Some(d.clone()),
            None => None,
        },
        icon: match &built.icon {
            Some(i) => Some(i.clone()),
            None => None,
        },
    }
}

/// A license of the manifest as the installer shows it, with the text read
/// from its file: named by the file's name, else by its path.
pub fn eula(file: &EulaFile, text: String) -> (r: Eula)
    ensures
        r.name@ == match file_name_spec(eula_path_spec(*file)) {
            Some(n) => n,
            None => eula_path_spec(*file),
        },
        r.text == text,
        r.required == eula_required_spec(*file),
{
    let path = file.path();
    let name = match file_name(path) {
        Some(n) => n,
        None => owned(path),
    };
    Eula { name, text, required: file.required() }
}

} // verus!
