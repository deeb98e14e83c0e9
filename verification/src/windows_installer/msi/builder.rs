//! The MSI package plan: the files, directories, shortcuts, icons, PATH
//! entries and registry rows that an installer configuration yields.
use vstd::prelude::*;

use crate::text::{chars_of, concat2, concat3, decimal, join_seq, join_strings, lemma_seq_lt_irreflexive, lemma_seq_lt_transitive, lower_char, numbered, opt_string_view, owned, seq_lt, str_eq, str_lt, string_views, to_lower};
use crate::windows_installer::config::Shortcut;
use crate::windows_installer::msi::filename::{default_dir, last_index, last_index_of, lemma_last_index_in_bounds};
use crate::windows_installer::msi::rows::{opt_cell, push_row, row_view, rows_view, text, Value, ValueView};
use crate::windows_installer::msi::identity::{display_name, display_name_spec, identifier, identifier_spec};
use crate::windows_installer::config::{AssociatedFileKind, InstallerConfig, PayloadEntry};
use crate::windows_installer::msi::filename::{msi_filename, msi_filename_spec};
use crate::windows_installer::msi::paths::{associated_path, associated_root_spec, declare_prefixes,
    entries_view, install_relative_path, install_relative_spec, lookup_id, same_error, strings_view,
    without_install_path, DirectoryIds, MsiError};

verus! {

pub type Entries = Seq<(Seq<char>, Seq<Seq<char>>, Seq<char>)>;

/// Declaring a directory: the id it gets and the declared directories after
/// it; `None` when the identifiers are exhausted.
pub open spec fn dir_step(entries: Entries, root: Seq<char>, path: Seq<Seq<char>>) -> Option<(Seq<char>, Entries)> {
    if path.len() == 0 {
        Some((root, entries))
    } else if entries.len() + path.len() >= usize::MAX {
        None
    } else {
        let after = declare_prefixes(entries, root, path, 1);
        Some((lookup_id(after, root, path)->0, after))
    }
}

/// A planned failure, as plain values.
pub enum PlanError {
    /// A path refused by `install_relative_path`, with the text it reports.
    Relative(MsiError, Seq<char>),
    /// An associated path that starts at no known root.
    Root(Seq<char>),
    TooManyDirectories,
    MissingSource(Seq<char>),
    TooLarge(Seq<char>),
    IconMissing(Seq<char>),
    TargetMissing(Seq<char>, Seq<char>),
    IconNotBacked(Seq<char>),
    NoCleanupComponent,
    UndeclaredDirectory(Seq<char>),
}

pub open spec fn error_matches(e: MsiError, v: PlanError) -> bool {
    match v {
        PlanError::Relative(expected, text) => same_error(e, expected, text),
        PlanError::Root(path) => e matches MsiError::AssociatedRoot { path: p } && p@ == path,
        PlanError::TooManyDirectories => e is TooManyDirectories,
        PlanError::MissingSource(d) => e matches MsiError::MissingSource { destination } && destination@ == d,
        PlanError::TooLarge(s) => e matches MsiError::FileTooLarge { source } && source@ == s,
        PlanError::IconMissing(i) => e matches MsiError::ShortcutIconMissing { icon } && icon@ == i,
        PlanError::TargetMissing(n, t) => e matches MsiError::ShortcutTargetMissing { name, target } && name@ == n && target@ == t,
        PlanError::IconNotBacked(i) => e matches MsiError::IconNotBacked { icon } && icon@ == i,
        PlanError::NoCleanupComponent => e is NoCleanupComponent,
        PlanError::UndeclaredDirectory(r) => e matches MsiError::UndeclaredDirectory { path, root } && root@ == r,
    }
}

/// One file of the package.
#[derive(Debug)]
pub struct PackageFile {
    pub id: String,
    pub component: String,
    pub source: String,
    pub cabinet_name: String,
    pub directory: String,
    pub directory_root: String,
    pub install_path: Vec<String>,
    pub file_name: String,
    pub size: i32,
}

pub type FileView = (Seq<char>, Seq<char>, Seq<char>, Seq<char>, Seq<char>, Seq<char>, Seq<Seq<char>>, Seq<char>, int);

pub open spec fn package_file_view(f: PackageFile) -> FileView {
    (f.id@, f.component@, f.source@, f.cabinet_name@, f.directory@, f.directory_root@, strings_view(f.install_path@), f.file_name@, f.size as int)
}

pub open spec fn package_files_view(s: Seq<PackageFile>) -> Seq<FileView> {
    s.map_values(|f: PackageFile| package_file_view(f))
}

/// The package file of payload entry `index` of `size` bytes: `File<n>` in
/// `Component<n>`, in the directory of its destination below the install
/// folder, with its MSI file name.
pub open spec fn file_step(index: nat, entry: PayloadEntry, size: u64, entries: Entries) -> Result<(FileView, Entries), PlanError> {
    match install_relative_spec(entry.destination@) {
        Err(x) => Err(PlanError::Relative(x, without_install_path(entry.destination@))),
        Ok(rel) => match dir_step(entries, "INSTALLFOLDER"@, rel.drop_last()) {
            None => Err(PlanError::TooManyDirectories),
            Some((dir, after)) => match entry.source {
                None => Err(PlanError::MissingSource(entry.destination@)),
                Some(src) => if size > i32::MAX {
                    Err(PlanError::TooLarge(src@))
                } else {
                    Ok((
                        ("File"@ + decimal(index + 1), "Component"@ + decimal(index + 1), src@, "File"@ + decimal(index + 1),
                            dir, "INSTALLFOLDER"@, rel, msi_filename_spec(rel.last()), size as int),
                        after,
                    ))
                },
            },
        },
    }
}

/// The package files of the first `k` payload entries and the declared
/// directories after them, or the first failure.
pub open spec fn files_prefix(payload: Seq<PayloadEntry>, sizes: Seq<u64>, k: nat, start: Entries) -> Result<(Seq<FileView>, Entries), PlanError>
    decreases k,
{
    if k == 0 {
        Ok((Seq::empty(), start))
    } else {
        match files_prefix(payload, sizes, (k - 1) as nat, start) {
            Err(e) => Err(e),
            Ok((files, entries)) => match file_step((k - 1) as nat, payload[k - 1], sizes[k - 1], entries) {
                Err(e) => Err(e),
                Ok((f, after)) => Ok((files.push(f), after)),
            },
        }
    }
}

/// A prefix of the payload that succeeds yields one file per entry.
pub proof fn lemma_files_prefix_len(payload: Seq<PayloadEntry>, sizes: Seq<u64>, k: nat, start: Entries)
    ensures
        files_prefix(payload, sizes, k, start) matches Ok((files, _)) ==> files.len() == k,
    decreases k,
{
    if k > 0 {
        lemma_files_prefix_len(payload, sizes, (k - 1) as nat, start);
    }
}

/// Once a prefix of the payload fails, every longer prefix fails the same way.
pub proof fn lemma_files_prefix_stays_failed(payload: Seq<PayloadEntry>, sizes: Seq<u64>, k: nat, m: nat, start: Entries)
    requires
        k <= m,
        files_prefix(payload, sizes, k, start) is Err,
    ensures
        files_prefix(payload, sizes, m, start) == files_prefix(payload, sizes, k, start),
    decreases m,
{
    if m > k {
        lemma_files_prefix_stays_failed(payload, sizes, k, (m - 1) as nat, start);
    }
}

/// Once a prefix of the associated files fails, every longer prefix fails the same way.
pub proof fn lemma_associated_prefix_stays_failed(files: Seq<crate::windows_installer::config::AssociatedFile>, k: nat, m: nat, start: Entries)
    requires
        k <= m,
        associated_prefix(files, k, start) is Err,
    ensures
        associated_prefix(files, m, start) == associated_prefix(files, k, start),
    decreases m,
{
    if m > k {
        lemma_associated_prefix_stays_failed(files, k, (m - 1) as nat, start);
    }
}

/// The package files of the payload, declaring their directories; `sizes`
/// holds each payload source's size in bytes.
pub fn msi_files(plan: &InstallerConfig, directories: &mut DirectoryIds, sizes: &[u64]) -> (r: Result<Vec<PackageFile>, MsiError>)
    requires
        old(directories).wf(),
        sizes@.len() == plan.payload@.len(),
    ensures
        final(directories).wf(),
        match files_prefix(plan.payload@, sizes@, plan.payload@.len(), old(directories).view_entries()) {
            Ok((files, entries)) => r matches Ok(v) && package_files_view(v@) == files && final(directories).view_entries() == entries,
            Err(e) => r matches Err(err) && error_matches(err, e),
        },
{
    let ghost start = directories.view_entries();
    let mut output: Vec<PackageFile> = Vec::new();
    let mut i: usize = 0;
    assert(package_files_view(output@) =~= Seq::<FileView>::empty());
    while i < plan.payload.len()
        invariant
            directories.wf(),
            start == old(directories).view_entries(),
            sizes@.len() == plan.payload@.len(),
            i <= plan.payload@.len(),
            files_prefix(plan.payload@, sizes@, i as nat, start) == Ok::<(Seq<FileView>, Entries), PlanError>(
                (package_files_view(output@), directories.view_entries())),
        decreases plan.payload@.len() - i,
    {
        let entry = &plan.payload[i];
        let relative = match install_relative_path(entry.destination.as_str()) {
            Ok(v) => v,
            Err(e) => {
                proof { lemma_files_prefix_stays_failed(plan.payload@, sizes@, (i + 1) as nat, plan.payload@.len(), start); }
                return Err(e);
            },
        };
        let n = relative.len();
        let name = msi_filename(relative[n - 1].as_str());
        let mut parent: Vec<String> = Vec::new();
        let mut t: usize = 0;
        while t + 1 < n
            invariant
                n == relative@.len(),
                n >= 1,
                t + 1 <= n,
                strings_view(parent@) == strings_view(relative@).take(t as int),
            decreases n - t,
        {
            let ghost before = parent@;
            parent.push(relative[t].clone());
            assert(strings_view(parent@) =~= strings_view(before).push(relative@[t as int]@));
            t = t + 1;
            assert(strings_view(parent@) =~= strings_view(relative@).take(t as int));
        }
        assert(strings_view(relative@).drop_last() =~= strings_view(relative@).take(t as int));
        let ghost before = directories.view_entries();
        let directory = match directories.id_for("INSTALLFOLDER", &parent) {
            Ok(d) => d,
            Err(e) => {
                proof { lemma_files_prefix_stays_failed(plan.payload@, sizes@, (i + 1) as nat, plan.payload@.len(), start); }
                return Err(e);
            },
        };
        let source = match entry.source() {
            Ok(s) => owned(s),
            Err(_) => {
                proof { lemma_files_prefix_stays_failed(plan.payload@, sizes@, (i + 1) as nat, plan.payload@.len(), start); }
                return Err(MsiError::MissingSource { destination: entry.destination.clone() });
            },
        };
        let size = sizes[i];
        if size > 2147483647u64 {
            proof { lemma_files_prefix_stays_failed(plan.payload@, sizes@, (i + 1) as nat, plan.payload@.len(), start); }
            return Err(MsiError::FileTooLarge { source });
        }
        let ghost out_before = output@;
        output.push(PackageFile {
            id: numbered("File", i + 1),
            component: numbered("Component", i + 1),
            source,
            cabinet_name: numbered("File", i + 1),
            directory,
            directory_root: owned("INSTALLFOLDER"),
            install_path: relative,
            file_name: name,
            size: size as i32,
        });
        proof {
            assert(package_files_view(output@) =~= package_files_view(out_before).push(package_file_view(output@.last())));
            assert(strings_view(relative@).last() == relative@[n - 1]@);
        }
        i = i + 1;
    }
    Ok(output)
}

/// The associated directories of the first `k` associated files and the
/// declared directories after them, or the first failure.
pub open spec fn associated_prefix(files: Seq<crate::windows_installer::config::AssociatedFile>, k: nat, start: Entries) -> Result<Entries, PlanError>
    decreases k,
{
    if k == 0 {
        Ok(start)
    } else {
        match associated_prefix(files, (k - 1) as nat, start) {
            Err(e) => Err(e),
            Ok(entries) => if files[k - 1].kind != AssociatedFileKind::Directory {
                Ok(entries)
            } else {
                match associated_root_spec(files[k - 1].path@) {
                    None => Err(PlanError::Root(files[k - 1].path@)),
                    Some((root, rest)) => match install_relative_spec(rest) {
                        Err(x) => Err(PlanError::Relative(x, without_install_path(rest))),
                        Ok(rel) => match dir_step(entries, root, rel) {
                            None => Err(PlanError::TooManyDirectories),
                            Some((_, after)) => Ok(after),
                        },
                    },
                }
            },
        }
    }
}

/// Declares the directory of every associated directory.
pub fn collect_associated_directories(plan: &InstallerConfig, directories: &mut DirectoryIds) -> (r: Result<(), MsiError>)
    requires
        old(directories).wf(),
    ensures
        final(directories).wf(),
        match associated_prefix(plan.associated_files@, plan.associated_files@.len(), old(directories).view_entries()) {
            Ok(entries) => r is Ok && final(directories).view_entries() == entries,
            Err(e) => r matches Err(err) && error_matches(err, e),
        },
{
    let ghost start = directories.view_entries();
    let mut i: usize = 0;
    while i < plan.associated_files.len()
        invariant
            directories.wf(),
            start == old(directories).view_entries(),
            i <= plan.associated_files@.len(),
            associated_prefix(plan.associated_files@, i as nat, start) == Ok::<Entries, PlanError>(directories.view_entries()),
        decreases plan.associated_files@.len() - i,
    {
        let file = &plan.associated_files[i];
        if file.kind == AssociatedFileKind::Directory {
            let associated = match associated_path(file.path.as_str()) {
                Ok(a) => a,
                Err(e) => {
                    proof { lemma_associated_prefix_stays_failed(plan.associated_files@, (i + 1) as nat, plan.associated_files@.len(), start); }
                    return Err(e);
                },
            };
            match directories.id_for(associated.root.as_str(), &associated.relative) {
                Ok(_) => {},
                Err(e) => {
                    proof { lemma_associated_prefix_stays_failed(plan.associated_files@, (i + 1) as nat, plan.associated_files@.len(), start); }
                    return Err(e);
                },
            }
        }
        i = i + 1;
    }
    Ok(())
}

/// Whether two segment lists are equal.
pub fn segments_eq(a: &Vec<String>, b: &Vec<String>) -> (r: bool)
    ensures
        r == (strings_view(a@) == strings_view(b@)),
{
    if a.len() != b.len() {
        assert(strings_view(a@).len() != strings_view(b@).len());
        return false;
    }
    let mut i: usize = 0;
    while i < a.len()
        invariant
            a@.len() == b@.len(),
            i <= a@.len(),
            forall|k: int| 0 <= k < i ==> a@[k]@ == b@[k]@,
        decreases a@.len() - i,
    {
        if !str_eq(a[i].as_str(), b[i].as_str()) {
            assert(strings_view(a@)[i as int] != strings_view(b@)[i as int]);
            return false;
        }
        i = i + 1;
    }
    assert(strings_view(a@) =~= strings_view(b@));
    true
}

/// The first package file installed at `path` below the install folder.
pub open spec fn find_installed(files: Seq<FileView>, path: Seq<Seq<char>>, k: int) -> Option<int>
    decreases files.len() - k,
{
    if k < 0 || k >= files.len() {
        None
    } else if files[k].5 == "INSTALLFOLDER"@ && files[k].6 == path {
        Some(k)
    } else {
        find_installed(files, path, k + 1)
    }
}

pub proof fn lemma_find_installed_bounds(files: Seq<FileView>, path: Seq<Seq<char>>, k: int)
    requires
        0 <= k,
    ensures
        find_installed(files, path, k) matches Some(i) ==> k <= i < files.len() && files[i].5 == "INSTALLFOLDER"@ && files[i].6 == path,
    decreases files.len() - k,
{
    if k < files.len() && !(files[k].5 == "INSTALLFOLDER"@ && files[k].6 == path) {
        lemma_find_installed_bounds(files, path, k + 1);
    }
}

/// The index of the first package file installed at `path` below the install folder.
pub fn find_installed_file(files: &[PackageFile], path: &Vec<String>) -> (r: Option<usize>)
    ensures
        find_installed(package_files_view(files@), strings_view(path@), 0) == match r {
            Some(i) => Some(i as int),
            None => None::<int>,
        },
        r matches Some(i) ==> i < files@.len(),
{
    let ghost fv = package_files_view(files@);
    let mut i: usize = 0;
    while i < files.len()
        invariant
            fv == package_files_view(files@),
            i <= files@.len(),
            find_installed(fv, strings_view(path@), 0) == find_installed(fv, strings_view(path@), i as int),
        decreases files@.len() - i,
    {
        let f = &files[i];
        if str_eq(f.directory_root.as_str(), "INSTALLFOLDER") && segments_eq(&f.install_path, path) {
            return Some(i);
        }
        i = i + 1;
    }
    None
}

/// The icon identifier of a package file: `Icon` and the file's identifier.
pub open spec fn icon_id_spec(file_id: Seq<char>) -> Seq<char> {
    "Icon"@ + identifier_spec(file_id)
}

pub fn shortcut_icon_id_from_file(file: &PackageFile) -> (r: String)
    ensures
        r@ == icon_id_spec(file.id@),
{
    let id = identifier(file.id.as_str());
    concat2("Icon", id.as_str())
}

/// The icon identifier for a shortcut icon installed at `icon`, or why
/// there is none.
pub open spec fn shortcut_icon_id_spec(icon: Seq<char>, files: Seq<FileView>) -> Result<Seq<char>, PlanError> {
    match install_relative_spec(icon) {
        Err(x) => Err(PlanError::Relative(x, without_install_path(icon))),
        Ok(path) => match find_installed(files, path, 0) {
            Some(i) => Ok(icon_id_spec(files[i].0)),
            None => Err(PlanError::IconMissing(icon)),
        },
    }
}

pub fn shortcut_icon_id(icon: &str, files: &[PackageFile]) -> (r: Result<String, MsiError>)
    ensures
        match shortcut_icon_id_spec(icon@, package_files_view(files@)) {
            Ok(id) => r matches Ok(v) && v@ == id,
            Err(e) => r matches Err(err) && error_matches(err, e),
        },
{
    let path = match install_relative_path(icon) {
        Ok(p) => p,
        Err(e) => return Err(e),
    };
    match find_installed_file(files, &path) {
        Some(i) => Ok(shortcut_icon_id_from_file(&files[i])),
        None => Err(MsiError::ShortcutIconMissing { icon: owned(icon) }),
    }
}

/// The source of the package file installed at `destination`, if any.
pub open spec fn installed_source_spec(destination: Seq<char>, files: Seq<FileView>) -> Option<Seq<char>> {
    match install_relative_spec(destination) {
        Err(_) => None,
        Ok(path) => match find_installed(files, path, 0) {
            Some(i) => Some(files[i].2),
            None => None,
        },
    }
}

pub fn installed_file_source(destination: &str, files: &[PackageFile]) -> (r: Option<String>)
    ensures
        match installed_source_spec(destination@, package_files_view(files@)) {
            Some(s) => r matches Some(v) && v@ == s,
            None => r is None,
        },
{
    let path = match install_relative_path(destination) {
        Ok(p) => p,
        Err(_) => return None,
    };
    match find_installed_file(files, &path) {
        Some(i) => Some(files[i].source.clone()),
        None => None,
    }
}

/// A Start Menu shortcut of the package and the component that owns it.
#[derive(Debug)]
pub struct ShortcutComponent {
    pub id: String,
    pub directory: String,
    pub directory_name: String,
    pub name: String,
    pub component: String,
    pub registry: String,
    pub target_file: String,
    pub icon: Option<String>,
}

pub type ShortcutView = (Seq<char>, Seq<char>, Seq<char>, Seq<char>, Seq<char>, Seq<char>, Seq<char>, Option<Seq<char>>);

pub open spec fn shortcut_component_view(s: ShortcutComponent) -> ShortcutView {
    (s.id@, s.directory@, s.directory_name@, s.name@, s.component@, s.registry@, s.target_file@, opt_string_view(s.icon))
}

pub open spec fn shortcut_components_view(s: Seq<ShortcutComponent>) -> Seq<ShortcutView> {
    s.map_values(|x: ShortcutComponent| shortcut_component_view(x))
}

/// The shortcut component of the configured shortcut at `index`: its
/// target must be a package file below the install folder; it goes to
/// `ShortcutDir<id>` for a named directory, else to the Start Menu
/// programs folder; its icon, if any, must be a package file too.
pub open spec fn shortcut_step(plan: InstallerConfig, index: nat, s: Shortcut, files: Seq<FileView>) -> Result<ShortcutView, PlanError> {
    match install_relative_spec(s.target@) {
        Err(x) => Err(PlanError::Relative(x, without_install_path(s.target@))),
        Ok(target) => match find_installed(files, target, 0) {
            None => Err(PlanError::TargetMissing(s.name@, s.target@)),
            Some(f) => {
                let icon: Result<Option<Seq<char>>, PlanError> = match s.icon {
                    None => Ok(None),
                    Some(i) => match shortcut_icon_id_spec(i@, files) {
                        Ok(id) => Ok(Some(id)),
                        Err(e) => Err(e),
                    },
                };
                match icon {
                    Err(e) => Err(e),
                    Ok(icon) => Ok((
                        "Shortcut"@ + decimal(index + 1),
                        match s.directory {
                            Some(d) => "ShortcutDir"@ + identifier_spec(d@),
                            None => "ProgramMenuFolder"@,
                        },
                        match s.directory {
                            Some(d) => d@,
                            None => display_name_spec(plan),
                        },
                        msi_filename_spec(s.name@),
                        "ShortcutComponent"@ + decimal(index + 1),
                        "ShortcutRegistry"@ + decimal(index + 1),
                        files[f].0,
                        icon,
                    )),
                }
            },
        },
    }
}

/// The shortcut components of the first `k` shortcuts, or the first failure.
pub open spec fn shortcuts_prefix(plan: InstallerConfig, files: Seq<FileView>, k: nat) -> Result<Seq<ShortcutView>, PlanError>
    decreases k,
{
    if k == 0 {
        Ok(Seq::empty())
    } else {
        match shortcuts_prefix(plan, files, (k - 1) as nat) {
            Err(e) => Err(e),
            Ok(done) => match shortcut_step(plan, (k - 1) as nat, plan.shortcuts@[k - 1], files) {
                Err(e) => Err(e),
                Ok(sc) => Ok(done.push(sc)),
            },
        }
    }
}

pub proof fn lemma_shortcuts_prefix_stays_failed(plan: InstallerConfig, files: Seq<FileView>, k: nat, m: nat)
    requires
        k <= m,
        shortcuts_prefix(plan, files, k) is Err,
    ensures
        shortcuts_prefix(plan, files, m) == shortcuts_prefix(plan, files, k),
    decreases m,
{
    if m > k {
        lemma_shortcuts_prefix_stays_failed(plan, files, k, (m - 1) as nat);
    }
}

/// The shortcut components of the configured shortcuts.
pub fn shortcuts(plan: &InstallerConfig, files: &[PackageFile]) -> (r: Result<Vec<ShortcutComponent>, MsiError>)
    ensures
        match shortcuts_prefix(*plan, package_files_view(files@), plan.shortcuts@.len()) {
            Ok(v) => r matches Ok(out) && shortcut_components_view(out@) == v,
            Err(e) => r matches Err(err) && error_matches(err, e),
        },
{
    let ghost fv = package_files_view(files@);
    let mut output: Vec<ShortcutComponent> = Vec::new();
    let mut i: usize = 0;
    assert(shortcut_components_view(output@) =~= Seq::<ShortcutView>::empty());
    while i < plan.shortcuts.len()
        invariant
            fv == package_files_view(files@),
            i <= plan.shortcuts@.len(),
            shortcuts_prefix(*plan, fv, i as nat) == Ok::<Seq<ShortcutView>, PlanError>(shortcut_components_view(output@)),
        decreases plan.shortcuts@.len() - i,
    {
        let shortcut = &plan.shortcuts[i];
        let target = match install_relative_path(shortcut.target.as_str()) {
            Ok(t) => t,
            Err(e) => {
                proof { lemma_shortcuts_prefix_stays_failed(*plan, fv, (i + 1) as nat, plan.shortcuts@.len()); }
                return Err(e);
            },
        };
        let f = match find_installed_file(files, &target) {
            Some(f) => f,
            None => {
                proof { lemma_shortcuts_prefix_stays_failed(*plan, fv, (i + 1) as nat, plan.shortcuts@.len()); }
                return Err(MsiError::ShortcutTargetMissing { name: shortcut.name.clone(), target: shortcut.target.clone() });
            },
        };
        let (directory, directory_name) = match &shortcut.directory {
            Some(d) => {
                let id = identifier(d.as_str());
                (concat2("ShortcutDir", id.as_str()), d.clone())
            },
            None => (owned("ProgramMenuFolder"), owned(display_name(plan))),
        };
        let icon = match &shortcut.icon {
            None => None,
            Some(icon) => match shortcut_icon_id(icon.as_str(), files) {
                Ok(id) => Some(id),
                Err(e) => {
                    proof { lemma_shortcuts_prefix_stays_failed(*plan, fv, (i + 1) as nat, plan.shortcuts@.len()); }
                    return Err(e);
                },
            },
        };
        let ghost before = output@;
        output.push(ShortcutComponent {
            id: numbered("Shortcut", i + 1),
            directory,
            directory_name,
            name: default_dir(shortcut.name.as_str()),
            component: numbered("ShortcutComponent", i + 1),
            registry: numbered("ShortcutRegistry", i + 1),
            target_file: files[f].id.clone(),
            icon,
        });
        assert(shortcut_components_view(output@) =~= shortcut_components_view(before).push(shortcut_component_view(output@.last())));
        i = i + 1;
    }
    Ok(output)
}

/// An icon stream of the package: its identifier and the file it is read from.
pub type IconStream = (String, String);

pub open spec fn icon_view(i: IconStream) -> (Seq<char>, Seq<char>) {
    (i.0@, i.1@)
}

pub open spec fn icons_view(s: Seq<IconStream>) -> Seq<(Seq<char>, Seq<char>)> {
    s.map_values(|i: IconStream| icon_view(i))
}

/// The product icon: the display icon's own source when given, else the
/// package file installed at the configured display icon.
pub open spec fn product_icons_spec(plan: InstallerConfig, files: Seq<FileView>, display_icon_source: Option<Seq<char>>) -> Seq<(Seq<char>, Seq<char>)> {
    match display_icon_source {
        Some(src) => seq![("ProductIcon"@, src)],
        None => match plan.display_icon {
            Some(d) => match installed_source_spec(d@, files) {
                Some(src) => seq![("ProductIcon"@, src)],
                None => Seq::empty(),
            },
            None => Seq::empty(),
        },
    }
}

/// The first package file whose icon identifier is `id`.
pub open spec fn find_icon_file(files: Seq<FileView>, id: Seq<char>, k: int) -> Option<int>
    decreases files.len() - k,
{
    if k < 0 || k >= files.len() {
        None
    } else if icon_id_spec(files[k].0) == id {
        Some(k)
    } else {
        find_icon_file(files, id, k + 1)
    }
}

pub open spec fn has_icon(icons: Seq<(Seq<char>, Seq<char>)>, id: Seq<char>) -> bool {
    exists|j: int| 0 <= j < icons.len() && (#[trigger] icons[j]).0 == id
}

/// The icon streams after the first `k` shortcuts: each shortcut icon not
/// yet present is read from the package file it names.
pub open spec fn icons_prefix(first: Seq<(Seq<char>, Seq<char>)>, shortcuts: Seq<ShortcutView>, files: Seq<FileView>, k: nat) -> Result<Seq<(Seq<char>, Seq<char>)>, PlanError>
    decreases k,
{
    if k == 0 {
        Ok(first)
    } else {
        match icons_prefix(first, shortcuts, files, (k - 1) as nat) {
            Err(e) => Err(e),
            Ok(done) => match shortcuts[k - 1].7 {
                None => Ok(done),
                Some(id) => if has_icon(done, id) {
                    Ok(done)
                } else {
                    match find_icon_file(files, id, 0) {
                        Some(f) => Ok(done.push((id, files[f].2))),
                        None => Err(PlanError::IconNotBacked(id)),
                    }
                },
            },
        }
    }
}

pub proof fn lemma_icons_prefix_stays_failed(first: Seq<(Seq<char>, Seq<char>)>, shortcuts: Seq<ShortcutView>, files: Seq<FileView>, k: nat, m: nat)
    requires
        k <= m,
        icons_prefix(first, shortcuts, files, k) is Err,
    ensures
        icons_prefix(first, shortcuts, files, m) == icons_prefix(first, shortcuts, files, k),
    decreases m,
{
    if m > k {
        lemma_icons_prefix_stays_failed(first, shortcuts, files, k, (m - 1) as nat);
    }
}

fn has_icon_exec(icons: &Vec<IconStream>, id: &str) -> (r: bool)
    ensures
        r == has_icon(icons_view(icons@), id@),
{
    let ghost v = icons_view(icons@);
    let mut j: usize = 0;
    while j < icons.len()
        invariant
            v == icons_view(icons@),
            j <= icons@.len(),
            forall|t: int| 0 <= t < j ==> (#[trigger] v[t]).0 != id@,
        decreases icons@.len() - j,
    {
        if str_eq(icons[j].0.as_str(), id) {
            assert(v[j as int].0 == id@);
            return true;
        }
        j = j + 1;
    }
    false
}

fn find_icon_file_exec(files: &[PackageFile], id: &str) -> (r: Option<usize>)
    ensures
        find_icon_file(package_files_view(files@), id@, 0) == match r {
            Some(i) => Some(i as int),
            None => None::<int>,
        },
        r matches Some(i) ==> i < files@.len(),
{
    let ghost fv = package_files_view(files@);
    let mut i: usize = 0;
    while i < files.len()
        invariant
            fv == package_files_view(files@),
            i <= files@.len(),
            find_icon_file(fv, id@, 0) == find_icon_file(fv, id@, i as int),
        decreases files@.len() - i,
    {
        let candidate = shortcut_icon_id_from_file(&files[i]);
        if str_eq(candidate.as_str(), id) {
            return Some(i);
        }
        i = i + 1;
    }
    None
}

/// The icon streams of the package: the product icon first, when there is
/// one, then each distinct shortcut icon.
pub fn icons(plan: &InstallerConfig, files: &[PackageFile], shortcuts: &[ShortcutComponent], display_icon_source: Option<&str>) -> (r: Result<Vec<IconStream>, MsiError>)
    ensures
        match icons_prefix(product_icons_spec(*plan, package_files_view(files@), match display_icon_source {
            Some(s) => Some(s@),
            None => None,
        }), shortcut_components_view(shortcuts@), package_files_view(files@), shortcuts@.len()) {
            Ok(v) => r matches Ok(out) && icons_view(out@) == v,
            Err(e) => r matches Err(err) && error_matches(err, e),
        },
{
    let ghost fv = package_files_view(files@);
    let ghost sv = shortcut_components_view(shortcuts@);
    let mut output: Vec<IconStream> = Vec::new();
    match display_icon_source {
        Some(source) => {
            output.push((owned("ProductIcon"), owned(source)));
        },
        None => match &plan.display_icon {
            Some(d) => match installed_file_source(d.as_str(), files) {
                Some(source) => {
                    output.push((owned("ProductIcon"), source));
                },
                None => {},
            },
            None => {},
        },
    }
    let ghost first = icons_view(output@);
    assert(first =~= product_icons_spec(*plan, fv, match display_icon_source {
        Some(s) => Some(s@),
        None => None,
    }));
    let mut i: usize = 0;
    while i < shortcuts.len()
        invariant
            fv == package_files_view(files@),
            sv == shortcut_components_view(shortcuts@),
            first == product_icons_spec(*plan, fv, match display_icon_source {
                Some(s) => Some(s@),
                None => None,
            }),
            i <= shortcuts@.len(),
            icons_prefix(first, sv, fv, i as nat) == Ok::<Seq<(Seq<char>, Seq<char>)>, PlanError>(icons_view(output@)),
        decreases shortcuts@.len() - i,
    {
        assert(sv[i as int] == shortcut_component_view(shortcuts@[i as int]));
        match &shortcuts[i].icon {
            None => {},
            Some(id) => {
                if !has_icon_exec(&output, id.as_str()) {
                    match find_icon_file_exec(files, id.as_str()) {
                        Some(f) => {
                            let ghost before = output@;
                            output.push((id.clone(), files[f].source.clone()));
                            assert(icons_view(output@) =~= icons_view(before).push((id@, fv[f as int].2)));
                        },
                        None => {
                            proof { lemma_icons_prefix_stays_failed(first, sv, fv, (i + 1) as nat, shortcuts@.len()); }
                            return Err(MsiError::IconNotBacked { icon: id.clone() });
                        },
                    }
                }
            },
        }
        i = i + 1;
    }
    Ok(output)
}

/// The product icon: the first icon stream, when there is one.
pub fn product_icon(icons: &Vec<IconStream>) -> (r: Option<&str>)
    ensures
        match r {
            Some(id) => icons@.len() > 0 && id@ == icons@[0].0@,
            None => icons@.len() == 0,
        },
{
    if icons.len() > 0 {
        Some(icons[0].0.as_str())
    } else {
        None
    }
}

/// Whether a file name has the extension `exe`, in any letter case.
pub open spec fn is_exe_name(name: Seq<char>) -> bool {
    match last_index_of(name, '.') {
        Some(i) => i > 0 && name.len() == i + 4 && lower_char(name[i + 1]) == 'e' && lower_char(name[i + 2]) == 'x'
            && lower_char(name[i + 3]) == 'e',
        None => false,
    }
}

fn is_exe_file(name: &str) -> (r: bool)
    ensures
        r == is_exe_name(name@),
{
    let chars = chars_of(name);
    proof { lemma_last_index_in_bounds(name@, '.'); }
    match last_index(&chars, '.') {
        Some(i) => {
            assert(last_index_of(name@, '.') == Some(i as int));
            i > 0 && chars.len() - i == 4 && to_lower(chars[i + 1]) == 'e' && to_lower(chars[i + 2]) == 'x'
                && to_lower(chars[i + 3]) == 'e'
        },
        None => false,
    }
}

/// The directories to add to `PATH` among the first `k` files: the
/// directory of each executable below the install folder, once each, in
/// order.
pub open spec fn path_updates_prefix(files: Seq<FileView>, k: nat) -> Seq<Seq<char>>
    decreases k,
{
    if k == 0 {
        Seq::empty()
    } else {
        let done = path_updates_prefix(files, (k - 1) as nat);
        let f = files[k - 1];
        if f.5 == "INSTALLFOLDER"@ && f.6.len() > 0 && is_exe_name(f.6.last()) && !done.contains(f.4) {
            done.push(f.4)
        } else {
            done
        }
    }
}

/// There are no more PATH directories than files.
pub proof fn lemma_path_updates_len(files: Seq<FileView>, k: nat)
    ensures
        path_updates_prefix(files, k).len() <= k,
    decreases k,
{
    if k > 0 {
        lemma_path_updates_len(files, (k - 1) as nat);
    }
}

/// The directories of the executables below the install folder, each once,
/// in order: what the installer may add to `PATH`.
pub fn path_updates(files: &[PackageFile]) -> (r: Vec<String>)
    ensures
        string_views(r@) == path_updates_prefix(package_files_view(files@), files@.len()),
{
    let ghost fv = package_files_view(files@);
    let mut directories: Vec<String> = Vec::new();
    let mut i: usize = 0;
    while i < files.len()
        invariant
            fv == package_files_view(files@),
            i <= files@.len(),
            string_views(directories@) == path_updates_prefix(fv, i as nat),
        decreases files@.len() - i,
    {
        let f = &files[i];
        let n = f.install_path.len();
        if str_eq(f.directory_root.as_str(), "INSTALLFOLDER") && n > 0 && is_exe_file(f.install_path[n - 1].as_str()) {
            assert(strings_view(f.install_path@).last() == f.install_path@[n - 1]@);
            let known = crate::text::contains_string(directories.as_slice(), f.directory.as_str());
            assert(known == string_views(directories@).contains(f.directory@)) by {
                if known {
                    let j = choose|j: int| 0 <= j < directories@.len() && #[trigger] directories@[j]@ == f.directory@;
                    assert(string_views(directories@)[j] == f.directory@);
                }
                if string_views(directories@).contains(f.directory@) {
                    let j = choose|j: int| 0 <= j < string_views(directories@).len() && string_views(directories@)[j] == f.directory@;
                    assert(directories@[j]@ == f.directory@);
                }
            }
            if !known {
                let ghost before = directories@;
                directories.push(f.directory.clone());
                assert(string_views(directories@) =~= string_views(before).push(f.directory@));
            }
        } else {
            assert(strings_view(f.install_path@).len() == n);
            if n > 0 {
                assert(strings_view(f.install_path@).last() == f.install_path@[n - 1]@);
            }
        }
        i = i + 1;
    }
    directories
}

pub const HKCU: i32 = 1;

pub fn associated_directory_component(index: usize) -> (r: String)
    requires
        index < usize::MAX,
    ensures
        r@ == "AssociatedDirectory"@ + decimal(index as nat + 1),
{
    numbered("AssociatedDirectory", index + 1)
}

pub fn associated_directory_registry(index: usize) -> (r: String)
    requires
        index < usize::MAX,
    ensures
        r@ == "RegistryAssociatedDirectory"@ + decimal(index as nat + 1),
{
    numbered("RegistryAssociatedDirectory", index + 1)
}

pub fn path_update_id(index: usize) -> (r: String)
    requires
        index < usize::MAX,
    ensures
        r@ == "PathEntry"@ + decimal(index as nat + 1),
{
    numbered("PathEntry", index + 1)
}

pub fn path_update_component(index: usize) -> (r: String)
    requires
        index < usize::MAX,
    ensures
        r@ == "PathEntry"@ + decimal(index as nat + 1),
{
    numbered("PathEntry", index + 1)
}

pub fn path_update_registry(index: usize) -> (r: String)
    requires
        index < usize::MAX,
    ensures
        r@ == "PathRegistry"@ + decimal(index as nat + 1),
{
    numbered("PathRegistry", index + 1)
}

/// The id of a directory that must already be declared: the root itself
/// for the empty path.
pub open spec fn id_for_existing_spec(entries: Entries, root: Seq<char>, path: Seq<Seq<char>>) -> Result<Seq<char>, PlanError> {
    if path.len() == 0 {
        Ok(root)
    } else {
        match lookup_id(entries, root, path) {
            Some(id) => Ok(id),
            None => Err(PlanError::UndeclaredDirectory(root)),
        }
    }
}

fn lookup_existing(directories: &DirectoryIds, root: &str, path: &Vec<String>) -> (r: Option<usize>)
    ensures
        match lookup_id(directories.view_entries(), root@, strings_view(path@)) {
            Some(id) => r matches Some(i) && i < directories.entries@.len() && directories.entries@[i as int].id@ == id,
            None => r is None,
        },
{
    let ghost target = strings_view(path@);
    let ghost all = directories.view_entries();
    let mut i: usize = 0;
    assert(all.skip(0) == all);
    while i < directories.entries.len()
        invariant
            target == strings_view(path@),
            all == directories.view_entries(),
            i <= directories.entries@.len(),
            lookup_id(all, root@, target) == lookup_id(all.skip(i as int), root@, target),
        decreases directories.entries@.len() - i,
    {
        let e = &directories.entries[i];
        assert(all.skip(i as int)[0] == crate::windows_installer::msi::paths::entry_view(directories.entries@[i as int]));
        if str_eq(e.root.as_str(), root) && segments_eq(&e.path, path) {
            return Some(i);
        }
        assert(all.skip(i as int).drop_first() == all.skip(i + 1));
        i = i + 1;
    }
    None
}

/// The id of an already declared directory.
pub fn id_for_existing(directories: &DirectoryIds, root: &str, path: &Vec<String>) -> (r: Result<String, MsiError>)
    ensures
        match id_for_existing_spec(directories.view_entries(), root@, strings_view(path@)) {
            Ok(id) => r matches Ok(v) && v@ == id,
            Err(e) => r matches Err(err) && error_matches(err, e),
        },
{
    if path.len() == 0 {
        return Ok(owned(root));
    }
    match lookup_existing(directories, root, path) {
        Some(i) => Ok(directories.entries[i].id.clone()),
        None => Err(MsiError::UndeclaredDirectory { path: join_strings(path.as_slice(), "/"), root: owned(root) }),
    }
}

/// The directory ids of the associated directories, in order, or the first failure.
pub open spec fn associated_dirs_prefix(files: Seq<crate::windows_installer::config::AssociatedFile>, k: nat, entries: Entries) -> Result<Seq<Seq<char>>, PlanError>
    decreases k,
{
    if k == 0 {
        Ok(Seq::empty())
    } else {
        match associated_dirs_prefix(files, (k - 1) as nat, entries) {
            Err(e) => Err(e),
            Ok(done) => if files[k - 1].kind != AssociatedFileKind::Directory {
                Ok(done)
            } else {
                match associated_root_spec(files[k - 1].path@) {
                    None => Err(PlanError::Root(files[k - 1].path@)),
                    Some((root, rest)) => match install_relative_spec(rest) {
                        Err(x) => Err(PlanError::Relative(x, without_install_path(rest))),
                        Ok(rel) => match id_for_existing_spec(entries, root, rel) {
                            Err(e) => Err(e),
                            Ok(id) => Ok(done.push(id)),
                        },
                    },
                }
            },
        }
    }
}

pub proof fn lemma_associated_dirs_stays_failed(files: Seq<crate::windows_installer::config::AssociatedFile>, k: nat, m: nat, entries: Entries)
    requires
        k <= m,
        associated_dirs_prefix(files, k, entries) is Err,
    ensures
        associated_dirs_prefix(files, m, entries) == associated_dirs_prefix(files, k, entries),
    decreases m,
{
    if m > k {
        lemma_associated_dirs_stays_failed(files, k, (m - 1) as nat, entries);
    }
}

/// There are no more associated directories than associated files.
pub proof fn lemma_associated_dirs_len(files: Seq<crate::windows_installer::config::AssociatedFile>, k: nat, entries: Entries)
    ensures
        associated_dirs_prefix(files, k, entries) matches Ok(v) ==> v.len() <= k,
    decreases k,
{
    if k > 0 {
        lemma_associated_dirs_len(files, (k - 1) as nat, entries);
    }
}

/// The declared directory of each associated directory, in order.
pub fn associated_directory_ids(plan: &InstallerConfig, directories: &DirectoryIds) -> (r: Result<Vec<String>, MsiError>)
    ensures
        match associated_dirs_prefix(plan.associated_files@, plan.associated_files@.len(), directories.view_entries()) {
            Ok(v) => r matches Ok(out) && string_views(out@) == v,
            Err(e) => r matches Err(err) && error_matches(err, e),
        },
{
    let mut out: Vec<String> = Vec::new();
    let mut i: usize = 0;
    assert(string_views(out@) =~= Seq::<Seq<char>>::empty());
    while i < plan.associated_files.len()
        invariant
            i <= plan.associated_files@.len(),
            associated_dirs_prefix(plan.associated_files@, i as nat, directories.view_entries()) == Ok::<Seq<Seq<char>>, PlanError>(string_views(out@)),
        decreases plan.associated_files@.len() - i,
    {
        let file = &plan.associated_files[i];
        if file.kind == AssociatedFileKind::Directory {
            let associated = match associated_path(file.path.as_str()) {
                Ok(a) => a,
                Err(e) => {
                    proof { lemma_associated_dirs_stays_failed(plan.associated_files@, (i + 1) as nat, plan.associated_files@.len(), directories.view_entries()); }
                    return Err(e);
                },
            };
            let id = match id_for_existing(directories, associated.root.as_str(), &associated.relative) {
                Ok(id) => id,
                Err(e) => {
                    proof { lemma_associated_dirs_stays_failed(plan.associated_files@, (i + 1) as nat, plan.associated_files@.len(), directories.view_entries()); }
                    return Err(e);
                },
            };
            let ghost before = out@;
            out.push(id);
            assert(string_views(out@) =~= string_views(before).push(out@.last()@));
        }
        i = i + 1;
    }
    Ok(out)
}

/// An `Environment` row that appends a directory to the user's `PATH`.
pub open spec fn environment_spec(index: nat, directory: Seq<char>) -> Seq<ValueView> {
    seq![
        ValueView::Str("PathEntry"@ + decimal(index + 1)),
        ValueView::Str("=-Path"@),
        ValueView::Str("[~];["@ + directory + "]"@),
        ValueView::Str("PathEntry"@ + decimal(index + 1)),
    ]
}

pub open spec fn environment_rows_spec(dirs: Seq<Seq<char>>) -> Seq<Seq<ValueView>> {
    Seq::new(dirs.len(), |i: int| environment_spec(i as nat, dirs[i]))
}

/// The rows of the `Environment` table: each PATH directory appended.
pub fn environment_rows(path_updates: &[String]) -> (r: Vec<Vec<Value>>)
    requires
        path_updates@.len() < usize::MAX,
    ensures
        rows_view(r@) == environment_rows_spec(string_views(path_updates@)),
{
    let mut rows: Vec<Vec<Value>> = Vec::new();
    let mut i: usize = 0;
    while i < path_updates.len()
        invariant
            i <= path_updates@.len(),
            path_updates@.len() < usize::MAX,
            rows_view(rows@) == environment_rows_spec(string_views(path_updates@.take(i as int))),
        decreases path_updates@.len() - i,
    {
        let id = path_update_id(i);
        let value = concat3("[~];[", path_updates[i].as_str(), "]");
        let component = path_update_component(i);
        let row = vec![text(id.as_str()), text("=-Path"), text(value.as_str()), text(component.as_str())];
        assert(row_view(row) =~= environment_spec(i as nat, path_updates@[i as int]@));
        push_row(&mut rows, row);
        assert(rows_view(rows@) =~= environment_rows_spec(string_views(path_updates@.take(i + 1))));
        i = i + 1;
    }
    assert(path_updates@.take(i as int) == path_updates@);
    rows
}

/// A `Registry` row under `HKEY_CURRENT_USER`.
pub open spec fn registry_spec(id: Seq<char>, key: Seq<char>, name: Seq<char>, value: Seq<char>, component: Seq<char>) -> Seq<ValueView> {
    seq![ValueView::Str(id), ValueView::Int(1), ValueView::Str(key), ValueView::Str(name), ValueView::Str(value), ValueView::Str(component)]
}

/// The registry key of the application.
pub open spec fn app_key(plan: InstallerConfig) -> Seq<char> {
    "Software\\cargo-crapapp\\"@ + plan.app_name@
}

/// The `Registry` rows: a value per associated directory, per shortcut and
/// per PATH directory, each the key path of its component.
pub open spec fn registry_rows_spec(plan: InstallerConfig, dirs: Seq<Seq<char>>, shortcuts: Seq<ShortcutView>, paths: Seq<Seq<char>>) -> Seq<Seq<ValueView>> {
    Seq::new(dirs.len(), |i: int| registry_spec(
        "RegistryAssociatedDirectory"@ + decimal((i + 1) as nat), app_key(plan),
        "RegistryAssociatedDirectory"@ + decimal((i + 1) as nat), "["@ + dirs[i] + "]"@,
        "AssociatedDirectory"@ + decimal((i + 1) as nat),
    )) + Seq::new(shortcuts.len(), |i: int| registry_spec(
        shortcuts[i].5, app_key(plan) + "\\Shortcuts"@, shortcuts[i].5, "#1"@, shortcuts[i].4,
    )) + Seq::new(paths.len(), |i: int| registry_spec(
        "PathRegistry"@ + decimal((i + 1) as nat), app_key(plan) + "\\Path"@,
        "PathRegistry"@ + decimal((i + 1) as nat), "["@ + paths[i] + "]"@,
        "PathEntry"@ + decimal((i + 1) as nat),
    ))
}

fn registry_row(id: &str, key: &str, name: &str, value: &str, component: &str) -> (r: Vec<Value>)
    ensures
        row_view(r) == registry_spec(id@, key@, name@, value@, component@),
{
    let r = vec![text(id), Value::Int(HKCU), text(key), text(name), text(value), text(component)];
    assert(row_view(r) =~= registry_spec(id@, key@, name@, value@, component@));
    r
}

/// The rows of the `Registry` table.
pub fn registry_rows(plan: &InstallerConfig, associated_dirs: &Vec<String>, shortcuts: &[ShortcutComponent], path_updates: &[String]) -> (r: Vec<Vec<Value>>)
    requires
        associated_dirs@.len() < usize::MAX,
        path_updates@.len() < usize::MAX,
    ensures
        rows_view(r@) == registry_rows_spec(*plan, string_views(associated_dirs@), shortcut_components_view(shortcuts@), string_views(path_updates@)),
{
    let key = concat2("Software\\cargo-crapapp\\", plan.app_name.as_str());
    let shortcut_key = concat2(key.as_str(), "\\Shortcuts");
    let path_key = concat2(key.as_str(), "\\Path");
    let ghost dv = string_views(associated_dirs@);
    let ghost sv = shortcut_components_view(shortcuts@);
    let ghost pv = string_views(path_updates@);
    let ghost part1 = Seq::new(dv.len(), |i: int| registry_spec(
        "RegistryAssociatedDirectory"@ + decimal((i + 1) as nat), app_key(*plan),
        "RegistryAssociatedDirectory"@ + decimal((i + 1) as nat), "["@ + dv[i] + "]"@,
        "AssociatedDirectory"@ + decimal((i + 1) as nat),
    ));
    let ghost part2 = Seq::new(sv.len(), |i: int| registry_spec(
        sv[i].5, app_key(*plan) + "\\Shortcuts"@, sv[i].5, "#1"@, sv[i].4,
    ));
    let ghost part3 = Seq::new(pv.len(), |i: int| registry_spec(
        "PathRegistry"@ + decimal((i + 1) as nat), app_key(*plan) + "\\Path"@,
        "PathRegistry"@ + decimal((i + 1) as nat), "["@ + pv[i] + "]"@,
        "PathEntry"@ + decimal((i + 1) as nat),
    ));
    let mut rows: Vec<Vec<Value>> = Vec::new();
    let mut i: usize = 0;
    while i < associated_dirs.len()
        invariant
            i <= associated_dirs@.len(),
            associated_dirs@.len() < usize::MAX,
            key@ == app_key(*plan),
            dv == string_views(associated_dirs@),
            part1 == Seq::new(dv.len(), |i: int| registry_spec(
                "RegistryAssociatedDirectory"@ + decimal((i + 1) as nat), app_key(*plan),
                "RegistryAssociatedDirectory"@ + decimal((i + 1) as nat), "["@ + dv[i] + "]"@,
                "AssociatedDirectory"@ + decimal((i + 1) as nat),
            )),
            rows_view(rows@) == part1.take(i as int),
        decreases associated_dirs@.len() - i,
    {
        let id = associated_directory_registry(i);
        let value = concat3("[", associated_dirs[i].as_str(), "]");
        let component = associated_directory_component(i);
        push_row(&mut rows, registry_row(id.as_str(), key.as_str(), id.as_str(), value.as_str(), component.as_str()));
        assert(dv[i as int] == associated_dirs@[i as int]@);
        assert(part1[i as int] == registry_spec(id@, key@, id@, value@, component@));
        assert(part1.take(i + 1) =~= part1.take(i as int).push(part1[i as int]));
        i = i + 1;
    }
    assert(part1.take(i as int) == part1);
    let mut j: usize = 0;
    while j < shortcuts.len()
        invariant
            j <= shortcuts@.len(),
            shortcut_key@ == app_key(*plan) + "\\Shortcuts"@,
            sv == shortcut_components_view(shortcuts@),
            part2 == Seq::new(sv.len(), |i: int| registry_spec(
                sv[i].5, app_key(*plan) + "\\Shortcuts"@, sv[i].5, "#1"@, sv[i].4,
            )),
            rows_view(rows@) == part1 + part2.take(j as int),
        decreases shortcuts@.len() - j,
    {
        let s = &shortcuts[j];
        assert(sv[j as int] == shortcut_component_view(shortcuts@[j as int]));
        push_row(&mut rows, registry_row(s.registry.as_str(), shortcut_key.as_str(), s.registry.as_str(), "#1", s.component.as_str()));
        assert(part2[j as int] == registry_spec(s.registry@, shortcut_key@, s.registry@, "#1"@, s.component@));
        assert(part1 + part2.take(j + 1) =~= (part1 + part2.take(j as int)).push(part2[j as int]));
        j = j + 1;
    }
    assert(part2.take(j as int) == part2);
    let mut k: usize = 0;
    while k < path_updates.len()
        invariant
            k <= path_updates@.len(),
            path_updates@.len() < usize::MAX,
            path_key@ == app_key(*plan) + "\\Path"@,
            pv == string_views(path_updates@),
            part3 == Seq::new(pv.len(), |i: int| registry_spec(
                "PathRegistry"@ + decimal((i + 1) as nat), app_key(*plan) + "\\Path"@,
                "PathRegistry"@ + decimal((i + 1) as nat), "["@ + pv[i] + "]"@,
                "PathEntry"@ + decimal((i + 1) as nat),
            )),
            rows_view(rows@) == part1 + part2 + part3.take(k as int),
        decreases path_updates@.len() - k,
    {
        let id = path_update_registry(k);
        let value = concat3("[", path_updates[k].as_str(), "]");
        let component = path_update_component(k);
        push_row(&mut rows, registry_row(id.as_str(), path_key.as_str(), id.as_str(), value.as_str(), component.as_str()));
        assert(pv[k as int] == path_updates@[k as int]@);
        assert(part3[k as int] == registry_spec(id@, path_key@, id@, value@, component@));
        assert(part1 + part2 + part3.take(k + 1) =~= (part1 + part2 + part3.take(k as int)).push(part3[k as int]));
        k = k + 1;
    }
    assert(part3.take(k as int) == part3);
    rows
}

/// The component that owns the registry cleanup: the first file's, else
/// the first associated directory's, else the first shortcut's, else the
/// first PATH entry's.
pub open spec fn cleanup_component_spec(files: Seq<FileView>, associated_dirs: nat, shortcuts: Seq<ShortcutView>, paths: nat) -> Option<Seq<char>> {
    if files.len() > 0 {
        Some(files[0].1)
    } else if associated_dirs > 0 {
        Some("AssociatedDirectory1"@)
    } else if shortcuts.len() > 0 {
        Some(shortcuts[0].4)
    } else if paths > 0 {
        Some("PathEntry1"@)
    } else {
        None
    }
}

pub fn cleanup_component(files: &[PackageFile], associated_dirs: usize, shortcuts: &[ShortcutComponent], path_updates: &[String]) -> (r: Result<String, MsiError>)
    ensures
        match cleanup_component_spec(package_files_view(files@), associated_dirs as nat, shortcut_components_view(shortcuts@), path_updates@.len()) {
            Some(c) => r matches Ok(v) && v@ == c,
            None => r matches Err(MsiError::NoCleanupComponent),
        },
{
    if files.len() > 0 {
        return Ok(files[0].component.clone());
    }
    if associated_dirs > 0 {
        let c = associated_directory_component(0);
        assert(decimal(1) == seq!['1']);
        proof { reveal_strlit("AssociatedDirectory1"); reveal_strlit("AssociatedDirectory"); }
        assert(c@ =~= "AssociatedDirectory1"@);
        return Ok(c);
    }
    if shortcuts.len() > 0 {
        return Ok(shortcuts[0].component.clone());
    }
    if path_updates.len() > 0 {
        let c = path_update_component(0);
        assert(decimal(1) == seq!['1']);
        proof { reveal_strlit("PathEntry1"); reveal_strlit("PathEntry"); }
        assert(c@ =~= "PathEntry1"@);
        return Ok(c);
    }
    Err(MsiError::NoCleanupComponent)
}

/// A `RemoveRegistry` row deleting a whole key on uninstall.
pub open spec fn remove_key_spec(id: Seq<char>, key: Seq<char>, component: Seq<char>) -> Seq<ValueView> {
    seq![ValueView::Str(id), ValueView::Int(1), ValueView::Str(key), ValueView::Null, ValueView::Str(component)]
}

/// The `RemoveRegistry` rows: the application key, and its shortcut and
/// PATH keys when there are shortcuts or PATH entries, all owned by the
/// cleanup component.
pub open spec fn remove_registry_spec(plan: InstallerConfig, component: Seq<char>, has_shortcuts: bool, has_paths: bool) -> Seq<Seq<ValueView>> {
    seq![remove_key_spec("RemoveAppRegistryKey"@, app_key(plan), component)] + (if has_shortcuts {
        seq![remove_key_spec("RemoveShortcutRegistryKey"@, app_key(plan) + "\\Shortcuts"@, component)]
    } else {
        Seq::empty()
    }) + (if has_paths {
        seq![remove_key_spec("RemovePathRegistryKey"@, app_key(plan) + "\\Path"@, component)]
    } else {
        Seq::empty()
    })
}

fn remove_key_row(id: &str, key: &str, component: &str) -> (r: Vec<Value>)
    ensures
        row_view(r) == remove_key_spec(id@, key@, component@),
{
    let r = vec![text(id), Value::Int(HKCU), text(key), Value::Null, text(component)];
    assert(row_view(r) =~= remove_key_spec(id@, key@, component@));
    r
}

/// The rows of the `RemoveRegistry` table.
pub fn remove_registry_rows(plan: &InstallerConfig, files: &[PackageFile], associated_dirs: usize, shortcuts: &[ShortcutComponent], path_updates: &[String]) -> (r: Result<Vec<Vec<Value>>, MsiError>)
    ensures
        match cleanup_component_spec(package_files_view(files@), associated_dirs as nat, shortcut_components_view(shortcuts@), path_updates@.len()) {
            Some(c) => r matches Ok(rows) && rows_view(rows@) == remove_registry_spec(*plan, c, shortcuts@.len() > 0, path_updates@.len() > 0),
            None => r matches Err(MsiError::NoCleanupComponent),
        },
{
    let key = concat2("Software\\cargo-crapapp\\", plan.app_name.as_str());
    let component = match cleanup_component(files, associated_dirs, shortcuts, path_updates) {
        Ok(c) => c,
        Err(e) => return Err(e),
    };
    let mut rows: Vec<Vec<Value>> = Vec::new();
    push_row(&mut rows, remove_key_row("RemoveAppRegistryKey", key.as_str(), component.as_str()));
    if shortcuts.len() > 0 {
        let k = concat2(key.as_str(), "\\Shortcuts");
        push_row(&mut rows, remove_key_row("RemoveShortcutRegistryKey", k.as_str(), component.as_str()));
    }
    if path_updates.len() > 0 {
        let k = concat2(key.as_str(), "\\Path");
        push_row(&mut rows, remove_key_row("RemovePathRegistryKey", k.as_str(), component.as_str()));
    }
    assert(rows_view(rows@) =~= remove_registry_spec(*plan, component@, shortcuts@.len() > 0, path_updates@.len() > 0));
    Ok(rows)
}

/// A `Directory` table entry: directory, parent, default name.
pub type DirRow = (Seq<char>, Seq<char>, Seq<char>);

/// The index of the entry for `key`, if any.
pub open spec fn index_of_key(list: Seq<DirRow>, key: Seq<char>, k: int) -> Option<int>
    decreases list.len() - k,
{
    if k < 0 || k >= list.len() {
        None
    } else if list[k].0 == key {
        Some(k)
    } else {
        index_of_key(list, key, k + 1)
    }
}

pub proof fn lemma_index_of_key_bounds(list: Seq<DirRow>, key: Seq<char>, k: int)
    requires
        0 <= k,
    ensures
        index_of_key(list, key, k) matches Some(i) ==> k <= i < list.len() && list[i].0 == key,
        index_of_key(list, key, k) is None ==> forall|j: int| k <= j < list.len() ==> list[j].0 != key,
    decreases list.len() - k,
{
    if k < list.len() && list[k].0 != key {
        lemma_index_of_key_bounds(list, key, k + 1);
    }
}

/// Setting the entry of `key`: a present entry is replaced when
/// `overwrite`, else kept; an absent one is added.
pub open spec fn set_entry(list: Seq<DirRow>, key: Seq<char>, parent: Seq<char>, name: Seq<char>, overwrite: bool) -> Seq<DirRow> {
    match index_of_key(list, key, 0) {
        Some(i) => if overwrite { list.update(i, (key, parent, name)) } else { list },
        None => list.push((key, parent, name)),
    }
}

pub open spec fn dir_rows_view(v: Seq<(String, String, String)>) -> Seq<DirRow> {
    v.map_values(|t: (String, String, String)| (t.0@, t.1@, t.2@))
}

fn set_entry_exec(list: &mut Vec<(String, String, String)>, key: String, parent: String, name: String, overwrite: bool)
    ensures
        dir_rows_view(final(list)@) == set_entry(dir_rows_view(old(list)@), key@, parent@, name@, overwrite),
{
    let ghost v = dir_rows_view(list@);
    proof { lemma_index_of_key_bounds(v, key@, 0); }
    let mut i: usize = 0;
    while i < list.len()
        invariant
            v == dir_rows_view(list@),
            list@ == old(list)@,
            i <= list@.len(),
            index_of_key(v, key@, 0) == index_of_key(v, key@, i as int),
        decreases list@.len() - i,
    {
        if str_eq(list[i].0.as_str(), key.as_str()) {
            if overwrite {
                let ghost before = list@;
                list.set(i, (key, parent, name));
                assert(dir_rows_view(list@) =~= dir_rows_view(before).update(i as int, (key@, parent@, name@)));
            }
            return;
        }
        i = i + 1;
    }
    let ghost before = list@;
    list.push((key, parent, name));
    assert(dir_rows_view(list@) =~= dir_rows_view(before).push((key@, parent@, name@)));
}

/// The standard directories: the target root, the user profile, the system
/// folder, the publisher folder when there is a publisher, the install
/// folder below it (or below the profile), documents and the Start Menu.
pub open spec fn fixed_directories(plan: InstallerConfig) -> Seq<DirRow> {
    seq![
        ("TARGETDIR"@, Seq::<char>::empty(), "SourceDir"@),
        ("USERPROFILEDIR"@, "TARGETDIR"@, "."@),
        ("System64Folder"@, "TARGETDIR"@, "."@),
    ] + match crate::windows_installer::config::publisher_name_spec(plan.publisher) {
        Some(p) => seq![
            ("PUBLISHERFOLDER"@, "USERPROFILEDIR"@, msi_filename_spec(p)),
            ("INSTALLFOLDER"@, "PUBLISHERFOLDER"@, msi_filename_spec(crate::windows_installer::config::install_app_name_spec(plan.app_name@))),
        ],
        None => seq![("INSTALLFOLDER"@, "USERPROFILEDIR"@, msi_filename_spec(crate::windows_installer::config::install_app_name_spec(plan.app_name@)))],
    } + seq![("PersonalFolder"@, "TARGETDIR"@, "."@), ("ProgramMenuFolder"@, "TARGETDIR"@, "."@)]
}

/// The parent of a declared directory: the directory of its parent path
/// when declared, else its root.
pub open spec fn declared_parent(entries: Entries, root: Seq<char>, path: Seq<Seq<char>>) -> Seq<char> {
    if path.len() > 1 {
        match lookup_id(entries, root, path.drop_last()) {
            Some(id) => id,
            None => root,
        }
    } else {
        root
    }
}

/// The directory entries after the first `k` declared directories.
pub open spec fn declared_directories(start: Seq<DirRow>, entries: Entries, k: nat) -> Seq<DirRow>
    decreases k,
{
    if k == 0 {
        start
    } else {
        let done = declared_directories(start, entries, (k - 1) as nat);
        let e = entries[k - 1];
        if e.2 == e.0 || e.1.len() == 0 {
            done
        } else {
            set_entry(done, e.2, declared_parent(entries, e.0, e.1), msi_filename_spec(e.1.last()), true)
        }
    }
}

/// The directory entries after the first `k` shortcut directories, each
/// added below the Start Menu unless already present.
pub open spec fn shortcut_directories(start: Seq<DirRow>, shortcuts: Seq<ShortcutView>, k: nat) -> Seq<DirRow>
    decreases k,
{
    if k == 0 {
        start
    } else {
        let done = shortcut_directories(start, shortcuts, (k - 1) as nat);
        set_entry(done, shortcuts[k - 1].1, "ProgramMenuFolder"@, msi_filename_spec(shortcuts[k - 1].2), false)
    }
}

/// Where `x` goes in `t` when sorting by directory.
pub open spec fn key_position(t: Seq<DirRow>, x: DirRow, k: int) -> int
    decreases t.len() - k,
{
    if k < 0 || k >= t.len() {
        t.len() as int
    } else if seq_lt(x.0, t[k].0) {
        k
    } else {
        key_position(t, x, k + 1)
    }
}

/// `s` sorted by directory with a stable insertion sort.
pub open spec fn sorted_by_key(s: Seq<DirRow>) -> Seq<DirRow>
    decreases s.len(),
{
    if s.len() == 0 {
        s
    } else {
        let t = sorted_by_key(s.drop_last());
        t.insert(key_position(t, s.last(), 0), s.last())
    }
}

pub proof fn lemma_key_position_bounds(t: Seq<DirRow>, x: DirRow, k: int)
    requires
        0 <= k <= t.len(),
    ensures
        k <= key_position(t, x, k) <= t.len(),
        forall|m: int| k <= m < key_position(t, x, k) ==> !seq_lt(x.0, #[trigger] t[m].0),
        key_position(t, x, k) < t.len() ==> seq_lt(x.0, t[key_position(t, x, k)].0),
    decreases t.len() - k,
{
    if k < t.len() && !seq_lt(x.0, t[k].0) {
        lemma_key_position_bounds(t, x, k + 1);
    }
}

/// The insertion sort by directory yields its input's entries ordered by
/// directory.
pub proof fn lemma_sorted_by_key(s: Seq<DirRow>)
    ensures
        forall|i: int, j: int| 0 <= i < j < sorted_by_key(s).len() ==> !seq_lt(#[trigger] sorted_by_key(s)[j].0, #[trigger] sorted_by_key(s)[i].0),
        sorted_by_key(s).to_multiset() == s.to_multiset(),
    decreases s.len(),
{
    broadcast use vstd::seq_lib::group_to_multiset_ensures;
    if s.len() > 0 {
        let t = sorted_by_key(s.drop_last());
        let x = s.last();
        lemma_sorted_by_key(s.drop_last());
        lemma_key_position_bounds(t, x, 0);
        let p = key_position(t, x, 0);
        let r = t.insert(p, x);
        vstd::seq_lib::to_multiset_insert(t, p, x);
        vstd::seq_lib::to_multiset_build(s.drop_last(), x);
        assert(s.drop_last().push(x) == s);
        assert forall|i: int, j: int| 0 <= i < j < r.len() implies !seq_lt(#[trigger] r[j].0, #[trigger] r[i].0) by {
            if j < p {
                assert(r[i] == t[i] && r[j] == t[j]);
            } else if j == p {
                assert(r[i] == t[i]);
            } else if i < p {
                assert(r[i] == t[i] && r[j] == t[j - 1]);
                assert(!seq_lt(t[j - 1].0, t[i].0));
            } else if i == p {
                assert(r[j] == t[j - 1]);
                if seq_lt(t[j - 1].0, x.0) {
                    lemma_seq_lt_transitive(t[j - 1].0, x.0, t[p].0);
                    if j - 1 == p {
                        lemma_seq_lt_irreflexive(t[p].0);
                    } else {
                        assert(!seq_lt(t[j - 1].0, t[p].0));
                    }
                }
            } else {
                assert(r[i] == t[i - 1] && r[j] == t[j - 1]);
            }
        }
    }
}

fn sort_directory_entries(list: Vec<(String, String, String)>) -> (r: Vec<(String, String, String)>)
    ensures
        dir_rows_view(r@) == sorted_by_key(dir_rows_view(list@)),
{
    let ghost s = dir_rows_view(list@);
    let mut out: Vec<(String, String, String)> = Vec::new();
    let n = list.len();
    let mut i: usize = 0;
    assert(s.take(0) =~= Seq::<DirRow>::empty());
    assert(dir_rows_view(out@) =~= Seq::<DirRow>::empty());
    while i < n
        invariant
            s == dir_rows_view(list@),
            n == s.len(),
            i <= n,
            dir_rows_view(out@) == sorted_by_key(s.take(i as int)),
        decreases n - i,
    {
        let x = (list[i].0.clone(), list[i].1.clone(), list[i].2.clone());
        let ghost t = dir_rows_view(out@);
        proof { lemma_key_position_bounds(t, (x.0@, x.1@, x.2@), 0); }
        let mut k: usize = 0;
        while k < out.len() && !str_lt(x.0.as_str(), out[k].0.as_str())
            invariant
                t == dir_rows_view(out@),
                k <= out@.len(),
                key_position(t, (x.0@, x.1@, x.2@), k as int) == key_position(t, (x.0@, x.1@, x.2@), 0),
            decreases out@.len() - k,
        {
            k = k + 1;
        }
        let ghost before = out@;
        out.insert(k, x);
        proof {
            assert(s.take(i + 1).drop_last() == s.take(i as int));
            assert(s.take(i + 1).last() == s[i as int]);
            assert(dir_rows_view(out@) =~= dir_rows_view(before).insert(k as int, (x.0@, x.1@, x.2@)));
        }
        i = i + 1;
    }
    assert(s.take(n as int) == s);
    out
}

/// Every row of the `Directory` table, ordered by directory: the standard
/// directories, every declared directory below its parent, and each
/// shortcut directory below the Start Menu.
pub open spec fn directory_rows_spec(plan: InstallerConfig, entries: Entries, shortcuts: Seq<ShortcutView>) -> Seq<Seq<ValueView>> {
    let all = shortcut_directories(declared_directories(fixed_directories(plan), entries, entries.len()), shortcuts, shortcuts.len());
    sorted_by_key(all).map_values(|d: DirRow| seq![
        ValueView::Str(d.0),
        if d.1.len() == 0 { ValueView::Null } else { ValueView::Str(d.1) },
        ValueView::Str(d.2),
    ])
}

fn lookup_parent(directories: &DirectoryIds, root: &str, path: &Vec<String>) -> (r: String)
    ensures
        r@ == declared_parent(directories.view_entries(), root@, strings_view(path@)),
{
    if path.len() > 1 {
        let mut parent: Vec<String> = Vec::new();
        let mut t: usize = 0;
        while t < path.len() - 1
            invariant
                path@.len() > 1,
                t + 1 <= path@.len(),
                strings_view(parent@) == strings_view(path@).take(t as int),
            decreases path@.len() - t,
        {
            let ghost before = parent@;
            parent.push(path[t].clone());
            assert(strings_view(parent@) =~= strings_view(before).push(path@[t as int]@));
            t = t + 1;
            assert(strings_view(parent@) =~= strings_view(path@).take(t as int));
        }
        assert(strings_view(path@).drop_last() =~= strings_view(path@).take(t as int));
        match lookup_existing(directories, root, &parent) {
            Some(i) => directories.entries[i].id.clone(),
            None => owned(root),
        }
    } else {
        owned(root)
    }
}

/// Every row of the `Directory` table.
pub fn directory_rows(plan: &InstallerConfig, directories: &DirectoryIds, shortcuts: &[ShortcutComponent]) -> (r: Vec<Vec<Value>>)
    ensures
        rows_view(r@) == directory_rows_spec(*plan, directories.view_entries(), shortcut_components_view(shortcuts@)),
{
    let mut list: Vec<(String, String, String)> = Vec::new();
    list.push((owned("TARGETDIR"), String::new(), owned("SourceDir")));
    list.push((owned("USERPROFILEDIR"), owned("TARGETDIR"), owned(".")));
    list.push((owned("System64Folder"), owned("TARGETDIR"), owned(".")));
    let app_dir = default_dir(plan.install_app_name());
    match plan.publisher_name() {
        Some(publisher) => {
            list.push((owned("PUBLISHERFOLDER"), owned("USERPROFILEDIR"), default_dir(publisher)));
            list.push((owned("INSTALLFOLDER"), owned("PUBLISHERFOLDER"), app_dir));
        },
        None => {
            list.push((owned("INSTALLFOLDER"), owned("USERPROFILEDIR"), app_dir));
        },
    }
    list.push((owned("PersonalFolder"), owned("TARGETDIR"), owned(".")));
    list.push((owned("ProgramMenuFolder"), owned("TARGETDIR"), owned(".")));
    assert(dir_rows_view(list@) =~= fixed_directories(*plan));
    let ghost entries = directories.view_entries();
    let mut i: usize = 0;
    while i < directories.entries.len()
        invariant
            entries == directories.view_entries(),
            i <= directories.entries@.len(),
            dir_rows_view(list@) == declared_directories(fixed_directories(*plan), entries, i as nat),
        decreases directories.entries@.len() - i,
    {
        let e = &directories.entries[i];
        assert(entries[i as int] == crate::windows_installer::msi::paths::entry_view(directories.entries@[i as int]));
        let n = e.path.len();
        if !str_eq(e.id.as_str(), e.root.as_str()) && n > 0 {
            let parent = lookup_parent(directories, e.root.as_str(), &e.path);
            let name = default_dir(e.path[n - 1].as_str());
            assert(strings_view(e.path@).last() == e.path@[n - 1]@);
            set_entry_exec(&mut list, e.id.clone(), parent, name, true);
        } else {
            assert(strings_view(e.path@).len() == n);
        }
        i = i + 1;
    }
    let ghost declared = dir_rows_view(list@);
    let ghost sv = shortcut_components_view(shortcuts@);
    let mut j: usize = 0;
    while j < shortcuts.len()
        invariant
            sv == shortcut_components_view(shortcuts@),
            j <= shortcuts@.len(),
            dir_rows_view(list@) == shortcut_directories(declared, sv, j as nat),
        decreases shortcuts@.len() - j,
    {
        let s = &shortcuts[j];
        assert(sv[j as int] == shortcut_component_view(shortcuts@[j as int]));
        set_entry_exec(&mut list, s.directory.clone(), owned("ProgramMenuFolder"), default_dir(s.directory_name.as_str()), false);
        j = j + 1;
    }
    let sorted = sort_directory_entries(list);
    let ghost sorted_view = dir_rows_view(sorted@);
    let mut rows: Vec<Vec<Value>> = Vec::new();
    let mut k: usize = 0;
    while k < sorted.len()
        invariant
            sorted_view == dir_rows_view(sorted@),
            k <= sorted@.len(),
            rows_view(rows@) == sorted_view.take(k as int).map_values(|d: DirRow| seq![
                ValueView::Str(d.0),
                if d.1.len() == 0 { ValueView::Null } else { ValueView::Str(d.1) },
                ValueView::Str(d.2),
            ]),
        decreases sorted@.len() - k,
    {
        let d = &sorted[k];
        let parent = if d.1.unicode_len() == 0 { Value::Null } else { text(d.1.as_str()) };
        let row = vec![text(d.0.as_str()), parent, text(d.2.as_str())];
        let ghost dv = sorted_view[k as int];
        assert(row_view(row) =~= seq![
            ValueView::Str(dv.0),
            if dv.1.len() == 0 { ValueView::Null } else { ValueView::Str(dv.1) },
            ValueView::Str(dv.2),
        ]);
        push_row(&mut rows, row);
        assert(sorted_view.take(k + 1) =~= sorted_view.take(k as int).push(dv));
        k = k + 1;
    }
    assert(sorted_view.take(k as int) == sorted_view);
    rows
}

} // verus!
