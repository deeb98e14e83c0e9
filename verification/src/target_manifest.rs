//! The payload and shortcuts of one build target.
use vstd::prelude::*;

use crate::manifest_file::ShortcutMapping;

use crate::services::payload_file::{file_view, files_view, resolve_destination,
    resolve_spec, PayloadFile};
use crate::text::{concat2, concat3, contains_seq, contains_string, file_name, file_name_spec, has_string, has_substring, opt_str_view, opt_string_view, owned, path_join, path_join_spec, str_eq, strs_view};

verus! {

/// What one target installs: its payload files and its shortcuts.
#[derive(Debug)]
pub struct TargetManifest {
    pub target: String,
    pub files: Vec<PayloadFile>,
    pub shortcuts: Vec<Shortcut>,
}

/// A Start Menu shortcut of a built target.
#[derive(Debug)]
pub struct Shortcut {
    pub target: String,
    pub name: String,
    pub directory: Option<String>,
    pub icon: Option<String>,
}

impl Clone for Shortcut {
    fn clone(&self) -> (r: Self)
        ensures
            r == *self,
    {
        Shortcut {
            target: self.target.clone(),
            name: self.name.clone(),
            directory: self.directory.clone(),
            icon: self.icon.clone(),
        }
    }
}

/// The target triples of `targets`, in order.
pub fn target_names(targets: &Vec<TargetManifest>) -> (r: Vec<&str>)
    ensures
        strs_view(r@) == targets@.map_values(|t: TargetManifest| t.target@),
{
    let mut out: Vec<&str> = Vec::new();
    let mut i: usize = 0;
    while i < targets.len()
        invariant
            i <= targets@.len(),
            strs_view(out@) == targets@.take(i as int).map_values(|t: TargetManifest| t.target@),
        decreases targets@.len() - i,
    {
        let ghost before = out@;
        out.push(targets[i].target.as_str());
        assert(strs_view(out@) =~= strs_view(before).push(targets@[i as int].target@));
        assert(strs_view(out@) =~= targets@.take(i + 1).map_values(|t: TargetManifest| t.target@));
        i = i + 1;
    }
    assert(targets@.take(i as int) == targets@);
    out
}

/// A binary's file name on a target: with `.exe` on Windows targets.
pub open spec fn binary_file_name_spec(target: Seq<char>, binary: Seq<char>) -> Seq<char> {
    if contains_seq(target, "windows"@) { binary + ".exe"@ } else { binary }
}

/// A binary's file name on a target: with `.exe` on Windows targets.
pub fn binary_file_name(target: &str, binary_name: &str) -> (r: String)
    ensures
        r@ == binary_file_name_spec(target@, binary_name@),
{
    if has_substring(target, "windows") {
        concat2(binary_name, ".exe")
    } else {
        owned(binary_name)
    }
}

/// Where Cargo leaves a target's release binary.
pub open spec fn release_path_spec(target: Seq<char>, file: Seq<char>) -> Seq<char> {
    path_join_spec(path_join_spec(path_join_spec("target"@, target), "release"@), file)
}

/// Why a target manifest could not be built.
#[derive(Debug)]
pub enum TargetError {
    /// A shortcut icon whose source is not a file.
    ShortcutIconMissing(String),
    /// A shortcut icon whose source has no file name.
    ShortcutIconNotAFile(String),
    /// Two payload files with one destination but different contents.
    PayloadConflict { destination: String, existing: String, incoming: String },
    /// A shortcut to a binary that the package does not build.
    UnknownShortcutBinary(String),
}

impl TargetError {
    pub open spec fn message_spec(&self) -> Seq<char> {
        match self {
            TargetError::ShortcutIconMissing(s) => "shortcut icon source "@ + s@ + " does not exist"@,
            TargetError::ShortcutIconNotAFile(s) => "shortcut icon source "@ + s@ + " must point to a file"@,
            TargetError::PayloadConflict { destination, existing, incoming } => "payload destination "@
                + destination@ + " is produced by both "@ + existing@ + " and "@ + incoming@,
            TargetError::UnknownShortcutBinary(b) => "shortcut references unknown binary "@ + b@,
        }
    }

    /// The error's message.
    pub fn to_string(&self) -> (r: String)
        ensures
            r@ == self.message_spec(),
    {
        match self {
            TargetError::ShortcutIconMissing(s) => concat3("shortcut icon source ", s.as_str(), " does not exist"),
            TargetError::ShortcutIconNotAFile(s) => concat3("shortcut icon source ", s.as_str(), " must point to a file"),
            TargetError::PayloadConflict { destination, existing, incoming } => {
                let mut m = concat3("payload destination ", destination.as_str(), " is produced by both ");
                let rest = concat3(existing.as_str(), " and ", incoming.as_str());
                crate::text::push_str(&mut m, rest.as_str());
                m
            },
            TargetError::UnknownShortcutBinary(b) => concat2("shortcut references unknown binary ", b.as_str()),
        }
    }
}

pub type FileView = (Seq<char>, Seq<char>, bool);

/// The executable payload files of the package's binaries, in order.
pub open spec fn binary_files(target: Seq<char>, names: Seq<String>, install: Option<Seq<char>>, bin_dir: Seq<char>) -> Seq<FileView> {
    names.map_values(|b: String| (
        release_path_spec(target, binary_file_name_spec(target, b@)),
        resolve_spec(install, path_join_spec(bin_dir, binary_file_name_spec(target, b@))),
        true,
    ))
}

/// The index of the first file of `files` with destination `d`, if any.
pub open spec fn index_of_destination(files: Seq<FileView>, d: Seq<char>) -> Option<int> {
    if exists|i: int| 0 <= i < files.len() && (#[trigger] files[i]).1 == d {
        Some(choose|i: int| 0 <= i < files.len() && files[i].1 == d && forall|k: int| 0 <= k < i ==> (#[trigger] files[k]).1 != d)
    } else {
        None
    }
}

/// Adding a payload file: a second file for a destination is dropped when
/// it is the same file, and refused when it differs.
pub open spec fn push_spec(files: Seq<FileView>, p: FileView) -> Result<Seq<FileView>, (Seq<char>, Seq<char>, Seq<char>)> {
    match index_of_destination(files, p.1) {
        Some(i) => if files[i].0 == p.0 && files[i].2 == p.2 { Ok(files) } else { Err((p.1, files[i].0, p.0)) },
        None => Ok(files.push(p)),
    }
}

/// Adding payload files one by one; the first refusal stops.
pub open spec fn push_all_spec(files: Seq<FileView>, ps: Seq<FileView>) -> Result<Seq<FileView>, (Seq<char>, Seq<char>, Seq<char>)>
    decreases ps.len(),
{
    if ps.len() == 0 {
        Ok(files)
    } else {
        match push_spec(files, ps[0]) {
            Err(e) => Err(e),
            Ok(next) => push_all_spec(next, ps.drop_first()),
        }
    }
}

/// Where a shortcut icon is installed: its file name in the binary directory.
pub open spec fn icon_destination_spec(source: Seq<char>, install: Option<Seq<char>>, bin_dir: Seq<char>) -> Option<Seq<char>> {
    match file_name_spec(source) {
        Some(name) => Some(resolve_spec(install, path_join_spec(bin_dir, name))),
        None => None,
    }
}

/// What the shortcuts' icons add to the payload, in shortcut order; the
/// first icon whose source is not a file, or has no file name, stops it.
pub open spec fn icon_payloads(maps: Seq<ShortcutMapping>, is_file: Seq<bool>, install: Option<Seq<char>>, bin_dir: Seq<char>) -> Result<Seq<FileView>, TargetErrorView>
    decreases maps.len(),
{
    if maps.len() == 0 || is_file.len() == 0 {
        Ok(Seq::empty())
    } else {
        match maps[0].icon {
            None => icon_payloads(maps.drop_first(), is_file.drop_first(), install, bin_dir),
            Some(icon) => if !is_file[0] {
                Err(TargetErrorView::IconMissing(icon@))
            } else {
                match icon_destination_spec(icon@, install, bin_dir) {
                    None => Err(TargetErrorView::IconNotAFile(icon@)),
                    Some(d) => match icon_payloads(maps.drop_first(), is_file.drop_first(), install, bin_dir) {
                        Err(e) => Err(e),
                        Ok(rest) => Ok(seq![(icon@, d, false)] + rest),
                    },
                }
            },
        }
    }
}

/// An error of `TargetManifest::new`, as plain values.
pub enum TargetErrorView {
    IconMissing(Seq<char>),
    IconNotAFile(Seq<char>),
    Conflict(Seq<char>, Seq<char>, Seq<char>),
    UnknownBinary(Seq<char>),
}

pub open spec fn error_view(e: TargetError) -> TargetErrorView {
    match e {
        TargetError::ShortcutIconMissing(s) => TargetErrorView::IconMissing(s@),
        TargetError::ShortcutIconNotAFile(s) => TargetErrorView::IconNotAFile(s@),
        TargetError::PayloadConflict { destination, existing, incoming } => TargetErrorView::Conflict(destination@, existing@, incoming@),
        TargetError::UnknownShortcutBinary(b) => TargetErrorView::UnknownBinary(b@),
    }
}

/// A built shortcut as plain values: target, name, directory, icon.
pub type ShortcutView = (Seq<char>, Seq<char>, Option<Seq<char>>, Option<Seq<char>>);

pub open spec fn shortcut_view(s: Shortcut) -> ShortcutView {
    (s.target@, s.name@, opt_string_view(s.directory), opt_string_view(s.icon))
}

/// The built shortcuts, in order; the first mapping to an unknown binary stops it.
pub open spec fn shortcuts_spec(target: Seq<char>, names: Seq<String>, install: Option<Seq<char>>, bin_dir: Seq<char>, maps: Seq<ShortcutMapping>) -> Result<Seq<ShortcutView>, TargetErrorView>
    decreases maps.len(),
{
    if maps.len() == 0 {
        Ok(Seq::empty())
    } else {
        let m = maps[0];
        if !has_string(names, m.binary@) {
            Err(TargetErrorView::UnknownBinary(m.binary@))
        } else {
            let icon = match m.icon {
                Some(i) => icon_destination_spec(i@, install, bin_dir),
                None => None,
            };
            match shortcuts_spec(target, names, install, bin_dir, maps.drop_first()) {
                Err(e) => Err(e),
                Ok(rest) => Ok(seq![(
                    resolve_spec(install, path_join_spec(bin_dir, binary_file_name_spec(target, m.binary@))),
                    m.name@,
                    opt_string_view(m.directory),
                    icon,
                )] + rest),
            }
        }
    }
}

/// What `TargetManifest::new` yields: the binaries' files, then each icon
/// and extra file unless its destination is taken by the same file, and the
/// shortcuts; or the first error.
pub open spec fn target_outcome(target: Seq<char>, names: Seq<String>, install: Option<Seq<char>>, bin_dir: Seq<char>, extra: Seq<PayloadFile>, maps: Seq<ShortcutMapping>, is_file: Seq<bool>) -> Result<(Seq<FileView>, Seq<ShortcutView>), TargetErrorView> {
    match icon_payloads(maps, is_file, install, bin_dir) {
        Err(e) => Err(e),
        Ok(icons) => match push_all_spec(binary_files(target, names, install, bin_dir), icons + files_view(extra)) {
            Err((d, a, b)) => Err(TargetErrorView::Conflict(d, a, b)),
            Ok(files) => match shortcuts_spec(target, names, install, bin_dir, maps) {
                Err(e) => Err(e),
                Ok(shortcuts) => Ok((files, shortcuts)),
            },
        },
    }
}

pub open spec fn prepend_ok<T>(front: Seq<T>, r: Result<Seq<T>, TargetErrorView>) -> Result<Seq<T>, TargetErrorView> {
    match r {
        Err(e) => Err(e),
        Ok(rest) => Ok(front + rest),
    }
}

fn binary_payload_files(target: &str, binary_names: &[String], install_path: Option<&str>, bin_dir: &str) -> (r: Vec<PayloadFile>)
    ensures
        files_view(r@) == binary_files(target@, binary_names@, opt_str_view(install_path), bin_dir@),
{
    let ghost all = binary_files(target@, binary_names@, opt_str_view(install_path), bin_dir@);
    let mut files: Vec<PayloadFile> = Vec::new();
    let mut i: usize = 0;
    while i < binary_names.len()
        invariant
            i <= binary_names@.len(),
            all == binary_files(target@, binary_names@, opt_str_view(install_path), bin_dir@),
            files_view(files@) == all.take(i as int),
        decreases binary_names@.len() - i,
    {
        let name = binary_file_name(target, binary_names[i].as_str());
        let dir = path_join("target", target);
        let release = path_join(dir.as_str(), "release");
        let source = path_join(release.as_str(), name.as_str());
        let in_bin = path_join(bin_dir, name.as_str());
        let destination = resolve_destination(install_path, in_bin.as_str());
        let ghost before = files@;
        files.push(PayloadFile::executable(source, destination));
        proof {
            reveal_strlit("target");
            reveal_strlit("release");
            assert(files_view(files@) =~= files_view(before).push(all[i as int]));
            assert(all.take(i + 1) =~= all.take(i as int).push(all[i as int]));
        }
        i = i + 1;
    }
    assert(all.take(i as int) == all);
    files
}

fn icon_payload_files(maps: &[ShortcutMapping], is_file: &[bool], install_path: Option<&str>, bin_dir: &str) -> (r: Result<Vec<PayloadFile>, TargetError>)
    requires
        maps@.len() == is_file@.len(),
    ensures
        match icon_payloads(maps@, is_file@, opt_str_view(install_path), bin_dir@) {
            Ok(v) => r matches Ok(files) && files_view(files@) == v,
            Err(e) => r matches Err(err) && error_view(err) == e,
        },
{
    let ghost expected = icon_payloads(maps@, is_file@, opt_str_view(install_path), bin_dir@);
    let mut out: Vec<PayloadFile> = Vec::new();
    let mut i: usize = 0;
    assert(maps@.skip(0) == maps@);
    assert(is_file@.skip(0) == is_file@);
    while i < maps.len()
        invariant
            maps@.len() == is_file@.len(),
            i <= maps@.len(),
            expected == icon_payloads(maps@, is_file@, opt_str_view(install_path), bin_dir@),
            expected == prepend_ok(files_view(out@), icon_payloads(maps@.skip(i as int), is_file@.skip(i as int), opt_str_view(install_path), bin_dir@)),
        decreases maps@.len() - i,
    {
        assert(maps@.skip(i as int)[0] == maps@[i as int]);
        assert(is_file@.skip(i as int)[0] == is_file@[i as int]);
        assert(maps@.skip(i as int).drop_first() == maps@.skip(i + 1));
        assert(is_file@.skip(i as int).drop_first() == is_file@.skip(i + 1));
        match &maps[i].icon {
            None => {},
            Some(icon) => {
                if !is_file[i] {
                    return Err(TargetError::ShortcutIconMissing(icon.clone()));
                }
                match file_name(icon.as_str()) {
                    None => {
                        return Err(TargetError::ShortcutIconNotAFile(icon.clone()));
                    },
                    Some(name) => {
                        let in_bin = path_join(bin_dir, name.as_str());
                        let destination = resolve_destination(install_path, in_bin.as_str());
                        let ghost before = out@;
                        out.push(PayloadFile::data(icon.clone(), destination));
                        proof {
                            assert(files_view(out@) =~= files_view(before).push(file_view(out@.last())));
                            let rest = icon_payloads(maps@.skip(i + 1), is_file@.skip(i + 1), opt_str_view(install_path), bin_dir@);
                            if let Ok(rv) = rest {
                                assert(files_view(before) + (seq![file_view(out@.last())] + rv) =~= files_view(out@) + rv);
                            }
                        }
                    },
                }
            },
        }
        i = i + 1;
    }
    proof {
        assert(maps@.skip(i as int).len() == 0);
        assert(files_view(out@) + Seq::<FileView>::empty() == files_view(out@));
    }
    Ok(out)
}

fn find_destination(files: &Vec<PayloadFile>, destination: &str) -> (r: Option<usize>)
    ensures
        index_of_destination(files_view(files@), destination@) == match r {
            Some(k) => Some(k as int),
            None => None::<int>,
        },
        r matches Some(i) ==> i < files@.len(),
{
    let ghost fv = files_view(files@);
    let mut i: usize = 0;
    while i < files.len()
        invariant
            fv == files_view(files@),
            i <= files@.len(),
            forall|k: int| 0 <= k < i ==> (#[trigger] fv[k]).1 != destination@,
        decreases files@.len() - i,
    {
        if str_eq(files[i].destination.as_str(), destination) {
            proof {
                assert(fv[i as int].1 == destination@);
                let j = choose|j: int| 0 <= j < fv.len() && fv[j].1 == destination@ && forall|k: int| 0 <= k < j ==> (#[trigger] fv[k]).1 != destination@;
                if j < i {
                    assert(fv[j].1 != destination@);
                }
                if j > i {
                    assert(fv[i as int].1 != destination@);
                }
            }
            return Some(i);
        }
        i = i + 1;
    }
    None
}

/// Adds a payload file unless its destination is taken: by the same file it
/// is dropped, by a different one it is refused.
pub fn push_payload_file(files: &mut Vec<PayloadFile>, payload: PayloadFile) -> (r: Result<(), TargetError>)
    ensures
        match push_spec(files_view(old(files)@), file_view(payload)) {
            Ok(v) => r is Ok && files_view(final(files)@) == v,
            Err((d, a, b)) => r matches Err(e) && error_view(e) == TargetErrorView::Conflict(d, a, b),
        },
{
    match find_destination(files, payload.destination.as_str()) {
        Some(i) => {
            if !str_eq(files[i].source.as_str(), payload.source.as_str()) || files[i].executable != payload.executable {
                return Err(TargetError::PayloadConflict {
                    destination: payload.destination.clone(),
                    existing: files[i].source.clone(),
                    incoming: payload.source.clone(),
                });
            }
            Ok(())
        },
        None => {
            let ghost before = files@;
            files.push(payload);
            assert(files_view(files@) =~= files_view(before).push(file_view(payload)));
            Ok(())
        },
    }
}

fn push_payload_files(files: &mut Vec<PayloadFile>, more: &Vec<PayloadFile>) -> (r: Result<(), TargetError>)
    ensures
        match push_all_spec(files_view(old(files)@), files_view(more@)) {
            Ok(v) => r is Ok && files_view(final(files)@) == v,
            Err((d, a, b)) => r matches Err(e) && error_view(e) == TargetErrorView::Conflict(d, a, b),
        },
{
    let ghost ps = files_view(more@);
    let ghost expected = push_all_spec(files_view(files@), ps);
    let mut i: usize = 0;
    assert(ps.skip(0) == ps);
    while i < more.len()
        invariant
            i <= more@.len(),
            ps == files_view(more@),
            expected == push_all_spec(files_view(old(files)@), ps),
            expected == push_all_spec(files_view(files@), ps.skip(i as int)),
        decreases more@.len() - i,
    {
        assert(ps.skip(i as int)[0] == file_view(more@[i as int]));
        assert(ps.skip(i as int).drop_first() == ps.skip(i + 1));
        let p = more[i].clone();
        match push_payload_file(files, p) {
            Err(e) => {
                return Err(e);
            },
            Ok(()) => {},
        }
        i = i + 1;
    }
    assert(ps.skip(i as int).len() == 0);
    Ok(())
}

fn copy_opt(o: &Option<String>) -> (r: Option<String>)
    ensures
        opt_string_view(r) == opt_string_view(*o),
{
    match o {
        Some(s) => Some(s.clone()),
        None => None,
    }
}

fn build_shortcuts(target: &str, binary_names: &[String], install_path: Option<&str>, bin_dir: &str, maps: &[ShortcutMapping]) -> (r: Result<Vec<Shortcut>, TargetError>)
    ensures
        match shortcuts_spec(target@, binary_names@, opt_str_view(install_path), bin_dir@, maps@) {
            Ok(v) => r matches Ok(s) && s@.map_values(|x: Shortcut| shortcut_view(x)) == v,
            Err(e) => r matches Err(err) && error_view(err) == e,
        },
{
    let ghost expected = shortcuts_spec(target@, binary_names@, opt_str_view(install_path), bin_dir@, maps@);
    let mut out: Vec<Shortcut> = Vec::new();
    let mut i: usize = 0;
    assert(maps@.skip(0) == maps@);
    while i < maps.len()
        invariant
            i <= maps@.len(),
            expected == shortcuts_spec(target@, binary_names@, opt_str_view(install_path), bin_dir@, maps@),
            expected == prepend_ok(out@.map_values(|x: Shortcut| shortcut_view(x)), shortcuts_spec(target@, binary_names@, opt_str_view(install_path), bin_dir@, maps@.skip(i as int))),
        decreases maps@.len() - i,
    {
        let m = &maps[i];
        assert(maps@.skip(i as int)[0] == maps@[i as int]);
        assert(maps@.skip(i as int).drop_first() == maps@.skip(i + 1));
        if !contains_string(binary_names, m.binary.as_str()) {
            return Err(TargetError::UnknownShortcutBinary(m.binary.clone()));
        }
        let name = binary_file_name(target, m.binary.as_str());
        let in_bin = path_join(bin_dir, name.as_str());
        let shortcut_target = resolve_destination(install_path, in_bin.as_str());
        let icon = match &m.icon {
            Some(source) => match file_name(source.as_str()) {
                Some(file) => {
                    let icon_in_bin = path_join(bin_dir, file.as_str());
                    Some(resolve_destination(install_path, icon_in_bin.as_str()))
                },
                None => None,
            },
            None => None,
        };
        let ghost before = out@;
        out.push(Shortcut { target: shortcut_target, name: m.name.clone(), directory: copy_opt(&m.directory), icon });
        proof {
            let v = out@.map_values(|x: Shortcut| shortcut_view(x));
            assert(v =~= before.map_values(|x: Shortcut| shortcut_view(x)).push(shortcut_view(out@.last())));
            let rest = shortcuts_spec(target@, binary_names@, opt_str_view(install_path), bin_dir@, maps@.skip(i + 1));
            if let Ok(rv) = rest {
                assert(before.map_values(|x: Shortcut| shortcut_view(x)) + (seq![shortcut_view(out@.last())] + rv) =~= v + rv);
            }
        }
        i = i + 1;
    }
    proof {
        assert(maps@.skip(i as int).len() == 0);
        assert(out@.map_values(|x: Shortcut| shortcut_view(x)) + Seq::<ShortcutView>::empty() == out@.map_values(|x: Shortcut| shortcut_view(x)));
    }
    Ok(out)
}

impl TargetManifest {
    /// The payload and shortcuts of one target: each binary as an executable
    /// in `bin_dir` below the install path; each shortcut icon, then each
    /// extra file, unless the same file already has its destination; and a
    /// shortcut per mapping. `icon_is_file[i]` tells whether the icon source
    /// of `shortcut_mappings[i]` exists as a file.
    pub fn new(
        target: &str,
        binary_names: &[String],
        install_path: Option<&str>,
        bin_dir: &str,
        extra_files: &[PayloadFile],
        shortcut_mappings: &[ShortcutMapping],
        icon_is_file: &[bool],
    ) -> (r: Result<Self, TargetError>)
        requires
            shortcut_mappings@.len() == icon_is_file@.len(),
        ensures
            match target_outcome(target@, binary_names@, opt_str_view(install_path), bin_dir@, extra_files@, shortcut_mappings@, icon_is_file@) {
                Ok((files, shortcuts)) => r matches Ok(m) && m.target@ == target@ && files_view(m.files@) == files
                    && m.shortcuts@.map_values(|x: Shortcut| shortcut_view(x)) == shortcuts,
                Err(e) => r matches Err(err) && error_view(err) == e,
            },
    {
        let mut files = binary_payload_files(target, binary_names, install_path, bin_dir);
        let icons = match icon_payload_files(shortcut_mappings, icon_is_file, install_path, bin_dir) {
            Ok(v) => v,
            Err(e) => return Err(e),
        };
        let mut more = icons;
        let mut i: usize = 0;
        let ghost icon_count = more@.len();
        let ghost icons_view = files_view(more@);
        assert(more@.take(icon_count as int) == more@);
        while i < extra_files.len()
            invariant
                i <= extra_files@.len(),
                icon_count <= more@.len(),
                files_view(more@.take(icon_count as int)) == icons_view,
                files_view(more@) == files_view(more@.take(icon_count as int)) + files_view(extra_files@.take(i as int)),
            decreases extra_files@.len() - i,
        {
            let ghost before = more@;
            more.push(extra_files[i].clone());
            proof {
                assert(more@.take(icon_count as int) == before.take(icon_count as int));
                assert(files_view(more@) =~= files_view(before).push(file_view(extra_files@[i as int])));
                assert(files_view(extra_files@.take(i + 1)) =~= files_view(extra_files@.take(i as int)).push(file_view(extra_files@[i as int])));
            }
            i = i + 1;
        }
        assert(extra_files@.take(i as int) == extra_files@);
        match push_payload_files(&mut files, &more) {
            Err(e) => return Err(e),
            Ok(()) => {},
        }
        let shortcuts = match build_shortcuts(target, binary_names, install_path, bin_dir, shortcut_mappings) {
            Ok(s) => s,
            Err(e) => return Err(e),
        };
        Ok(TargetManifest { target: owned(target), files, shortcuts })
    }
}

} // verus!
