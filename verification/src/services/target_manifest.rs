//! The payload and shortcuts of one build target, without shortcut icons.
use vstd::prelude::*;

use crate::manifest_file::ShortcutMapping;
use crate::services::payload_file::{file_view, files_view, resolve_destination,
    resolve_spec, PayloadFile};
use crate::target_manifest::{binary_file_name, binary_file_name_spec, binary_files, release_path_spec, FileView};
use crate::text::{contains_string, has_string, opt_str_view, opt_string_view, owned, path_join, path_join_spec};

verus! {

/// What one target installs: its payload files and its shortcuts.
#[derive(Debug)]
pub struct TargetManifest {
    pub target: String,
    pub files: Vec<PayloadFile>,
    pub shortcuts: Vec<Shortcut>,
}

/// A Start Menu shortcut of a built target.
#[derive(Debug)]
pub struct Shortcut {
    pub target: String,
    pub name: String,
    pub directory: Option<String>,
}

/// A built shortcut as plain values: target, name, directory.
pub open spec fn shortcut_view(s: Shortcut) -> (Seq<char>, Seq<char>, Option<Seq<char>>) {
    (s.target@, s.name@, opt_string_view(s.directory))
}

/// The shortcuts of the mappings, in order, or the first binary that the
/// package does not build.
pub open spec fn shortcuts_spec(target: Seq<char>, names: Seq<String>, install: Option<Seq<char>>, bin_dir: Seq<char>, maps: Seq<ShortcutMapping>) -> Result<Seq<(Seq<char>, Seq<char>, Option<Seq<char>>)>, Seq<char>>
    decreases maps.len(),
{
    if maps.len() == 0 {
        Ok(Seq::empty())
    } else if !has_string(names, maps[0].binary@) {
        Err(maps[0].binary@)
    } else {
        match shortcuts_spec(target, names, install, bin_dir, maps.drop_first()) {
            Err(e) => Err(e),
            Ok(rest) => Ok(seq![(
                resolve_spec(install, path_join_spec(bin_dir, binary_file_name_spec(target, maps[0].binary@))),
                maps[0].name@,
                opt_string_view(maps[0].directory),
            )] + rest),
        }
    }
}

/// Why a target manifest could not be built.
#[derive(Debug)]
pub enum TargetError {
    /// A shortcut to a binary that the package does not build.
    UnknownShortcutBinary(String),
}

impl TargetError {
    /// The error's message.
    pub fn to_string(&self) -> (r: String)
        ensures
            r@ == match self {
                TargetError::UnknownShortcutBinary(b) => "shortcut references unknown binary "@ + b@,
            },
    {
        match self {
            TargetError::UnknownShortcutBinary(b) => crate::text::concat2("shortcut references unknown binary ", b.as_str()),
        }
    }
}

impl TargetManifest {
    /// The payload and shortcuts of one target: each binary as an executable
    /// in `bin_dir` below the install path, then the extra files, and a
    /// shortcut per mapping; an error for a shortcut to an unknown binary.
    pub fn new(
        target: &str,
        binary_names: &[String],
        install_path: Option<&str>,
        bin_dir: &str,
        extra_files: &[PayloadFile],
        shortcut_mappings: &[ShortcutMapping],
    ) -> (r: Result<Self, TargetError>)
        ensures
            match shortcuts_spec(target@, binary_names@, opt_str_view(install_path), bin_dir@, shortcut_mappings@) {
                Err(b) => r matches Err(TargetError::UnknownShortcutBinary(n)) && n@ == b,
                Ok(s) => r matches Ok(m) && m.target@ == target@
                    && files_view(m.files@) == binary_files(target@, binary_names@, opt_str_view(install_path), bin_dir@) + files_view(extra_files@)
                    && m.shortcuts@.map_values(|x: Shortcut| shortcut_view(x)) == s,
            },
    {
        let ghost bins = binary_files(target@, binary_names@, opt_str_view(install_path), bin_dir@);
        let mut files: Vec<PayloadFile> = Vec::new();
        let mut i: usize = 0;
        while i < binary_names.len()
            invariant
                i <= binary_names@.len(),
                bins == binary_files(target@, binary_names@, opt_str_view(install_path), bin_dir@),
                files_view(files@) == bins.take(i as int),
            decreases binary_names@.len() - i,
        {
            let name = binary_file_name(target, binary_names[i].as_str());
            let dir = path_join("target", target);
            let release = path_join(dir.as_str(), "release");
            let source = path_join(release.as_str(), name.as_str());
            let in_bin = path_join(bin_dir, name.as_str());
            let destination = resolve_destination(install_path, in_bin.as_str());
            let ghost before = files@;
            files.push(PayloadFile::executable(source, destination));
            proof {
                reveal_strlit("target");
                reveal_strlit("release");
                assert(files_view(files@) =~= files_view(before).push(bins[i as int]));
                assert(bins.take(i + 1) =~= bins.take(i as int).push(bins[i as int]));
            }
            i = i + 1;
        }
        assert(bins.take(i as int) == bins);
        let mut k: usize = 0;
        while k < extra_files.len()
            invariant
                k <= extra_files@.len(),
                files_view(files@) == bins + files_view(extra_files@.take(k as int)),
            decreases extra_files@.len() - k,
        {
            let ghost before = files@;
            files.push(extra_files[k].clone());
            proof {
                assert(files_view(files@) =~= files_view(before).push(file_view(extra_files@[k as int])));
                assert(files_view(extra_files@.take(k + 1)) =~= files_view(extra_files@.take(k as int)).push(file_view(extra_files@[k as int])));
            }
            k = k + 1;
        }
        assert(extra_files@.take(k as int) == extra_files@);
        let ghost expected = shortcuts_spec(target@, binary_names@, opt_str_view(install_path), bin_dir@, shortcut_mappings@);
        let mut shortcuts: Vec<Shortcut> = Vec::new();
        let mut j: usize = 0;
        assert(shortcut_mappings@.skip(0) == shortcut_mappings@);
        while j < shortcut_mappings.len()
            invariant
                j <= shortcut_mappings@.len(),
                expected == shortcuts_spec(target@, binary_names@, opt_str_view(install_path), bin_dir@, shortcut_mappings@),
                expected == match shortcuts_spec(target@, binary_names@, opt_str_view(install_path), bin_dir@, shortcut_mappings@.skip(j as int)) {
                    Err(e) => Err(e),
                    Ok(rest) => Ok(shortcuts@.map_values(|x: Shortcut| shortcut_view(x)) + rest),
                },
            decreases shortcut_mappings@.len() - j,
        {
            let m = &shortcut_mappings[j];
            assert(shortcut_mappings@.skip(j as int)[0] == shortcut_mappings@[j as int]);
            assert(shortcut_mappings@.skip(j as int).drop_first() == shortcut_mappings@.skip(j + 1));
            if !contains_string(binary_names, m.binary.as_str()) {
                return Err(TargetError::UnknownShortcutBinary(m.binary.clone()));
            }
            let name = binary_file_name(target, m.binary.as_str());
            let in_bin = path_join(bin_dir, name.as_str());
            let shortcut_target = resolve_destination(install_path, in_bin.as_str());
            let directory = match &m.directory {
                Some(d) => Some(d.clone()),
                None => None,
            };
            let ghost before = shortcuts@;
            shortcuts.push(Shortcut { target: shortcut_target, name: m.name.clone(), directory });
            proof {
                let v = shortcuts@.map_values(|x: Shortcut| shortcut_view(x));
                assert(v =~= before.map_values(|x: Shortcut| shortcut_view(x)).push(shortcut_view(shortcuts@.last())));
                let rest = shortcuts_spec(target@, binary_names@, opt_str_view(install_path), bin_dir@, shortcut_mappings@.skip(j + 1));
                if let Ok(rv) = rest {
                    assert(before.map_values(|x: Shortcut| shortcut_view(x)) + (seq![shortcut_view(shortcuts@.last())] + rv) =~= v + rv);
                }
            }
            j = j + 1;
        }
        proof {
            assert(shortcut_mappings@.skip(j as int).len() == 0);
            assert(shortcuts@.map_values(|x: Shortcut| shortcut_view(x)) + Seq::<(Seq<char>, Seq<char>, Option<Seq<char>>)>::empty() == shortcuts@.map_values(|x: Shortcut| shortcut_view(x)));
        }
        Ok(TargetManifest { target: owned(target), files, shortcuts })
    }
}

} // verus!
