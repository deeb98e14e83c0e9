//! The Linux section of the manifest and what it builds into.
use vstd::prelude::*;

use crate::bundlers::{dedup_seq, requested_kinds, LinuxBundlerKind};
use crate::manifest_file::{AssociatedFile, EulaFile, FileMapping, LinuxTarget, ShortcutMapping};

use crate::target_manifest::TargetManifest;
use crate::bundlers::linux_bundler_name;
use crate::report::{associated_section, eulas_section, files_text, list_line, push_associated, push_eulas, push_files,
    push_list_line, push_value_line, value_line};
use crate::text::{opt_str_view, opt_string_view, push_str, string_views, strs_view};

verus! {

/// The Linux section; `Target` is a target triple in the manifest and a
/// built target payload once built.
#[derive(Debug)]
pub struct LinuxPlatformManifest<Target = LinuxTarget> {
    pub platform: String,
    pub targets: Vec<Target>,
    pub bundle: Vec<LinuxBundlerKind>,
    pub install_path: Option<String>,
    pub bin_dir: Option<String>,
    pub files: Vec<FileMapping>,
    pub associated_files: Vec<AssociatedFile>,
    pub eulas: Vec<EulaFile>,
    pub shortcuts: Vec<ShortcutMapping>,
    pub display_icon: Option<String>,
}

fn contains_linux_bundler(v: &Vec<LinuxBundlerKind>, k: LinuxBundlerKind) -> (r: bool)
    ensures
        r == v@.contains(k),
{
    let mut i: usize = 0;
    while i < v.len()
        invariant
            i <= v@.len(),
            forall|j: int| 0 <= j < i ==> v@[j] != k,
        decreases v@.len() - i,
    {
        if v[i] == k {
            return true;
        }
        i = i + 1;
    }
    false
}

/// The Linux bin directory, `/usr/bin` when unset.
pub open spec fn linux_bin_dir(bin_dir: Option<String>) -> Seq<char> {
    match bin_dir {
        Some(d) => d@,
        None => "/usr/bin"@,
    }
}

impl<Target> LinuxPlatformManifest<Target> {
    /// The bundles to produce: those requested, `deb` when none is, each
    /// once, in order of first request.
    pub fn bundles(&self) -> (r: Vec<LinuxBundlerKind>)
        ensures
            r@ == requested_kinds(self.bundle@, LinuxBundlerKind::Deb),
    {
        if self.bundle.len() == 0 {
            let v = vec![LinuxBundlerKind::Deb];
            assert(v@ =~= seq![LinuxBundlerKind::Deb]);
            return v;
        }
        let mut unique: Vec<LinuxBundlerKind> = Vec::new();
        let mut i: usize = 0;
        while i < self.bundle.len()
            invariant
                i <= self.bundle@.len(),
                unique@ == dedup_seq(self.bundle@.take(i as int)),
            decreases self.bundle@.len() - i,
        {
            let k = self.bundle[i];
            assert(self.bundle@.take(i + 1).drop_last() == self.bundle@.take(i as int));
            if !contains_linux_bundler(&unique, k) {
                unique.push(k);
            }
            i = i + 1;
        }
        assert(self.bundle@.take(i as int) == self.bundle@);
        unique
    }

    /// Where binaries are installed: the configured directory, `/usr/bin` when unset.
    pub fn bin_dir(&self) -> (r: &str)
        ensures
            r@ == linux_bin_dir(self.bin_dir),
    {
        match &self.bin_dir {
            Some(d) => d.as_str(),
            None => "/usr/bin",
        }
    }

    pub fn install_path(&self) -> (r: Option<&str>)
        ensures
            opt_str_view(r) == opt_string_view(self.install_path),
    {
        match &self.install_path {
            Some(p) => Some(p.as_str()),
            None => None,
        }
    }

    /// The values whose `$NAME` references count as build variables: the install path.
    pub fn variable_sources(&self) -> (r: Vec<&str>)
        ensures
            strs_view(r@) == match self.install_path {
                Some(p) => seq![p@],
                None => Seq::<Seq<char>>::empty(),
            },
    {
        let mut v: Vec<&str> = Vec::new();
        if let Some(p) = &self.install_path {
            v.push(p.as_str());
        }
        assert(strs_view(v@) =~= match self.install_path {
            Some(p) => seq![p@],
            None => Seq::<Seq<char>>::empty(),
        });
        v
    }

    pub fn display_icon(&self) -> (r: Option<&str>)
        ensures
            opt_str_view(r) == opt_string_view(self.display_icon),
    {
        match &self.display_icon {
            Some(p) => Some(p.as_str()),
            None => None,
        }
    }
}

impl LinuxPlatformManifest<LinuxTarget> {
    /// The built Linux manifest: the given targets and display icon, the
    /// bundles to produce, and the section's settings carried over.
    pub fn build(&self, targets: Vec<TargetManifest>, display_icon: Option<&str>) -> (r: LinuxPlatformManifest<TargetManifest>)
        ensures
            r.platform@ == "linux"@,
            r.targets == targets,
            r.bundle@ == requested_kinds(self.bundle@, LinuxBundlerKind::Deb),
            opt_string_view(r.install_path) == opt_string_view(self.install_path),
            opt_string_view(r.bin_dir) == opt_string_view(self.bin_dir),
            r.files@.len() == 0,
            r.associated_files@.len() == self.associated_files@.len(),
            forall|i: int| 0 <= i < r.associated_files@.len() ==> cloned(self.associated_files@[i], #[trigger] r.associated_files@[i]),
            r.eulas@.len() == self.eulas@.len(),
            forall|i: int| 0 <= i < r.eulas@.len() ==> cloned(self.eulas@[i], #[trigger] r.eulas@[i]),
            r.shortcuts@.len() == self.shortcuts@.len(),
            forall|i: int| 0 <= i < r.shortcuts@.len() ==> cloned(self.shortcuts@[i], #[trigger] r.shortcuts@[i]),
            opt_string_view(r.display_icon) == opt_str_view(display_icon),
    {
        let install_path = match &self.install_path {
            Some(p) => Some(p.clone()),
            None => None,
        };
        let bin_dir = match &self.bin_dir {
            Some(p) => Some(p.clone()),
            None => None,
        };
        let icon = match display_icon {
            Some(p) => Some(p.to_string()),
            None => None,
        };
        LinuxPlatformManifest {
            platform: "linux".to_string(),
            targets,
            bundle: self.bundles(),
            install_path,
            bin_dir,
            files: Vec::new(),
            associated_files: self.associated_files.clone(),
            eulas: self.eulas.clone(),
            shortcuts: self.shortcuts.clone(),
            display_icon: icon,
        }
    }
}

impl LinuxPlatformManifest<TargetManifest> {
    /// The platform's name, `linux` when the manifest leaves it empty.
    pub fn platform(&self) -> (r: &str)
        ensures
            r@ == if self.platform@.len() == 0 { "linux"@ } else { self.platform@ },
    {
        if self.platform.unicode_len() == 0 {
            "linux"
        } else {
            self.platform.as_str()
        }
    }

    /// The target triples of the built targets, in order.
    pub fn targets(&self) -> (r: Vec<&str>)
        ensures
            strs_view(r@) == self.targets@.map_values(|t: TargetManifest| t.target@),
    {
        crate::target_manifest::target_names(&self.targets)
    }
}

/// The lines of built targets: triple and payload files.
pub open spec fn targets_text(ts: Seq<TargetManifest>) -> Seq<char>
    decreases ts.len(),
{
    if ts.len() == 0 {
        Seq::empty()
    } else {
        targets_text(ts.drop_last()) + "    "@ + ts.last().target@ + "\n"@ + files_text(ts.last().files@)
    }
}

/// Appends the lines of built targets.
pub fn push_targets(out: &mut String, targets: &Vec<TargetManifest>)
    ensures
        final(out)@ == old(out)@ + targets_text(targets@),
{
    let ghost start = out@;
    let mut i: usize = 0;
    while i < targets.len()
        invariant
            i <= targets@.len(),
            out@ == start + targets_text(targets@.take(i as int)),
        decreases targets@.len() - i,
    {
        push_str(out, "    ");
        push_str(out, targets[i].target.as_str());
        push_str(out, "\n");
        push_files(out, &targets[i].files);
        assert(targets@.take(i + 1).drop_last() == targets@.take(i as int));
        assert(out@ =~= start + targets_text(targets@.take(i + 1)));
        i = i + 1;
    }
    assert(targets@.take(i as int) == targets@);
}

/// The first lines of a built Linux platform's report: its name, bundles
/// and install path.
pub open spec fn linux_head(m: LinuxPlatformManifest<TargetManifest>) -> Seq<char> {
    "  "@ + (if m.platform@.len() == 0 { "linux"@ } else { m.platform@ }) + "\n"@
        + list_line("bundle"@, m.bundle@.map_values(|k: LinuxBundlerKind| linux_bundler_name(k)))
        + value_line("install path"@, opt_string_view(m.install_path))
}

/// The bin directory and display icon lines of a built Linux platform's report.
pub open spec fn linux_mid(m: LinuxPlatformManifest<TargetManifest>) -> Seq<char> {
    "    bin dir: "@ + linux_bin_dir(m.bin_dir) + "\n"@
        + value_line("display icon"@, opt_string_view(m.display_icon))
}

/// The associated files, licenses and targets of a built Linux platform's report.
pub open spec fn linux_tail(m: LinuxPlatformManifest<TargetManifest>) -> Seq<char> {
    associated_section(m.associated_files@, true)
        + eulas_section(m.eulas@)
        + targets_text(m.targets@)
}

/// The report of a built Linux platform.
pub open spec fn linux_text(m: LinuxPlatformManifest<TargetManifest>) -> Seq<char> {
    linux_head(m) + linux_mid(m) + linux_tail(m)
}

fn linux_bundler_names(kinds: &Vec<LinuxBundlerKind>) -> (r: Vec<String>)
    ensures
        string_views(r@) == kinds@.map_values(|k: LinuxBundlerKind| linux_bundler_name(k)),
{
    let mut out: Vec<String> = Vec::new();
    let mut i: usize = 0;
    while i < kinds.len()
        invariant
            i <= kinds@.len(),
            string_views(out@) == kinds@.take(i as int).map_values(|k: LinuxBundlerKind| linux_bundler_name(k)),
        decreases kinds@.len() - i,
    {
        let ghost before = out@;
        out.push(kinds[i].to_string());
        assert(string_views(out@) =~= string_views(before).push(linux_bundler_name(kinds@[i as int])));
        assert(kinds@.take(i + 1).map_values(|k: LinuxBundlerKind| linux_bundler_name(k)) =~= kinds@.take(i as int).map_values(|k: LinuxBundlerKind| linux_bundler_name(k)).push(linux_bundler_name(kinds@[i as int])));
        i = i + 1;
    }
    assert(kinds@.take(i as int) == kinds@);
    out
}

impl LinuxPlatformManifest<TargetManifest> {
    fn push_head(&self, output: &mut String)
        ensures
            final(output)@ == old(output)@ + linux_head(*self),
    {
        let ghost start = output@;
        push_str(output, "  ");
        push_str(output, self.platform());
        push_str(output, "\n");
        push_list_line(output, "bundle", &linux_bundler_names(&self.bundle));
        push_value_line(output, "install path", &self.install_path);
        assert(output@ =~= start + linux_head(*self));
    }

    fn push_mid(&self, output: &mut String)
        ensures
            final(output)@ == old(output)@ + linux_mid(*self),
    {
        let ghost start = output@;
        push_str(output, "    bin dir: ");
        push_str(output, self.bin_dir());
        push_str(output, "\n");
        push_value_line(output, "display icon", &self.display_icon);
        assert(output@ =~= start + linux_mid(*self));
    }

    fn push_tail(&self, output: &mut String)
        ensures
            final(output)@ == old(output)@ + linux_tail(*self),
    {
        let ghost start = output@;
        push_associated(output, &self.associated_files, true);
        push_eulas(output, &self.eulas);
        push_targets(output, &self.targets);
        assert(output@ =~= start + linux_tail(*self));
    }

    /// Appends the report of the built platform: its name, bundles, install
    /// path, bin directory, display icon, associated files, licenses and
    /// each target's files.
    pub fn write_text(&self, output: &mut String)
        ensures
            final(output)@ == old(output)@ + linux_text(*self),
    {
        let ghost start = output@;
        self.push_head(output);
        self.push_mid(output);
        self.push_tail(output);
        assert(output@ =~= start + linux_text(*self));
    }
}

} // verus!
