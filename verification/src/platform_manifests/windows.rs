//! The Windows section of the manifest and what it builds into.
use vstd::prelude::*;

use crate::bundlers::{dedup_seq, requested_kinds, WindowsBundlerKind, WindowsInstallerKind};
use crate::manifest_file::{AssociatedFile, EulaFile, FileMapping, ShortcutMapping, WindowsTarget};
use crate::services::build_variable::{file_names, get_platform_variables, outcome_matches, value_names, variables_outcome, BuildVariable, VariableError};
use crate::services::payload_file::PayloadFile;
use crate::target_manifest::{Shortcut, TargetManifest};
use crate::report::{associated_section, eulas_section, files_text, list_line, push_associated, push_eulas, push_files,
    push_list_line, push_value_line, value_line};
use crate::bundlers::windows_bundler_name;
use crate::services::build_variable::variable_name_spec;
use crate::text::{opt_str_view, opt_string_view, push_str, string_views, strs_view};

verus! {

/// The Windows section; `Target` is a target triple in the manifest and a
/// built target payload once built.
#[derive(Debug)]
pub struct WindowsPlatformManifest<Target = WindowsTarget> {
    pub platform: String,
    pub targets: Vec<Target>,
    pub bundle: Vec<WindowsBundlerKind>,
    pub installer: Vec<WindowsInstallerKind>,
    pub install_path: Option<String>,
    pub bin_dir: Option<String>,
    pub files: Vec<FileMapping>,
    pub associated_files: Vec<AssociatedFile>,
    pub eulas: Vec<EulaFile>,
    pub shortcuts: Vec<ShortcutMapping>,
    pub path_entries: Vec<String>,
    pub display_icon: Option<String>,
    pub display_icon_source: Option<String>,
    pub variables: Vec<BuildVariable>,
}

fn contains_bundler(v: &Vec<WindowsBundlerKind>, k: WindowsBundlerKind) -> (r: bool)
    ensures
        r == v@.contains(k),
{
    let mut i: usize = 0;
    while i < v.len()
        invariant
            i <= v@.len(),
            forall|j: int| 0 <= j < i ==> v@[j] != k,
        decreases v@.len() - i,
    {
        if v[i] == k {
            return true;
        }
        i = i + 1;
    }
    false
}

fn contains_installer(v: &Vec<WindowsInstallerKind>, k: WindowsInstallerKind) -> (r: bool)
    ensures
        r == v@.contains(k),
{
    let mut i: usize = 0;
    while i < v.len()
        invariant
            i <= v@.len(),
            forall|j: int| 0 <= j < i ==> v@[j] != k,
        decreases v@.len() - i,
    {
        if v[i] == k {
            return true;
        }
        i = i + 1;
    }
    false
}

/// The requested bundles, `cli` when none is requested, each once, in
/// order of first request.
pub fn unique_bundlers(requested: &Vec<WindowsBundlerKind>) -> (r: Vec<WindowsBundlerKind>)
    ensures
        r@ == requested_kinds(requested@, WindowsBundlerKind::Cli),
{
    if requested.len() == 0 {
        let v = vec![WindowsBundlerKind::Cli];
        assert(v@ =~= seq![WindowsBundlerKind::Cli]);
        return v;
    }
    let mut unique: Vec<WindowsBundlerKind> = Vec::new();
    let mut i: usize = 0;
    while i < requested.len()
        invariant
            i <= requested@.len(),
            unique@ == dedup_seq(requested@.take(i as int)),
        decreases requested@.len() - i,
    {
        let k = requested[i];
        assert(requested@.take(i + 1).drop_last() == requested@.take(i as int));
        if !contains_bundler(&unique, k) {
            unique.push(k);
        }
        i = i + 1;
    }
    assert(requested@.take(i as int) == requested@);
    unique
}

/// The requested installer front ends, `cli` when none is requested, each
/// once, in order of first request.
pub fn unique_installers(requested: &Vec<WindowsInstallerKind>) -> (r: Vec<WindowsInstallerKind>)
    ensures
        r@ == requested_kinds(requested@, WindowsInstallerKind::Cli),
{
    if requested.len() == 0 {
        let v = vec![WindowsInstallerKind::Cli];
        assert(v@ =~= seq![WindowsInstallerKind::Cli]);
        return v;
    }
    let mut unique: Vec<WindowsInstallerKind> = Vec::new();
    let mut i: usize = 0;
    while i < requested.len()
        invariant
            i <= requested@.len(),
            unique@ == dedup_seq(requested@.take(i as int)),
        decreases requested@.len() - i,
    {
        let k = requested[i];
        assert(requested@.take(i + 1).drop_last() == requested@.take(i as int));
        if !contains_installer(&unique, k) {
            unique.push(k);
        }
        i = i + 1;
    }
    assert(requested@.take(i as int) == requested@);
    unique
}

/// The Windows variable sources: the install path, then each associated path.
pub open spec fn windows_variable_sources(install_path: Option<String>, associated: Seq<AssociatedFile>) -> Seq<Seq<char>> {
    (match install_path {
        Some(p) => seq![p@],
        None => Seq::empty(),
    }) + associated.map_values(|f: AssociatedFile| f.path@)
}

impl<Target> WindowsPlatformManifest<Target> {
    /// The bundles to produce: those requested, `cli` when none is, each once.
    pub fn bundles(&self) -> (r: Vec<WindowsBundlerKind>)
        ensures
            r@ == requested_kinds(self.bundle@, WindowsBundlerKind::Cli),
    {
        unique_bundlers(&self.bundle)
    }

    /// The installer front ends to produce: those requested, `cli` when none
    /// is, each once, in order of first request.
    pub fn installers(&self) -> (r: Vec<WindowsInstallerKind>)
        ensures
            r@ == requested_kinds(self.installer@, WindowsInstallerKind::Cli),
    {
        unique_installers(&self.installer)
    }
}

impl WindowsPlatformManifest<WindowsTarget> {
    /// The directory below the install path that binaries go to; empty when unset.
    pub fn bin_dir(&self) -> (r: &str)
        ensures
            r@ == match self.bin_dir {
                Some(d) => d@,
                None => Seq::<char>::empty(),
            },
    {
        match &self.bin_dir {
            Some(d) => d.as_str(),
            None => {
                proof { reveal_strlit(""); }
                ""
            },
        }
    }

    pub fn install_path(&self) -> (r: Option<&str>)
        ensures
            opt_str_view(r) == opt_string_view(self.install_path),
    {
        match &self.install_path {
            Some(p) => Some(p.as_str()),
            None => None,
        }
    }

    /// The values whose `$NAME` references count as build variables: the
    /// install path, then each associated file's path.
    pub fn variable_sources(&self) -> (r: Vec<&str>)
        ensures
            strs_view(r@) == windows_variable_sources(self.install_path, self.associated_files@),
    {
        let mut v: Vec<&str> = Vec::new();
        if let Some(p) = &self.install_path {
            v.push(p.as_str());
        }
        let ghost first = strs_view(v@);
        assert(first =~= windows_variable_sources(self.install_path, Seq::empty()));
        let mut i: usize = 0;
        while i < self.associated_files.len()
            invariant
                i <= self.associated_files@.len(),
                strs_view(v@) == first + self.associated_files@.take(i as int).map_values(|f: AssociatedFile| f.path@),
                first == (match self.install_path {
                    Some(p) => seq![p@],
                    None => Seq::<Seq<char>>::empty(),
                }),
            decreases self.associated_files@.len() - i,
        {
            let ghost before = v@;
            v.push(self.associated_files[i].path.as_str());
            assert(strs_view(v@) =~= strs_view(before).push(self.associated_files@[i as int].path@));
            assert(self.associated_files@.take(i + 1).map_values(|f: AssociatedFile| f.path@) =~= self.associated_files@.take(
                i as int,
            ).map_values(|f: AssociatedFile| f.path@).push(self.associated_files@[i as int].path@));
            assert(strs_view(v@) =~= first + self.associated_files@.take(i + 1).map_values(|f: AssociatedFile| f.path@));
            i = i + 1;
        }
        assert(self.associated_files@.take(i as int) == self.associated_files@);
        v
    }

    pub fn display_icon(&self) -> (r: Option<&str>)
        ensures
            opt_str_view(r) == opt_string_view(self.display_icon),
    {
        match &self.display_icon {
            Some(p) => Some(p.as_str()),
            None => None,
        }
    }

    /// The built Windows manifest: the given targets, the bundles to
    /// produce, the section's settings carried over, the given display icon,
    /// and the variables that the variable sources and payload files need;
    /// an error for an unsupported variable.
    pub fn build(
        &self,
        files: &[PayloadFile],
        targets: Vec<TargetManifest>,
        variable_sources: &[&str],
        display_icon: Option<&str>,
        display_icon_source: Option<&str>,
    ) -> (r: Result<WindowsPlatformManifest<TargetManifest>, VariableError>)
        ensures
            match variables_outcome(value_names(strs_view(variable_sources@)) + file_names(files@)) {
                Err(name) => r matches Err(VariableError::Unsupported(n)) && n@ == name,
                Ok(vars) => r matches Ok(m) && m.platform@ == "windows"@ && m.targets == targets
                    && m.bundle@ == requested_kinds(self.bundle@, WindowsBundlerKind::Cli)
                    && m.installer@ == requested_kinds(self.installer@, WindowsInstallerKind::Cli)
                    && opt_string_view(m.install_path) == opt_string_view(self.install_path)
                    && opt_string_view(m.bin_dir) == opt_string_view(self.bin_dir)
                    && m.files@.len() == 0
                    && m.associated_files@.len() == self.associated_files@.len()
                    && (forall|i: int| 0 <= i < m.associated_files@.len() ==> cloned(self.associated_files@[i], #[trigger] m.associated_files@[i]))
                    && m.eulas@.len() == self.eulas@.len()
                    && (forall|i: int| 0 <= i < m.eulas@.len() ==> cloned(self.eulas@[i], #[trigger] m.eulas@[i]))
                    && m.shortcuts@.len() == self.shortcuts@.len()
                    && (forall|i: int| 0 <= i < m.shortcuts@.len() ==> cloned(self.shortcuts@[i], #[trigger] m.shortcuts@[i]))
                    && m.path_entries@.len() == self.path_entries@.len()
                    && (forall|i: int| 0 <= i < m.path_entries@.len() ==> cloned(self.path_entries@[i], #[trigger] m.path_entries@[i]))
                    && opt_string_view(m.display_icon) == opt_str_view(display_icon)
                    && opt_string_view(m.display_icon_source) == opt_str_view(display_icon_source)
                    && m.variables@ == vars,
            },
    {
        let variables = match get_platform_variables(variable_sources, files) {
            Ok(v) => v,
            Err(e) => return Err(e),
        };
        let install_path = match &self.install_path {
            Some(p) => Some(p.clone()),
            None => None,
        };
        let bin_dir = match &self.bin_dir {
            Some(p) => Some(p.clone()),
            None => None,
        };
        let icon = match display_icon {
            Some(p) => Some(p.to_string()),
            None => None,
        };
        let icon_source = match display_icon_source {
            Some(p) => Some(p.to_string()),
            None => None,
        };
        Ok(WindowsPlatformManifest {
            platform: "windows".to_string(),
            targets,
            bundle: self.bundles(),
            installer: self.installers(),
            install_path,
            bin_dir,
            files: Vec::new(),
            associated_files: self.associated_files.clone(),
            eulas: self.eulas.clone(),
            shortcuts: self.shortcuts.clone(),
            path_entries: self.path_entries.clone(),
            display_icon: icon,
            display_icon_source: icon_source,
            variables,
        })
    }
}

impl WindowsPlatformManifest<TargetManifest> {
    /// The platform's name: the recorded one, `windows` when none is recorded.
    pub fn platform(&self) -> (r: &str)
        ensures
            r@ == if self.platform@.len() == 0 { "windows"@ } else { self.platform@ },
    {
        if self.platform.unicode_len() == 0 {
            "windows"
        } else {
            self.platform.as_str()
        }
    }

    /// The target triples of the built targets, in order.
    pub fn targets(&self) -> (r: Vec<&str>)
        ensures
            strs_view(r@) == self.targets@.map_values(|t: TargetManifest| t.target@),
    {
        crate::target_manifest::target_names(&self.targets)
    }
}

/// The lines of a target's shortcuts: name, target, directory and icon.
pub open spec fn shortcuts_text(s: Seq<Shortcut>) -> Seq<char>
    decreases s.len(),
{
    if s.len() == 0 {
        Seq::empty()
    } else {
        shortcuts_text(s.drop_last()) + shortcut_text(s.last())
    }
}

/// The line of one shortcut: name, target, directory and icon.
pub open spec fn shortcut_text(x: Shortcut) -> Seq<char> {
    "        "@ + x.name@ + " -> "@ + x.target@ + (match x.directory {
        Some(d) => " ("@ + d@ + ")"@,
        None => Seq::empty(),
    }) + (match x.icon {
        Some(i) => " [icon: "@ + i@ + "]"@,
        None => Seq::empty(),
    }) + "\n"@
}

/// The lines of one built Windows target: triple, files and shortcuts.
pub open spec fn windows_target_text(t: TargetManifest) -> Seq<char> {
    "    "@ + t.target@ + "\n"@ + files_text(t.files@) + if t.shortcuts@.len() == 0 {
        Seq::empty()
    } else {
        "      shortcuts:\n"@ + shortcuts_text(t.shortcuts@)
    }
}

/// The lines of built Windows targets.
pub open spec fn windows_targets_text(ts: Seq<TargetManifest>) -> Seq<char>
    decreases ts.len(),
{
    if ts.len() == 0 {
        Seq::empty()
    } else {
        windows_targets_text(ts.drop_last()) + windows_target_text(ts.last())
    }
}

/// The report of a built Windows platform.
pub open spec fn windows_text(m: WindowsPlatformManifest<TargetManifest>) -> Seq<char> {
    "  "@ + (if m.platform@.len() == 0 { "windows"@ } else { m.platform@ }) + "\n"@
        + list_line("bundle"@, m.bundle@.map_values(|k: WindowsBundlerKind| windows_bundler_name(k)))
        + list_line("variables"@, m.variables@.map_values(|v: BuildVariable| variable_name_spec(v)))
        + value_line("display icon"@, opt_string_view(m.display_icon))
        + associated_section(m.associated_files@, true)
        + eulas_section(m.eulas@)
        + windows_targets_text(m.targets@)
}

fn bundler_names(kinds: &Vec<WindowsBundlerKind>) -> (r: Vec<String>)
    ensures
        string_views(r@) == kinds@.map_values(|k: WindowsBundlerKind| windows_bundler_name(k)),
{
    let mut out: Vec<String> = Vec::new();
    let mut i: usize = 0;
    while i < kinds.len()
        invariant
            i <= kinds@.len(),
            string_views(out@) == kinds@.take(i as int).map_values(|k: WindowsBundlerKind| windows_bundler_name(k)),
        decreases kinds@.len() - i,
    {
        let ghost before = out@;
        out.push(kinds[i].to_string());
        assert(string_views(out@) =~= string_views(before).push(windows_bundler_name(kinds@[i as int])));
        assert(kinds@.take(i + 1).map_values(|k: WindowsBundlerKind| windows_bundler_name(k)) =~= kinds@.take(i as int).map_values(|k: WindowsBundlerKind| windows_bundler_name(k)).push(windows_bundler_name(kinds@[i as int])));
        assert(string_views(out@) =~= kinds@.take(i + 1).map_values(|k: WindowsBundlerKind| windows_bundler_name(k)));
        i = i + 1;
    }
    assert(kinds@.take(i as int) == kinds@);
    out
}

/// The names of variables, in order.
pub fn variable_names(vars: &Vec<BuildVariable>) -> (r: Vec<String>)
    ensures
        string_views(r@) == vars@.map_values(|v: BuildVariable| variable_name_spec(v)),
{
    let mut out: Vec<String> = Vec::new();
    let mut i: usize = 0;
    while i < vars.len()
        invariant
            i <= vars@.len(),
            string_views(out@) == vars@.take(i as int).map_values(|v: BuildVariable| variable_name_spec(v)),
        decreases vars@.len() - i,
    {
        let ghost before = out@;
        out.push(vars[i].name().to_string());
        assert(string_views(out@) =~= string_views(before).push(variable_name_spec(vars@[i as int])));
        assert(vars@.take(i + 1).map_values(|v: BuildVariable| variable_name_spec(v)) =~= vars@.take(i as int).map_values(|v: BuildVariable| variable_name_spec(v)).push(variable_name_spec(vars@[i as int])));
        assert(string_views(out@) =~= vars@.take(i + 1).map_values(|v: BuildVariable| variable_name_spec(v)));
        i = i + 1;
    }
    assert(vars@.take(i as int) == vars@);
    out
}

fn push_shortcut(out: &mut String, x: &Shortcut)
    ensures
        final(out)@ == old(out)@ + shortcut_text(*x),
{
    let ghost start = out@;
    push_str(out, "        ");
    push_str(out, x.name.as_str());
    push_str(out, " -> ");
    push_str(out, x.target.as_str());
    if let Some(d) = &x.directory {
        push_str(out, " (");
        push_str(out, d.as_str());
        push_str(out, ")");
    }
    if let Some(icon) = &x.icon {
        push_str(out, " [icon: ");
        push_str(out, icon.as_str());
        push_str(out, "]");
    }
    push_str(out, "\n");
    assert(out@ =~= start + shortcut_text(*x));
}

fn push_windows_target(out: &mut String, t: &TargetManifest)
    ensures
        final(out)@ == old(out)@ + windows_target_text(*t),
{
    let ghost start = out@;
    push_str(out, "    ");
    push_str(out, t.target.as_str());
    push_str(out, "\n");
    push_files(out, &t.files);
    if t.shortcuts.len() > 0 {
        push_str(out, "      shortcuts:\n");
        push_shortcuts(out, &t.shortcuts);
    }
    assert(out@ =~= start + windows_target_text(*t));
}

fn push_shortcuts(out: &mut String, shortcuts: &Vec<Shortcut>)
    ensures
        final(out)@ == old(out)@ + shortcuts_text(shortcuts@),
{
    let ghost start = out@;
    let mut i: usize = 0;
    while i < shortcuts.len()
        invariant
            i <= shortcuts@.len(),
            out@ == start + shortcuts_text(shortcuts@.take(i as int)),
        decreases shortcuts@.len() - i,
    {
        push_shortcut(out, &shortcuts[i]);
        assert(shortcuts@.take(i + 1).drop_last() == shortcuts@.take(i as int));
        assert(out@ =~= start + shortcuts_text(shortcuts@.take(i + 1)));
        i = i + 1;
    }
    assert(shortcuts@.take(i as int) == shortcuts@);
}

impl WindowsPlatformManifest<TargetManifest> {
    /// Appends the report of the built platform: its name, bundles,
    /// variables, display icon, associated files, licenses, and each
    /// target's files and shortcuts.
    pub fn write_text(&self, output: &mut String)
        ensures
            final(output)@ == old(output)@ + windows_text(*self),
    {
        let ghost start = output@;
        push_str(output, "  ");
        push_str(output, self.platform());
        push_str(output, "\n");
        push_list_line(output, "bundle", &bundler_names(&self.bundle));
        push_list_line(output, "variables", &variable_names(&self.variables));
        push_value_line(output, "display icon", &self.display_icon);
        push_associated(output, &self.associated_files, true);
        push_eulas(output, &self.eulas);
        let ghost head = output@;
        let mut i: usize = 0;
        while i < self.targets.len()
            invariant
                i <= self.targets@.len(),
                output@ == head + windows_targets_text(self.targets@.take(i as int)),
            decreases self.targets@.len() - i,
        {
            push_windows_target(output, &self.targets[i]);
            assert(self.targets@.take(i + 1).drop_last() == self.targets@.take(i as int));
            assert(output@ =~= head + windows_targets_text(self.targets@.take(i + 1)));
            i = i + 1;
        }
        assert(self.targets@.take(i as int) == self.targets@);
        assert(output@ =~= start + windows_text(*self));
    }
}

} // verus!
