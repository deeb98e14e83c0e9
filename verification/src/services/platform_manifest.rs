//! The built manifest of each platform, as the inspect report shows it.
use vstd::prelude::*;

use crate::bundlers::WindowsInstallerKind;
use crate::manifest_file::{AssociatedFile, EulaFile};
use crate::services::build_variable::{file_names, get_platform_variables, outcome_matches, value_names, variables_outcome, BuildVariable, VariableError};
use crate::services::payload_file::PayloadFile;
use crate::services::target_manifest::{Shortcut, TargetManifest};

use crate::report::{
    associated_section, eulas_section, files_text, list_line, push_associated, push_eulas, push_files, push_list_line,
    push_value_line, value_line,
};
use crate::services::build_variable::variable_name_spec;
use crate::text::{opt_str_view, opt_string_view, push_str, string_views, strs_view};

verus! {

/// A built platform manifest.
#[derive(Debug)]
pub enum PlatformBuildManifest {
    Windows(WindowsPlatformManifest),
    Macos(BasicPlatformManifest),
    Linux(BasicPlatformManifest),
}

/// A built platform with nothing but targets.
#[derive(Debug)]
pub struct BasicPlatformManifest {
    pub platform: String,
    pub targets: Vec<TargetManifest>,
}

/// The built Windows platform.
#[derive(Debug)]
pub struct WindowsPlatformManifest {
    pub platform: String,
    pub installer: Option<WindowsInstallerKind>,
    pub display_icon: Option<String>,
    pub display_icon_source: Option<String>,
    pub associated_files: Vec<AssociatedFile>,
    pub eulas: Vec<EulaFile>,
    pub variables: Vec<BuildVariable>,
    pub targets: Vec<TargetManifest>,
}

/// The target triples of built targets, in order.
pub fn target_names(targets: &Vec<TargetManifest>) -> (r: Vec<&str>)
    ensures
        strs_view(r@) == targets@.map_values(|t: TargetManifest| t.target@),
{
    let mut out: Vec<&str> = Vec::new();
    let mut i: usize = 0;
    while i < targets.len()
        invariant
            i <= targets@.len(),
            strs_view(out@) == targets@.take(i as int).map_values(|t: TargetManifest| t.target@),
        decreases targets@.len() - i,
    {
        let ghost before = out@;
        out.push(targets[i].target.as_str());
        assert(strs_view(out@) =~= strs_view(before).push(targets@[i as int].target@));
        assert(strs_view(out@) =~= targets@.take(i + 1).map_values(|t: TargetManifest| t.target@));
        i = i + 1;
    }
    assert(targets@.take(i as int) == targets@);
    out
}

impl BasicPlatformManifest {
    /// A built platform with the given name and targets.
    pub fn new(platform: &str, targets: Vec<TargetManifest>) -> (r: Self)
        ensures
            r.platform@ == platform@,
            r.targets == targets,
    {
        BasicPlatformManifest { platform: platform.to_string(), targets }
    }

    pub fn platform(&self) -> (r: &str)
        ensures
            r@ == self.platform@,
    {
        self.platform.as_str()
    }

    pub fn targets(&self) -> (r: Vec<&str>)
        ensures
            strs_view(r@) == self.targets@.map_values(|t: TargetManifest| t.target@),
    {
        target_names(&self.targets)
    }
}

pub fn clone_associated(v: &[AssociatedFile]) -> (r: Vec<AssociatedFile>)
    ensures
        r@.len() == v@.len(),
        forall|i: int| 0 <= i < v@.len() ==> (#[trigger] r@[i]).path@ == v@[i].path@ && r@[i].kind == v@[i].kind
            && r@[i].eula_report == v@[i].eula_report,
{
    let mut out: Vec<AssociatedFile> = Vec::new();
    let mut i: usize = 0;
    while i < v.len()
        invariant
            i <= v@.len(),
            out@.len() == i,
            forall|k: int| 0 <= k < i ==> (#[trigger] out@[k]).path@ == v@[k].path@ && out@[k].kind == v@[k].kind
                && out@[k].eula_report == v@[k].eula_report,
        decreases v@.len() - i,
    {
        out.push(v[i].clone());
        i = i + 1;
    }
    out
}

pub fn clone_eulas(v: &[EulaFile]) -> (r: Vec<EulaFile>)
    ensures
        r@ == v@,
{
    let mut out: Vec<EulaFile> = Vec::new();
    let mut i: usize = 0;
    while i < v.len()
        invariant
            i <= v@.len(),
            out@ == v@.take(i as int),
        decreases v@.len() - i,
    {
        out.push(v[i].clone());
        assert(v@.take(i + 1) == v@.take(i as int).push(v@[i as int]));
        i = i + 1;
    }
    assert(v@.take(i as int) == v@);
    out
}

pub(crate) fn owned_opt(o: Option<&str>) -> (r: Option<String>)
    ensures
        opt_string_view(r) == opt_str_view(o),
{
    match o {
        Some(s) => Some(s.to_string()),
        None => None,
    }
}

impl WindowsPlatformManifest {
    /// The built Windows platform: the given parts, and the variables that
    /// the variable sources and payload files need; an error for an
    /// unsupported variable.
    pub fn new(
        platform: &str,
        installer: Option<WindowsInstallerKind>,
        display_icon: Option<&str>,
        display_icon_source: Option<&str>,
        associated_files: &[AssociatedFile],
        eulas: &[EulaFile],
        variable_sources: &[&str],
        files: &[PayloadFile],
        targets: Vec<TargetManifest>,
    ) -> (r: Result<Self, VariableError>)
        ensures
            match variables_outcome(value_names(strs_view(variable_sources@)) + file_names(files@)) {
                Err(name) => r matches Err(VariableError::Unsupported(n)) && n@ == name,
                Ok(vars) => r matches Ok(m) && m.platform@ == platform@ && m.installer == installer
                    && opt_string_view(m.display_icon) == opt_str_view(display_icon)
                    && opt_string_view(m.display_icon_source) == opt_str_view(display_icon_source)
                    && m.associated_files@.len() == associated_files@.len()
                    && (forall|i: int| 0 <= i < associated_files@.len() ==> (#[trigger] m.associated_files@[i]).path@ == associated_files@[i].path@
                        && m.associated_files@[i].kind == associated_files@[i].kind
                        && m.associated_files@[i].eula_report == associated_files@[i].eula_report)
                    && m.eulas@ == eulas@ && m.variables@ == vars && m.targets == targets,
            },
    {
        let variables = match get_platform_variables(variable_sources, files) {
            Ok(v) => v,
            Err(e) => return Err(e),
        };
        Ok(WindowsPlatformManifest {
            platform: platform.to_string(),
            installer,
            display_icon: owned_opt(display_icon),
            display_icon_source: owned_opt(display_icon_source),
            associated_files: clone_associated(associated_files),
            eulas: clone_eulas(eulas),
            variables,
            targets,
        })
    }

    pub fn platform(&self) -> (r: &str)
        ensures
            r@ == self.platform@,
    {
        self.platform.as_str()
    }

    pub fn targets(&self) -> (r: Vec<&str>)
        ensures
            strs_view(r@) == self.targets@.map_values(|t: TargetManifest| t.target@),
    {
        target_names(&self.targets)
    }
}

impl PlatformBuildManifest {
    /// The name of the built platform.
    pub fn platform(&self) -> (r: &str)
        ensures
            r@ == match self {
                PlatformBuildManifest::Windows(p) => p.platform@,
                PlatformBuildManifest::Macos(p) => p.platform@,
                PlatformBuildManifest::Linux(p) => p.platform@,
            },
    {
        match self {
            PlatformBuildManifest::Windows(p) => p.platform(),
            PlatformBuildManifest::Macos(p) => p.platform(),
            PlatformBuildManifest::Linux(p) => p.platform(),
        }
    }

    /// The target triples of the built platform, in order.
    pub fn targets(&self) -> (r: Vec<&str>)
        ensures
            strs_view(r@) == match self {
                PlatformBuildManifest::Windows(p) => p.targets@.map_values(|t: TargetManifest| t.target@),
                PlatformBuildManifest::Macos(p) => p.targets@.map_values(|t: TargetManifest| t.target@),
                PlatformBuildManifest::Linux(p) => p.targets@.map_values(|t: TargetManifest| t.target@),
            },
    {
        match self {
            PlatformBuildManifest::Windows(p) => p.targets(),
            PlatformBuildManifest::Macos(p) => p.targets(),
            PlatformBuildManifest::Linux(p) => p.targets(),
        }
    }

    /// The Windows manifest, when this is one.
    pub fn as_windows(&self) -> (r: Option<&WindowsPlatformManifest>)
        ensures
            match self {
                PlatformBuildManifest::Windows(p) => r == Some(p),
                _ => r is None,
            },
    {
        match self {
            PlatformBuildManifest::Windows(p) => Some(p),
            _ => None,
        }
    }
}

/// The line of a shortcut: name and target, then its directory in brackets
/// when it has one.
pub open spec fn shortcut_line(s: Shortcut) -> Seq<char> {
    "        "@ + s.name@ + " -> "@ + s.target@ + (match s.directory {
        Some(d) => " ("@ + d@ + ")"@,
        None => Seq::empty(),
    }) + "\n"@
}

/// The lines of shortcuts.
pub open spec fn shortcut_lines(ss: Seq<Shortcut>) -> Seq<char>
    decreases ss.len(),
{
    if ss.len() == 0 {
        Seq::empty()
    } else {
        shortcut_lines(ss.drop_last()) + shortcut_line(ss.last())
    }
}

/// The lines of targets: triple and payload files.
pub open spec fn basic_targets_text(ts: Seq<TargetManifest>) -> Seq<char>
    decreases ts.len(),
{
    if ts.len() == 0 {
        Seq::empty()
    } else {
        basic_targets_text(ts.drop_last()) + "    "@ + ts.last().target@ + "\n"@ + files_text(ts.last().files@)
    }
}

/// The lines of Windows targets: triple, payload files and shortcuts.
pub open spec fn windows_targets_text(ts: Seq<TargetManifest>) -> Seq<char>
    decreases ts.len(),
{
    if ts.len() == 0 {
        Seq::empty()
    } else {
        let t = ts.last();
        windows_targets_text(ts.drop_last()) + "    "@ + t.target@ + "\n"@ + files_text(t.files@) + (if t.shortcuts@.len() > 0 {
            "      shortcuts:\n"@ + shortcut_lines(t.shortcuts@)
        } else {
            Seq::empty()
        })
    }
}

/// The report of a platform with nothing but targets.
pub open spec fn basic_text(p: BasicPlatformManifest) -> Seq<char> {
    "  "@ + p.platform@ + "\n"@ + basic_targets_text(p.targets@)
}

/// The first lines of a Windows platform's report: name, variables,
/// display icon, associated files (marking those in the EULA report when
/// `with_report`) and licenses.
pub open spec fn windows_head_text(
    platform: Seq<char>,
    variables: Seq<BuildVariable>,
    display_icon: Option<Seq<char>>,
    associated: Seq<AssociatedFile>,
    eulas: Seq<EulaFile>,
    with_report: bool,
) -> Seq<char> {
    "  "@ + platform + "\n"@ + list_line("variables"@, variables.map_values(|v: BuildVariable| variable_name_spec(v)))
        + value_line("display icon"@, display_icon) + associated_section(associated, with_report) + eulas_section(eulas)
}

/// The report of the Windows platform.
pub open spec fn windows_text(p: WindowsPlatformManifest) -> Seq<char> {
    windows_head_text(p.platform@, p.variables@, opt_string_view(p.display_icon), p.associated_files@, p.eulas@, false)
        + windows_targets_text(p.targets@)
}

/// The report of a built platform.
pub open spec fn platform_text(p: PlatformBuildManifest) -> Seq<char> {
    match p {
        PlatformBuildManifest::Windows(w) => windows_text(w),
        PlatformBuildManifest::Macos(b) => basic_text(b),
        PlatformBuildManifest::Linux(b) => basic_text(b),
    }
}

fn push_shortcut_lines(out: &mut String, shortcuts: &Vec<Shortcut>)
    ensures
        final(out)@ == old(out)@ + shortcut_lines(shortcuts@),
{
    let ghost start = out@;
    let mut i: usize = 0;
    while i < shortcuts.len()
        invariant
            i <= shortcuts@.len(),
            out@ == start + shortcut_lines(shortcuts@.take(i as int)),
        decreases shortcuts@.len() - i,
    {
        let s = &shortcuts[i];
        push_str(out, "        ");
        push_str(out, s.name.as_str());
        push_str(out, " -> ");
        push_str(out, s.target.as_str());
        if let Some(d) = &s.directory {
            push_str(out, " (");
            push_str(out, d.as_str());
            push_str(out, ")");
        }
        push_str(out, "\n");
        assert(shortcuts@.take(i + 1).drop_last() =~= shortcuts@.take(i as int));
        assert(out@ =~= start + shortcut_lines(shortcuts@.take(i + 1)));
        i = i + 1;
    }
    assert(shortcuts@.take(i as int) =~= shortcuts@);
}

fn push_target_block(out: &mut String, t: &TargetManifest, with_shortcuts: bool)
    ensures
        final(out)@ == old(out)@ + "    "@ + t.target@ + "\n"@ + files_text(t.files@) + (if with_shortcuts && t.shortcuts@.len()
            > 0 {
            "      shortcuts:\n"@ + shortcut_lines(t.shortcuts@)
        } else {
            Seq::empty()
        }),
{
    let ghost start = out@;
    push_str(out, "    ");
    push_str(out, t.target.as_str());
    push_str(out, "\n");
    push_files(out, &t.files);
    let ghost mid = out@;
    if with_shortcuts && t.shortcuts.len() > 0 {
        push_str(out, "      shortcuts:\n");
        push_shortcut_lines(out, &t.shortcuts);
    }
    assert(out@ =~= start + "    "@ + t.target@ + "\n"@ + files_text(t.files@) + (if with_shortcuts && t.shortcuts@.len()
        > 0 {
        "      shortcuts:\n"@ + shortcut_lines(t.shortcuts@)
    } else {
        Seq::empty()
    }));
}

impl BasicPlatformManifest {
    /// Appends the report of the platform: its name, then each target with
    /// its payload files.
    pub fn write_text(&self, output: &mut String)
        ensures
            final(output)@ == old(output)@ + basic_text(*self),
    {
        let ghost start = output@;
        push_str(output, "  ");
        push_str(output, self.platform.as_str());
        push_str(output, "\n");
        let ghost head = output@;
        let mut i: usize = 0;
        while i < self.targets.len()
            invariant
                i <= self.targets@.len(),
                output@ == head + basic_targets_text(self.targets@.take(i as int)),
            decreases self.targets@.len() - i,
        {
            push_target_block(output, &self.targets[i], false);
            assert(self.targets@.take(i + 1).drop_last() =~= self.targets@.take(i as int));
            assert(output@ =~= head + basic_targets_text(self.targets@.take(i + 1)));
            i = i + 1;
        }
        assert(self.targets@.take(i as int) =~= self.targets@);
        assert(output@ =~= start + basic_text(*self));
    }
}

fn variable_names(variables: &Vec<BuildVariable>) -> (r: Vec<String>)
    ensures
        string_views(r@) == variables@.map_values(|v: BuildVariable| variable_name_spec(v)),
{
    let mut names: Vec<String> = Vec::new();
    let mut i: usize = 0;
    while i < variables.len()
        invariant
            i <= variables@.len(),
            string_views(names@) == variables@.take(i as int).map_values(|v: BuildVariable| variable_name_spec(v)),
        decreases variables@.len() - i,
    {
        let ghost before = names@;
        names.push(variables[i].name().to_string());
        assert(string_views(names@) =~= string_views(before).push(variable_name_spec(variables@[i as int])));
        assert(variables@.take(i + 1).map_values(|v: BuildVariable| variable_name_spec(v)) =~= variables@.take(
            i as int,
        ).map_values(|v: BuildVariable| variable_name_spec(v)).push(variable_name_spec(variables@[i as int])));
        i = i + 1;
    }
    assert(variables@.take(i as int) =~= variables@);
    names
}

/// Appends the report of a Windows platform.
pub fn push_windows_report(
    output: &mut String,
    platform: &str,
    variables: &Vec<BuildVariable>,
    display_icon: &Option<String>,
    associated: &Vec<AssociatedFile>,
    eulas: &Vec<EulaFile>,
    targets: &Vec<TargetManifest>,
    with_report: bool,
)
    ensures
        final(output)@ == old(output)@ + windows_head_text(
            platform@,
            variables@,
            opt_string_view(*display_icon),
            associated@,
            eulas@,
            with_report,
        ) + windows_targets_text(targets@),
{
    let ghost start = output@;
    push_str(output, "  ");
    push_str(output, platform);
    push_str(output, "\n");
    push_list_line(output, "variables", &variable_names(variables));
    push_value_line(output, "display icon", display_icon);
    push_associated(output, associated, with_report);
    push_eulas(output, eulas);
    assert(output@ =~= start + windows_head_text(platform@, variables@, opt_string_view(*display_icon), associated@, eulas@, with_report));
    let ghost head = output@;
    let mut i: usize = 0;
    while i < targets.len()
        invariant
            i <= targets@.len(),
            output@ == head + windows_targets_text(targets@.take(i as int)),
        decreases targets@.len() - i,
    {
        push_target_block(output, &targets[i], true);
        assert(targets@.take(i + 1).drop_last() =~= targets@.take(i as int));
        assert(output@ =~= head + windows_targets_text(targets@.take(i + 1)));
        i = i + 1;
    }
    assert(targets@.take(i as int) =~= targets@);
}

impl WindowsPlatformManifest {
    /// Appends the report of the platform: its name, variables, display
    /// icon, associated files, licenses, then each target with its payload
    /// files and shortcuts.
    pub fn write_text(&self, output: &mut String)
        ensures
            final(output)@ == old(output)@ + windows_text(*self),
    {
        push_windows_report(
            output,
            self.platform.as_str(),
            &self.variables,
            &self.display_icon,
            &self.associated_files,
            &self.eulas,
            &self.targets,
            false,
        );
    }
}

impl PlatformBuildManifest {
    /// Appends the report of the platform.
    pub fn write_text(&self, output: &mut String)
        ensures
            final(output)@ == old(output)@ + platform_text(*self),
    {
        match self {
            PlatformBuildManifest::Windows(p) => p.write_text(output),
            PlatformBuildManifest::Macos(p) => p.write_text(output),
            PlatformBuildManifest::Linux(p) => p.write_text(output),
        }
    }
}

} // verus!
