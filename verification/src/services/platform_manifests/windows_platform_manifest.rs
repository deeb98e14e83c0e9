//! The built Windows platform manifest whose report marks the associated
//! files that are part of the EULA report.
use vstd::prelude::*;

use crate::text::{strs_view, opt_string_view, opt_str_view};

use crate::bundlers::WindowsInstallerKind;
use crate::manifest_file::{AssociatedFile, EulaFile};
use crate::services::build_variable::{
    file_names, get_platform_variables, value_names, variables_outcome, BuildVariable, VariableError,
};
use crate::services::payload_file::PayloadFile;
use crate::services::platform_manifest::{
    clone_associated, clone_eulas, owned_opt, push_windows_report, target_names, windows_head_text,
    windows_targets_text,
};
use crate::services::target_manifest::TargetManifest;


verus! {

/// The built Windows platform.
#[derive(Debug)]
pub struct WindowsPlatformManifest {
    pub platform: String,
    pub installer: Option<WindowsInstallerKind>,
    pub display_icon: Option<String>,
    pub display_icon_source: Option<String>,
    pub associated_files: Vec<AssociatedFile>,
    pub eulas: Vec<EulaFile>,
    pub variables: Vec<BuildVariable>,
    pub targets: Vec<TargetManifest>,
}

/// The report of the Windows platform, marking associated files that are
/// part of the EULA report.
pub open spec fn windows_report_text(p: WindowsPlatformManifest) -> Seq<char> {
    windows_head_text(p.platform@, p.variables@, opt_string_view(p.display_icon), p.associated_files@, p.eulas@, true)
        + windows_targets_text(p.targets@)
}

impl WindowsPlatformManifest {
    /// The built Windows platform: the given parts, and the variables that
    /// the variable sources and payload files need; an error for an
    /// unsupported variable.
    pub fn new(
        platform: &str,
        installer: Option<WindowsInstallerKind>,
        display_icon: Option<&str>,
        display_icon_source: Option<&str>,
        associated_files: &[AssociatedFile],
        eulas: &[EulaFile],
        variable_sources: &[&str],
        files: &[PayloadFile],
        targets: Vec<TargetManifest>,
    ) -> (r: Result<Self, VariableError>)
        ensures
            match variables_outcome(value_names(strs_view(variable_sources@)) + file_names(files@)) {
                Err(name) => r matches Err(VariableError::Unsupported(n)) && n@ == name,
                Ok(vars) => r matches Ok(m) && m.platform@ == platform@ && m.installer == installer
                    && opt_string_view(m.display_icon) == opt_str_view(display_icon)
                    && opt_string_view(m.display_icon_source) == opt_str_view(display_icon_source)
                    && m.associated_files@.len() == associated_files@.len()
                    && (forall|i: int| 0 <= i < associated_files@.len() ==> (#[trigger] m.associated_files@[i]).path@ == associated_files@[i].path@
                        && m.associated_files@[i].kind == associated_files@[i].kind
                        && m.associated_files@[i].eula_report == associated_files@[i].eula_report)
                    && m.eulas@ == eulas@ && m.variables@ == vars && m.targets == targets,
            },
    {
        let variables = match get_platform_variables(variable_sources, files) {
            Ok(v) => v,
            Err(e) => return Err(e),
        };
        Ok(WindowsPlatformManifest {
            platform: platform.to_string(),
            installer,
            display_icon: owned_opt(display_icon),
            display_icon_source: owned_opt(display_icon_source),
            associated_files: clone_associated(associated_files),
            eulas: clone_eulas(eulas),
            variables,
            targets,
        })
    }

    /// The platform's name.
    pub fn platform(&self) -> (r: &str)
        ensures
            r@ == self.platform@,
    {
        self.platform.as_str()
    }

    /// The target triples of the built targets, in order.
    pub fn targets(&self) -> (r: Vec<&str>)
        ensures
            strs_view(r@) == self.targets@.map_values(|t: TargetManifest| t.target@),
    {
        target_names(&self.targets)
    }

    /// Appends the report of the platform: its name, variables, display
    /// icon, associated files (marking those in the EULA report), licenses,
    /// then each target with its payload files and shortcuts.
    pub fn write_text(&self, output: &mut String)
        ensures
            final(output)@ == old(output)@ + windows_report_text(*self),
    {
        push_windows_report(
            output,
            self.platform.as_str(),
            &self.variables,
            &self.display_icon,
            &self.associated_files,
            &self.eulas,
            &self.targets,
            true,
        );
    }
}

} // verus!
