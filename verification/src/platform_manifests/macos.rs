//! The built macOS manifest and its `.pkg` settings.
use vstd::prelude::*;

use crate::bundlers::MacosInstallerKind;
use crate::manifest_file::EulaFile;

use crate::target_manifest::TargetManifest;
use crate::bundlers::macos_installer_name;
use crate::platform_manifests::linux::{push_targets, targets_text};
use crate::report::{eulas_section, list_line, push_eulas, push_list_line, push_value_line, value_line};
use crate::text::{opt_str_view, opt_string_view, push_str, string_views, strs_view};

verus! {

/// The built macOS manifest.
#[derive(Debug)]
pub struct MacosPlatformManifest<Target = TargetManifest> {
    pub platform: String,
    pub targets: Vec<Target>,
    pub bundle: Vec<MacosInstallerKind>,
    pub pkg: MacosPkgConfig,
    pub eulas: Vec<EulaFile>,
    pub display_icon: Option<String>,
    pub app_binary: Option<String>,
    pub display_icon_source: Option<String>,
}

fn owned_opt(o: Option<&str>) -> (r: Option<String>)
    ensures
        opt_string_view(r) == opt_str_view(o),
{
    match o {
        Some(s) => Some(s.to_string()),
        None => None,
    }
}

impl MacosPlatformManifest<TargetManifest> {
    /// A built macOS manifest with the given parts, named `macos`.
    pub fn new(
        targets: Vec<TargetManifest>,
        display_icon: Option<&str>,
        display_icon_source: Option<&str>,
        app_binary: Option<&str>,
        bundle: Vec<MacosInstallerKind>,
        pkg: MacosPkgConfig,
        eulas: Vec<EulaFile>,
    ) -> (r: Self)
        ensures
            r.platform@ == "macos"@,
            r.targets == targets,
            r.bundle == bundle,
            r.pkg == pkg,
            r.eulas == eulas,
            opt_string_view(r.display_icon) == opt_str_view(display_icon),
            opt_string_view(r.app_binary) == opt_str_view(app_binary),
            opt_string_view(r.display_icon_source) == opt_str_view(display_icon_source),
    {
        MacosPlatformManifest {
            platform: "macos".to_string(),
            targets,
            bundle,
            pkg,
            eulas,
            display_icon: owned_opt(display_icon),
            app_binary: owned_opt(app_binary),
            display_icon_source: owned_opt(display_icon_source),
        }
    }

    /// The platform's recorded name.
    pub fn platform(&self) -> (r: &str)
        ensures
            r@ == self.platform@,
    {
        self.platform.as_str()
    }

    /// The target triples of the built targets, in order.
    pub fn targets(&self) -> (r: Vec<&str>)
        ensures
            strs_view(r@) == self.targets@.map_values(|t: TargetManifest| t.target@),
    {
        crate::target_manifest::target_names(&self.targets)
    }
}

/// Settings of the macOS `.pkg` installer.
#[derive(Debug)]
pub struct MacosPkgConfig {
    pub identifier: Option<String>,
    pub install_path: Option<String>,
    pub bin_dir: Option<String>,
    pub link_bins: bool,
}

impl Default for MacosPkgConfig {
    fn default() -> (r: Self)
        ensures
            r.identifier is None,
            r.install_path is None,
            r.bin_dir is None,
            r.link_bins,
    {
        MacosPkgConfig { identifier: None, install_path: None, bin_dir: None, link_bins: default_link_bins() }
    }
}

/// The `.pkg` bin directory, `/usr/local/bin` when unset.
pub open spec fn pkg_bin_dir(bin_dir: Option<String>) -> Seq<char> {
    match bin_dir {
        Some(d) => d@,
        None => "/usr/local/bin"@,
    }
}

impl MacosPkgConfig {
    /// Where the package links binaries: the configured directory,
    /// `/usr/local/bin` when unset.
    pub fn bin_dir(&self) -> (r: &str)
        ensures
            r@ == pkg_bin_dir(self.bin_dir),
    {
        match &self.bin_dir {
            Some(d) => d.as_str(),
            None => "/usr/local/bin",
        }
    }
}

/// The value of `link_bins` when the settings leave it out.
pub fn default_link_bins() -> (r: bool)
    ensures
        r,
{
    true
}

/// The first lines of a built macOS platform's report: its name, display
/// icon, bundles and app binary.
pub open spec fn macos_head(m: MacosPlatformManifest<TargetManifest>) -> Seq<char> {
    "  "@ + m.platform@ + "\n"@
        + value_line("display icon"@, opt_string_view(m.display_icon))
        + list_line("bundle"@, m.bundle@.map_values(|k: MacosInstallerKind| macos_installer_name(k)))
        + value_line("app binary"@, opt_string_view(m.app_binary))
}

/// The package settings lines of a built macOS platform's report.
pub open spec fn macos_pkg_text(p: MacosPkgConfig) -> Seq<char> {
    value_line("pkg identifier"@, opt_string_view(p.identifier))
        + value_line("pkg install path"@, opt_string_view(p.install_path))
        + (if p.link_bins { "    pkg bin dir: "@ + pkg_bin_dir(p.bin_dir) + "\n"@ } else { Seq::empty() })
}

/// The report of a built macOS platform.
pub open spec fn macos_text(m: MacosPlatformManifest<TargetManifest>) -> Seq<char> {
    macos_head(m) + macos_pkg_text(m.pkg) + (eulas_section(m.eulas@) + targets_text(m.targets@))
}

fn macos_installer_names(kinds: &Vec<MacosInstallerKind>) -> (r: Vec<String>)
    ensures
        string_views(r@) == kinds@.map_values(|k: MacosInstallerKind| macos_installer_name(k)),
{
    let mut out: Vec<String> = Vec::new();
    let mut i: usize = 0;
    while i < kinds.len()
        invariant
            i <= kinds@.len(),
            string_views(out@) == kinds@.take(i as int).map_values(|k: MacosInstallerKind| macos_installer_name(k)),
        decreases kinds@.len() - i,
    {
        let ghost before = out@;
        out.push(kinds[i].to_string());
        assert(string_views(out@) =~= string_views(before).push(macos_installer_name(kinds@[i as int])));
        assert(kinds@.take(i + 1).map_values(|k: MacosInstallerKind| macos_installer_name(k)) =~= kinds@.take(i as int).map_values(|k: MacosInstallerKind| macos_installer_name(k)).push(macos_installer_name(kinds@[i as int])));
        i = i + 1;
    }
    assert(kinds@.take(i as int) == kinds@);
    out
}

impl MacosPlatformManifest<TargetManifest> {
    fn push_head(&self, output: &mut String)
        ensures
            final(output)@ == old(output)@ + macos_head(*self),
    {
        let ghost start = output@;
        push_str(output, "  ");
        push_str(output, self.platform());
        push_str(output, "\n");
        push_value_line(output, "display icon", &self.display_icon);
        push_list_line(output, "bundle", &macos_installer_names(&self.bundle));
        push_value_line(output, "app binary", &self.app_binary);
        assert(output@ =~= start + macos_head(*self));
    }

    fn push_pkg(&self, output: &mut String)
        ensures
            final(output)@ == old(output)@ + macos_pkg_text(self.pkg),
    {
        let ghost start = output@;
        push_value_line(output, "pkg identifier", &self.pkg.identifier);
        push_value_line(output, "pkg install path", &self.pkg.install_path);
        if self.pkg.link_bins {
            push_str(output, "    pkg bin dir: ");
            push_str(output, self.pkg.bin_dir());
            push_str(output, "\n");
        }
        assert(output@ =~= start + macos_pkg_text(self.pkg));
    }

    /// Appends the report of the built platform: its name, display icon,
    /// bundles, app binary, package settings, licenses and each target's
    /// files.
    pub fn write_text(&self, output: &mut String)
        ensures
            final(output)@ == old(output)@ + macos_text(*self),
    {
        let ghost start = output@;
        self.push_head(output);
        self.push_pkg(output);
        let ghost mid = output@;
        push_eulas(output, &self.eulas);
        push_targets(output, &self.targets);
        assert(output@ =~= mid + (eulas_section(self.eulas@) + targets_text(self.targets@)));
        assert(output@ =~= start + macos_text(*self));
    }
}

} // verus!
