//! The `CRAP.toml` manifest: build settings and the platforms it configures.
use vstd::prelude::*;

use crate::platform_manifests::windows::WindowsPlatformManifest;
pub use crate::services::manifest_file::{FileMapping, LinuxPlatform, LinuxTarget, MacosPlatform,
    MacosTarget, WindowsTarget};

verus! {

/// Where the manifest is read from, relative to the project root.
pub const MANIFEST_PATH: &'static str = "CRAP.toml";

/// The whole manifest.
#[derive(Debug)]
pub struct CrapManifest {
    pub build: Option<BuildConfig>,
    pub windows: Option<WindowsPlatformManifest>,
    pub macos: Option<MacosPlatform>,
    pub linux: Option<LinuxPlatform>,
}

/// Settings shared by every platform.
#[derive(Debug)]
pub struct BuildConfig {
    pub publisher: Option<String>,
    pub display_name: Option<String>,
    pub packages: Vec<String>,
    pub features: Vec<String>,
}

/// One configured platform, borrowed from the manifest.
#[derive(Debug)]
pub enum PlatformConfig<'a> {
    Windows(&'a WindowsPlatformManifest),
    Macos(&'a MacosPlatform),
    Linux(&'a LinuxPlatform),
}

pub open spec fn platform_kind(p: PlatformConfig) -> int {
    match p {
        PlatformConfig::Windows(_) => 0,
        PlatformConfig::Macos(_) => 1,
        PlatformConfig::Linux(_) => 2,
    }
}

/// Which platforms a manifest configures, in the order Windows, macOS, Linux.
pub open spec fn platform_kinds(m: CrapManifest) -> Seq<int> {
    (if m.windows is Some { seq![0int] } else { Seq::empty() }) + (if m.macos is Some { seq![1int] } else {
        Seq::empty()
    }) + (if m.linux is Some { seq![2int] } else { Seq::empty() })
}

impl CrapManifest {
    /// The configured platforms: Windows, then macOS, then Linux, each when
    /// its section is present, each borrowing that section.
    pub fn platforms(&self) -> (r: Vec<PlatformConfig<'_>>)
        ensures
            r@.map_values(|p: PlatformConfig| platform_kind(p)) == platform_kinds(*self),
            forall|i: int| 0 <= i < r@.len() ==> match #[trigger] r@[i] {
                PlatformConfig::Windows(w) => self.windows == Some(*w),
                PlatformConfig::Macos(m) => self.macos == Some(*m),
                PlatformConfig::Linux(l) => self.linux == Some(*l),
            },
    {
        let mut platforms: Vec<PlatformConfig<'_>> = Vec::new();
        if let Some(windows) = &self.windows {
            platforms.push(PlatformConfig::Windows(windows));
        }
        if let Some(macos) = &self.macos {
            platforms.push(PlatformConfig::Macos(macos));
        }
        if let Some(linux) = &self.linux {
            platforms.push(PlatformConfig::Linux(linux));
        }
        assert(platforms@.map_values(|p: PlatformConfig| platform_kind(p)) =~= platform_kinds(*self));
        platforms
    }
}

/// A file or directory that the installed application owns outside its
/// payload, removed on uninstall.
#[derive(Debug)]
pub struct AssociatedFile {
    pub path: String,
    pub kind: AssociatedFileKind,
    pub eula_report: bool,
}

impl Clone for AssociatedFile {
    fn clone(&self) -> (r: Self)
        ensures
            r.path@ == self.path@,
            r.kind == self.kind,
            r.eula_report == self.eula_report,
    {
        AssociatedFile { path: self.path.clone(), kind: self.kind, eula_report: self.eula_report }
    }
}

/// Whether an associated path is a file or a directory.
#[derive(Clone, Copy, Debug, PartialEq, Eq, Structural)]
pub enum AssociatedFileKind {
    File,
    Directory,
}

/// A Start Menu shortcut to one of the package's binaries.
#[derive(Debug)]
pub struct ShortcutMapping {
    pub binary: String,
    pub name: String,
    pub directory: Option<String>,
    pub icon: Option<String>,
}

impl Clone for ShortcutMapping {
    fn clone(&self) -> (r: Self)
        ensures
            r.binary@ == self.binary@,
            r.name@ == self.name@,
            r.directory == self.directory,
            r.icon == self.icon,
    {
        ShortcutMapping {
            binary: self.binary.clone(),
            name: self.name.clone(),
            directory: self.directory.clone(),
            icon: self.icon.clone(),
        }
    }
}

/// A license shown by the installer: a bare path, or a path with options.
#[derive(Debug)]
pub enum EulaFile {
    Path(String),
    Options { path: String, required: bool },
}

impl Clone for EulaFile {
    fn clone(&self) -> (r: Self)
        ensures
            r == *self,
    {
        match self {
            EulaFile::Path(p) => EulaFile::Path(p.clone()),
            EulaFile::Options { path, required } => EulaFile::Options { path: path.clone(), required: *required },
        }
    }
}

pub open spec fn eula_path_spec(e: EulaFile) -> Seq<char> {
    match e {
        EulaFile::Path(p) => p@,
        EulaFile::Options { path, .. } => path@,
    }
}

/// A license must be accepted unless its options say otherwise.
pub open spec fn eula_required_spec(e: EulaFile) -> bool {
    match e {
        EulaFile::Path(_) => true,
        EulaFile::Options { required, .. } => required,
    }
}

impl EulaFile {
    /// The license file's path.
    pub fn path(&self) -> (r: &str)
        ensures
            r@ == eula_path_spec(*self),
    {
        match self {
            EulaFile::Path(path) => path.as_str(),
            EulaFile::Options { path, .. } => path.as_str(),
        }
    }

    /// Whether the license must be accepted before installing.
    pub fn required(&self) -> (r: bool)
        ensures
            r == eula_required_spec(*self),
    {
        match self {
            EulaFile::Path(_) => true,
            EulaFile::Options { required, .. } => *required,
        }
    }
}

/// The value of `required` when a license's options leave it out.
pub fn default_true() -> (r: bool)
    ensures
        r,
{
    true
}

} // verus!
