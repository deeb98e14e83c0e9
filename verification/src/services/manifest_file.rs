//! The `CRAP.toml` manifest: build settings and the platforms it configures.
use vstd::prelude::*;

use crate::text::{strs_view, opt_string_view, opt_str_view};

use crate::services::icons::IconMapping;

verus! {

/// Where the manifest is read from, relative to the project root.
pub const MANIFEST_PATH: &'static str = "CRAP.toml";

/// The whole manifest.
#[derive(Debug)]
pub struct CrapManifest {
    pub build: Option<BuildConfig>,
    pub windows: Option<WindowsPlatform>,
    pub macos: Option<MacosPlatform>,
    pub linux: Option<LinuxPlatform>,
}

/// Settings shared by every platform.
#[derive(Debug)]
pub struct BuildConfig {
    pub publisher: Option<String>,
    pub packages: Vec<String>,
    pub features: Vec<String>,
}

/// One configured platform, borrowed from the manifest.
#[derive(Debug)]
pub enum PlatformConfig<'a> {
    Windows(&'a WindowsPlatform),
    Macos(&'a MacosPlatform),
    Linux(&'a LinuxPlatform),
}

/// Which platforms a manifest configures, in the order Windows, macOS, Linux.
pub open spec fn platform_kinds(m: CrapManifest) -> Seq<int> {
    (if m.windows is Some { seq![0int] } else { Seq::empty() }) + (if m.macos is Some { seq![1int] } else {
        Seq::empty()
    }) + (if m.linux is Some { seq![2int] } else { Seq::empty() })
}

pub open spec fn platform_kind(p: PlatformConfig) -> int {
    match p {
        PlatformConfig::Windows(_) => 0,
        PlatformConfig::Macos(_) => 1,
        PlatformConfig::Linux(_) => 2,
    }
}

impl CrapManifest {
    /// The configured platforms: Windows, then macOS, then Linux, each when
    /// its section is present, each borrowing that section.
    pub fn platforms(&self) -> (r: Vec<PlatformConfig<'_>>)
        ensures
            r@.map_values(|p: PlatformConfig| platform_kind(p)) == platform_kinds(*self),
            forall|i: int| 0 <= i < r@.len() ==> match #[trigger] r@[i] {
                PlatformConfig::Windows(w) => self.windows == Some(*w),
                PlatformConfig::Macos(m) => self.macos == Some(*m),
                PlatformConfig::Linux(l) => self.linux == Some(*l),
            },
    {
        let mut platforms: Vec<PlatformConfig<'_>> = Vec::new();
        if let Some(windows) = &self.windows {
            platforms.push(PlatformConfig::Windows(windows));
        }
        if let Some(macos) = &self.macos {
            platforms.push(PlatformConfig::Macos(macos));
        }
        if let Some(linux) = &self.linux {
            platforms.push(PlatformConfig::Linux(linux));
        }
        assert(platforms@.map_values(|p: PlatformConfig| platform_kind(p)) =~= platform_kinds(*self));
        platforms
    }
}

/// The Windows section.
#[derive(Debug)]
pub struct WindowsPlatform {
    pub targets: Vec<WindowsTarget>,
    pub install_path: Option<String>,
    pub bin_dir: Option<String>,
    pub files: Vec<FileMapping>,
    pub icons: Vec<IconMapping>,
}

/// The macOS section.
#[derive(Debug)]
pub struct MacosPlatform {
    pub targets: Vec<MacosTarget>,
    pub files: Vec<FileMapping>,
}

/// The Linux section.
#[derive(Debug)]
pub struct LinuxPlatform {
    pub targets: Vec<LinuxTarget>,
    pub files: Vec<FileMapping>,
}

/// A file or directory copied into the payload.
#[derive(Debug)]
pub struct FileMapping {
    pub source: String,
    pub destination: String,
}

impl Clone for FileMapping {
    fn clone(&self) -> (r: Self)
        ensures
            r.source@ == self.source@,
            r.destination@ == self.destination@,
    {
        FileMapping { source: self.source.clone(), destination: self.destination.clone() }
    }
}

/// A Windows target triple that the manifest accepts.
#[derive(Clone, Copy, Debug, PartialEq, Eq, Structural)]
pub enum WindowsTarget {
    X86_64PcWindowsGnu,
    X86_64PcWindowsMsvc,
    Aarch64PcWindowsGnullvm,
    Aarch64PcWindowsMsvc,
}

/// A macOS target triple that the manifest accepts.
#[derive(Clone, Copy, Debug, PartialEq, Eq, Structural)]
pub enum MacosTarget {
    X86_64AppleDarwin,
    Aarch64AppleDarwin,
}

/// A Linux target triple that the manifest accepts.
#[derive(Clone, Copy, Debug, PartialEq, Eq, Structural)]
pub enum LinuxTarget {
    X86_64UnknownLinuxGnu,
    X86_64UnknownLinuxMusl,
}

pub open spec fn windows_triple(t: WindowsTarget) -> Seq<char> {
    match t {
        WindowsTarget::X86_64PcWindowsGnu => "x86_64-pc-windows-gnu"@,
        WindowsTarget::X86_64PcWindowsMsvc => "x86_64-pc-windows-msvc"@,
        WindowsTarget::Aarch64PcWindowsGnullvm => "aarch64-pc-windows-gnullvm"@,
        WindowsTarget::Aarch64PcWindowsMsvc => "aarch64-pc-windows-msvc"@,
    }
}

pub open spec fn macos_triple(t: MacosTarget) -> Seq<char> {
    match t {
        MacosTarget::X86_64AppleDarwin => "x86_64-apple-darwin"@,
        MacosTarget::Aarch64AppleDarwin => "aarch64-apple-darwin"@,
    }
}

pub open spec fn linux_triple(t: LinuxTarget) -> Seq<char> {
    match t {
        LinuxTarget::X86_64UnknownLinuxGnu => "x86_64-unknown-linux-gnu"@,
        LinuxTarget::X86_64UnknownLinuxMusl => "x86_64-unknown-linux-musl"@,
    }
}

/// Distinct targets have distinct triples, so a triple names its target.
pub proof fn lemma_triples_distinct(w1: WindowsTarget, w2: WindowsTarget, m1: MacosTarget, m2: MacosTarget, l1: LinuxTarget, l2: LinuxTarget)
    ensures
        w1 != w2 ==> windows_triple(w1) != windows_triple(w2),
        m1 != m2 ==> macos_triple(m1) != macos_triple(m2),
        l1 != l2 ==> linux_triple(l1) != linux_triple(l2),
{
    reveal_strlit("x86_64-pc-windows-gnu");
    reveal_strlit("x86_64-pc-windows-msvc");
    reveal_strlit("aarch64-pc-windows-gnullvm");
    reveal_strlit("aarch64-pc-windows-msvc");
    reveal_strlit("x86_64-apple-darwin");
    reveal_strlit("aarch64-apple-darwin");
    reveal_strlit("x86_64-unknown-linux-gnu");
    reveal_strlit("x86_64-unknown-linux-musl");
    assert("x86_64-pc-windows-gnu"@.len() == 21);
    assert("x86_64-pc-windows-msvc"@.len() == 22);
    assert("aarch64-pc-windows-gnullvm"@.len() == 26);
    assert("aarch64-pc-windows-msvc"@.len() == 23);
    assert("x86_64-apple-darwin"@.len() == 19);
    assert("aarch64-apple-darwin"@.len() == 20);
    assert("x86_64-unknown-linux-gnu"@.len() == 24);
    assert("x86_64-unknown-linux-musl"@.len() == 25);
}

impl WindowsTarget {
    /// The target triple.
    pub fn target(&self) -> (r: &'static str)
        ensures
            r@ == windows_triple(*self),
    {
        match self {
            WindowsTarget::X86_64PcWindowsGnu => "x86_64-pc-windows-gnu",
            WindowsTarget::X86_64PcWindowsMsvc => "x86_64-pc-windows-msvc",
            WindowsTarget::Aarch64PcWindowsGnullvm => "aarch64-pc-windows-gnullvm",
            WindowsTarget::Aarch64PcWindowsMsvc => "aarch64-pc-windows-msvc",
        }
    }
}

impl MacosTarget {
    /// The target triple.
    pub fn target(&self) -> (r: &'static str)
        ensures
            r@ == macos_triple(*self),
    {
        match self {
            MacosTarget::X86_64AppleDarwin => "x86_64-apple-darwin",
            MacosTarget::Aarch64AppleDarwin => "aarch64-apple-darwin",
        }
    }
}

impl LinuxTarget {
    /// The target triple.
    pub fn target(&self) -> (r: &'static str)
        ensures
            r@ == linux_triple(*self),
    {
        match self {
            LinuxTarget::X86_64UnknownLinuxGnu => "x86_64-unknown-linux-gnu",
            LinuxTarget::X86_64UnknownLinuxMusl => "x86_64-unknown-linux-musl",
        }
    }
}

/// The install path as a list of at most one variable source.
pub open spec fn install_path_sources(install_path: Option<String>) -> Seq<Seq<char>> {
    match install_path {
        Some(p) => seq![p@],
        None => Seq::empty(),
    }
}

fn windows_triples(targets: &Vec<WindowsTarget>) -> (r: Vec<&'static str>)
    ensures
        strs_view(r@) == targets@.map_values(|t: WindowsTarget| windows_triple(t)),
{
    let mut out: Vec<&'static str> = Vec::new();
    let mut i: usize = 0;
    while i < targets.len()
        invariant
            i <= targets@.len(),
            strs_view(out@) == targets@.take(i as int).map_values(|t: WindowsTarget| windows_triple(t)),
        decreases targets@.len() - i,
    {
        out.push(targets[i].target());
        assert(targets@.take(i + 1).map_values(|t: WindowsTarget| windows_triple(t)) =~= targets@.take(i as int).map_values(
            |t: WindowsTarget| windows_triple(t),
        ).push(windows_triple(targets@[i as int])));
        assert(strs_view(out@) =~= targets@.take(i + 1).map_values(|t: WindowsTarget| windows_triple(t)));
        i = i + 1;
    }
    assert(targets@.take(i as int) == targets@);
    out
}

fn macos_triples(targets: &Vec<MacosTarget>) -> (r: Vec<&'static str>)
    ensures
        strs_view(r@) == targets@.map_values(|t: MacosTarget| macos_triple(t)),
{
    let mut out: Vec<&'static str> = Vec::new();
    let mut i: usize = 0;
    while i < targets.len()
        invariant
            i <= targets@.len(),
            strs_view(out@) == targets@.take(i as int).map_values(|t: MacosTarget| macos_triple(t)),
        decreases targets@.len() - i,
    {
        out.push(targets[i].target());
        assert(targets@.take(i + 1).map_values(|t: MacosTarget| macos_triple(t)) =~= targets@.take(i as int).map_values(
            |t: MacosTarget| macos_triple(t),
        ).push(macos_triple(targets@[i as int])));
        assert(strs_view(out@) =~= targets@.take(i + 1).map_values(|t: MacosTarget| macos_triple(t)));
        i = i + 1;
    }
    assert(targets@.take(i as int) == targets@);
    out
}

fn linux_triples(targets: &Vec<LinuxTarget>) -> (r: Vec<&'static str>)
    ensures
        strs_view(r@) == targets@.map_values(|t: LinuxTarget| linux_triple(t)),
{
    let mut out: Vec<&'static str> = Vec::new();
    let mut i: usize = 0;
    while i < targets.len()
        invariant
            i <= targets@.len(),
            strs_view(out@) == targets@.take(i as int).map_values(|t: LinuxTarget| linux_triple(t)),
        decreases targets@.len() - i,
    {
        out.push(targets[i].target());
        assert(targets@.take(i + 1).map_values(|t: LinuxTarget| linux_triple(t)) =~= targets@.take(i as int).map_values(
            |t: LinuxTarget| linux_triple(t),
        ).push(linux_triple(targets@[i as int])));
        assert(strs_view(out@) =~= targets@.take(i + 1).map_values(|t: LinuxTarget| linux_triple(t)));
        i = i + 1;
    }
    assert(targets@.take(i as int) == targets@);
    out
}

fn opt_as_str(o: &Option<String>) -> (r: Option<&str>)
    ensures
        opt_str_view(r) == opt_string_view(*o),
{
    match o {
        Some(s) => Some(s.as_str()),
        None => None,
    }
}

impl WindowsPlatform {
    pub fn name(&self) -> (r: &'static str)
        ensures
            r@ == "windows"@,
    {
        "windows"
    }

    /// The configured binary directory, empty when unset.
    pub fn bin_dir(&self) -> (r: &str)
        ensures
            r@ == match self.bin_dir {
                Some(d) => d@,
                None => Seq::<char>::empty(),
            },
    {
        match &self.bin_dir {
            Some(d) => d.as_str(),
            None => {
                proof { reveal_strlit(""); }
                ""
            },
        }
    }

    pub fn install_path(&self) -> (r: Option<&str>)
        ensures
            opt_str_view(r) == opt_string_view(self.install_path),
    {
        opt_as_str(&self.install_path)
    }

    /// The values whose `$NAME` references count as build variables: the install path.
    pub fn variable_sources(&self) -> (r: Vec<&str>)
        ensures
            strs_view(r@) == install_path_sources(self.install_path),
    {
        let mut v: Vec<&str> = Vec::new();
        if let Some(p) = &self.install_path {
            v.push(p.as_str());
        }
        assert(strs_view(v@) =~= install_path_sources(self.install_path));
        v
    }

    pub fn files(&self) -> (r: &[FileMapping])
        ensures
            r@ == self.files@,
    {
        self.files.as_slice()
    }

    pub fn icons(&self) -> (r: &[IconMapping])
        ensures
            r@ == self.icons@,
    {
        self.icons.as_slice()
    }

    pub fn targets(&self) -> (r: Vec<&'static str>)
        ensures
            strs_view(r@) == self.targets@.map_values(|t: WindowsTarget| windows_triple(t)),
    {
        windows_triples(&self.targets)
    }
}

impl MacosPlatform {
    pub fn name(&self) -> (r: &'static str)
        ensures
            r@ == "macos"@,
    {
        "macos"
    }

    pub fn bin_dir(&self) -> (r: &str)
        ensures
            r@ == "bin"@,
    {
        "bin"
    }

    pub fn install_path(&self) -> (r: Option<&str>)
        ensures
            r is None,
    {
        None
    }

    pub fn variable_sources(&self) -> (r: Vec<&str>)
        ensures
            r@.len() == 0,
    {
        Vec::new()
    }

    pub fn files(&self) -> (r: &[FileMapping])
        ensures
            r@ == self.files@,
    {
        self.files.as_slice()
    }

    pub fn targets(&self) -> (r: Vec<&'static str>)
        ensures
            strs_view(r@) == self.targets@.map_values(|t: MacosTarget| macos_triple(t)),
    {
        macos_triples(&self.targets)
    }
}

impl LinuxPlatform {
    pub fn name(&self) -> (r: &'static str)
        ensures
            r@ == "linux"@,
    {
        "linux"
    }

    pub fn bin_dir(&self) -> (r: &str)
        ensures
            r@ == "bin"@,
    {
        "bin"
    }

    pub fn install_path(&self) -> (r: Option<&str>)
        ensures
            r is None,
    {
        None
    }

    pub fn variable_sources(&self) -> (r: Vec<&str>)
        ensures
            r@.len() == 0,
    {
        Vec::new()
    }

    pub fn files(&self) -> (r: &[FileMapping])
        ensures
            r@ == self.files@,
    {
        self.files.as_slice()
    }

    pub fn targets(&self) -> (r: Vec<&'static str>)
        ensures
            strs_view(r@) == self.targets@.map_values(|t: LinuxTarget| linux_triple(t)),
    {
        linux_triples(&self.targets)
    }
}

impl<'a> PlatformConfig<'a> {
    /// The platform's name: `windows`, `macos` or `linux`.
    pub fn name(&self) -> (r: &'static str)
        ensures
            r@ == match *self {
                PlatformConfig::Windows(_) => "windows"@,
                PlatformConfig::Macos(_) => "macos"@,
                PlatformConfig::Linux(_) => "linux"@,
            },
    {
        match self {
            PlatformConfig::Windows(p) => p.name(),
            PlatformConfig::Macos(p) => p.name(),
            PlatformConfig::Linux(p) => p.name(),
        }
    }

    /// Where binaries go: the Windows section's `bin_dir` (empty when
    /// unset), `bin` elsewhere.
    pub fn bin_dir(&self) -> (r: &str)
        ensures
            r@ == match *self {
                PlatformConfig::Windows(w) => match w.bin_dir {
                    Some(d) => d@,
                    None => Seq::<char>::empty(),
                },
                _ => "bin"@,
            },
    {
        match self {
            PlatformConfig::Windows(p) => p.bin_dir(),
            PlatformConfig::Macos(p) => p.bin_dir(),
            PlatformConfig::Linux(p) => p.bin_dir(),
        }
    }

    /// The install path; only Windows has one.
    pub fn install_path(&self) -> (r: Option<&str>)
        ensures
            opt_str_view(r) == match *self {
                PlatformConfig::Windows(w) => opt_string_view(w.install_path),
                _ => None,
            },
    {
        match self {
            PlatformConfig::Windows(p) => p.install_path(),
            PlatformConfig::Macos(p) => p.install_path(),
            PlatformConfig::Linux(p) => p.install_path(),
        }
    }

    /// The values whose variables the build must supply.
    pub fn variable_sources(&self) -> (r: Vec<&str>)
        ensures
            strs_view(r@) == match *self {
                PlatformConfig::Windows(w) => install_path_sources(w.install_path),
                _ => Seq::empty(),
            },
    {
        match self {
            PlatformConfig::Windows(p) => p.variable_sources(),
            PlatformConfig::Macos(p) => {
                let v = p.variable_sources();
                assert(strs_view(v@) =~= Seq::empty());
                v
            },
            PlatformConfig::Linux(p) => {
                let v = p.variable_sources();
                assert(strs_view(v@) =~= Seq::empty());
                v
            },
        }
    }

    /// The platform's file mappings.
    pub fn files(&self) -> (r: &[FileMapping])
        ensures
            r@ == match *self {
                PlatformConfig::Windows(w) => w.files@,
                PlatformConfig::Macos(m) => m.files@,
                PlatformConfig::Linux(l) => l.files@,
            },
    {
        match self {
            PlatformConfig::Windows(p) => p.files(),
            PlatformConfig::Macos(p) => p.files(),
            PlatformConfig::Linux(p) => p.files(),
        }
    }

    /// The platform's icons; only Windows has any.
    pub fn icons(&self) -> (r: &[IconMapping])
        ensures
            r@ == match *self {
                PlatformConfig::Windows(w) => w.icons@,
                _ => Seq::<IconMapping>::empty(),
            },
    {
        match self {
            PlatformConfig::Windows(p) => p.icons(),
            _ => {
                let none: &[IconMapping] = &[];
                assert(none@ =~= Seq::<IconMapping>::empty());
                none
            },
        }
    }

    /// The platform's target triples, in manifest order.
    pub fn targets(&self) -> (r: Vec<&'static str>)
        ensures
            strs_view(r@) == match *self {
                PlatformConfig::Windows(w) => w.targets@.map_values(|t: WindowsTarget| windows_triple(t)),
                PlatformConfig::Macos(m) => m.targets@.map_values(|t: MacosTarget| macos_triple(t)),
                PlatformConfig::Linux(l) => l.targets@.map_values(|t: LinuxTarget| linux_triple(t)),
            },
    {
        match self {
            PlatformConfig::Windows(p) => p.targets(),
            PlatformConfig::Macos(p) => p.targets(),
            PlatformConfig::Linux(p) => p.targets(),
        }
    }
}

} // verus!
