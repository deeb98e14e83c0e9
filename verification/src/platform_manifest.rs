//! A built platform manifest of any platform.
use vstd::prelude::*;

use crate::text::strs_view;

use crate::platform_manifests::{LinuxPlatformManifest, MacosPlatformManifest, WindowsPlatformManifest};

use crate::target_manifest::TargetManifest;
use crate::platform_manifests::windows::windows_text;
use crate::platform_manifests::linux::linux_text;
use crate::platform_manifests::macos::macos_text;

verus! {

/// A built platform manifest.
#[derive(Debug)]
pub enum PlatformBuildManifest {
    Windows(WindowsPlatformManifest<TargetManifest>),
    Macos(MacosPlatformManifest<TargetManifest>),
    Linux(LinuxPlatformManifest<TargetManifest>),
}

impl PlatformBuildManifest {
    /// The name of the built platform: the recorded one, or the platform's
    /// own name where Windows and Linux record none.
    pub fn platform(&self) -> (r: &str)
        ensures
            r@ == match self {
                PlatformBuildManifest::Windows(p) => if p.platform@.len() == 0 { "windows"@ } else { p.platform@ },
                PlatformBuildManifest::Macos(p) => p.platform@,
                PlatformBuildManifest::Linux(p) => if p.platform@.len() == 0 { "linux"@ } else { p.platform@ },
            },
    {
        match self {
            PlatformBuildManifest::Windows(p) => p.platform(),
            PlatformBuildManifest::Macos(p) => p.platform(),
            PlatformBuildManifest::Linux(p) => p.platform(),
        }
    }

    /// The target triples of the built platform, in order.
    pub fn targets(&self) -> (r: Vec<&str>)
        ensures
            strs_view(r@) == match self {
                PlatformBuildManifest::Windows(p) => p.targets@.map_values(|t: TargetManifest| t.target@),
                PlatformBuildManifest::Macos(p) => p.targets@.map_values(|t: TargetManifest| t.target@),
                PlatformBuildManifest::Linux(p) => p.targets@.map_values(|t: TargetManifest| t.target@),
            },
    {
        match self {
            PlatformBuildManifest::Windows(p) => p.targets(),
            PlatformBuildManifest::Macos(p) => p.targets(),
            PlatformBuildManifest::Linux(p) => p.targets(),
        }
    }
}

impl PlatformBuildManifest {
    /// Appends the report of the built platform.
    pub fn write_text(&self, output: &mut String)
        ensures
            final(output)@ == old(output)@ + match self {
                PlatformBuildManifest::Windows(p) => windows_text(*p),
                PlatformBuildManifest::Macos(p) => macos_text(*p),
                PlatformBuildManifest::Linux(p) => linux_text(*p),
            },
    {
        match self {
            PlatformBuildManifest::Windows(p) => p.write_text(output),
            PlatformBuildManifest::Macos(p) => p.write_text(output),
            PlatformBuildManifest::Linux(p) => p.write_text(output),
        }
    }
}

} // verus!
