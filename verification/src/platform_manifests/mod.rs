//! What each platform section of the manifest turns into once built: the
//! bundles to produce, the target payloads, and the text report.
pub mod linux;
pub mod macos;
pub mod windows;

pub use linux::LinuxPlatformManifest;
pub use macos::{MacosPkgConfig, MacosPlatformManifest};
pub use windows::WindowsPlatformManifest;
