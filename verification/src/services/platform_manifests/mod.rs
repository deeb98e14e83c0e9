//! Built platform manifests, by platform.
pub mod windows_platform_manifest;
