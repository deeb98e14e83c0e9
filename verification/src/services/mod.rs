//! Manifest services: build variables, payload files, icons and the
//! per-target and per-platform manifests derived from `CRAP.toml`.
pub mod build_variable;
pub mod builder;
pub mod payload_file;
pub mod icons;
pub mod manifest_file;
pub mod target_manifest;
pub mod toolchain_manifest;
pub mod windows_bundler;
pub mod build_config_manifest;
pub mod build_manifest;
pub mod cargo_package;
pub mod platform_manifest;
pub mod platform_manifests;
