//! Bundling Rust desktop applications from a `CRAP.toml` manifest: the
//! manifest model, payload planning and Windows Installer (MSI) authoring.
pub mod bundlers;
pub mod manifest_file;
pub mod package_metadata;
pub mod path_model;
pub mod platform_manifest;
pub mod platform_manifests;
pub mod report;
pub mod services;
pub mod target_manifest;
pub mod text;
pub mod windows_installer;
