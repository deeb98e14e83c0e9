//! Windows installer authoring: the installer configuration and the MSI
//! package plan derived from it.
pub mod config;
pub mod gui;
pub mod msi;
pub mod registry;
pub mod shortcuts;
pub mod uninstall;
pub mod windows_msi_bundler;

pub use config::{
    AssociatedFile, AssociatedFileKind, DisplayIcon, Eula, InstallerConfig, PayloadEntry, Shortcut,
};
