//! A package described directly by its files, shortcuts and associated
//! files, with the codes that identify it.
use vstd::prelude::*;

use crate::manifest_file::AssociatedFile;
use crate::services::payload_file::PayloadFile;
use crate::target_manifest::Shortcut;
use crate::windows_installer::msi::identity::{colon_join, join_colon, uuid_v5_url, uuid_v5_url_bytes};
use crate::windows_installer::msi::paths::MsiError;

verus! {

/// What a package holds: its name, version and manufacturer, the files it
/// installs, the files it associates, its shortcuts and its icon.
#[derive(Debug)]
pub struct MsiSpec {
    pub package: String,
    pub display_name: String,
    pub version: String,
    pub manufacturer: String,
    pub files: Vec<PayloadFile>,
    pub associated_files: Vec<AssociatedFile>,
    pub shortcuts: Vec<Shortcut>,
    pub display_icon: Option<String>,
    pub display_icon_source: Option<String>,
}

impl MsiSpec {
    /// A package needs at least one file.
    pub fn validate(&self) -> (r: Result<(), MsiError>)
        ensures
            r is Ok <==> self.files@.len() > 0,
            r matches Err(e) ==> e == MsiError::NoPayload,
    {
        if self.files.len() == 0 {
            Err(MsiError::NoPayload)
        } else {
            Ok(())
        }
    }

    /// The package code: stable for one package and version.
    pub fn package_code(&self) -> (r: [u8; 16])
        ensures
            r@ == uuid_v5_url(colon_join(seq!["cargo-crapapp"@, "msi"@, "package"@, self.package@, self.version@])),
    {
        let parts = vec!["cargo-crapapp", "msi", "package", self.package.as_str(), self.version.as_str()];
        assert(parts@.map_values(|p: &str| p@) == seq!["cargo-crapapp"@, "msi"@, "package"@, self.package@, self.version@]);
        self.code(parts)
    }

    /// The product code: stable for one package and version.
    pub fn product_code(&self) -> (r: [u8; 16])
        ensures
            r@ == uuid_v5_url(colon_join(seq!["cargo-crapapp"@, "msi"@, "product"@, self.package@, self.version@])),
    {
        let parts = vec!["cargo-crapapp", "msi", "product", self.package.as_str(), self.version.as_str()];
        assert(parts@.map_values(|p: &str| p@) == seq!["cargo-crapapp"@, "msi"@, "product"@, self.package@, self.version@]);
        self.code(parts)
    }

    /// The upgrade code: stable for one package across versions.
    pub fn upgrade_code(&self) -> (r: [u8; 16])
        ensures
            r@ == uuid_v5_url(colon_join(seq!["cargo-crapapp"@, "msi"@, "upgrade"@, self.package@])),
    {
        let parts = vec!["cargo-crapapp", "msi", "upgrade", self.package.as_str()];
        assert(parts@.map_values(|p: &str| p@) == seq!["cargo-crapapp"@, "msi"@, "upgrade"@, self.package@]);
        self.code(parts)
    }

    /// The code of the component that installs the file with id `file_id`.
    pub fn component_code(&self, file_id: &str) -> (r: [u8; 16])
        ensures
            r@ == uuid_v5_url(
                colon_join(seq!["cargo-crapapp"@, "msi"@, "component"@, self.package@, self.version@, file_id@]),
            ),
    {
        let parts = vec!["cargo-crapapp", "msi", "component", self.package.as_str(), self.version.as_str(), file_id];
        assert(parts@.map_values(|p: &str| p@) == seq!["cargo-crapapp"@, "msi"@, "component"@, self.package@, self.version@, file_id@]);
        self.code(parts)
    }

    /// The code of the component that owns the directory with id
    /// `directory_id`.
    pub fn directory_component_code(&self, directory_id: &str) -> (r: [u8; 16])
        ensures
            r@ == uuid_v5_url(
                colon_join(
                    seq!["cargo-crapapp"@, "msi"@, "directory-component"@, self.package@, self.version@, directory_id@],
                ),
            ),
    {
        let parts = vec!["cargo-crapapp", "msi", "directory-component", self.package.as_str(), self.version.as_str(), directory_id];
        assert(parts@.map_values(|p: &str| p@) == seq!["cargo-crapapp"@, "msi"@, "directory-component"@, self.package@, self.version@, directory_id@]);
        self.code(parts)
    }

    fn code(&self, parts: Vec<&str>) -> (r: [u8; 16])
        requires
            parts@.len() >= 1,
        ensures
            r@ == uuid_v5_url(colon_join(parts@.map_values(|p: &str| p@))),
    {
        let name = join_colon(&parts);
        uuid_v5_url_bytes(name.as_str())
    }
}

} // verus!
