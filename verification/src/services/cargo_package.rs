//! The Cargo package being bundled, as `cargo metadata` describes it.
use vstd::prelude::*;

use crate::text::{clone_strings, string_views};

verus! {

/// The package's name, version and binary targets.
#[derive(Debug)]
pub struct CargoPackage {
    pub name: String,
    pub version: String,
    pub binaries: Vec<String>,
}

/// Why the Cargo package cannot be bundled.
#[derive(Debug)]
pub enum PackageError {
    /// The package has no binary target.
    NoBinaries,
}

impl PackageError {
    /// The error's message.
    pub fn to_string(&self) -> (r: String)
        ensures
            r@ == "cargo package does not define any binary targets"@,
    {
        "cargo package does not define any binary targets".to_string()
    }
}

impl CargoPackage {
    /// The package with the given name, version and binary targets; an
    /// error when it has no binary target.
    pub fn from_parts(name: &str, version: &str, binaries: &[String]) -> (r: Result<Self, PackageError>)
        ensures
            binaries@.len() == 0 <==> r is Err,
            r matches Ok(p) ==> p.name@ == name@ && p.version@ == version@ && string_views(p.binaries@)
                == string_views(binaries@),
    {
        if binaries.len() == 0 {
            return Err(PackageError::NoBinaries);
        }
        Ok(CargoPackage { name: name.to_string(), version: version.to_string(), binaries: clone_strings(binaries) })
    }
}

} // verus!
