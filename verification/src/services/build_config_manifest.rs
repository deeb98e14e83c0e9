//! The build settings as the inspect report shows them.
use vstd::prelude::*;

use crate::services::manifest_file::CrapManifest;

use crate::text::{clone_strings, opt_string_view, string_views};

verus! {

/// The build settings of a manifest.
#[derive(Debug)]
pub struct BuildConfigManifest {
    pub publisher: Option<String>,
    pub packages: Vec<String>,
    pub features: Vec<String>,
}

impl BuildConfigManifest {
    /// The manifest's build settings; none of them when it has no build section.
    pub fn from_crap_manifest(manifest: &CrapManifest) -> (r: Self)
        ensures
            match manifest.build {
                None => r.publisher is None && r.packages@.len() == 0 && r.features@.len() == 0,
                Some(b) => opt_string_view(r.publisher) == opt_string_view(b.publisher)
                    && string_views(r.packages@) == string_views(b.packages@)
                    && string_views(r.features@) == string_views(b.features@),
            },
    {
        match &manifest.build {
            None => BuildConfigManifest { publisher: None, packages: Vec::new(), features: Vec::new() },
            Some(build) => {
                let publisher = match &build.publisher {
                    Some(p) => Some(p.clone()),
                    None => None,
                };
                BuildConfigManifest {
                    publisher,
                    packages: clone_strings(build.packages.as_slice()),
                    features: clone_strings(build.features.as_slice()),
                }
            },
        }
    }
}

} // verus!
