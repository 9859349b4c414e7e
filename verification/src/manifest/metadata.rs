//! What a package says of itself.

use std::collections::BTreeMap;
use vstd::prelude::*;

verus! {

/// General metadata of a package, which a registry is handed as it is.
///
/// Many of the fields may hold values that are not valid: a homepage, a
/// repository, a documentation address or a licence are not checked here. It
/// is for the registry to check them when the package is uploaded.
#[derive(PartialEq, Clone, Debug)]
pub struct ManifestMetadata {
    pub authors: Vec<String>,
    pub keywords: Vec<String>,
    pub categories: Vec<String>,
    pub license: Option<String>,
    pub license_file: Option<String>,
    /// A description in plain text.
    pub description: Option<String>,
    /// The readme's file, not what it holds.
    pub readme: Option<String>,
    pub homepage: Option<String>,
    pub repository: Option<String>,
    pub documentation: Option<String>,
    pub badges: BTreeMap<String, BTreeMap<String, String>>,
    pub links: Option<String>,
}

} // verus!
