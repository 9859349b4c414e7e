//! The path of a target's root source file.

use std::hash::Hash;
use std::hash::Hasher;
use std::path::PathBuf;
use vstd::prelude::*;

verus! {

/// `std::path::PathBuf`, carried as an opaque value.
#[verifier::external_type_specification]
#[verifier::external_body]
pub struct ExPathBuf(PathBuf);

/// `PathBuf`'s `clone` gives a path equal to the one cloned.
pub assume_specification[ <PathBuf as Clone>::clone ](path: &PathBuf) -> (copy: PathBuf)
    ensures
        copy == *path,
;

/// Calls `std::path::Path::is_absolute`. What counts as absolute depends on
/// the platform, so nothing is said of the result.
#[verifier::external_body]
fn path_is_absolute(path: &PathBuf) -> (absolute: bool) {
    path.is_absolute()
}

/// An absolute path to a source file: one is made of a path only where the
/// platform finds it absolute. It takes no part in the hash of what holds it:
/// the path is absolute, and a hash that moved with the directory of the
/// package would be of little use.
#[derive(Clone, Debug, PartialEq, Eq)]
pub struct SourcePath {
    path: PathBuf,
}

impl View for SourcePath {
    type V = PathBuf;

    closed spec fn view(&self) -> PathBuf {
        self.path
    }
}

impl SourcePath {
    /// The source path for `path`, if `path` is absolute on this platform.
    pub fn new(path: PathBuf) -> (source: Option<SourcePath>)
        ensures
            source matches Some(s) ==> s@ == path,
    {
        let absolute = path_is_absolute(&path);
        SourcePath::checked(path, absolute)
    }

    /// The source path for a path that was found to be absolute or not.
    pub(crate) fn checked(path: PathBuf, absolute: bool) -> (source: Option<SourcePath>)
        ensures
            match source {
                Some(s) => absolute && s@ == path,
                None => !absolute,
            },
    {
        if absolute {
            Some(SourcePath { path })
        } else {
            None
        }
    }

    /// The path.
    pub fn path(&self) -> (path: &PathBuf)
        ensures
            *path == self@,
    {
        &self.path
    }
}

impl Hash for SourcePath {
    fn hash<H: Hasher>(&self, _state: &mut H) {
    }
}

} // verus!
