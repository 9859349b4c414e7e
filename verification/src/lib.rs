//! Verified parts of a package manager: the build targets that a manifest
//! declares, and the decision whether signed data comes from a key that is
//! trusted for an action.

pub mod crypto;
pub mod manifest;

pub use crate::crypto::{
    Fingerprint, KeyEntry, LoadError, ParsedEntry, Privilege, PublicKey, SchemeError, Sha256,
    Sha512, Signature, TrustRecord, TrustedKeySet,
};
pub use crate::manifest::{
    DelayedWarning, LibKind, ManifestMetadata, SourcePath, Target, TargetKind, Warnings,
};
