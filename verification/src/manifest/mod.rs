//! What a package's manifest declares: its build targets, its metadata, and
//! the warnings found while it was read.

pub mod lib_kind;
pub mod metadata;
pub mod source_path;
pub mod target;
pub mod text;
pub mod warnings;

pub use self::lib_kind::LibKind;
pub use self::metadata::ManifestMetadata;
pub use self::source_path::SourcePath;
pub use self::target::{Target, TargetKind};
pub use self::warnings::{DelayedWarning, Warnings};
