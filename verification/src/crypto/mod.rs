//! Trust in signed data: digest adapters over the platform's hash
//! implementation, trusted keys with their privileges, and the decision
//! whether a detached signature was made by a key trusted for an action.

pub mod bytes;
pub mod engine;
pub mod hasher;
pub mod key;
pub mod keyset;
pub mod record;
pub mod scheme;
pub mod sha256;
pub mod sha512;
pub mod signature;

pub use self::engine::SchemeError;
pub use self::key::{Fingerprint, PublicKey};
pub use self::keyset::{KeyEntry, LoadError, ParsedEntry, TrustedKeySet};
pub use self::record::{Privilege, TrustRecord};
pub use self::sha256::Sha256;
pub use self::sha512::Sha512;
pub use self::signature::Signature;
