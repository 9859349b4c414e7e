//! Public keys of trusted signers.

use crate::crypto::bytes::bytes_equal;
use pbp::PgpError;
use pbp::PgpKey;
use vstd::prelude::*;

verus! {

/// The OpenPGP fingerprint of a public key: a short digest of the key, used
/// to look a key up and never to decide trust.
pub type Fingerprint = [u8; 20];

/// `pbp::PgpError`, carried as an opaque value.
#[verifier::external_type_specification]
#[verifier::external_body]
pub struct ExPgpError(PgpError);

/// What `pbp` reads from an ASCII-armoured OpenPGP public key: the ed25519
/// key bytes and the key's fingerprint, or `None` where it rejects the text.
pub uninterp spec fn armored_key(text: Seq<char>) -> Option<(Seq<u8>, Seq<u8>)>;

/// What `pbp` reads from a binary OpenPGP public key: the ed25519 key bytes
/// and the key's fingerprint, or `None` where it rejects the bytes.
pub uninterp spec fn binary_key(bytes: Seq<u8>) -> Option<(Seq<u8>, Seq<u8>)>;

/// Calls `pbp::PgpKey::from_ascii_armor` and, on success, the accessors
/// `key_data` and `fingerprint` of the parsed key: the key bytes that the
/// key packet holds, and the fingerprint that `pbp` computes from the packet.
#[verifier::external_body]
fn read_armored_key(text: &str) -> (parts: Result<(Vec<u8>, Fingerprint), PgpError>)
    ensures
        match parts {
            Ok((material, fingerprint)) => armored_key(text@) == Some(
                (material@, fingerprint@),
            ),
            Err(_) => armored_key(text@) is None,
        },
{
    let key = PgpKey::from_ascii_armor(text)?;
    Ok((key.key_data().to_vec(), key.fingerprint()))
}

/// Calls `pbp::PgpKey::from_bytes` and, on success, the accessors `key_data`
/// and `fingerprint` of the parsed key, as `read_armored_key` does.
#[verifier::external_body]
fn read_binary_key(bytes: &[u8]) -> (parts: Result<(Vec<u8>, Fingerprint), PgpError>)
    ensures
        match parts {
            Ok((material, fingerprint)) => binary_key(bytes@) == Some(
                (material@, fingerprint@),
            ),
            Err(_) => binary_key(bytes@) is None,
        },
{
    let key = PgpKey::from_bytes(bytes)?;
    Ok((key.key_data().to_vec(), key.fingerprint()))
}

/// A public key as a mathematical value.
pub struct PublicKeyView {
    /// The ed25519 key bytes.
    pub material: Seq<u8>,
    /// The fingerprint derived from the key.
    pub fingerprint: Seq<u8>,
}

/// The public key of a signer, with the fingerprint derived from it. A key is
/// only ever made by parsing, so the fingerprint is never supplied by hand.
#[derive(Clone, Debug, PartialEq, Eq)]
pub struct PublicKey {
    material: Vec<u8>,
    fingerprint: Fingerprint,
}

impl View for PublicKey {
    type V = PublicKeyView;

    closed spec fn view(&self) -> PublicKeyView {
        PublicKeyView { material: self.material@, fingerprint: self.fingerprint@ }
    }
}

/// The key that a pair of key bytes and fingerprint stands for.
pub open spec fn key_of(parts: (Seq<u8>, Seq<u8>)) -> PublicKeyView {
    PublicKeyView { material: parts.0, fingerprint: parts.1 }
}

impl PublicKey {
    /// Parses an ASCII-armoured OpenPGP public key. Returns the key with its
    /// derived fingerprint exactly where the text is accepted.
    pub fn from_ascii_armor(text: &str) -> (key: Option<PublicKey>)
        ensures
            match key {
                Some(k) => armored_key(text@) is Some && k@ == key_of(armored_key(text@).unwrap()),
                None => armored_key(text@) is None,
            },
    {
        match read_armored_key(text) {
            Ok((material, fingerprint)) => Some(PublicKey { material, fingerprint }),
            Err(_) => None,
        }
    }

    /// Parses a binary OpenPGP public key. Returns the key with its derived
    /// fingerprint exactly where the bytes are accepted.
    pub fn from_bytes(bytes: &[u8]) -> (key: Option<PublicKey>)
        ensures
            match key {
                Some(k) => binary_key(bytes@) is Some && k@ == key_of(binary_key(bytes@).unwrap()),
                None => binary_key(bytes@) is None,
            },
    {
        match read_binary_key(bytes) {
            Ok((material, fingerprint)) => Some(PublicKey { material, fingerprint }),
            Err(_) => None,
        }
    }

    /// The ed25519 key bytes.
    pub fn material(&self) -> (material: &[u8])
        ensures
            material@ == self@.material,
    {
        self.material.as_slice()
    }

    /// The fingerprint derived from this key.
    pub fn fingerprint(&self) -> (fingerprint: Fingerprint)
        ensures
            fingerprint@ == self@.fingerprint,
    {
        self.fingerprint
    }

    /// Whether this key's fingerprint is `hint`.
    pub fn has_fingerprint(&self, hint: &Fingerprint) -> (same: bool)
        ensures
            same == (self@.fingerprint == hint@),
    {
        bytes_equal(self.fingerprint.as_slice(), hint.as_slice())
    }

    /// Whether two keys hold the same key bytes and fingerprint.
    pub fn same_as(&self, other: &PublicKey) -> (same: bool)
        ensures
            same == (self@ == other@),
    {
        bytes_equal(self.material.as_slice(), other.material.as_slice()) && bytes_equal(
            self.fingerprint.as_slice(),
            other.fingerprint.as_slice(),
        )
    }
}

} // verus!
