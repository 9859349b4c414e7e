//! Detached signatures and the digest that they sign.

use crate::crypto::key::Fingerprint;
use crate::crypto::sha256::Sha256;
use pbp::PgpError;
use pbp::PgpSig;
use vstd::prelude::*;

verus! {

/// What `pbp` reads from a binary OpenPGP signature packet: the fingerprint
/// that the packet claims, the section of the packet that is hashed into the
/// signed data, and the 64 bytes of the ed25519 signature; or `None` where it
/// rejects the bytes.
pub uninterp spec fn binary_signature(bytes: Seq<u8>) -> Option<(Seq<u8>, Seq<u8>, Seq<u8>)>;

/// Calls `pbp::PgpSig::from_bytes` and, on success, the accessors
/// `fingerprint`, `hashed_section` and `signature` of the parsed packet.
#[verifier::external_body]
fn read_binary_signature(bytes: &[u8]) -> (parts: Result<
    (Fingerprint, Vec<u8>, [u8; 64]),
    PgpError,
>)
    ensures
        match parts {
            Ok((fingerprint, hashed, raw)) => binary_signature(bytes@) == Some(
                (fingerprint@, hashed@, raw@),
            ),
            Err(_) => binary_signature(bytes@) is None,
        },
{
    let packet = PgpSig::from_bytes(bytes)?;
    Ok((packet.fingerprint(), packet.hashed_section().to_vec(), packet.signature()))
}

/// A signature as a mathematical value.
pub struct SignatureView {
    /// The fingerprint of the key that the signature claims to be from.
    pub fingerprint: Seq<u8>,
    /// The section of the signature packet that is signed along with the data.
    pub hashed: Seq<u8>,
    /// The ed25519 signature.
    pub raw: Seq<u8>,
}

/// A detached signature: the ed25519 signature, the packet section signed
/// with the data, and the fingerprint of the key that it claims to be from.
/// The claim is a hint for finding the key; it proves nothing.
#[derive(Clone, Debug, PartialEq, Eq)]
pub struct Signature {
    fingerprint: Fingerprint,
    hashed: Vec<u8>,
    raw: [u8; 64],
}

impl View for Signature {
    type V = SignatureView;

    closed spec fn view(&self) -> SignatureView {
        SignatureView { fingerprint: self.fingerprint@, hashed: self.hashed@, raw: self.raw@ }
    }
}

/// The signature that the three parts of a parsed packet stand for.
pub open spec fn signature_of(parts: (Seq<u8>, Seq<u8>, Seq<u8>)) -> SignatureView {
    SignatureView { fingerprint: parts.0, hashed: parts.1, raw: parts.2 }
}

/// The four bytes of `n` modulo 2^32, most significant first.
pub open spec fn be32(n: nat) -> Seq<u8> {
    seq![
        ((n / 0x100_0000) % 0x100) as u8,
        ((n / 0x1_0000) % 0x100) as u8,
        ((n / 0x100) % 0x100) as u8,
        (n % 0x100) as u8,
    ]
}

/// The bytes that an OpenPGP version 4 signature signs: the data, the hashed
/// section of the signature packet, and a trailer made of the bytes 0x04 and
/// 0xFF and the length of the hashed section.
pub open spec fn signed_message(data: Seq<u8>, hashed: Seq<u8>) -> Seq<u8> {
    data + hashed + seq![0x04u8, 0xffu8] + be32(hashed.len())
}

/// The four bytes of `n` modulo 2^32, most significant first.
pub fn be32_bytes(n: usize) -> (bytes: [u8; 4])
    ensures
        bytes@ == be32(n as nat),
{
    let b0: u8 = ((n / 0x100_0000) % 0x100) as u8;
    let b1: u8 = ((n / 0x1_0000) % 0x100) as u8;
    let b2: u8 = ((n / 0x100) % 0x100) as u8;
    let b3: u8 = (n % 0x100) as u8;
    let bytes = [b0, b1, b2, b3];
    assert(bytes@ =~= be32(n as nat));
    bytes
}

impl Signature {
    /// Parses a binary OpenPGP signature packet. Returns the signature
    /// exactly where the bytes are accepted.
    pub fn from_bytes(bytes: &[u8]) -> (signature: Option<Signature>)
        ensures
            match signature {
                Some(s) => binary_signature(bytes@) is Some && s@ == signature_of(
                    binary_signature(bytes@).unwrap(),
                ),
                None => binary_signature(bytes@) is None,
            },
    {
        match read_binary_signature(bytes) {
            Ok((fingerprint, hashed, raw)) => Some(Signature { fingerprint, hashed, raw }),
            Err(_) => None,
        }
    }

    /// The fingerprint of the key that this signature claims to be from.
    pub fn fingerprint(&self) -> (fingerprint: Fingerprint)
        ensures
            fingerprint@ == self@.fingerprint,
    {
        self.fingerprint
    }

    /// The ed25519 signature.
    pub fn raw(&self) -> (raw: &[u8; 64])
        ensures
            raw@ == self@.raw,
    {
        &self.raw
    }

    /// This signature with another claimed fingerprint; what was signed and
    /// the ed25519 signature stay.
    pub fn with_fingerprint(self, fingerprint: Fingerprint) -> (signature: Signature)
        ensures
            signature@ == (SignatureView { fingerprint: fingerprint@, ..self@ }),
    {
        Signature { fingerprint, hashed: self.hashed, raw: self.raw }
    }

    /// The SHA-256 digest that this signature signs for `data`.
    pub fn signed_digest(&self, data: &[u8]) -> (digest: [u8; 32])
        ensures
            digest@ == Sha256::digest_of(signed_message(data@, self@.hashed)),
    {
        let mut hasher = Sha256::new();
        hasher.update(data);
        hasher.update(self.hashed.as_slice());
        let marker: [u8; 2] = [0x04, 0xff];
        hasher.update(marker.as_slice());
        let length = be32_bytes(self.hashed.len());
        hasher.update(length.as_slice());
        proof {
            assert(marker@ =~= seq![0x04u8, 0xffu8]);
            assert(Seq::<u8>::empty() + data@ =~= data@);
        }
        hasher.finish()
    }
}

} // verus!
