//! The signature scheme: ed25519, as `ed25519-dalek` checks it.

use ed25519_dalek::Verifier;
use vstd::prelude::*;

verus! {

/// `ed25519_dalek::SignatureError`, carried as an opaque value.
#[verifier::external_type_specification]
#[verifier::external_body]
pub struct ExSignatureError(ed25519_dalek::SignatureError);

/// What the ed25519 check says of a key, a message and a signature:
/// `Some(true)` where the signature is valid, `Some(false)` where it is not,
/// and `None` where the key or the signature cannot be decoded at all.
pub uninterp spec fn ed25519_verdict(key: Seq<u8>, message: Seq<u8>, signature: Seq<u8>) -> Option<
    bool,
>;

/// Decodes the key with `ed25519_dalek::PublicKey::from_bytes` and the
/// signature with `ed25519_dalek::Signature::from_bytes`, then calls
/// `Verifier::verify` on the key. An error of either decoding is returned as
/// it is; whether `verify` accepted is the `Ok` value.
#[verifier::external_body]
pub(crate) fn ed25519_check(key: &[u8], message: &[u8], signature: &[u8; 64]) -> (outcome: Result<
    bool,
    ed25519_dalek::SignatureError,
>)
    ensures
        match outcome {
            Ok(valid) => ed25519_verdict(key@, message@, signature@) == Some(valid),
            Err(_) => ed25519_verdict(key@, message@, signature@) is None,
        },
{
    let public = ed25519_dalek::PublicKey::from_bytes(key)?;
    let detached = ed25519_dalek::Signature::from_bytes(signature)?;
    Ok(public.verify(message, &detached).is_ok())
}

} // verus!
