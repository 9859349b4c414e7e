//! The streaming hash state of the `crypto-hash` crate, as the digest
//! adapters see it.
//!
//! A `Hasher` is modelled by the algorithm it was created for, by the bytes
//! written to it since it was created, and by whether it still takes data.
//! The contracts of the three calls into the crate are believed, not proved;
//! `absorb`, which feeds a hasher in pieces, is proved from them.

use crypto_hash::{Algorithm, Hasher};
use std::io::Write;
use vstd::prelude::*;

verus! {

/// `crypto_hash::Hasher`, carried as an opaque value.
#[verifier::external_type_specification]
#[verifier::external_body]
pub struct ExHasher(Hasher);

/// The bytes that a hasher has absorbed since it was created.
pub uninterp spec fn hasher_input(hasher: Hasher) -> Seq<u8>;

/// Whether a hasher was created for SHA-512 (`true`) or for SHA-256
/// (`false`).
pub uninterp spec fn hasher_is_wide(hasher: Hasher) -> bool;

/// Whether a hasher still takes data: it has not given its digest yet.
pub uninterp spec fn hasher_is_open(hasher: Hasher) -> bool;

/// The SHA-2 digest of `input`: SHA-512 where `wide`, SHA-256 otherwise.
pub uninterp spec fn sha2_digest(wide: bool, input: Seq<u8>) -> Seq<u8>;

/// The number of bytes in a digest: 64 for SHA-512, 32 for SHA-256.
pub open spec fn digest_len(wide: bool) -> nat {
    if wide {
        64
    } else {
        32
    }
}

/// The most bytes handed to a hasher in one call. One of the platforms'
/// hash interfaces counts the bytes of a call in 32 bits.
pub const PIECE: usize = 0x4000_0000;

/// Calls `crypto_hash::Hasher::new` with `Algorithm::SHA512` or
/// `Algorithm::SHA256`. The new hasher has absorbed nothing and takes data.
/// The call panics only if the platform cannot set up a hash context.
#[verifier::external_body]
pub(crate) fn hasher_new(wide: bool) -> (hasher: Hasher)
    ensures
        hasher_is_wide(hasher) == wide,
        hasher_is_open(hasher),
        hasher_input(hasher) == Seq::<u8>::empty(),
{
    Hasher::new(if wide { Algorithm::SHA512 } else { Algorithm::SHA256 })
}

/// Calls `std::io::Write::write_all` on a `crypto_hash::Hasher` that has not
/// given its digest, with a slice short enough for every platform's
/// interface. The hasher's `write` hands the whole slice to the platform's
/// hash update, so the bytes are appended to what the hasher has absorbed;
/// the algorithm stays, and the hasher still takes data. A failure reported
/// by the platform is dropped, as a SHA-2 context reports none.
#[verifier::external_body]
pub(crate) fn hasher_write(hasher: &mut Hasher, bytes: &[u8])
    requires
        hasher_is_open(*old(hasher)),
        bytes@.len() <= PIECE,
    ensures
        hasher_is_open(*final(hasher)),
        hasher_is_wide(*final(hasher)) == hasher_is_wide(*old(hasher)),
        hasher_input(*final(hasher)) == hasher_input(*old(hasher)) + bytes@,
{
    let _ = hasher.write_all(bytes);
}

/// Calls `crypto_hash::Hasher::finish` on a hasher that has not given its
/// digest, and lets the hasher go: the result is the digest of all that was
/// absorbed, of the algorithm's length. The call panics only if the platform
/// fails to finalise.
#[verifier::external_body]
pub(crate) fn hasher_finish(hasher: Hasher) -> (digest: Vec<u8>)
    requires
        hasher_is_open(hasher),
    ensures
        digest@ == sha2_digest(hasher_is_wide(hasher), hasher_input(hasher)),
        digest@.len() == digest_len(hasher_is_wide(hasher)),
{
    let mut hasher = hasher;
    hasher.finish()
}

/// Feeds `bytes` to a hasher, after all that was fed before, in pieces of at
/// most `PIECE` bytes.
pub(crate) fn absorb(hasher: &mut Hasher, bytes: &[u8])
    requires
        hasher_is_open(*old(hasher)),
    ensures
        hasher_is_open(*final(hasher)),
        hasher_is_wide(*final(hasher)) == hasher_is_wide(*old(hasher)),
        hasher_input(*final(hasher)) == hasher_input(*old(hasher)) + bytes@,
{
    let ghost before = hasher_input(*hasher);
    let ghost wide = hasher_is_wide(*hasher);
    let mut start: usize = 0;
    assert(before + bytes@.subrange(0, 0) =~= before);
    while start < bytes.len()
        invariant
            start <= bytes@.len(),
            hasher_is_open(*hasher),
            hasher_is_wide(*hasher) == wide,
            hasher_input(*hasher) == before + bytes@.subrange(0, start as int),
        decreases bytes@.len() - start,
    {
        let left = bytes.len() - start;
        let count = if left > PIECE {
            PIECE
        } else {
            left
        };
        let piece = &bytes[start..start + count];
        hasher_write(hasher, piece);
        assert(before + bytes@.subrange(0, start as int) + piece@ =~= before + bytes@.subrange(
            0,
            start + count,
        ));
        start += count;
    }
    assert(bytes@.subrange(0, bytes@.len() as int) =~= bytes@);
}

} // verus!
