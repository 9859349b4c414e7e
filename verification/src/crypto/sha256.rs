//! The 256-bit digest adapter.

use crate::crypto::hasher::{
    absorb, hasher_finish, hasher_input, hasher_is_open, hasher_is_wide, hasher_new, sha2_digest,
};
use crypto_hash::Hasher;
use vstd::prelude::*;

verus! {

/// A streaming SHA-256 state with a fixed 32-byte output.
pub struct Sha256 {
    hasher: Hasher,
}

impl View for Sha256 {
    type V = Seq<u8>;

    /// The bytes fed to the digest since it was created.
    closed spec fn view(&self) -> Seq<u8> {
        hasher_input(self.hasher)
    }
}

impl Sha256 {
    /// The number of bytes in a block of the compression function.
    pub const BLOCK_SIZE: usize = 64;

    /// The number of bytes that `finish` returns.
    pub const OUTPUT_SIZE: usize = 32;

    /// The state is one of the 256-bit algorithm, and it takes data.
    pub closed spec fn wf(&self) -> bool {
        !hasher_is_wide(self.hasher) && hasher_is_open(self.hasher)
    }

    /// What has been fed once `bytes` follow `fed`.
    pub open spec fn fed_after(fed: Seq<u8>, bytes: Seq<u8>) -> Seq<u8> {
        fed + bytes
    }

    /// The SHA-256 digest of `fed`.
    pub open spec fn digest_of(fed: Seq<u8>) -> Seq<u8> {
        sha2_digest(false, fed)
    }

    /// A fresh digest that has been fed nothing.
    pub fn new() -> (digest: Sha256)
        ensures
            digest.wf(),
            digest@ == Seq::<u8>::empty(),
    {
        Sha256 { hasher: hasher_new(false) }
    }

    /// Feeds `bytes` to the digest, after all that was fed before.
    pub fn update(&mut self, bytes: &[u8])
        requires
            old(self).wf(),
        ensures
            final(self).wf(),
            final(self)@ == Self::fed_after(old(self)@, bytes@),
    {
        absorb(&mut self.hasher, bytes);
    }

    /// Uses the digest up and returns the SHA-256 digest of all that was fed.
    pub fn finish(self) -> (digest: [u8; 32])
        requires
            self.wf(),
        ensures
            digest@ == Self::digest_of(self@),
    {
        let data = hasher_finish(self.hasher);
        let mut ret = [0u8; 32];
        let mut i: usize = 0;
        while i < 32
            invariant
                i <= 32,
                data@.len() == 32,
                forall|j: int| 0 <= j < i ==> ret@[j] == data@[j],
            decreases 32 - i,
        {
            ret[i] = data[i];
            i += 1;
        }
        assert(ret@ =~= data@);
        ret
    }

    /// Feeding a message in two pieces gives the digest of feeding it whole:
    /// after any earlier input `fed`, feeding `m1` and then `m2` leaves the
    /// digest that feeding `m1` followed by `m2` in one piece leaves.
    pub proof fn lemma_update_is_incremental(fed: Seq<u8>, m1: Seq<u8>, m2: Seq<u8>)
        ensures
            Self::fed_after(Self::fed_after(fed, m1), m2) == Self::fed_after(fed, m1 + m2),
            Self::digest_of(Self::fed_after(Self::fed_after(fed, m1), m2)) == Self::digest_of(
                Self::fed_after(fed, m1 + m2),
            ),
    {
        assert((fed + m1) + m2 =~= fed + (m1 + m2));
    }
}

impl Default for Sha256 {
    fn default() -> (digest: Sha256)
        ensures
            digest.wf(),
            digest@ == Seq::<u8>::empty(),
    {
        Sha256::new()
    }
}

} // verus!
