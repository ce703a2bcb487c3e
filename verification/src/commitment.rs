//! Hash commitments: a pick is hidden as the SHA-256 of its byte followed by a salt.

use vstd::prelude::*;
use crate::host::{sha256, sha256_digest};
use crate::primitives::bytes_eq;

verus! {

/// What is hashed: the pick's byte, then the salt.
pub open spec fn preimage_of(pick: u8, salt: Seq<u8>) -> Seq<u8> {
    seq![pick] + salt
}

/// The commitment to `pick` under `salt`.
pub open spec fn commitment_of(pick: u8, salt: Seq<u8>) -> Seq<u8> {
    sha256_digest(preimage_of(pick, salt))
}

/// Commits to `pick` under `salt`.
pub fn commit(pick: u8, salt: &[u8; 32]) -> (commitment: [u8; 32])
    ensures
        commitment@ == commitment_of(pick, salt@),
{
    let mut preimage = [0u8; 33];
    preimage[0] = pick;
    let mut i: usize = 0;
    while i < 32
        invariant
            i <= 32,
            preimage[0] == pick,
            forall|k: int| 0 <= k < i ==> preimage[k + 1] == salt[k],
        decreases 32 - i,
    {
        preimage[i + 1] = salt[i];
        i += 1;
    }
    assert(preimage@ =~= preimage_of(pick, salt@));
    sha256(preimage.as_slice())
}

/// Whether `pick` and `salt` open `commitment`.
pub fn opens(commitment: &[u8; 32], pick: u8, salt: &[u8; 32]) -> (opened: bool)
    ensures
        opened == (commitment@ == commitment_of(pick, salt@)),
{
    let recomputed = commit(pick, salt);
    bytes_eq(&recomputed, commitment)
}

} // verus!
