use vstd::prelude::*;

verus! {

/// The SHA-256 digest of a byte string, as `solana_program::hash::hash` computes it.
pub uninterp spec fn sha256_of(data: Seq<u8>) -> Seq<u8>;

/// Relies on `solana_program::hash::hash`: the SHA-256 digest of `data`, a
/// function of the bytes alone, handed out as its 32 bytes by `Hash::to_bytes`.
#[verifier::external_body]
pub(crate) fn hash_bytes(data: &[u8]) -> (r: [u8; 32])
    ensures
        r@ == sha256_of(data@),
{
    solana_program::hash::hash(data).to_bytes()
}

} // verus!
