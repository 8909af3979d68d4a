use vstd::prelude::*;

verus! {

/// The SHA-256 digest of a byte string, as 32 bytes.
pub uninterp spec fn sha256_digest(data: Seq<u8>) -> Seq<u8>;

/// Calls `anchor_lang::solana_program::hash::hash` and takes the bytes of the
/// `Hash` it returns. Trusted: the result is the SHA-256 digest of `data`, a
/// function of the bytes of `data` alone.
#[verifier::external_body]
pub(crate) fn sha256(data: &[u8]) -> (digest: [u8; 32])
    ensures
        digest@ == sha256_digest(data@),
{
    anchor_lang::solana_program::hash::hash(data).to_bytes()
}

} // verus!
