//! The collision-resistant hash that seeds and protects viewing keys.

use vstd::prelude::*;

verus! {

/// Number of bytes in a SHA-256 digest.
pub const DIGEST_SIZE: usize = 32;

/// The SHA-256 digest of `data`, as `secret_toolkit_crypto::sha_256` computes it.
pub uninterp spec fn sha_256_digest(data: Seq<u8>) -> Seq<u8>;

/// Calls `secret_toolkit_crypto::sha_256`.
///
/// Trusted: the result is the digest named by [`sha_256_digest`], and it is
/// `DIGEST_SIZE` bytes long, as the array type that the function returns shows.
#[verifier::external_body]
pub(crate) fn sha_256(data: &[u8]) -> (digest: Vec<u8>)
    ensures
        digest@ == sha_256_digest(data@),
        digest@.len() == DIGEST_SIZE,
{
    secret_toolkit_crypto::sha_256(data).to_vec()
}

} // verus!
