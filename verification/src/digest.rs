//! SHA-256, computed by the `sha2` crate.

use sha2::Digest;
use vstd::prelude::*;

use crate::primitives::Hash32;

verus! {

/// The SHA-256 digest of `data`.
pub uninterp spec fn sha256(data: Seq<u8>) -> Seq<u8>;

/// Calls `Sha256::digest` of the `sha2` crate on `data`.
///
/// Trusted: the contract only names the digest. It claims that the call
/// computes a function of the bytes alone, which is what a hash is; the
/// 32-byte length is the output size that `sha2` fixes for `Sha256`.
#[verifier::external_body]
pub(crate) fn sha256_digest(data: &[u8]) -> (digest: Hash32)
    ensures
        digest@ == sha256(data@),
{
    sha2::Sha256::digest(data).into()
}

} // verus!
