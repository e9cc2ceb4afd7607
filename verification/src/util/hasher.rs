//! SHA-256, from the `sha2` crate.

use sha2::Digest;
use vstd::prelude::*;

verus! {

/// The SHA-256 digest of a byte string.
pub uninterp spec fn sha256_digest(data: Seq<u8>) -> Seq<u8>;

/// Calls `Sha256::digest` of `sha2`. Claims that the result is the digest of
/// the input, named `sha256_digest`, and that it is 32 bytes long, the output
/// size (`U32`) that `sha2` gives `Sha256`.
#[verifier::external_body]
pub(crate) fn sha256(data: Vec<u8>) -> (h: Vec<u8>)
    ensures
        h@ == sha256_digest(data@),
        h@.len() == 32,
{
    sha2::Sha256::digest(&data).to_vec()
}

} // verus!
