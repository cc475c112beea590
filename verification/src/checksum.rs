//! The content checksum stored in each index record: the hex-encoded
//! 256-bit digest of the raw archive bytes.

use vstd::prelude::*;

verus! {

/// The hex digest of a byte sequence; the result depends on the bytes alone.
pub uninterp spec fn sha256_hex_of(bytes: Seq<u8>) -> Seq<char>;

/// Relies on crypto::sha2::Sha256 through crypto::digest::Digest: `input`
/// feeds the bytes and `result_str` returns the digest as 64 lowercase hex
/// characters, a function of the input bytes alone.
#[verifier::external_body]
pub(crate) fn sha256_hex(bytes: &[u8]) -> (r: String)
    ensures
        r@ == sha256_hex_of(bytes@),
        r@.len() == 64,
{
    let mut sha = crypto::sha2::Sha256::new();
    crypto::digest::Digest::input(&mut sha, bytes);
    crypto::digest::Digest::result_str(&mut sha)
}

/// The checksum is deterministic: the digest is a function of the archive
/// bytes, so hashing the same bytes twice yields the same hex digest.
pub proof fn lemma_checksum_deterministic(a: Seq<u8>, b: Seq<u8>)
    requires
        a == b,
    ensures
        sha256_hex_of(a) == sha256_hex_of(b),
{
}

} // verus!
