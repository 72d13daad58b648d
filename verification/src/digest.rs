//! SHA-256 digests.
use vstd::prelude::*;

verus! {

/// The longest message, in bytes, whose length in bits SHA-256 can count.
pub const MAX_DIGEST_INPUT: u64 = 0x1fff_ffff_ffff_ffff;

/// What `sha2::Sha256::digest` gives for `data`.
pub uninterp spec fn sha256(data: Seq<u8>) -> Seq<u8>;

/// What `x509_certificate::DigestAlgorithm::Sha256` gives for `data`.
pub uninterp spec fn x509_sha256(data: Seq<u8>) -> Seq<u8>;

/// Calls `sha2::Sha256::digest`.
/// Trusted: the digest has 32 bytes and depends on `data` alone. Longer inputs than
/// [`MAX_DIGEST_INPUT`] overflow the bit count.
#[verifier::external_body]
pub(crate) fn sha256_digest(data: &[u8]) -> (digest: Vec<u8>)
    requires
        data@.len() <= MAX_DIGEST_INPUT,
    ensures
        digest@ == sha256(data@),
        digest@.len() == 32,
{
    <sha2::Sha256 as sha2::Digest>::digest(data).to_vec()
}

/// Calls `x509_certificate::DigestAlgorithm::digest_data` with `Sha256`.
/// Trusted: the digest has 32 bytes and depends on `data` alone. It panics on inputs
/// longer than [`MAX_DIGEST_INPUT`].
#[verifier::external_body]
pub(crate) fn x509_sha256_digest(data: &[u8]) -> (digest: Vec<u8>)
    requires
        data@.len() <= MAX_DIGEST_INPUT,
    ensures
        digest@ == x509_sha256(data@),
        digest@.len() == 32,
{
    x509_certificate::DigestAlgorithm::Sha256.digest_data(data)
}

} // verus!
